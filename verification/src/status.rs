use vstd::prelude::*;

verus! {

/// The service axis of the controller's state.
///
/// Invariant (proved in `controller`): once `Running` or `Failed`, the
/// status never changes again, so there is at most one
/// `Starting -> {Running | Failed}` transition per process lifetime.
#[derive(Debug, PartialEq, Eq)]
pub enum ServiceStatus {
    NotStarted,
    Starting,
    Running { address: String },
    Failed { message: String },
}

/// The update axis of the controller's state.
///
/// Invariant (proved in `controller`): `Updating` is only reachable from
/// `Available`; `Checking` only from `Idle`, `UpToDate` or `Failed`;
/// `Updated` only from `Updating`.
#[derive(Debug, PartialEq, Eq)]
pub enum UpdateStatus {
    Idle,
    Checking,
    UpToDate,
    Available { version: String },
    Updating,
    Updated,
    Failed { message: String },
}

/// What the feedback line of the control surface reports.  Rendering to
/// display text is left to the embedding shell.
#[derive(Debug, PartialEq, Eq)]
pub enum Feedback {
    Quiet,
    CheckingForUpdates,
    NoUpdateFound,
    NewVersionFound { version: String },
    UpdatingApp,
    RestartRequired,
    UpdateError { message: String },
    ServiceError { message: String },
}

/// What the single action button offers.  The button is deliberately
/// overloaded: it checks for updates unless a newer release is already
/// known, in which case it applies that release.
#[derive(Debug, PartialEq, Eq)]
pub enum ButtonLabel {
    CheckForUpdates,
    UpdateTo { version: String },
}

impl Clone for ServiceStatus {
    fn clone(&self) -> (r: Self)
        ensures
            r == *self,
    {
        match self {
            ServiceStatus::NotStarted => ServiceStatus::NotStarted,
            ServiceStatus::Starting => ServiceStatus::Starting,
            ServiceStatus::Running { address } => ServiceStatus::Running { address: address.clone() },
            ServiceStatus::Failed { message } => ServiceStatus::Failed { message: message.clone() },
        }
    }
}

impl Clone for UpdateStatus {
    fn clone(&self) -> (r: Self)
        ensures
            r == *self,
    {
        match self {
            UpdateStatus::Idle => UpdateStatus::Idle,
            UpdateStatus::Checking => UpdateStatus::Checking,
            UpdateStatus::UpToDate => UpdateStatus::UpToDate,
            UpdateStatus::Available { version } => UpdateStatus::Available { version: version.clone() },
            UpdateStatus::Updating => UpdateStatus::Updating,
            UpdateStatus::Updated => UpdateStatus::Updated,
            UpdateStatus::Failed { message } => UpdateStatus::Failed { message: message.clone() },
        }
    }
}

} // verus!
