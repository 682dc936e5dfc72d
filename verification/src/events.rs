use vstd::prelude::*;

verus! {

/// Outcome of one update check, carried inside [`Event::UpdateCheckResult`].
#[derive(Debug, PartialEq, Eq)]
pub enum CheckResult {
    /// The latest published release is not newer than the running build.
    UpToDate,
    /// A strictly newer release was found; `version` is its version string.
    Available { version: String },
}

/// A message on the event bus.
///
/// Every background operation (server lifecycle, update check, update
/// apply) terminates in exactly one of these, and direct user input on
/// the window adds the two quit-related requests.  Events are consumed
/// exactly once by the controller and then discarded.
#[derive(Debug, PartialEq, Eq)]
pub enum Event {
    /// The HTTP listener bound successfully at `address`.
    ServerStarted { address: String },
    /// Server startup or the running listener failed; terminal for the server.
    ServerFailed { message: String },
    /// An update check finished with a definite answer.
    UpdateCheckResult { result: CheckResult },
    /// An update check could not be completed (network or parse failure).
    UpdateCheckFailed { message: String },
    /// The new binary was downloaded and installed.
    UpdateApplyFinished,
    /// Downloading or installing the new binary failed.
    UpdateApplyFailed { message: String },
    /// The user confirmed quitting; the process should shut down.
    QuitRequested,
    /// The user asked to close the primary surface.
    CloseWindowRequested,
}

impl Clone for CheckResult {
    fn clone(&self) -> (r: Self)
        ensures
            r == *self,
    {
        match self {
            CheckResult::UpToDate => CheckResult::UpToDate,
            CheckResult::Available { version } => CheckResult::Available { version: version.clone() },
        }
    }
}

impl Clone for Event {
    fn clone(&self) -> (r: Self)
        ensures
            r == *self,
    {
        match self {
            Event::ServerStarted { address } => Event::ServerStarted { address: address.clone() },
            Event::ServerFailed { message } => Event::ServerFailed { message: message.clone() },
            Event::UpdateCheckResult { result } => Event::UpdateCheckResult { result: result.clone() },
            Event::UpdateCheckFailed { message } => Event::UpdateCheckFailed { message: message.clone() },
            Event::UpdateApplyFinished => Event::UpdateApplyFinished,
            Event::UpdateApplyFailed { message } => Event::UpdateApplyFailed { message: message.clone() },
            Event::QuitRequested => Event::QuitRequested,
            Event::CloseWindowRequested => Event::CloseWindowRequested,
        }
    }
}

} // verus!
