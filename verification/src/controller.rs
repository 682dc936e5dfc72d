use vstd::prelude::*;

use crate::events::{CheckResult, Event};
use crate::shutdown::ShutdownSignal;
use crate::status::{ButtonLabel, Feedback, ServiceStatus, UpdateStatus};

verus! {

/// What the controller asks its embedding shell to do after a
/// transition.  The shell performs the action (spawns a thread, opens a
/// window, exits the process) without touching controller state.
#[derive(Debug, PartialEq, Eq, Clone, Copy)]
pub enum Action {
    /// Spawn the server lifecycle manager on a background thread.
    SpawnServer,
    /// Spawn one update check on a background thread.
    SpawnCheck,
    /// Spawn one update apply on a background thread.
    SpawnApply,
    /// Open the quit-confirmation surface; do not close anything yet.
    OpenQuitConfirm,
    /// The shutdown signal has been raised; terminate the process.
    Quit,
}

/// The externally observable projection of the controller's state.
#[derive(Debug, PartialEq, Eq)]
pub struct ControlSurfaceState {
    pub service: ServiceStatus,
    pub update: UpdateStatus,
    pub feedback: Feedback,
    pub action_button: ButtonLabel,
    pub server_url: Option<String>,
}

/// Service axis after consuming `e`.  Server terminal events take
/// effect only while the service is `Starting`: the server is spawned
/// once and produces one terminal event, so `Running` and `Failed` are
/// final.
pub open spec fn service_after(s: ServiceStatus, e: Event) -> ServiceStatus {
    if s is Starting {
        match e {
            Event::ServerStarted { address } => ServiceStatus::Running { address },
            Event::ServerFailed { message } => ServiceStatus::Failed { message },
            _ => s,
        }
    } else {
        s
    }
}

/// Update axis after consuming `e`.  Check results land only while
/// `Checking`, apply results only while `Updating`; a stray terminal
/// event of a run that is already over changes nothing.
pub open spec fn update_after(u: UpdateStatus, e: Event) -> UpdateStatus {
    match e {
        Event::UpdateCheckResult { result } => {
            if u is Checking {
                match result {
                    CheckResult::UpToDate => UpdateStatus::UpToDate,
                    CheckResult::Available { version } => UpdateStatus::Available { version },
                }
            } else {
                u
            }
        },
        Event::UpdateCheckFailed { message } => {
            if u is Checking {
                UpdateStatus::Failed { message }
            } else {
                u
            }
        },
        Event::UpdateApplyFinished => {
            if u is Updating {
                UpdateStatus::Updated
            } else {
                u
            }
        },
        Event::UpdateApplyFailed { message } => {
            if u is Updating {
                UpdateStatus::Failed { message }
            } else {
                u
            }
        },
        _ => u,
    }
}

/// Update axis after one press of the action button: from `Idle`,
/// `UpToDate` or `Failed` a fresh check starts; from `Available` the
/// apply starts; a press while a run is in flight, or after `Updated`,
/// changes nothing.
pub open spec fn update_after_button(u: UpdateStatus) -> UpdateStatus {
    match u {
        UpdateStatus::Idle => UpdateStatus::Checking,
        UpdateStatus::UpToDate => UpdateStatus::Checking,
        UpdateStatus::Failed { .. } => UpdateStatus::Checking,
        UpdateStatus::Available { .. } => UpdateStatus::Updating,
        _ => u,
    }
}

/// The feedback line derived from the two status axes.  The update axis
/// wins while an update run is underway or concluded; otherwise a
/// service failure is surfaced.
pub open spec fn feedback_of(s: ServiceStatus, u: UpdateStatus) -> Feedback {
    match u {
        UpdateStatus::Idle => match s {
            ServiceStatus::Failed { message } => Feedback::ServiceError { message },
            _ => Feedback::Quiet,
        },
        UpdateStatus::Checking => Feedback::CheckingForUpdates,
        UpdateStatus::UpToDate => Feedback::NoUpdateFound,
        UpdateStatus::Available { version } => Feedback::NewVersionFound { version },
        UpdateStatus::Updating => Feedback::UpdatingApp,
        UpdateStatus::Updated => Feedback::RestartRequired,
        UpdateStatus::Failed { message } => Feedback::UpdateError { message },
    }
}

/// The action-button label derived from the update axis.
pub open spec fn button_of(u: UpdateStatus) -> ButtonLabel {
    match u {
        UpdateStatus::Available { version } => ButtonLabel::UpdateTo { version },
        _ => ButtonLabel::CheckForUpdates,
    }
}

/// The server URL derived from the service axis.
pub open spec fn url_of(s: ServiceStatus) -> Option<String> {
    match s {
        ServiceStatus::Running { address } => Some(address),
        _ => None,
    }
}

/// The single-threaded authority over UI-visible state.  Background
/// workers never touch it; they only send [`Event`]s, which the
/// embedding shell feeds into [`Controller::handle_event`] one at a
/// time.
pub struct Controller {
    pub service: ServiceStatus,
    pub update: UpdateStatus,
    pub shutdown: ShutdownSignal,
    pub quit_confirm_open: bool,
}

impl Controller {
    /// Fresh controller: nothing started, no update run, shutdown not
    /// signaled, no confirmation surface open.
    pub fn new() -> (c: Self)
        ensures
            c.service is NotStarted,
            c.update is Idle,
            !c.shutdown.is_signaled(),
            !c.quit_confirm_open,
    {
        Controller {
            service: ServiceStatus::NotStarted,
            update: UpdateStatus::Idle,
            shutdown: ShutdownSignal::new(),
            quit_confirm_open: false,
        }
    }

    /// Marks the one server spawn of the process lifetime and asks the
    /// shell to start the lifecycle manager.
    pub fn start_service(&mut self) -> (a: Action)
        requires
            old(self).service is NotStarted,
        ensures
            final(self).service is Starting,
            final(self).update == old(self).update,
            final(self).shutdown == old(self).shutdown,
            final(self).quit_confirm_open == old(self).quit_confirm_open,
            a is SpawnServer,
    {
        self.service = ServiceStatus::Starting;
        Action::SpawnServer
    }

    /// One press of the overloaded action button.
    pub fn press_action_button(&mut self) -> (a: Option<Action>)
        ensures
            final(self).update == update_after_button(old(self).update),
            final(self).service == old(self).service,
            final(self).shutdown == old(self).shutdown,
            final(self).quit_confirm_open == old(self).quit_confirm_open,
            a == Some(Action::SpawnCheck) <==> update_after_button(old(self).update) is Checking
                && !(old(self).update is Checking),
            a == Some(Action::SpawnApply) <==> update_after_button(old(self).update) is Updating
                && !(old(self).update is Updating),
            a is None <==> old(self).update is Checking || old(self).update is Updating
                || old(self).update is Updated,
    {
        match &self.update {
            UpdateStatus::Idle | UpdateStatus::UpToDate | UpdateStatus::Failed { .. } => {
                self.update = UpdateStatus::Checking;
                Some(Action::SpawnCheck)
            },
            UpdateStatus::Available { .. } => {
                self.update = UpdateStatus::Updating;
                Some(Action::SpawnApply)
            },
            _ => None,
        }
    }

    /// Consumes one event from the bus and applies the transition
    /// table.  The two status axes move by [`service_after`] and
    /// [`update_after`]; a close request on the primary surface only
    /// opens the confirmation surface, and only a confirmed quit raises
    /// the shutdown signal and terminates.
    pub fn handle_event(&mut self, e: Event) -> (a: Option<Action>)
        ensures
            final(self).service == service_after(old(self).service, e),
            final(self).update == update_after(old(self).update, e),
            final(self).quit_confirm_open
                == (old(self).quit_confirm_open || e is CloseWindowRequested),
            e is QuitRequested ==> final(self).shutdown.is_signaled() && a == Some(Action::Quit),
            !(e is QuitRequested) ==> final(self).shutdown == old(self).shutdown,
            e is CloseWindowRequested ==> a == Some(Action::OpenQuitConfirm),
            !(e is QuitRequested) && !(e is CloseWindowRequested) ==> a is None,
    {
        match e {
            Event::ServerStarted { address } => {
                if matches!(self.service, ServiceStatus::Starting) {
                    self.service = ServiceStatus::Running { address };
                }
                None
            },
            Event::ServerFailed { message } => {
                if matches!(self.service, ServiceStatus::Starting) {
                    self.service = ServiceStatus::Failed { message };
                }
                None
            },
            Event::UpdateCheckResult { result } => {
                if matches!(self.update, UpdateStatus::Checking) {
                    self.update = match result {
                        CheckResult::UpToDate => UpdateStatus::UpToDate,
                        CheckResult::Available { version } => UpdateStatus::Available { version },
                    };
                }
                None
            },
            Event::UpdateCheckFailed { message } => {
                if matches!(self.update, UpdateStatus::Checking) {
                    self.update = UpdateStatus::Failed { message };
                }
                None
            },
            Event::UpdateApplyFinished => {
                if matches!(self.update, UpdateStatus::Updating) {
                    self.update = UpdateStatus::Updated;
                }
                None
            },
            Event::UpdateApplyFailed { message } => {
                if matches!(self.update, UpdateStatus::Updating) {
                    self.update = UpdateStatus::Failed { message };
                }
                None
            },
            Event::QuitRequested => {
                self.shutdown.signal();
                Some(Action::Quit)
            },
            Event::CloseWindowRequested => {
                self.quit_confirm_open = true;
                Some(Action::OpenQuitConfirm)
            },
        }
    }

    /// The deterministic projection shown to the user.
    pub fn project(&self) -> (s: ControlSurfaceState)
        ensures
            s.service == self.service,
            s.update == self.update,
            s.feedback == feedback_of(self.service, self.update),
            s.action_button == button_of(self.update),
            s.server_url == url_of(self.service),
    {
        let service = self.service.clone();
        let update = self.update.clone();
        let feedback = match &self.update {
            UpdateStatus::Idle => match &self.service {
                ServiceStatus::Failed { message } => Feedback::ServiceError {
                    message: message.clone(),
                },
                _ => Feedback::Quiet,
            },
            UpdateStatus::Checking => Feedback::CheckingForUpdates,
            UpdateStatus::UpToDate => Feedback::NoUpdateFound,
            UpdateStatus::Available { version } => Feedback::NewVersionFound {
                version: version.clone(),
            },
            UpdateStatus::Updating => Feedback::UpdatingApp,
            UpdateStatus::Updated => Feedback::RestartRequired,
            UpdateStatus::Failed { message } => Feedback::UpdateError { message: message.clone() },
        };
        let action_button = match &self.update {
            UpdateStatus::Available { version } => ButtonLabel::UpdateTo {
                version: version.clone(),
            },
            _ => ButtonLabel::CheckForUpdates,
        };
        let server_url = match &self.service {
            ServiceStatus::Running { address } => Some(address.clone()),
            _ => None,
        };
        ControlSurfaceState { service, update, feedback, action_button, server_url }
    }
}

/// `UpdateStatus` never moves from `Idle` straight to `Updating`: no
/// event does it, and the action button pressed in `Idle` starts a
/// check.  `Updating` is reachable only from `Available`.
pub proof fn lemma_no_idle_to_updating(u: UpdateStatus, e: Event)
    ensures
        u is Idle ==> !(update_after(u, e) is Updating),
        u is Idle ==> !(update_after_button(u) is Updating),
        update_after(u, e) is Updating ==> u is Updating,
        update_after_button(u) is Updating ==> u is Available || u is Updating,
{
}

/// `Checking` is entered only by the button, and only from `Idle`,
/// `UpToDate` or `Failed`; `Updated` is reachable only from `Updating`.
pub proof fn lemma_update_reachability(u: UpdateStatus, e: Event)
    ensures
        update_after(u, e) is Checking ==> u is Checking,
        update_after_button(u) is Checking ==> u is Idle || u is UpToDate || u is Failed
            || u is Checking,
        update_after(u, e) is Updated ==> u is Updating || u is Updated,
        update_after_button(u) is Updated ==> u is Updated,
{
}

/// The service axis never returns to `NotStarted`, and once `Running`
/// or `Failed` it never changes again: at most one
/// `Starting -> {Running | Failed}` transition per process lifetime.
pub proof fn lemma_service_settles(s: ServiceStatus, e: Event)
    ensures
        !(s is NotStarted) ==> !(service_after(s, e) is NotStarted),
        s is Running || s is Failed ==> service_after(s, e) == s,
{
}

/// The service axis after a whole trace of consumed events.
pub open spec fn service_after_all(s: ServiceStatus, events: Seq<Event>) -> ServiceStatus
    decreases events.len(),
{
    if events.len() == 0 {
        s
    } else {
        service_after_all(service_after(s, events[0]), events.skip(1))
    }
}

/// The update axis after a whole trace of consumed events.
pub open spec fn update_after_all(u: UpdateStatus, events: Seq<Event>) -> UpdateStatus
    decreases events.len(),
{
    if events.len() == 0 {
        u
    } else {
        update_after_all(update_after(u, events[0]), events.skip(1))
    }
}

/// Over every event trace: a service that reached `Running` or
/// `Failed` stays exactly there, whatever arrives later.
pub proof fn lemma_service_settles_over_trace(s: ServiceStatus, events: Seq<Event>)
    requires
        s is Running || s is Failed,
    ensures
        service_after_all(s, events) == s,
    decreases events.len(),
{
    if events.len() > 0 {
        lemma_service_settles(s, events[0]);
        lemma_service_settles_over_trace(s, events.skip(1));
    }
}

/// Over every event trace: `Updated` and `Failed` are terminal for
/// their run — no event leaves them; only a fresh button press can
/// start a new `Checking`.
pub proof fn lemma_update_run_terminal_over_trace(u: UpdateStatus, events: Seq<Event>)
    requires
        u is Updated || u is Failed,
    ensures
        update_after_all(u, events) == u,
    decreases events.len(),
{
    if events.len() > 0 {
        lemma_update_run_terminal_over_trace(u, events.skip(1));
    }
}

} // verus!
