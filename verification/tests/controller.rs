use streamline_control::controller::{Action, Controller};
use streamline_control::events::{CheckResult, Event};
use streamline_control::status::{ButtonLabel, Feedback, ServiceStatus, UpdateStatus};

#[test]
fn close_request_opens_confirmation_not_quit() {
    let mut c = Controller::new();
    let a = c.handle_event(Event::CloseWindowRequested);
    assert_eq!(a, Some(Action::OpenQuitConfirm));
    assert!(c.quit_confirm_open);
    // The process is not terminated and the shutdown signal is untouched.
    assert!(!c.shutdown.stop_requested());
}

#[test]
fn quit_request_signals_shutdown_and_terminates() {
    let mut c = Controller::new();
    let a = c.handle_event(Event::QuitRequested);
    assert_eq!(a, Some(Action::Quit));
    assert!(c.shutdown.stop_requested());
}

#[test]
fn idle_press_starts_check_never_updating() {
    let mut c = Controller::new();
    let a = c.press_action_button();
    assert_eq!(a, Some(Action::SpawnCheck));
    assert_eq!(c.update, UpdateStatus::Checking);
}

#[test]
fn updating_only_after_available() {
    let mut c = Controller::new();
    assert_eq!(c.press_action_button(), Some(Action::SpawnCheck));
    let found = Event::UpdateCheckResult {
        result: CheckResult::Available { version: "2.1.0".to_string() },
    };
    assert_eq!(c.handle_event(found), None);
    assert_eq!(c.update, UpdateStatus::Available { version: "2.1.0".to_string() });
    let surface = c.project();
    assert_eq!(surface.action_button, ButtonLabel::UpdateTo { version: "2.1.0".to_string() });
    assert_eq!(surface.feedback, Feedback::NewVersionFound { version: "2.1.0".to_string() });
    let a = c.press_action_button();
    assert_eq!(a, Some(Action::SpawnApply));
    assert_eq!(c.update, UpdateStatus::Updating);
}

#[test]
fn press_while_checking_does_nothing() {
    let mut c = Controller::new();
    assert_eq!(c.press_action_button(), Some(Action::SpawnCheck));
    assert_eq!(c.press_action_button(), None);
    assert_eq!(c.update, UpdateStatus::Checking);
}

#[test]
fn server_started_records_url() {
    let mut c = Controller::new();
    assert_eq!(c.start_service(), Action::SpawnServer);
    assert_eq!(c.service, ServiceStatus::Starting);
    let a = c.handle_event(Event::ServerStarted { address: "127.0.0.1:8080".to_string() });
    assert_eq!(a, None);
    assert_eq!(c.service, ServiceStatus::Running { address: "127.0.0.1:8080".to_string() });
    let surface = c.project();
    assert_eq!(surface.server_url, Some("127.0.0.1:8080".to_string()));
}

#[test]
fn server_failure_is_surfaced() {
    let mut c = Controller::new();
    c.start_service();
    c.handle_event(Event::ServerFailed { message: "No open ports to bind to".to_string() });
    assert_eq!(c.service, ServiceStatus::Failed { message: "No open ports to bind to".to_string() });
    let surface = c.project();
    assert_eq!(surface.feedback, Feedback::ServiceError {
        message: "No open ports to bind to".to_string(),
    });
    assert_eq!(surface.server_url, None);
}

#[test]
fn stray_server_event_before_start_is_ignored() {
    let mut c = Controller::new();
    c.handle_event(Event::ServerStarted { address: "127.0.0.1:80".to_string() });
    assert_eq!(c.service, ServiceStatus::NotStarted);
}

#[test]
fn service_settles_after_first_terminal_event() {
    let mut c = Controller::new();
    c.start_service();
    c.handle_event(Event::ServerStarted { address: "127.0.0.1:3030".to_string() });
    // A second terminal event of the lifecycle changes nothing.
    c.handle_event(Event::ServerFailed { message: "late".to_string() });
    assert_eq!(c.service, ServiceStatus::Running { address: "127.0.0.1:3030".to_string() });
}

#[test]
fn update_flow_up_to_date_and_failure() {
    let mut c = Controller::new();
    c.press_action_button();
    c.handle_event(Event::UpdateCheckResult { result: CheckResult::UpToDate });
    assert_eq!(c.update, UpdateStatus::UpToDate);
    assert_eq!(c.project().feedback, Feedback::NoUpdateFound);
    // Re-check is allowed from UpToDate, and a failed check is terminal
    // for that run.
    assert_eq!(c.press_action_button(), Some(Action::SpawnCheck));
    c.handle_event(Event::UpdateCheckFailed { message: "offline".to_string() });
    assert_eq!(c.update, UpdateStatus::Failed { message: "offline".to_string() });
    assert_eq!(c.project().feedback, Feedback::UpdateError { message: "offline".to_string() });
    // A fresh check may start from Failed.
    assert_eq!(c.press_action_button(), Some(Action::SpawnCheck));
    assert_eq!(c.update, UpdateStatus::Checking);
}

#[test]
fn apply_finish_requires_restart() {
    let mut c = Controller::new();
    c.press_action_button();
    c.handle_event(Event::UpdateCheckResult {
        result: CheckResult::Available { version: "3.0.0".to_string() },
    });
    c.press_action_button();
    c.handle_event(Event::UpdateApplyFinished);
    assert_eq!(c.update, UpdateStatus::Updated);
    assert_eq!(c.project().feedback, Feedback::RestartRequired);
    // Updated is terminal: the button no longer spawns anything.
    assert_eq!(c.press_action_button(), None);
}

#[test]
fn shutdown_signal_only_first_has_effect() {
    let mut c = Controller::new();
    assert_eq!(c.handle_event(Event::QuitRequested), Some(Action::Quit));
    assert!(c.shutdown.stop_requested());
    // Signaling again (a second confirmed quit) is a no-op, not an error.
    assert_eq!(c.handle_event(Event::QuitRequested), Some(Action::Quit));
    assert!(c.shutdown.stop_requested());
}
