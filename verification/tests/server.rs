use streamline_control::events::Event;
use streamline_control::migrations::{apply_pending, MigrationOutcome};
use streamline_control::ports::{negotiate_port, select_port};
use streamline_control::server::{port_candidates, port_stage, startup_event, StartupError};

#[test]
fn candidate_list_is_fixed() {
    assert_eq!(port_candidates(), vec![3030, 8888, 8080, 80]);
}

#[test]
fn last_free_candidate_wins() {
    // Of the candidates, 3030 and 8080 were found free: the later one
    // in the priority list is selected, not the first available.
    let free = vec![3030, 8080];
    assert_eq!(select_port(&free), Some(8080));
}

#[test]
fn single_free_candidate_is_selected() {
    assert_eq!(select_port(&vec![8888]), Some(8888));
}

#[test]
fn no_free_candidate_selects_nothing() {
    assert_eq!(select_port(&vec![]), None);
}

#[test]
fn no_free_candidate_is_port_exhaustion() {
    let r = port_stage(&vec![]);
    assert_eq!(r, Err(StartupError::PortExhaustion));
    // Startup then emits exactly one ServerFailed event and binds nothing.
    let ev = startup_event(Err(StartupError::PortExhaustion));
    assert_eq!(ev, Event::ServerFailed { message: "No open ports to bind to".to_string() });
}

#[test]
fn port_stage_takes_last_available() {
    assert_eq!(port_stage(&vec![3030, 8888, 8080]), Ok(8080));
}

#[test]
fn negotiate_port_stays_within_candidates() {
    assert_eq!(negotiate_port(&vec![]), None);
    let candidates = port_candidates();
    if let Some(p) = negotiate_port(&candidates) {
        assert!(candidates.contains(&p));
    }
}

#[test]
fn successful_bind_starts_server() {
    let ev = startup_event(Ok("127.0.0.1:3030".to_string()));
    assert_eq!(ev, Event::ServerStarted { address: "127.0.0.1:3030".to_string() });
}

#[test]
fn startup_failures_share_one_event_shape() {
    for (err, msg) in [
        (StartupError::ConfigDir { message: "no home".to_string() }, "no home"),
        (StartupError::DatabaseOpen { message: "locked".to_string() }, "locked"),
        (StartupError::Migration { message: "bad schema".to_string() }, "bad schema"),
        (StartupError::Bind { message: "denied".to_string() }, "denied"),
    ] {
        let ev = startup_event(Err(err));
        assert_eq!(ev, Event::ServerFailed { message: msg.to_string() });
    }
}

#[test]
fn migrations_apply_missing_suffix() {
    let outcome = apply_pending(&vec![1, 2, 3], &vec![1]);
    assert_eq!(outcome, Some(MigrationOutcome { applied: vec![1, 2, 3], newly_applied: 2 }));
}

#[test]
fn migrations_from_empty_ledger() {
    let outcome = apply_pending(&vec![1, 2], &vec![]);
    assert_eq!(outcome, Some(MigrationOutcome { applied: vec![1, 2], newly_applied: 2 }));
}

#[test]
fn rerunning_migrations_is_a_no_op() {
    // First run brings the ledger up to date; the second run succeeds,
    // applies nothing and leaves no change.
    let first = apply_pending(&vec![1, 2, 3], &vec![]).unwrap();
    let second = apply_pending(&vec![1, 2, 3], &first.applied).unwrap();
    assert_eq!(second.newly_applied, 0);
    assert_eq!(second.applied, first.applied);
}

#[test]
fn mismatched_ledger_is_rejected() {
    assert_eq!(apply_pending(&vec![1, 2, 3], &vec![2]), None);
    assert_eq!(apply_pending(&vec![1], &vec![1, 2]), None);
}
