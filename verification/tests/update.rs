use streamline_control::events::{CheckResult, Event};
use streamline_control::semver::{newer_than, parse_version, Version};
use streamline_control::update::{apply_outcome, check_outcome, FetchOutcome};

#[test]
fn parse_simple_version() {
    assert_eq!(parse_version("2.1.0"), Some(Version { major: 2, minor: 1, patch: 0 }));
    assert_eq!(parse_version("0.0.0"), Some(Version { major: 0, minor: 0, patch: 0 }));
    assert_eq!(parse_version("10.20.30"), Some(Version { major: 10, minor: 20, patch: 30 }));
}

#[test]
fn parse_largest_component() {
    assert_eq!(
        parse_version("9999999999999999999.0.1"),
        Some(Version { major: 9999999999999999999, minor: 0, patch: 1 })
    );
}

#[test]
fn parse_rejects_malformed_versions() {
    assert_eq!(parse_version(""), None);
    assert_eq!(parse_version("2.1"), None);
    assert_eq!(parse_version("2.1.0.4"), None);
    assert_eq!(parse_version("a.b.c"), None);
    assert_eq!(parse_version("1..3"), None);
    assert_eq!(parse_version(".1.3"), None);
    assert_eq!(parse_version("1.2."), None);
    assert_eq!(parse_version("1.2.3-beta"), None);
    // Twenty digits never fit the numeric component range.
    assert_eq!(parse_version("99999999999999999999.0.0"), None);
}

#[test]
fn version_ordering() {
    let a = Version { major: 2, minor: 0, patch: 5 };
    let b = Version { major: 2, minor: 1, patch: 0 };
    assert!(newer_than(&b, &a));
    assert!(!newer_than(&a, &b));
    assert!(!newer_than(&a, &a));
    let c = Version { major: 3, minor: 0, patch: 0 };
    assert!(newer_than(&c, &b));
    let d = Version { major: 2, minor: 0, patch: 6 };
    assert!(newer_than(&d, &a));
}

#[test]
fn newer_remote_is_available() {
    let e = check_outcome("2.0.5", FetchOutcome::Release { version: "2.1.0".to_string() });
    assert_eq!(
        e,
        Event::UpdateCheckResult {
            result: CheckResult::Available { version: "2.1.0".to_string() },
        }
    );
}

#[test]
fn equal_remote_is_up_to_date() {
    let e = check_outcome("2.0.5", FetchOutcome::Release { version: "2.0.5".to_string() });
    assert_eq!(e, Event::UpdateCheckResult { result: CheckResult::UpToDate });
}

#[test]
fn older_remote_is_up_to_date() {
    let e = check_outcome("2.0.5", FetchOutcome::Release { version: "1.9.9".to_string() });
    assert_eq!(e, Event::UpdateCheckResult { result: CheckResult::UpToDate });
}

#[test]
fn network_failure_is_check_failure() {
    let e = check_outcome(
        "2.0.5",
        FetchOutcome::NetworkFailure { message: "connection refused".to_string() },
    );
    assert_eq!(e, Event::UpdateCheckFailed { message: "connection refused".to_string() });
}

#[test]
fn unparsable_remote_is_check_failure() {
    let e = check_outcome("2.0.5", FetchOutcome::Release { version: "nightly".to_string() });
    match e {
        Event::UpdateCheckFailed { .. } => {},
        other => panic!("expected UpdateCheckFailed, got {:?}", other),
    }
}

#[test]
fn unparsable_local_is_check_failure() {
    let e = check_outcome("dev", FetchOutcome::Release { version: "2.1.0".to_string() });
    match e {
        Event::UpdateCheckFailed { .. } => {},
        other => panic!("expected UpdateCheckFailed, got {:?}", other),
    }
}

#[test]
fn apply_success_finishes() {
    assert_eq!(apply_outcome(Ok(())), Event::UpdateApplyFinished);
}

#[test]
fn apply_failure_carries_message() {
    let e = apply_outcome(Err("disk full".to_string()));
    assert_eq!(e, Event::UpdateApplyFailed { message: "disk full".to_string() });
}
