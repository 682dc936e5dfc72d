use vstd::prelude::*;

use crate::events::{CheckResult, Event};
use crate::semver::{newer_than, parse_version, valid_version, version_lt, version_of};

verus! {

/// What the release-info fetcher handed back: the latest published
/// version string, or the reason the query failed.
#[derive(Debug, PartialEq, Eq)]
pub enum FetchOutcome {
    Release { version: String },
    NetworkFailure { message: String },
}

/// Decides the one terminal event of a `CheckForUpdate` run.
///
/// `local` is the running build's version string.  A strictly newer
/// remote version yields `Available`; an equal or older one yields
/// `UpToDate` (no downgrade path); a network failure or a version
/// string that does not parse yields `UpdateCheckFailed`.  Every path
/// produces exactly one terminal event of the check kind.
pub fn check_outcome(local: &str, fetch: FetchOutcome) -> (e: Event)
    ensures
        (e is UpdateCheckResult || e is UpdateCheckFailed),
        (fetch matches FetchOutcome::NetworkFailure { message } ==> e == Event::UpdateCheckFailed {
            message,
        }),
        (fetch matches FetchOutcome::Release { version } ==> ((valid_version(local@)
            && valid_version(version@) && version_lt(version_of(local@), version_of(version@)))
            ==> e == Event::UpdateCheckResult { result: CheckResult::Available { version } })),
        (fetch matches FetchOutcome::Release { version } ==> ((valid_version(local@)
            && valid_version(version@) && !version_lt(version_of(local@), version_of(version@)))
            ==> e == Event::UpdateCheckResult { result: CheckResult::UpToDate })),
        (fetch matches FetchOutcome::Release { version } ==> (!(valid_version(local@)
            && valid_version(version@)) ==> (e matches Event::UpdateCheckFailed { message }
            && message@ == "could not parse version information"@))),
{
    match fetch {
        FetchOutcome::NetworkFailure { message } => Event::UpdateCheckFailed { message },
        FetchOutcome::Release { version } => {
            let local_version = parse_version(local);
            let remote_version = parse_version(version.as_str());
            match (local_version, remote_version) {
                (Some(lv), Some(rv)) => {
                    if newer_than(&rv, &lv) {
                        Event::UpdateCheckResult { result: CheckResult::Available { version } }
                    } else {
                        Event::UpdateCheckResult { result: CheckResult::UpToDate }
                    }
                },
                _ => Event::UpdateCheckFailed {
                    message: "could not parse version information".to_owned(),
                },
            }
        },
    }
}

/// Decides the one terminal event of an `ApplyUpdate` run: `Finished`
/// exactly on success, `Failed` with the installer's message otherwise.
pub fn apply_outcome(install: Result<(), String>) -> (e: Event)
    ensures
        (e is UpdateApplyFinished || e is UpdateApplyFailed),
        (install is Ok <==> e is UpdateApplyFinished),
        (install matches Err(message) ==> e == Event::UpdateApplyFailed { message }),
{
    match install {
        Ok(()) => Event::UpdateApplyFinished,
        Err(message) => Event::UpdateApplyFailed { message },
    }
}

} // verus!
