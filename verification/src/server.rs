use vstd::prelude::*;

use crate::events::Event;
use crate::ports::select_port;

verus! {

/// The startup failure taxonomy of the server lifecycle manager.  All
/// variants are terminal for the run that produced them — no retry —
/// and all surface as the same `ServerFailed` event shape.
#[derive(Debug, PartialEq, Eq)]
pub enum StartupError {
    ConfigDir { message: String },
    DatabaseOpen { message: String },
    Migration { message: String },
    PortExhaustion,
    Bind { message: String },
}

/// The human-readable message surfaced for a startup failure.
pub open spec fn spec_failure_message(e: StartupError) -> Seq<char> {
    match e {
        StartupError::ConfigDir { message } => message@,
        StartupError::DatabaseOpen { message } => message@,
        StartupError::Migration { message } => message@,
        StartupError::PortExhaustion => "No open ports to bind to"@,
        StartupError::Bind { message } => message@,
    }
}

/// The fixed ordered port candidate list the server scans at startup.
pub fn port_candidates() -> (r: Vec<u16>)
    ensures
        r@ =~= seq![3030u16, 8888u16, 8080u16, 80u16],
{
    let candidates: Vec<u16> = vec![3030, 8888, 8080, 80];
    candidates
}

impl StartupError {
    /// The message carried into the `ServerFailed` event.
    pub fn message_text(&self) -> (m: String)
        ensures
            m@ == spec_failure_message(*self),
    {
        match self {
            StartupError::ConfigDir { message } => message.clone(),
            StartupError::DatabaseOpen { message } => message.clone(),
            StartupError::Migration { message } => message.clone(),
            StartupError::PortExhaustion => "No open ports to bind to".to_owned(),
            StartupError::Bind { message } => message.clone(),
        }
    }
}

/// Port negotiation stage: selects the last free entry of the scanned
/// list, and reports port exhaustion exactly when nothing was free.
pub fn port_stage(available: &Vec<u16>) -> (r: Result<u16, StartupError>)
    ensures
        available@.len() > 0 ==> r == Ok::<u16, StartupError>(available@.last()),
        available@.len() == 0 ==> r == Err::<u16, StartupError>(StartupError::PortExhaustion),
{
    match select_port(available) {
        Some(port) => Ok(port),
        None => Err(StartupError::PortExhaustion),
    }
}

/// Decides the one terminal event of a server startup run: a bound
/// address becomes `ServerStarted`, every failure becomes a single
/// `ServerFailed` carrying that failure's message.  Exactly one
/// terminal event per run, on every success and failure path.
pub fn startup_event(outcome: Result<String, StartupError>) -> (ev: Event)
    ensures
        (ev is ServerStarted || ev is ServerFailed),
        (outcome matches Ok(address) ==> ev == Event::ServerStarted { address }),
        (outcome matches Err(e) ==> (ev matches Event::ServerFailed { message } && message@
            == spec_failure_message(e))),
{
    match outcome {
        Ok(address) => Event::ServerStarted { address },
        Err(e) => Event::ServerFailed { message: e.message_text() },
    }
}

} // verus!
