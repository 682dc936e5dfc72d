//! Verified core of a desktop control panel that supervises a local
//! background HTTP service and an application self-update workflow.
//!
//! The library holds the logic worth proving: the event taxonomy, the
//! controller state machine, the server startup decisions (port
//! negotiation, failure propagation), the update pipeline decisions
//! (semantic-version comparison, terminal-event construction), the
//! migration bookkeeping rule and the HTTP route table.  Thread
//! plumbing, the window shell and the actual listener live outside the
//! library and drive it with plain values.

pub mod controller;
pub mod events;
pub mod http;
pub mod migrations;
pub mod ports;
pub mod semver;
pub mod server;
pub mod shutdown;
pub mod status;
pub mod update;
