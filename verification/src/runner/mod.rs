//! Execution-plane logic: request shapes, process output retention,
//! handle retention, file windows and listings, watch events, transport
//! outcomes and the sandbox-helper client.

pub mod api;
pub mod output;
pub mod retention;
pub mod launch;
pub mod sandbox;
pub mod listing;
pub mod watch;
pub mod transport;
pub mod wire;
pub mod socket;
pub mod sandboxing;
