//! The Linux sandbox helper: its prepare/run protocol with the runner, the
//! checks it applies to requests, plans and helper argv, and the
//! filesystem grants it asks the sandbox for.

pub mod adapter;
pub mod helper;
pub mod protocol;
