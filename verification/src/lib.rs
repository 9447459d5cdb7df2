//! CodeSpace workspace execution core: domain contracts, workspace policy,
//! runner bookkeeping, sandbox helper protocol and patch planning.

pub mod text;

pub mod decimal;
pub mod pathname;
pub mod digest;
pub mod domain;
pub mod filesys;
pub mod order;
pub mod patch;
pub mod policy;
pub mod runner;
pub mod sandbox;
