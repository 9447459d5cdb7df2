//! Wire-level domain types shared by the gateway and the runner.

pub mod approval;
pub mod error;
pub mod execution;
pub mod files;
pub mod ids;
pub mod info;
pub mod intent;
pub mod patch;
pub mod process;
pub mod profile;
pub mod tools;
pub mod work;
