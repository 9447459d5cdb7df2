//! Workspace registry, permission profiles and path policy.

pub mod environment;
pub mod path;
pub mod permission;
pub mod registry;
pub mod workspace;
