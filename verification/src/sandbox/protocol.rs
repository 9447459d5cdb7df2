//! Handshake between the runner and the Linux sandbox helper process.
//! A JSON version of its own, separate from the runner socket protocol.

use vstd::prelude::*;

verus! {

/// JSON request/response version for helper `prepare`.
pub const SANDBOX_HELPER_PROTOCOL: u32 = 1;

/// Restricted is an isolated network namespace with restricted seccomp.
/// Enabled adds the helper-owned managed proxy.
#[derive(Debug, Clone, Copy, PartialEq, Eq, Structural)]
pub enum SandboxNetwork {
    Restricted,
    Enabled,
}

/// What the runner sends to `prepare` on stdin.
#[derive(Debug, Clone, PartialEq, Eq)]
pub struct SandboxPrepareRequest {
    pub protocol: u32,
    pub workspace_root: String,
    pub command_cwd: String,
    pub writable_workspace: bool,
    pub network: SandboxNetwork,
    pub argv: Vec<String>,
}

/// What `prepare` answers on stdout. Success carries the plan pathname
/// only; the helper's own argv never crosses this boundary.
#[derive(Debug, Clone, PartialEq, Eq)]
pub enum SandboxPrepareResponse {
    Prepared { plan_path: String },
    Error { message: String },
}

} // verus!
