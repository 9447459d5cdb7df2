//! Execution-plane request and result shapes. No `work_id`, coordination
//! or operation persistence lives here: those stay in the gateway.

use vstd::prelude::*;

use std::collections::BTreeMap;

use crate::decimal::{parse_u64, parse_u64_spec};
use crate::domain::error::{ErrorBody, ErrorCode};
use crate::domain::ids::ProcessId;
use crate::domain::patch::{FileChange, PatchStatus};
use crate::domain::process::{ProcessState, ProcessTermination};
use crate::domain::profile::Profile;
use crate::policy::permission::NetworkAxis;
use crate::text::concat2;

verus! {

/// Largest output a managed process keeps, in bytes.
pub const MAX_OUTPUT_BYTES: usize = 262144;

/// Exec time limit when the operator sets none, in milliseconds.
pub const DEFAULT_TIMEOUT_MS: u64 = 30000;

/// `PATH` for runner-launched commands when the runner has none of its own.
pub const FALLBACK_EXEC_PATH: &'static str = "/usr/bin:/bin:/usr/sbin:/sbin";

/// Gateway-filled exec policy summary. Not an allow engine.
#[derive(Debug, Clone, Copy, PartialEq, Eq, Structural)]
pub struct RunnerExecPolicy {
    pub workspace_profile: Profile,
    pub network: NetworkAxis,
}

/// Working directory for exec, resolved by the runner against its own
/// workspace root. Host absolute paths are not part of the wire contract.
#[derive(Debug, Clone, Copy, PartialEq, Eq, Structural)]
pub enum RunnerCwd {
    WorkspaceRoot,
}

/// Exec environment. `PATH` / `HOME` / `LANG` come from the runner process
/// when `use_runner_defaults` is set; the gateway never sends its own.
#[derive(Debug, Clone, PartialEq, Eq)]
pub struct RunnerExecEnv {
    pub use_runner_defaults: bool,
    pub overrides: BTreeMap<String, String>,
}

#[derive(Debug, Clone, PartialEq, Eq)]
pub struct RunnerExecRequest {
    pub argv: Vec<String>,
    pub process_id: ProcessId,
    pub cwd: RunnerCwd,
    pub env: RunnerExecEnv,
    pub timeout_ms: u64,
    pub output_bytes_cap: u64,
    pub tty: bool,
    pub policy: RunnerExecPolicy,
}

impl RunnerExecRequest {
    /// A host exec request: runner defaults for the environment, no
    /// overrides, the full output cap, no TTY and a restricted network.
    /// `timeout_ms` is what [`default_exec_timeout_ms`] gives for the
    /// operator's setting.
    pub fn for_host(argv: Vec<String>, process_id: ProcessId, profile: Profile, timeout_ms: u64) -> (r:
        Self)
        ensures
            r.argv@ == argv@,
            r.process_id == process_id,
            r.cwd == RunnerCwd::WorkspaceRoot,
            r.env.use_runner_defaults,
            r.env.overrides@ == Map::<String, String>::empty(),
            r.timeout_ms == timeout_ms,
            r.output_bytes_cap == MAX_OUTPUT_BYTES as u64,
            !r.tty,
            r.policy.workspace_profile == profile,
            r.policy.network == NetworkAxis::Restricted,
    {
        RunnerExecRequest {
            argv,
            process_id,
            cwd: RunnerCwd::WorkspaceRoot,
            env: RunnerExecEnv { use_runner_defaults: true, overrides: BTreeMap::new() },
            timeout_ms,
            output_bytes_cap: MAX_OUTPUT_BYTES as u64,
            tty: false,
            policy: RunnerExecPolicy {
                workspace_profile: profile,
                network: NetworkAxis::Restricted,
            },
        }
    }
}

/// The exec time limit for an operator setting in seconds: a positive
/// decimal gives that many seconds (saturating), anything else the default.
pub open spec fn exec_timeout_spec(raw: Option<Seq<char>>) -> u64 {
    match raw {
        Some(s) => match parse_u64_spec(s) {
            Some(secs) => if secs > 0 {
                if secs * 1000 > u64::MAX {
                    u64::MAX
                } else {
                    (secs * 1000) as u64
                }
            } else {
                DEFAULT_TIMEOUT_MS
            },
            None => DEFAULT_TIMEOUT_MS,
        },
        None => DEFAULT_TIMEOUT_MS,
    }
}

/// Exec time limit in milliseconds from the raw operator setting
/// (`CODESPACE_PROCESS_TIMEOUT_SECS`), read by the caller.
pub fn default_exec_timeout_ms(raw: Option<&str>) -> (r: u64)
    ensures
        r == exec_timeout_spec(
            match raw {
                Some(s) => Some(s@),
                None => None,
            },
        ),
        r > 0,
{
    match raw {
        Some(s) => match parse_u64(s) {
            Some(secs) => if secs > 0 {
                if secs > u64::MAX / 1000 {
                    u64::MAX
                } else {
                    secs * 1000
                }
            } else {
                DEFAULT_TIMEOUT_MS
            },
            None => DEFAULT_TIMEOUT_MS,
        },
        None => DEFAULT_TIMEOUT_MS,
    }
}

/// The runner-local environment applied after clearing the inherited one,
/// in key order: `HOME` is the workspace directory, `LANG` is `C`, `PATH`
/// is the runner's own (`path_var`) or [`FALLBACK_EXEC_PATH`].
pub fn runner_local_exec_env(path_var: Option<&str>, home: &str) -> (r: Vec<(String, String)>)
    ensures
        r@.len() == 3,
        r@[0].0@ == "HOME"@,
        r@[0].1@ == home@,
        r@[1].0@ == "LANG"@,
        r@[1].1@ == "C"@,
        r@[2].0@ == "PATH"@,
        r@[2].1@ == (match path_var {
            Some(p) => p@,
            None => FALLBACK_EXEC_PATH@,
        }),
{
    let path = match path_var {
        Some(p) => String::from_str(p),
        None => String::from_str(FALLBACK_EXEC_PATH),
    };
    let mut env: Vec<(String, String)> = Vec::new();
    env.push((String::from_str("HOME"), String::from_str(home)));
    env.push((String::from_str("LANG"), String::from_str("C")));
    env.push((String::from_str("PATH"), path));
    env
}

#[derive(Debug, Clone, PartialEq, Eq)]
pub struct RunnerExecResult {
    pub process_id: ProcessId,
}

#[derive(Debug, Clone, PartialEq, Eq)]
pub struct RunnerWriteStdin {
    pub process_id: ProcessId,
    pub data: String,
}

#[derive(Debug, Clone, PartialEq, Eq)]
pub struct RunnerReadProcess {
    pub process_id: ProcessId,
    pub cursor: u64,
}

/// One read of a managed process's output.
#[derive(Debug, Clone, PartialEq, Eq)]
pub struct RunnerReadResult {
    pub process_id: ProcessId,
    pub cursor: u64,
    pub chunk: String,
    pub eof: bool,
    pub output_lost: bool,
    pub retained_from: u64,
}

#[derive(Debug, Clone, PartialEq, Eq)]
pub struct RunnerProcessStatus {
    pub process_id: ProcessId,
    pub state: ProcessState,
    pub exit_code: Option<i32>,
    pub termination: Option<ProcessTermination>,
    pub output_total: u64,
    pub output_retained_from: u64,
    pub eof: bool,
}

#[derive(Debug, Clone, Copy, PartialEq, Eq, Structural)]
pub struct RunnerResizeResult {
    pub rows: u16,
    pub cols: u16,
}

#[derive(Debug, Clone, PartialEq, Eq)]
pub struct RunnerApplyPatchRequest {
    pub patch: String,
    /// Expected `(path, version)` pairs, one per path, in ascending path
    /// order.
    pub expected_versions: Vec<(String, String)>,
    pub check_only: bool,
}

#[derive(Debug, Clone, PartialEq, Eq)]
pub struct RunnerApplyPatchResult {
    pub status: PatchStatus,
    pub files: Vec<String>,
    pub changes: Vec<FileChange>,
}

/// Runner errors, before the gateway maps them onto the product catalog.
#[derive(Debug, Clone, PartialEq, Eq)]
pub enum RunnerError {
    /// The disk or exec engine refused the request.
    Execution(ErrorBody),
    /// The request never left this process. Disk is unchanged.
    TransportBeforeDispatch { message: String },
    /// The request may have run. Its result cannot be confirmed.
    TransportAmbiguous { message: String },
}

pub open spec fn before_dispatch_prefix() -> Seq<char> {
    "runner transport failed before dispatch: "@
}

pub open spec fn ambiguous_prefix() -> Seq<char> {
    "runner transport result is ambiguous: "@
}

impl RunnerError {
    /// What the error says to a person: the body's message, or the
    /// transport message behind its fixed prefix.
    pub open spec fn message_spec(&self) -> Seq<char> {
        match self {
            RunnerError::Execution(body) => body.message@,
            RunnerError::TransportBeforeDispatch { message } => before_dispatch_prefix()
                + message@,
            RunnerError::TransportAmbiguous { message } => ambiguous_prefix() + message@,
        }
    }

    pub fn execution(body: ErrorBody) -> (r: Self)
        ensures
            r == RunnerError::Execution(body),
    {
        RunnerError::Execution(body)
    }

    pub fn before_dispatch(message: &str) -> (r: Self)
        ensures
            r matches RunnerError::TransportBeforeDispatch { message: m } && m@ == message@,
    {
        RunnerError::TransportBeforeDispatch { message: String::from_str(message) }
    }

    pub fn ambiguous(message: &str) -> (r: Self)
        ensures
            r matches RunnerError::TransportAmbiguous { message: m } && m@ == message@,
    {
        RunnerError::TransportAmbiguous { message: String::from_str(message) }
    }

    /// The execution body, when this is an execution error.
    pub fn as_execution(&self) -> (r: Option<&ErrorBody>)
        ensures
            match self {
                RunnerError::Execution(body) => r == Some(body),
                _ => r is None,
            },
    {
        match self {
            RunnerError::Execution(body) => Some(body),
            _ => None,
        }
    }

    /// The human-readable text of the error.
    pub fn message(&self) -> (r: String)
        ensures
            r@ == self.message_spec(),
    {
        match self {
            RunnerError::Execution(body) => body.message.clone(),
            RunnerError::TransportBeforeDispatch { message } => concat2(
                "runner transport failed before dispatch: ",
                message.as_str(),
            ),
            RunnerError::TransportAmbiguous { message } => concat2(
                "runner transport result is ambiguous: ",
                message.as_str(),
            ),
        }
    }

    /// Gateway mapping onto the product catalog: an execution body passes
    /// through; a transport failure becomes `Timeout` with its message.
    pub fn into_error_body(self) -> (r: ErrorBody)
        ensures
            match self {
                RunnerError::Execution(body) => r == body,
                _ => r.code == ErrorCode::Timeout && r.message@ == self.message_spec()
                    && r.operation_id is None,
            },
    {
        match self {
            RunnerError::Execution(body) => body,
            RunnerError::TransportBeforeDispatch { message } => {
                let text = concat2("runner transport failed before dispatch: ", message.as_str());
                ErrorBody::new(ErrorCode::Timeout, text.as_str())
            },
            RunnerError::TransportAmbiguous { message } => {
                let text = concat2("runner transport result is ambiguous: ", message.as_str());
                ErrorBody::new(ErrorCode::Timeout, text.as_str())
            },
        }
    }
}

impl From<ErrorBody> for RunnerError {
    fn from(body: ErrorBody) -> (r: Self) {
        RunnerError::Execution(body)
    }
}

impl vstd::std_specs::convert::FromSpecImpl<ErrorBody> for RunnerError {
    open spec fn obeys_from_spec() -> bool {
        true
    }

    open spec fn from_spec(body: ErrorBody) -> RunnerError {
        RunnerError::Execution(body)
    }
}

} // verus!
