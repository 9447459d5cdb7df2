//! Managed process tool parameters and results.

use vstd::prelude::*;

use crate::domain::ids::{ProcessId, WorkId, WorkspaceId};
use crate::domain::work::CoordinationHint;

verus! {

#[derive(Debug, Clone, PartialEq, Eq)]
pub struct ExecCommandParams {
    pub workspace_id: WorkspaceId,
    pub command: Vec<String>,
    pub work_id: Option<WorkId>,
    /// Omit or false uses pipes. True attaches a PTY (default size 24x80).
    pub tty: bool,
}

#[derive(Debug, Clone, Copy, PartialEq, Eq, Structural)]
pub enum ExecDispatchStatus {
    /// Backend confirmed the spawn request result. The process may already have exited.
    Confirmed,
    /// Spawn may have occurred. Do not start a duplicate process.
    Unknown,
}

#[derive(Debug, Clone, PartialEq, Eq)]
pub struct ExecCommandResult {
    pub process_id: ProcessId,
    pub dispatch_status: ExecDispatchStatus,
    pub coordination: Option<CoordinationHint>,
}

#[derive(Debug, Clone, PartialEq, Eq)]
pub struct WriteStdinParams {
    pub process_id: ProcessId,
    pub data: String,
}

#[derive(Debug, Clone, PartialEq, Eq)]
pub struct ReadProcessParams {
    pub process_id: ProcessId,
    pub cursor: u64,
}

#[derive(Debug, Clone, PartialEq, Eq)]
pub struct ReadProcessResult {
    pub process_id: ProcessId,
    pub cursor: u64,
    pub chunk: String,
    pub eof: bool,
    /// True when the retained window does not start at byte 0.
    pub output_lost: bool,
    /// First retained process-output offset.
    pub retained_from: u64,
    pub coordination: Option<CoordinationHint>,
}

#[derive(Debug, Clone, Copy, PartialEq, Eq, Structural)]
pub enum ProcessState {
    Running,
    Exited,
}

#[derive(Debug, Clone, Copy, PartialEq, Eq, Structural)]
pub enum ProcessTermination {
    Exited,
    Timeout,
    Terminated,
    Unknown,
}

#[derive(Debug, Clone, PartialEq, Eq)]
pub struct ProcessStatusParams {
    pub process_id: ProcessId,
}

#[derive(Debug, Clone, PartialEq, Eq)]
pub struct ProcessStatusResult {
    pub process_id: ProcessId,
    pub state: ProcessState,
    pub exit_code: Option<i32>,
    pub termination: Option<ProcessTermination>,
    pub output_total: u64,
    pub output_retained_from: u64,
    pub eof: bool,
    pub coordination: Option<CoordinationHint>,
}

/// A running process has no exit code and no termination; an exited one
/// has a termination, and only a normal exit may carry an exit code.
pub open spec fn status_is_consistent(
    state: ProcessState,
    exit_code: Option<i32>,
    termination: Option<ProcessTermination>,
) -> bool {
    match state {
        ProcessState::Running => exit_code is None && termination is None,
        ProcessState::Exited => match termination {
            Some(ProcessTermination::Exited) => true,
            Some(_) => exit_code is None,
            None => false,
        },
    }
}

impl ProcessStatusResult {
    pub fn invariants_hold(&self) -> (r: bool)
        ensures
            r == status_is_consistent(self.state, self.exit_code, self.termination),
    {
        match self.state {
            ProcessState::Running => self.exit_code.is_none() && self.termination.is_none(),
            ProcessState::Exited => match self.termination {
                Some(ProcessTermination::Exited) => true,
                Some(_) => self.exit_code.is_none(),
                None => false,
            },
        }
    }
}

#[derive(Debug, Clone, PartialEq, Eq)]
pub struct TerminateProcessParams {
    pub process_id: ProcessId,
}

} // verus!
