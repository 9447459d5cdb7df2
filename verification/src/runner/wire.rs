//! The runner's own RPC shapes: one request, one response, by operation.

use vstd::prelude::*;

use crate::domain::error::{ErrorBody, ErrorCode};
use crate::domain::files::{FindResult, ReadResult};
use crate::domain::ids::ProcessId;
use crate::policy::workspace::Workspace;
use crate::runner::api::{
    RunnerApplyPatchRequest, RunnerApplyPatchResult, RunnerError, RunnerExecRequest,
    RunnerExecResult, RunnerReadProcess, RunnerReadResult, RunnerWriteStdin,
};
use crate::text::concat2;

verus! {

/// One operation the gateway asks of a runner.
#[derive(Debug, Clone)]
pub enum RunnerOp {
    Read { workspace: Workspace, path: String },
    Find { workspace: Workspace, glob: Option<String> },
    Version { workspace: Workspace, path: String },
    ApplyPatch { workspace: Workspace, request: RunnerApplyPatchRequest },
    Exec { workspace: Workspace, request: RunnerExecRequest },
    WriteStdin { request: RunnerWriteStdin },
    ReadProcess { request: RunnerReadProcess },
    Terminate { process_id: ProcessId },
    WorkspaceOf { process_id: String },
    TerminateWorkspace { workspace_id: String },
}

/// What an operation returned.
#[derive(Debug, Clone)]
pub enum RunnerOpResult {
    Read(ReadResult),
    Find(FindResult),
    Version(String),
    ApplyPatch(RunnerApplyPatchResult),
    Exec(RunnerExecResult),
    WriteStdin,
    ReadProcess(RunnerReadResult),
    Terminate,
    WorkspaceOf(Option<String>),
    TerminateWorkspace(u32),
}

/// A numbered request.
#[derive(Debug, Clone)]
pub struct WireRequest {
    pub id: u64,
    pub op: RunnerOp,
}

/// The answer to request `id`: a result when `ok`, an error otherwise.
#[derive(Debug, Clone)]
pub struct WireResponse {
    pub id: u64,
    pub ok: bool,
    pub result: Option<RunnerOpResult>,
    pub error: Option<ErrorBody>,
}

/// The response to a served request: success carries the result, failure
/// the error mapped onto the product catalog.
pub fn wire_response(id: u64, outcome: Result<RunnerOpResult, RunnerError>) -> (r: WireResponse)
    ensures
        r.id == id,
        r.ok == outcome is Ok,
        match outcome {
            Ok(v) => r.result == Some(v) && r.error is None,
            Err(e) => r.result is None && (r.error matches Some(b) && (match e {
                RunnerError::Execution(body) => b == body,
                _ => b.code == ErrorCode::Timeout && b.message@ == e.message_spec(),
            })),
        },
{
    match outcome {
        Ok(value) => WireResponse { id, ok: true, result: Some(value), error: None },
        Err(error) => WireResponse { id, ok: false, result: None, error: Some(error.into_error_body()) },
    }
}

/// The response to a line that was not a request: id 0, refused with the
/// parser's message.
pub fn invalid_request(parse_error: &str) -> (r: WireResponse)
    ensures
        r.id == 0,
        !r.ok,
        r.result is None,
        r.error matches Some(b) && b.code == ErrorCode::InvalidPatch && b.message@
            == "invalid runner rpc: "@ + parse_error@,
{
    let m = concat2("invalid runner rpc: ", parse_error);
    WireResponse {
        id: 0,
        ok: false,
        result: None,
        error: Some(ErrorBody::new(ErrorCode::InvalidPatch, m.as_str())),
    }
}

} // verus!
