//! Product error catalog and the transport/execution split.

use vstd::prelude::*;

verus! {

/// Product error codes returned in tool results. HTTP 401 from Bearer
/// middleware is **not** one of these: it never becomes an operation.
#[derive(Debug, Clone, Copy, PartialEq, Eq, Structural)]
pub enum ErrorCode {
    Unauthorized,
    WorkspaceNotFound,
    WorkspaceBusy,
    InvalidPatch,
    InvalidCommand,
    ProcessSpawnFailed,
    PathEscape,
    SymlinkRejected,
    SpecialFileRejected,
    FileNotFound,
    PathNotDirectory,
    FileOperationFailed,
    AddFileExists,
    MoveDestinationExists,
    VersionConflict,
    OperationKeyConflict,
    OperationNotFound,
    ProcessNotFound,
    OutputLimit,
    Timeout,
    WorkNotFound,
    WorkClosed,
    IntentNotFound,
    IntentAlreadyClaimed,
    IntentNotEditable,
    IntentRevisionConflict,
    QueueNotEmpty,
}

/// A refused tool call: code, human message, and the operation it belongs
/// to when one was already recorded.
#[derive(Debug, Clone, PartialEq, Eq)]
pub struct ErrorBody {
    pub code: ErrorCode,
    pub message: String,
    pub operation_id: Option<String>,
}

impl ErrorBody {
    /// A body with no operation id.
    pub fn new(code: ErrorCode, message: &str) -> (r: Self)
        ensures
            r.code == code,
            r.message@ == message@,
            r.operation_id is None,
    {
        ErrorBody { code, message: String::from_str(message), operation_id: None }
    }

    /// The same body tagged with an operation id.
    pub fn with_operation_id(self, id: &str) -> (r: Self)
        ensures
            r.code == self.code,
            r.message@ == self.message@,
            r.operation_id matches Some(o) && o@ == id@,
    {
        let mut out = self;
        out.operation_id = Some(String::from_str(id));
        out
    }
}

/// A lost HTTP response, TCP reset, or 401 at the Bearer layer is not an
/// execution failure. Clients must not treat it as `operation` state.
pub const TRANSPORT_FAILURE_IS_NOT_OPERATION: bool = true;

/// Which layer a failure belongs to.
#[derive(Debug, Clone, Copy, PartialEq, Eq, Structural)]
pub enum FailureClass {
    /// Wire/auth before any tool handler. No `operation_id` is minted.
    Transport,
    /// Tool handler refused the request. May include `operation_id` if a
    /// mutating operation was already recorded.
    Execution,
}

/// HTTP statuses that never reach a tool handler.
pub open spec fn is_transport_status(status: u16) -> bool {
    status == 401 || status == 403 || status == 404 || status == 408 || status == 429
        || status == 502 || status == 503 || status == 504
}

/// Classifies an HTTP status as a transport or an execution failure.
pub fn classify_http_status(status: u16) -> (r: FailureClass)
    ensures
        r == (if is_transport_status(status) {
            FailureClass::Transport
        } else {
            FailureClass::Execution
        }),
{
    match status {
        401 | 403 | 404 | 408 | 429 | 502 | 503 | 504 => FailureClass::Transport,
        _ => FailureClass::Execution,
    }
}

} // verus!
