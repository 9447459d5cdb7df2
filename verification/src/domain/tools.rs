//! Server identity, tool names and transports.

use vstd::prelude::*;

verus! {

pub const SERVER_NAME: &'static str = "codespace";
pub const SERVER_VERSION: &'static str = "0.6.0";

pub const TOOL_WORKSPACE_INFO: &'static str = "workspace_info";
pub const TOOL_READ: &'static str = "read";
pub const TOOL_FIND: &'static str = "find";
pub const TOOL_APPLY_PATCH: &'static str = "apply_patch";
pub const TOOL_EXEC_COMMAND: &'static str = "exec_command";
pub const TOOL_WRITE_STDIN: &'static str = "write_stdin";
pub const TOOL_READ_PROCESS: &'static str = "read_process";
pub const TOOL_PROCESS_STATUS: &'static str = "process_status";
pub const TOOL_PROCESS_RESIZE: &'static str = "process_resize";
pub const TOOL_TERMINATE_PROCESS: &'static str = "terminate_process";
pub const TOOL_OPERATION_STATUS: &'static str = "operation_status";
pub const TOOL_WORK_OPEN: &'static str = "work_open";
pub const TOOL_STEER_STATUS: &'static str = "steer_status";
pub const TOOL_STEER_CLAIM_NEXT: &'static str = "steer_claim_next";
pub const TOOL_STEER_COMPLETE: &'static str = "steer_complete";
pub const TOOL_WORK_FINISH: &'static str = "work_finish";
pub const TOOL_APPROVAL_CREATE: &'static str = "approval_create";
pub const TOOL_APPROVAL_RESOLVE: &'static str = "approval_resolve";
pub const TOOL_OPERATION_RESUME: &'static str = "operation_resume";

pub const TRANSPORT_STDIO: &'static str = "stdio";
pub const TRANSPORT_STREAMABLE_HTTP: &'static str = "streamable-http";

/// The tools registered in this release, in `tools/list` order.
pub open spec fn live_tool_names() -> Seq<Seq<char>> {
    seq![
        TOOL_WORKSPACE_INFO@,
        TOOL_READ@,
        TOOL_FIND@,
        TOOL_APPLY_PATCH@,
        TOOL_OPERATION_STATUS@,
        TOOL_EXEC_COMMAND@,
        TOOL_WRITE_STDIN@,
        TOOL_READ_PROCESS@,
        TOOL_PROCESS_STATUS@,
        TOOL_PROCESS_RESIZE@,
        TOOL_TERMINATE_PROCESS@,
        TOOL_WORK_OPEN@,
        TOOL_STEER_STATUS@,
        TOOL_STEER_CLAIM_NEXT@,
        TOOL_STEER_COMPLETE@,
        TOOL_WORK_FINISH@,
        TOOL_APPROVAL_CREATE@,
        TOOL_APPROVAL_RESOLVE@,
        TOOL_OPERATION_RESUME@,
    ]
}

/// The tools registered in this release. Contract tests require
/// `tools/list` to match this list.
pub fn live_tools() -> (r: Vec<&'static str>)
    ensures
        r@.len() == live_tool_names().len(),
        forall|i: int| 0 <= i < r@.len() ==> #[trigger] r@[i]@ == live_tool_names()[i],
{
    let r = vec![
        TOOL_WORKSPACE_INFO,
        TOOL_READ,
        TOOL_FIND,
        TOOL_APPLY_PATCH,
        TOOL_OPERATION_STATUS,
        TOOL_EXEC_COMMAND,
        TOOL_WRITE_STDIN,
        TOOL_READ_PROCESS,
        TOOL_PROCESS_STATUS,
        TOOL_PROCESS_RESIZE,
        TOOL_TERMINATE_PROCESS,
        TOOL_WORK_OPEN,
        TOOL_STEER_STATUS,
        TOOL_STEER_CLAIM_NEXT,
        TOOL_STEER_COMPLETE,
        TOOL_WORK_FINISH,
        TOOL_APPROVAL_CREATE,
        TOOL_APPROVAL_RESOLVE,
        TOOL_OPERATION_RESUME,
    ];
    r
}

/// The tool catalog of the first usable release.
pub fn mvp_tool_catalog() -> (r: Vec<&'static str>)
    ensures
        r@.len() == 9,
        r@[0]@ == TOOL_WORKSPACE_INFO@,
        r@[1]@ == TOOL_READ@,
        r@[2]@ == TOOL_FIND@,
        r@[3]@ == TOOL_APPLY_PATCH@,
        r@[4]@ == TOOL_EXEC_COMMAND@,
        r@[5]@ == TOOL_WRITE_STDIN@,
        r@[6]@ == TOOL_READ_PROCESS@,
        r@[7]@ == TOOL_TERMINATE_PROCESS@,
        r@[8]@ == TOOL_OPERATION_STATUS@,
{
    vec![
        TOOL_WORKSPACE_INFO,
        TOOL_READ,
        TOOL_FIND,
        TOOL_APPLY_PATCH,
        TOOL_EXEC_COMMAND,
        TOOL_WRITE_STDIN,
        TOOL_READ_PROCESS,
        TOOL_TERMINATE_PROCESS,
        TOOL_OPERATION_STATUS,
    ]
}

} // verus!
