//! Runner side of the Linux sandbox helper: the prepare request it sends
//! and how the helper's answer becomes a launch or a spawn failure.

use vstd::prelude::*;

use crate::domain::error::{ErrorBody, ErrorCode};
use crate::sandbox::protocol::{
    SandboxNetwork, SandboxPrepareRequest, SandboxPrepareResponse, SANDBOX_HELPER_PROTOCOL,
};
use crate::text::{concat2, starts_with, string_views};

verus! {

/// Largest stdout or stderr accepted from `prepare`, in bytes.
pub const PREPARE_IO_LIMIT: usize = 1048576;

/// Name prefix of the private directories plans are written to.
pub const PLAN_DIR_PREFIX: &'static str = "codespace-linux-sandbox-";

/// Helper program and `run --plan` argv: spawned in place of the user argv.
#[derive(Debug, Clone, PartialEq, Eq)]
pub struct SandboxLaunch {
    pub program: String,
    pub args: Vec<String>,
    pub plan_path: String,
}

/// A sandbox setup failure: no managed child exists.
pub open spec fn is_spawn_failure(e: ErrorBody, message: Seq<char>) -> bool {
    e.code == ErrorCode::ProcessSpawnFailed && e.message@ == message && e.operation_id is None
}

/// A `ProcessSpawnFailed` body with `message`.
pub fn spawn_failed(message: &str) -> (r: ErrorBody)
    ensures
        is_spawn_failure(r, message@),
{
    ErrorBody::new(ErrorCode::ProcessSpawnFailed, message)
}

/// The prepare request for a command: current protocol, paths as given,
/// and a non-empty command.
pub fn prepare_request(
    workspace_root: &str,
    command_cwd: &str,
    writable_workspace: bool,
    network: SandboxNetwork,
    argv: &Vec<String>,
) -> (r: Result<SandboxPrepareRequest, ErrorBody>)
    ensures
        r is Ok <==> argv@.len() > 0 && argv@[0]@.len() > 0,
        r matches Err(e) ==> is_spawn_failure(e, "command must be a non-empty argv (no shell)"@),
        r matches Ok(q) ==> q.protocol == SANDBOX_HELPER_PROTOCOL && q.workspace_root@
            == workspace_root@ && q.command_cwd@ == command_cwd@ && q.writable_workspace
            == writable_workspace && q.network == network && string_views(q.argv@) == string_views(
            argv@,
        ),
{
    if argv.len() == 0 || argv[0].as_str().unicode_len() == 0 {
        return Err(spawn_failed("command must be a non-empty argv (no shell)"));
    }
    let mut copy: Vec<String> = Vec::new();
    let mut i: usize = 0;
    while i < argv.len()
        invariant
            i <= argv@.len(),
            string_views(copy@) == string_views(argv@).subrange(0, i as int),
        decreases argv@.len() - i,
    {
        let ghost before = copy@;
        copy.push(argv[i].clone());
        proof {
            assert(string_views(copy@) =~= string_views(before).push(argv@[i as int]@));
            assert(string_views(argv@).subrange(0, i + 1) =~= string_views(argv@).subrange(
                0,
                i as int,
            ).push(argv@[i as int]@));
        }
        i = i + 1;
    }
    proof {
        assert(string_views(argv@).subrange(0, argv@.len() as int) =~= string_views(argv@));
    }
    Ok(
        SandboxPrepareRequest {
            protocol: SANDBOX_HELPER_PROTOCOL,
            workspace_root: String::from_str(workspace_root),
            command_cwd: String::from_str(command_cwd),
            writable_workspace,
            network,
            argv: copy,
        },
    )
}

/// How the helper's `prepare` outcome is judged: oversized output, then a
/// response that did not parse (`Err` holds the parser's message), then
/// the response itself. Only a successful exit with a non-empty plan path
/// launches. `None` means it launches.
pub open spec fn prepare_failure(
    stdout_len: nat,
    stderr_len: nat,
    exit_success: bool,
    response: Result<SandboxPrepareResponse, String>,
) -> Option<Seq<char>> {
    if stdout_len > PREPARE_IO_LIMIT || stderr_len > PREPARE_IO_LIMIT {
        Some("linux sandbox prepare output too large"@)
    } else {
        match response {
            Err(e) => Some("invalid linux sandbox prepare response: "@ + e@),
            Ok(SandboxPrepareResponse::Error { message }) => Some(
                "linux sandbox setup failed: "@ + message@,
            ),
            Ok(SandboxPrepareResponse::Prepared { plan_path }) => if !exit_success {
                Some("linux sandbox prepare failed"@)
            } else if plan_path@.len() == 0 {
                Some("linux sandbox prepare returned an empty plan path"@)
            } else {
                None
            },
        }
    }
}

/// Turns the helper's `prepare` outcome into the managed launch
/// `helper run --plan <plan_path>`, or a spawn failure.
pub fn launch_from_prepare(
    helper: &str,
    stdout_len: usize,
    stderr_len: usize,
    exit_success: bool,
    response: Result<SandboxPrepareResponse, String>,
) -> (r: Result<SandboxLaunch, ErrorBody>)
    ensures
        match prepare_failure(stdout_len as nat, stderr_len as nat, exit_success, response) {
            Some(m) => r matches Err(e) && is_spawn_failure(e, m),
            None => r matches Ok(l) && response matches Ok(
                SandboxPrepareResponse::Prepared { plan_path },
            ) && l.program@ == helper@ && string_views(l.args@) == seq![
                "run"@,
                "--plan"@,
                plan_path@,
            ] && l.plan_path@ == plan_path@,
        },
{
    if stdout_len > PREPARE_IO_LIMIT || stderr_len > PREPARE_IO_LIMIT {
        return Err(spawn_failed("linux sandbox prepare output too large"));
    }
    match response {
        Err(e) => {
            let m = concat2("invalid linux sandbox prepare response: ", e.as_str());
            Err(spawn_failed(m.as_str()))
        },
        Ok(SandboxPrepareResponse::Error { message }) => {
            let m = concat2("linux sandbox setup failed: ", message.as_str());
            Err(spawn_failed(m.as_str()))
        },
        Ok(SandboxPrepareResponse::Prepared { plan_path }) => {
            if !exit_success {
                return Err(spawn_failed("linux sandbox prepare failed"));
            }
            if plan_path.as_str().unicode_len() == 0 {
                return Err(spawn_failed("linux sandbox prepare returned an empty plan path"));
            }
            let mut args: Vec<String> = Vec::new();
            args.push(String::from_str("run"));
            args.push(String::from_str("--plan"));
            args.push(plan_path.clone());
            proof {
                assert(string_views(args@) =~= seq!["run"@, "--plan"@, plan_path@]);
            }
            Ok(SandboxLaunch { program: String::from_str(helper), args, plan_path })
        },
    }
}

/// A leftover plan's parent directory is removed only when it is one of
/// the helper's private plan directories.
pub fn is_plan_dir_name(name: &str) -> (r: bool)
    ensures
        r == starts_with(name@, PLAN_DIR_PREFIX@),
{
    let n = name.unicode_len();
    let p = PLAN_DIR_PREFIX.unicode_len();
    proof {
        reveal_strlit("codespace-linux-sandbox-");
    }
    if n < p {
        return false;
    }
    let head = name.substring_char(0, p);
    crate::text::str_eq(head, PLAN_DIR_PREFIX)
}

/// A request the runner builds always passes the helper's own request
/// check.
pub proof fn lemma_prepared_request_is_valid(q: SandboxPrepareRequest, argv: Seq<Seq<char>>)
    requires
        argv.len() > 0,
        argv[0].len() > 0,
        q.protocol == SANDBOX_HELPER_PROTOCOL,
        string_views(q.argv@) == argv,
    ensures
        crate::sandbox::helper::prepare_request_problem(q.protocol, string_views(q.argv@)) is None,
{
}

} // verus!
