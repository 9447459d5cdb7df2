//! Checks the sandbox helper applies: to a prepare request, to the argv the
//! sandbox builder produced, to an opaque plan, and to `run` arguments.
//! Also the filesystem grants a prepare request turns into.

use vstd::prelude::*;

use crate::decimal::{decimal, u64_decimal};
use crate::sandbox::protocol::{SandboxNetwork, SandboxPrepareRequest, SANDBOX_HELPER_PROTOCOL};
use crate::text::{concat2, str_eq, string_views, strings_contain};

verus! {

/// Requests the loopback proxy bridge for an enabled network.
pub const PROXY_FLAG: &'static str = "--allow-network-for-proxy";

/// Usage line for a malformed `run` invocation.
pub const RUN_USAGE: &'static str = "usage: codespace-linux-sandbox run --plan <path>";

/// Helper flags a plan must never carry.
pub open spec fn is_forbidden_flag(a: Seq<char>) -> bool {
    a == "--proxy-route-spec"@ || a == "--not-a-security-boundary"@ || a == "--use-legacy-landlock"@
}

pub open spec fn has_forbidden_flag(args: Seq<Seq<char>>) -> bool {
    exists|i: int| 0 <= i < args.len() && #[trigger] is_forbidden_flag(args[i])
}

/// What is wrong with a prepare request, if anything: the protocol first,
/// then an empty command.
pub open spec fn prepare_request_problem(protocol: u32, argv: Seq<Seq<char>>) -> Option<Seq<char>> {
    if protocol != SANDBOX_HELPER_PROTOCOL {
        Some("unsupported sandbox helper protocol "@ + decimal(protocol as nat))
    } else if argv.len() == 0 || argv[0].len() == 0 {
        Some("command must be a non-empty argv (no shell)"@)
    } else {
        None
    }
}

/// Checks a prepare request before any sandbox argv is built.
pub fn validate_prepare_request(req: &SandboxPrepareRequest) -> (r: Result<(), String>)
    ensures
        match r {
            Ok(()) => prepare_request_problem(req.protocol, string_views(req.argv@)) is None,
            Err(m) => prepare_request_problem(req.protocol, string_views(req.argv@)) == Some(m@),
        },
{
    if req.protocol != SANDBOX_HELPER_PROTOCOL {
        let n = u64_decimal(req.protocol as u64);
        return Err(concat2("unsupported sandbox helper protocol ", n.as_str()));
    }
    if req.argv.len() == 0 || req.argv[0].as_str().unicode_len() == 0 {
        return Err(String::from_str("command must be a non-empty argv (no shell)"));
    }
    Ok(())
}

/// A sandbox path must be absolute.
pub fn check_sandbox_path(path: &str) -> (r: Result<(), String>)
    ensures
        match r {
            Ok(()) => path@.len() > 0 && path@[0] == '/',
            Err(m) => !(path@.len() > 0 && path@[0] == '/') && m@ == "sandbox path must be absolute: "@
                + path@,
        },
{
    if path.unicode_len() > 0 && path.get_char(0) == '/' {
        Ok(())
    } else {
        Err(concat2("sandbox path must be absolute: ", path))
    }
}

/// What is wrong with the argv the sandbox builder produced, if anything:
/// a forbidden flag first, then a proxy flag that disagrees with the
/// network setting.
pub open spec fn helper_args_problem(args: Seq<Seq<char>>, network: SandboxNetwork) -> Option<Seq<char>> {
    if has_forbidden_flag(args) {
        Some("linux sandbox argv included a forbidden helper flag"@)
    } else if network == SandboxNetwork::Restricted && args.contains(PROXY_FLAG@) {
        Some("restricted network plan must not enable the managed proxy"@)
    } else if network == SandboxNetwork::Enabled && !args.contains(PROXY_FLAG@) {
        Some("enabled network plan must include --allow-network-for-proxy"@)
    } else {
        None
    }
}

/// Whether one of `args` is a forbidden helper flag.
pub fn contains_forbidden_flag(args: &Vec<String>) -> (r: bool)
    ensures
        r == has_forbidden_flag(string_views(args@)),
{
    let mut i: usize = 0;
    while i < args.len()
        invariant
            i <= args@.len(),
            forall|k: int| 0 <= k < i ==> !is_forbidden_flag(#[trigger] string_views(args@)[k]),
        decreases args@.len() - i,
    {
        let a = args[i].as_str();
        if str_eq(a, "--proxy-route-spec") || str_eq(a, "--not-a-security-boundary") || str_eq(
            a,
            "--use-legacy-landlock",
        ) {
            proof {
                assert(is_forbidden_flag(string_views(args@)[i as int]));
            }
            return true;
        }
        proof {
            assert(string_views(args@)[i as int] == args@[i as int]@);
        }
        i = i + 1;
    }
    false
}

/// Checks the sandbox builder's argv against the request's network.
pub fn check_helper_args(args: &Vec<String>, network: SandboxNetwork) -> (r: Result<(), String>)
    ensures
        match r {
            Ok(()) => helper_args_problem(string_views(args@), network) is None,
            Err(m) => helper_args_problem(string_views(args@), network) == Some(m@),
        },
{
    if contains_forbidden_flag(args) {
        return Err(String::from_str("linux sandbox argv included a forbidden helper flag"));
    }
    let has_proxy = strings_contain(args, PROXY_FLAG);
    match network {
        SandboxNetwork::Restricted => if has_proxy {
            return Err(String::from_str("restricted network plan must not enable the managed proxy"));
        },
        SandboxNetwork::Enabled => if !has_proxy {
            return Err(
                String::from_str("enabled network plan must include --allow-network-for-proxy"),
            );
        },
    }
    Ok(())
}

/// Access the sandbox grants to one path.
#[derive(Debug, Clone, Copy, PartialEq, Eq, Structural)]
pub enum SandboxAccess {
    Read,
    Write,
}

/// A path the sandbox exposes: the minimal system set, or one host path.
#[derive(Debug, Clone, PartialEq, Eq)]
pub enum SandboxTarget {
    Minimal,
    Path(String),
}

/// One filesystem grant.
#[derive(Debug, Clone, PartialEq, Eq)]
pub struct SandboxEntry {
    pub target: SandboxTarget,
    pub access: SandboxAccess,
}

/// A grant by its plain values: `None` for the minimal set.
pub open spec fn entry_view(e: SandboxEntry) -> (Option<Seq<char>>, SandboxAccess) {
    (
        match e.target {
            SandboxTarget::Minimal => None,
            SandboxTarget::Path(p) => Some(p@),
        },
        e.access,
    )
}

pub open spec fn entry_views(v: Seq<SandboxEntry>) -> Seq<(Option<Seq<char>>, SandboxAccess)> {
    v.map_values(|e: SandboxEntry| entry_view(e))
}

/// `name` directly under `root`.
pub open spec fn child_path(root: Seq<char>, name: Seq<char>) -> Seq<char> {
    if root.len() > 0 && root.last() == '/' {
        root + name
    } else {
        root + "/"@ + name
    }
}

/// The grants for a workspace: the minimal system set read-only, the helper
/// binary read-only when it must be re-executed inside, the workspace read
/// or write, and for a writable workspace explicit write grants on the
/// `.git`, `.agents` and `.codex` metadata directories, which would
/// otherwise be protected read-only. Host `/tmp` is never granted.
pub open spec fn sandbox_grants(workspace: Seq<char>, helper: Option<Seq<char>>, writable: bool) -> Seq<
    (Option<Seq<char>>, SandboxAccess),
> {
    let base = seq![(None::<Seq<char>>, SandboxAccess::Read)];
    let with_helper = match helper {
        Some(h) => base.push((Some(h), SandboxAccess::Read)),
        None => base,
    };
    let with_ws = with_helper.push(
        (Some(workspace), if writable { SandboxAccess::Write } else { SandboxAccess::Read }),
    );
    if writable {
        with_ws.push((Some(child_path(workspace, ".git"@)), SandboxAccess::Write)).push(
            (Some(child_path(workspace, ".agents"@)), SandboxAccess::Write),
        ).push((Some(child_path(workspace, ".codex"@)), SandboxAccess::Write))
    } else {
        with_ws
    }
}

/// `name` directly under `root`.
pub fn join_child(root: &str, name: &str) -> (r: String)
    ensures
        r@ == child_path(root@, name@),
{
    let n = root.unicode_len();
    if n > 0 && root.get_char(n - 1) == '/' {
        concat2(root, name)
    } else {
        let mut s = concat2(root, "/");
        s.append(name);
        s
    }
}

/// The filesystem grants for a workspace (see [`sandbox_grants`]).
pub fn permission_entries(workspace: &str, helper: Option<&str>, writable: bool) -> (r: Vec<
    SandboxEntry,
>)
    ensures
        entry_views(r@) == sandbox_grants(
            workspace@,
            match helper {
                Some(h) => Some(h@),
                None => None,
            },
            writable,
        ),
{
    let mut v: Vec<SandboxEntry> = Vec::new();
    v.push(SandboxEntry { target: SandboxTarget::Minimal, access: SandboxAccess::Read });
    match helper {
        Some(h) => v.push(
            SandboxEntry { target: SandboxTarget::Path(String::from_str(h)), access: SandboxAccess::Read },
        ),
        None => {},
    }
    let access = if writable {
        SandboxAccess::Write
    } else {
        SandboxAccess::Read
    };
    v.push(SandboxEntry { target: SandboxTarget::Path(String::from_str(workspace)), access });
    if writable {
        v.push(
            SandboxEntry {
                target: SandboxTarget::Path(join_child(workspace, ".git")),
                access: SandboxAccess::Write,
            },
        );
        v.push(
            SandboxEntry {
                target: SandboxTarget::Path(join_child(workspace, ".agents")),
                access: SandboxAccess::Write,
            },
        );
        v.push(
            SandboxEntry {
                target: SandboxTarget::Path(join_child(workspace, ".codex")),
                access: SandboxAccess::Write,
            },
        );
    }
    proof {
        let h = match helper {
            Some(h) => Some(h@),
            None => None,
        };
        assert(entry_views(v@) =~= sandbox_grants(workspace@, h, writable));
    }
    v
}

/// A plan is only written for a non-empty argv.
pub fn check_plan_argv(argv: &Vec<String>) -> (r: Result<(), String>)
    ensures
        r is Ok <==> argv@.len() > 0,
        r matches Err(m) ==> m@ == "sandbox plan argv must not be empty"@,
{
    if argv.len() == 0 {
        Err(String::from_str("sandbox plan argv must not be empty"))
    } else {
        Ok(())
    }
}

/// A plan path must be absolute.
pub fn check_plan_path(path: &str) -> (r: Result<(), String>)
    ensures
        match r {
            Ok(()) => path@.len() > 0 && path@[0] == '/',
            Err(m) => !(path@.len() > 0 && path@[0] == '/') && m@
                == "sandbox plan path must be absolute: "@ + path@,
        },
{
    if path.unicode_len() > 0 && path.get_char(0) == '/' {
        Ok(())
    } else {
        Err(concat2("sandbox plan path must be absolute: ", path))
    }
}

/// What is wrong with a loaded plan, if anything: its protocol first, then
/// an empty argv or an empty argument.
pub open spec fn plan_problem(protocol: u32, argv: Seq<Seq<char>>) -> Option<Seq<char>> {
    if protocol != SANDBOX_HELPER_PROTOCOL {
        Some("unsupported sandbox plan protocol "@ + decimal(protocol as nat))
    } else if argv.len() == 0 || exists|i: int| 0 <= i < argv.len() && #[trigger] argv[i].len() == 0 {
        Some("sandbox plan argv must be non-empty"@)
    } else {
        None
    }
}

/// Checks a plan read back from disk.
pub fn check_plan(protocol: u32, argv: &Vec<String>) -> (r: Result<(), String>)
    ensures
        match r {
            Ok(()) => plan_problem(protocol, string_views(argv@)) is None,
            Err(m) => plan_problem(protocol, string_views(argv@)) == Some(m@),
        },
{
    if protocol != SANDBOX_HELPER_PROTOCOL {
        let n = u64_decimal(protocol as u64);
        return Err(concat2("unsupported sandbox plan protocol ", n.as_str()));
    }
    if argv.len() == 0 {
        return Err(String::from_str("sandbox plan argv must be non-empty"));
    }
    let mut i: usize = 0;
    while i < argv.len()
        invariant
            i <= argv@.len(),
            argv@.len() > 0,
            protocol == SANDBOX_HELPER_PROTOCOL,
            forall|k: int| 0 <= k < i ==> (#[trigger] string_views(argv@)[k]).len() > 0,
        decreases argv@.len() - i,
    {
        proof {
            assert(string_views(argv@)[i as int] == argv@[i as int]@);
        }
        if argv[i].as_str().unicode_len() == 0 {
            proof {
                assert(string_views(argv@)[i as int].len() == 0);
            }
            return Err(String::from_str("sandbox plan argv must be non-empty"));
        }
        i = i + 1;
    }
    Ok(())
}

/// `run` takes exactly `--plan <path>` with a non-empty path.
pub fn parse_plan_flag(args: &Vec<String>) -> (r: Result<String, String>)
    ensures
        match r {
            Ok(p) => args@.len() == 2 && args@[0]@ == "--plan"@ && args@[1]@.len() > 0 && p@
                == args@[1]@,
            Err(m) => !(args@.len() == 2 && args@[0]@ == "--plan"@ && args@[1]@.len() > 0) && m@
                == RUN_USAGE@,
        },
{
    if args.len() == 2 && str_eq(args[0].as_str(), "--plan") && args[1].as_str().unicode_len() > 0 {
        Ok(args[1].clone())
    } else {
        Err(String::from_str(RUN_USAGE))
    }
}

/// A plan that asks for the proxy bridge runs behind the managed proxy;
/// any other plan executes directly.
pub fn plan_uses_proxy(argv: &Vec<String>) -> (r: bool)
    ensures
        r == string_views(argv@).contains(PROXY_FLAG@),
{
    strings_contain(argv, PROXY_FLAG)
}

/// The request the helper's self-probe prepares: a writable scratch
/// workspace, a restricted network, and a command that only succeeds.
pub fn probe_request(workspace: &str, true_command: &str) -> (r: SandboxPrepareRequest)
    ensures
        r.protocol == SANDBOX_HELPER_PROTOCOL,
        r.workspace_root@ == workspace@,
        r.command_cwd@ == workspace@,
        r.writable_workspace,
        r.network == SandboxNetwork::Restricted,
        string_views(r.argv@) == seq![true_command@],
{
    let mut argv: Vec<String> = Vec::new();
    argv.push(String::from_str(true_command));
    proof {
        assert(string_views(argv@) =~= seq![true_command@]);
    }
    SandboxPrepareRequest {
        protocol: SANDBOX_HELPER_PROTOCOL,
        workspace_root: String::from_str(workspace),
        command_cwd: String::from_str(workspace),
        writable_workspace: true,
        network: SandboxNetwork::Restricted,
        argv,
    }
}

/// A plan that passed the argv check runs behind the managed proxy exactly
/// when its request enabled the network, and never carries a forbidden
/// flag.
pub proof fn lemma_checked_plan_proxy_matches_network(args: Seq<Seq<char>>, network: SandboxNetwork)
    requires
        helper_args_problem(args, network) is None,
    ensures
        args.contains(PROXY_FLAG@) <==> network == SandboxNetwork::Enabled,
        !has_forbidden_flag(args),
{
}

} // verus!
