use codespace::sandbox::helper::probe_request;
use codespace::domain::error::ErrorCode;
use codespace::sandbox::adapter::{
    check_command, check_launch_args, helper_missing, launch, SANDBOX_PATH,
};
use codespace::sandbox::helper::{
    check_helper_args, check_plan, check_plan_argv, check_plan_path, check_sandbox_path,
    parse_plan_flag, permission_entries, plan_uses_proxy, validate_prepare_request, SandboxAccess,
    SandboxTarget,
};
use codespace::sandbox::protocol::{
    SandboxNetwork, SandboxPrepareRequest, SandboxPrepareResponse, SANDBOX_HELPER_PROTOCOL,
};
use codespace::runner::sandbox::{is_plan_dir_name, launch_from_prepare, prepare_request};

fn env_get<'a>(env: &'a [(String, String)], key: &str) -> Option<&'a str> {
    env.iter().find(|(k, _)| k == key).map(|(_, v)| v.as_str())
}

#[test]
fn protocol_version_is_one() {
    assert_eq!(SANDBOX_HELPER_PROTOCOL, 1);
}

#[test]
fn lib_sandbox_env_uses_fixed_path_and_workspace_home() {
    let env = codespace::sandbox::adapter::sandbox_exec_env("/workspace");
    assert_eq!(env_get(&env, "PATH").unwrap(), SANDBOX_PATH);
    assert_eq!(env_get(&env, "HOME").unwrap(), "/workspace");
    assert_eq!(env_get(&env, "TMPDIR").unwrap(), "/tmp");
    assert!(!env_get(&env, "PATH").unwrap().contains(".cargo/bin"));
}

#[test]
fn linux_sandbox_sandbox_env_uses_fixed_path_and_workspace_home() {
    let env = codespace::sandbox::adapter::sandbox_exec_env("/workspace");
    assert_eq!(env_get(&env, "PATH").unwrap(), SANDBOX_PATH);
    assert_eq!(env_get(&env, "HOME").unwrap(), "/workspace");
    assert_eq!(env_get(&env, "TMPDIR").unwrap(), "/tmp");
    assert!(!env_get(&env, "PATH").unwrap().contains(".cargo/bin"));
}

#[test]
fn run_requires_plan_flag() {
    assert!(parse_plan_flag(&vec![]).is_err());
    assert!(parse_plan_flag(&vec!["--plan".into()]).is_err());
    assert_eq!(
        parse_plan_flag(&vec!["--plan".into(), "/tmp/x.plan".into()]).unwrap(),
        "/tmp/x.plan".to_string()
    );
}

fn request(network: SandboxNetwork) -> SandboxPrepareRequest {
    SandboxPrepareRequest {
        protocol: SANDBOX_HELPER_PROTOCOL,
        workspace_root: "/ws".into(),
        command_cwd: "/ws".into(),
        writable_workspace: true,
        network,
        argv: vec!["/bin/echo".into(), "hi".into()],
    }
}

#[test]
fn prepare_request_checks() {
    assert!(validate_prepare_request(&request(SandboxNetwork::Restricted)).is_ok());
    let mut bad = request(SandboxNetwork::Restricted);
    bad.protocol = 0;
    let err = validate_prepare_request(&bad).unwrap_err();
    assert!(err.contains("unsupported sandbox helper protocol"), "{err}");
    assert_eq!(err, "unsupported sandbox helper protocol 0");
    let mut empty = request(SandboxNetwork::Restricted);
    empty.argv.clear();
    let err = validate_prepare_request(&empty).unwrap_err();
    assert!(err.contains("non-empty argv"), "{err}");
    assert_eq!(check_sandbox_path("rel").unwrap_err(), "sandbox path must be absolute: rel");
    assert!(check_sandbox_path("/abs").is_ok());
}

#[test]
fn helper_args_follow_the_network() {
    let plain: Vec<String> = vec!["--command-cwd".into(), "/ws".into(), "--".into(), "/bin/true".into()];
    assert!(check_helper_args(&plain, SandboxNetwork::Restricted).is_ok());
    assert_eq!(
        check_helper_args(&plain, SandboxNetwork::Enabled).unwrap_err(),
        "enabled network plan must include --allow-network-for-proxy"
    );
    let proxied: Vec<String> = vec!["--allow-network-for-proxy".into(), "--".into(), "x".into()];
    assert!(check_helper_args(&proxied, SandboxNetwork::Enabled).is_ok());
    assert!(check_helper_args(&proxied, SandboxNetwork::Restricted).is_err());
    let forbidden: Vec<String> = vec!["--use-legacy-landlock".into()];
    assert_eq!(
        check_helper_args(&forbidden, SandboxNetwork::Restricted).unwrap_err(),
        "linux sandbox argv included a forbidden helper flag"
    );
    assert!(check_launch_args(&proxied).is_err());
    assert!(check_launch_args(&plain).is_ok());
    assert!(plan_uses_proxy(&proxied));
    assert!(!plan_uses_proxy(&plain));
}

#[test]
fn grants_for_writable_and_read_only_workspaces() {
    let w = permission_entries("/ws", Some("/usr/bin/codespace-linux-sandbox"), true);
    assert_eq!(w.len(), 6);
    assert_eq!(w[0].target, SandboxTarget::Minimal);
    assert_eq!(w[1].target, SandboxTarget::Path("/usr/bin/codespace-linux-sandbox".into()));
    assert_eq!(w[1].access, SandboxAccess::Read);
    assert_eq!(w[3].target, SandboxTarget::Path("/ws/.git".into()));
    assert_eq!(w.iter().filter(|e| e.access == SandboxAccess::Write).count(), 4);
    let r = permission_entries("/ws/", None, false);
    assert_eq!(r.len(), 2);
    assert_eq!(r.iter().filter(|e| e.access == SandboxAccess::Write).count(), 0);
}

#[test]
fn plan_checks() {
    assert!(check_plan(1, &vec!["a".into()]).is_ok());
    assert_eq!(check_plan(2, &vec!["a".into()]).unwrap_err(), "unsupported sandbox plan protocol 2");
    assert_eq!(check_plan(1, &vec!["a".into(), "".into()]).unwrap_err(), "sandbox plan argv must be non-empty");
    assert!(check_plan_argv(&vec![]).is_err());
    let err = check_plan_path("relative.plan").unwrap_err();
    assert!(err.contains("absolute"), "{err}");
}

#[test]
fn adapter_launch() {
    assert!(check_command(&vec![]).unwrap_err().contains("non-empty argv"));
    let l = launch("/h", vec!["--".into()]);
    assert_eq!(l.program, "/h");
    assert!(helper_missing().starts_with("CODESPACE_LINUX_SANDBOX_BIN is unset"));
}

#[test]
fn prepare_answers() {
    let argv: Vec<String> = vec!["/bin/true".into()];
    let req = prepare_request("/ws", "/ws", true, SandboxNetwork::Restricted, &argv).unwrap();
    assert_eq!(req.protocol, 1);
    assert_eq!(req.argv, argv);
    let err = prepare_request("/ws", "/ws", true, SandboxNetwork::Restricted, &vec![]).unwrap_err();
    assert_eq!(err.code, ErrorCode::ProcessSpawnFailed);
    let launch = launch_from_prepare(
        "/h",
        10,
        0,
        true,
        Ok(SandboxPrepareResponse::Prepared { plan_path: "/tmp/p.plan".into() }),
    )
    .unwrap();
    assert_eq!(launch.args, vec!["run".to_string(), "--plan".to_string(), "/tmp/p.plan".to_string()]);
    let err = launch_from_prepare(
        "/h",
        10,
        0,
        false,
        Ok(SandboxPrepareResponse::Error { message: "nope".into() }),
    )
    .unwrap_err();
    assert_eq!(err.code, ErrorCode::ProcessSpawnFailed);
    assert!(err.message.contains("nope"));
    let err = launch_from_prepare("/h", 10, 0, true, Err("eof".into())).unwrap_err();
    assert_eq!(err.message, "invalid linux sandbox prepare response: eof");
    let err = launch_from_prepare("/h", 2_000_000, 0, true, Err("eof".into())).unwrap_err();
    assert_eq!(err.message, "linux sandbox prepare output too large");
    assert!(is_plan_dir_name("codespace-linux-sandbox-123"));
    assert!(!is_plan_dir_name("tmp"));
}

#[test]
fn probe_request_is_restricted_and_writable() {
    let req = probe_request("/tmp/probe", "/usr/bin/true");
    assert!(validate_prepare_request(&req).is_ok());
    assert!(req.writable_workspace);
    assert_eq!(req.network, SandboxNetwork::Restricted);
    assert_eq!(req.argv, vec!["/usr/bin/true".to_string()]);
}
