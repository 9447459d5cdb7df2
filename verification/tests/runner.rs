use codespace::runner::transport::{reader_step, Frame, ReaderStep};
use codespace::runner::socket::{reclaim_step, ConnectProbe, ReclaimStep};
use codespace::domain::error::{ErrorBody, ErrorCode};
use codespace::domain::files::DEFAULT_FIND_LIMIT;
use codespace::domain::ids::{ProcessId, WorkspaceId};
use codespace::domain::patch::PatchStatus;
use codespace::domain::profile::Profile;
use codespace::filesys::{FileMeta, FsError, WalkBudget, WalkResult};
use codespace::policy::permission::NetworkAxis;
use codespace::policy::workspace::Workspace;
use codespace::runner::api::{
    default_exec_timeout_ms, runner_local_exec_env, RunnerApplyPatchResult, RunnerCwd, RunnerError,
    RunnerExecRequest, DEFAULT_TIMEOUT_MS, MAX_OUTPUT_BYTES,
};
use codespace::runner::launch::plan_spawn;
use codespace::runner::listing::{
    byte_window, check_entry, check_readable, find_listing, fs_error_body, glob_match,
    listing_version, path_window, read_window, resolve_limit, version_when_unreadable, EntryKind,
    VERSION_ABSENT,
};
use codespace::runner::output::OutputBuffer;
use codespace::runner::retention::{max_processes, ProcessTable, RetentionPolicy};
use codespace::runner::sandboxing::compose_allows_marker;
use codespace::runner::socket::{forbidden_runner_bases, is_forbidden_runner_dir, runner_socket_path};
use codespace::runner::transport::{
    decode_response, hello_outcome, request_id, settle_reply, write_failure, HelloReply, ReplyWait,
};
use codespace::runner::watch::{
    event_kinds, map_rename_sides, strip_under, workspace_relative_event_path, FsWatchKind,
    NotifyKind, RenameMode, WatchState,
};
use codespace::runner::wire::{invalid_request, wire_response, RunnerOpResult};

#[test]
fn apply_result_has_no_operation_or_work_id() {
    let res = RunnerApplyPatchResult {
        status: PatchStatus::Applied,
        files: vec!["a.txt".into()],
        changes: vec![],
    };
    let RunnerApplyPatchResult { status, files, changes } = res;
    assert_eq!(status, PatchStatus::Applied);
    assert_eq!(files, ["a.txt"]);
    assert!(changes.is_empty());
}

#[test]
fn find_walk_truncated_cannot_return_retry_loop() {
    let paths = vec!["a".into(), "b".into()];
    let page = path_window(&paths, 2, 10, true);
    assert!(page.paths.is_empty());
    assert!(!page.truncated);
    assert!(page.incomplete);
    assert!(page.next_offset.is_none());
}

#[test]
fn encode_or_unstarted_write_is_before_dispatch() {
    let err = write_failure("encode failed", false);
    assert!(matches!(err, RunnerError::TransportBeforeDispatch { .. }), "{err:?}");
}

#[test]
fn rename_sides_are_classified_independently() {
    assert_eq!(
        map_rename_sides(Some("a.txt".into()), Some("b.txt".into())),
        Some(FsWatchKind::Rename { from: "a.txt".into(), to: "b.txt".into() })
    );
    assert_eq!(
        map_rename_sides(Some("a.txt".into()), None),
        Some(FsWatchKind::Remove { path: "a.txt".into() })
    );
    assert_eq!(
        map_rename_sides(None, Some("b.txt".into())),
        Some(FsWatchKind::Create { path: "b.txt".into() })
    );
    assert_eq!(map_rename_sides(None, None), None);
}

#[test]
fn exec_request_for_host_uses_runner_defaults() {
    let req = RunnerExecRequest::for_host(
        vec!["/bin/echo".into()],
        ProcessId("proc-1".into()),
        Profile::WorkspaceWrite,
        default_exec_timeout_ms(None),
    );
    assert_eq!(req.argv, ["/bin/echo"]);
    assert_eq!(req.process_id.0, "proc-1");
    assert_eq!(req.cwd, RunnerCwd::WorkspaceRoot);
    assert!(req.env.use_runner_defaults);
    assert!(req.env.overrides.is_empty());
    assert_eq!(req.timeout_ms, DEFAULT_TIMEOUT_MS);
    assert_eq!(req.output_bytes_cap, MAX_OUTPUT_BYTES as u64);
    assert!(!req.tty);
    assert_eq!(req.policy.workspace_profile, Profile::WorkspaceWrite);
    assert_eq!(req.policy.network, NetworkAxis::Restricted);
}

#[test]
fn exec_timeout_setting() {
    assert_eq!(default_exec_timeout_ms(Some("5")), 5000);
    assert_eq!(default_exec_timeout_ms(Some("0")), DEFAULT_TIMEOUT_MS);
    assert_eq!(default_exec_timeout_ms(Some("abc")), DEFAULT_TIMEOUT_MS);
    assert_eq!(default_exec_timeout_ms(Some("18446744073709551615")), u64::MAX);
    assert_eq!(max_processes(Some("3")), 3);
    assert_eq!(max_processes(Some("0")), 8);
    assert_eq!(max_processes(None), 8);
}

#[test]
fn runner_env_defaults() {
    let env = runner_local_exec_env(None, "/ws");
    assert_eq!(
        env,
        vec![
            ("HOME".to_string(), "/ws".to_string()),
            ("LANG".to_string(), "C".to_string()),
            ("PATH".to_string(), "/usr/bin:/bin:/usr/sbin:/sbin".to_string()),
        ]
    );
    assert_eq!(runner_local_exec_env(Some("/opt/bin"), "/ws")[2].1, "/opt/bin");
}

#[test]
fn runner_error_maps_to_timeout() {
    let body = RunnerError::before_dispatch("x").into_error_body();
    assert_eq!(body.code, ErrorCode::Timeout);
    assert_eq!(body.message, "runner transport failed before dispatch: x");
    let body = RunnerError::ambiguous("y").into_error_body();
    assert_eq!(body.message, "runner transport result is ambiguous: y");
    let inner = ErrorBody::new(ErrorCode::PathEscape, "no");
    assert_eq!(RunnerError::from(inner.clone()).into_error_body(), inner);
    assert_eq!(RunnerError::execution(inner.clone()).as_execution(), Some(&inner));
    assert_eq!(RunnerError::ambiguous("z").message(), "runner transport result is ambiguous: z");
}

#[test]
fn output_buffer_keeps_newest_and_reports_loss() {
    let mut out = OutputBuffer::new();
    out.append(b"hello ", 8);
    out.append(b"world", 8);
    assert_eq!(out.total(), 11);
    assert_eq!(out.dropped(), 3);
    let read = out.read(ProcessId("p".into()), 0).unwrap();
    assert_eq!(read.chunk, "lo world");
    assert_eq!(read.cursor, 11);
    assert!(read.output_lost);
    assert_eq!(read.retained_from, 3);
    assert!(!read.eof);
    out.mark_eof();
    let again = out.read(ProcessId("p".into()), 11).unwrap();
    assert_eq!(again.chunk, "");
    assert!(again.eof);
    out.mark_timed_out();
    let err = out.read(ProcessId("p".into()), 11).unwrap_err();
    assert_eq!(err.code, ErrorCode::Timeout);
}

#[test]
fn output_read_decodes_lossily() {
    let mut out = OutputBuffer::new();
    out.append(&[0x66, 0xff, 0x67], 100);
    let read = out.read(ProcessId("p".into()), 0).unwrap();
    assert_eq!(read.chunk, "f\u{fffd}g");
}

#[test]
fn table_evicts_expired_and_oldest_completed() {
    let policy = RetentionPolicy { ttl_ms: 100, max_completed: 1 };
    let mut t = ProcessTable::new();
    assert!(t.register("a", "ws", 0, policy, 8).is_ok());
    assert!(t.register("b", "ws", 0, policy, 8).is_ok());
    assert!(t.register("c", "ws", 0, policy, 8).is_ok());
    assert!(t.finish("a", 10));
    assert!(t.finish("b", 20));
    assert_eq!(t.live(), 1);
    t.evict(30, policy);
    assert_eq!(t.len(), 2);
    assert!(t.workspace_of("a", 30, policy).is_none());
    assert_eq!(t.workspace_of("b", 30, policy), Some("ws".to_string()));
    t.evict(200, policy);
    assert!(t.workspace_of("b", 200, policy).is_none());
    assert_eq!(t.ids_in_workspace("ws", 200, policy), vec!["c".to_string()]);
    assert_eq!(t.require("zz", 200, policy).unwrap_err().message, "unknown process_id `zz`");
}

#[test]
fn table_refuses_beyond_live_limit_and_reads_output() {
    let policy = RetentionPolicy::default();
    let mut t = ProcessTable::new();
    assert!(t.register("a", "ws", 0, policy, 1).is_ok());
    let err = t.register("b", "ws", 0, policy, 1).unwrap_err();
    assert_eq!(err.code, ErrorCode::WorkspaceBusy);
    assert_eq!(err.message, "live process limit reached");
    assert!(t.append_output("a", b"hi", 16));
    assert!(!t.append_output("zz", b"hi", 16));
    let read = t.read("a", 0, 0, policy).unwrap();
    assert_eq!(read.chunk, "hi");
    assert_eq!(read.process_id.0, "a");
    assert!(t.mark_timed_out("a"));
    assert_eq!(t.read("a", 2, 0, policy).unwrap_err().code, ErrorCode::Timeout);
    assert_eq!(t.read("nope", 0, 0, policy).unwrap_err().code, ErrorCode::ProcessNotFound);
    assert_eq!(t.output_total("a"), Some(2));
}

#[test]
fn spawn_plan_checks_and_defaults() {
    let ws = Workspace::new(WorkspaceId("demo".into()), "/ws".to_string(), Profile::WorkspaceWrite);
    let mut req = RunnerExecRequest::for_host(
        vec!["/bin/echo".into(), "hi".into()],
        ProcessId("p1".into()),
        Profile::WorkspaceWrite,
        0,
    );
    req.tty = true;
    req.output_bytes_cap = 0;
    let plan = plan_spawn(&ws, &req, Some("/bin")).unwrap();
    assert_eq!(plan.program, "/bin/echo");
    assert_eq!(plan.args, vec!["hi".to_string()]);
    assert_eq!(plan.cwd, "/ws");
    assert_eq!(plan.output_cap, 1);
    assert_eq!(plan.timeout_ms, 1);
    assert_eq!(plan.defaults.len(), 4);
    assert_eq!(plan.defaults[3], ("TERM".to_string(), "xterm".to_string()));
    req.argv = vec![String::new()];
    let err = plan_spawn(&ws, &req, None).unwrap_err();
    assert_eq!(err.code, ErrorCode::InvalidPatch);
    assert_eq!(err.message, "command must be a non-empty argv (no shell)");
}

#[test]
fn limits_and_windows() {
    assert_eq!(resolve_limit(None, 10, "find").unwrap(), 10);
    assert_eq!(resolve_limit(Some(3), 10, "find").unwrap(), 3);
    let err = resolve_limit(Some(0), DEFAULT_FIND_LIMIT, "find").unwrap_err();
    assert_eq!(err.code, ErrorCode::OutputLimit);
    assert_eq!(err.message, "find limit must be between 1 and 10000");
    assert!(resolve_limit(Some(11), 10, "read").is_err());
    assert_eq!(byte_window(b"abcdef", 2, 3), (b"cde".to_vec(), true));
    assert_eq!(byte_window(b"abcdef", 4, 10), (b"ef".to_vec(), false));
    assert_eq!(byte_window(b"abc", 3, 1), (vec![], false));
    let paths: Vec<String> = vec!["a".into(), "b".into(), "c".into()];
    let page = path_window(&paths, 0, 2, false);
    assert_eq!(page.paths, vec!["a".to_string(), "b".to_string()]);
    assert_eq!(page.next_offset, Some(2));
    let next = path_window(&paths, 2, 2, false);
    assert_eq!(next.paths, vec!["c".to_string()]);
    assert!(next.next_offset.is_none());
}

#[test]
fn globs() {
    assert!(glob_match("*", "x/y"));
    assert!(glob_match("*.rs", "src/lib.rs"));
    assert!(!glob_match("*.rs", "src/lib.rsx"));
    assert!(glob_match("lib.rs", "src/lib.rs"));
    assert!(!glob_match("ib.rs", "src/lib.rs"));
    assert!(glob_match("src/*", "src/lib.rs"));
    assert!(glob_match("**", "anything"));
}

#[test]
fn listing_version_includes_completeness() {
    let paths: Vec<String> = vec!["a.rs".into()];
    assert_ne!(listing_version(&paths, false), listing_version(&paths, true));
    assert!(listing_version(&paths, false).starts_with("sha256:"));
    assert_eq!(listing_version(&paths, false).len(), 7 + 64);
}

#[test]
fn find_sorts_filters_and_pages() {
    let walked = WalkResult {
        files: vec!["/r/b.rs".into(), "/r/a.rs".into(), "/r/x/c.txt".into(), "/r/0.rs".into()],
        truncated: false,
    };
    let res = find_listing("/r", &walked, Some("*.rs"), 0, 2).unwrap();
    assert_eq!(res.paths, vec!["0.rs".to_string(), "a.rs".to_string()]);
    assert!(res.truncated);
    assert_eq!(res.next_offset, Some(2));
    let all: Vec<String> = vec!["0.rs".into(), "a.rs".into(), "b.rs".into()];
    assert_eq!(res.listing_version, listing_version(&all, false));
    let outside = WalkResult { files: vec!["/elsewhere/a".into()], truncated: false };
    assert_eq!(find_listing("/r", &outside, None, 0, 10).unwrap_err().code, ErrorCode::PathEscape);
}

#[test]
fn read_window_versions_whole_file() {
    let r = read_window("dir\\a.txt", "가".as_bytes(), 0, 1);
    assert_eq!(r.path, "dir/a.txt");
    assert!(r.content_lossy);
    assert_eq!(r.byte_count, 1);
    assert_eq!(r.next_offset, Some(1));
    assert!(r.truncated);
    let whole = read_window("a.txt", b"hello", 0, 100);
    assert_eq!(whole.content, "hello");
    assert!(!whole.content_lossy);
    assert!(!whole.truncated);
    assert_eq!(
        whole.version,
        "sha256:2cf24dba5fb0a30e26e83b2ac5b9e29e1b161e5c1fa7425e73043362938b9824"
    );
}

#[test]
fn file_errors_keep_product_codes() {
    assert_eq!(fs_error_body(&FsError::NotFound).code, ErrorCode::FileNotFound);
    assert_eq!(fs_error_body(&FsError::NotDirectory).code, ErrorCode::PathNotDirectory);
    assert_eq!(fs_error_body(&FsError::SymlinkRejected).code, ErrorCode::SymlinkRejected);
    assert_eq!(fs_error_body(&FsError::NotRegularFile).code, ErrorCode::SpecialFileRejected);
    let io = fs_error_body(&FsError::Io("disk".into()));
    assert_eq!(io.code, ErrorCode::FileOperationFailed);
    assert_eq!(io.message, "disk");
    assert_eq!(version_when_unreadable(&FsError::NotFound).unwrap(), VERSION_ABSENT);
    assert!(version_when_unreadable(&FsError::NotDirectory).is_err());
    assert_eq!(check_entry(EntryKind::Symlink).unwrap_err().code, ErrorCode::SymlinkRejected);
    assert_eq!(check_entry(EntryKind::Special).unwrap_err().code, ErrorCode::SpecialFileRejected);
    assert!(check_entry(EntryKind::Plain).is_ok());
    let fifo = FileMeta { is_file: false, is_dir: false, is_symlink: false };
    assert_eq!(check_readable(fifo).unwrap_err().message, "not a regular file");
}

#[test]
fn watch_names_and_events() {
    assert_eq!(strip_under("/r", "/r/a/b.txt"), Some("a/b.txt".to_string()));
    assert_eq!(strip_under("/r", "/r"), None);
    assert_eq!(strip_under("/r", "/r/../x"), None);
    assert_eq!(strip_under("/r", "/other/a"), None);
    let roots = vec!["/canon".to_string(), "/link".to_string()];
    assert_eq!(workspace_relative_event_path(&roots, "/link/k.txt"), Some("k.txt".to_string()));
    assert_eq!(workspace_relative_event_path(&roots, "rel.txt"), Some("rel.txt".to_string()));
    assert_eq!(workspace_relative_event_path(&roots, "/outside.txt"), None);
    let names = vec![Some("a".to_string()), None];
    assert_eq!(
        event_kinds(NotifyKind::Rename(RenameMode::Both), false, &names),
        vec![FsWatchKind::Remove { path: "a".into() }]
    );
    assert_eq!(
        event_kinds(NotifyKind::Any, false, &vec![]),
        vec![FsWatchKind::ResyncRequired]
    );
    assert_eq!(event_kinds(NotifyKind::Access, false, &names), vec![]);
    assert_eq!(event_kinds(NotifyKind::Create, true, &names), vec![FsWatchKind::ResyncRequired]);
    let k = FsWatchKind::Rename { from: "a".into(), to: "b".into() };
    assert_eq!(k.paths(), vec!["a", "b"]);
    assert!(k.touches("b"));
    assert!(!FsWatchKind::ResyncRequired.touches("a"));
}

#[test]
fn watch_sequence_and_epochs() {
    let mut w = WatchState::new();
    let e1 = w.emit(FsWatchKind::Modify { path: "a".into() });
    let e2 = w.force_resync();
    assert_eq!((e1.epoch, e1.seq), (1, 1));
    assert_eq!((e2.epoch, e2.seq), (1, 2));
    let r = w.restarted();
    assert_eq!((r.epoch, r.seq), (2, 1));
    let f = w.restart_failed();
    assert_eq!((f.epoch, f.seq), (2, 2));
}

#[test]
fn transport_outcomes() {
    assert!(matches!(write_failure("x", true), RunnerError::TransportAmbiguous { .. }));
    assert_eq!(decode_response(Some(true), Some(5u32), None).unwrap(), 5);
    let missing = decode_response::<u32>(Some(true), None, None).unwrap_err();
    assert_eq!(missing.into_error_body().message, "runner rpc missing result");
    let failed = decode_response::<u32>(Some(false), Some(1), None).unwrap_err();
    assert_eq!(failed.into_error_body().message, "runner rpc failed");
    let (res, close) = settle_reply::<u32>(ReplyWait::DeadlineExceeded);
    assert!(close);
    assert!(matches!(res, Err(RunnerError::TransportAmbiguous { .. })));
    let (ok, close) = hello_outcome(1, Ok(HelloReply::Hello { protocol: 1 }));
    assert!(ok.is_ok() && !close);
    let (bad, close) = hello_outcome(1, Ok(HelloReply::Hello { protocol: 99 }));
    assert!(matches!(bad, Err(RunnerError::TransportBeforeDispatch { .. })) && close);
    let (lost, close) = hello_outcome(1, Err(RunnerError::before_dispatch("gone")));
    assert!(lost.is_err() && !close);
    assert_eq!(request_id(7), "rrpc-7");
}

#[test]
fn wire_responses() {
    let ok = wire_response(3, Ok(RunnerOpResult::Terminate));
    assert!(ok.ok && ok.error.is_none() && ok.id == 3);
    let err = wire_response(4, Err(RunnerError::ambiguous("lost")));
    assert!(!err.ok);
    assert_eq!(err.error.unwrap().code, ErrorCode::Timeout);
    let bad = invalid_request("eof");
    assert_eq!(bad.id, 0);
    assert_eq!(bad.error.unwrap().message, "invalid runner rpc: eof");
}

#[test]
fn socket_rendezvous() {
    assert_eq!(runner_socket_path("/run/x"), "/run/x/runner.sock");
    assert_eq!(runner_socket_path("/run/x/"), "/run/x/runner.sock");
    let bases = forbidden_runner_bases(Some("/home/me"));
    assert!(is_forbidden_runner_dir("/tmp/", &bases));
    assert!(is_forbidden_runner_dir("/home/me", &bases));
    assert!(is_forbidden_runner_dir("/", &bases));
    assert!(!is_forbidden_runner_dir("/tmp/run-1", &bases));
    assert_eq!(forbidden_runner_bases(Some("")).len(), 3);
}

#[test]
fn compose_marker_check() {
    assert!(compose_allows_marker("volumes: - /var/run/docker.sock:/x", "/var/run/docker.sock"));
    assert!(!compose_allows_marker("user: \"10001:10001\"", "$HOME"));
}

#[test]
fn reader_steps_route_frames() {
    assert!(matches!(
        reader_step(Frame::ProcessExited { process_id: "p".into() }),
        ReaderStep::Notify(id) if id == "p"
    ));
    assert!(matches!(
        reader_step(Frame::Response { request_id: Some("rrpc-1".into()) }),
        ReaderStep::Deliver(id) if id == "rrpc-1"
    ));
    assert!(matches!(reader_step(Frame::Request), ReaderStep::Ignore));
    match reader_step(Frame::Invalid { error: "bad".into() }) {
        ReaderStep::FailAll(RunnerError::TransportAmbiguous { message }) => {
            assert_eq!(message, "invalid runner rpc: bad")
        }
        _ => panic!("expected an ambiguous failure"),
    }
    assert!(matches!(reader_step(Frame::Closed), ReaderStep::FailAll(_)));
}

#[test]
fn reclaim_decisions() {
    assert_eq!(reclaim_step(ConnectProbe::Live), ReclaimStep::InUse);
    assert_eq!(reclaim_step(ConnectProbe::NotFound), ReclaimStep::Free);
    assert_eq!(reclaim_step(ConnectProbe::Refused), ReclaimStep::Unlink);
    assert_eq!(reclaim_step(ConnectProbe::Failed), ReclaimStep::FreeIfGone);
}

#[test]
fn settled_response_is_the_decoded_reply() {
    let (res, close) =
        settle_reply::<u32>(ReplyWait::Response { ok: Some(true), result: Some(7), error: None });
    assert_eq!(res.unwrap(), 7);
    assert!(!close);
    let body = ErrorBody::new(ErrorCode::VersionConflict, "version conflict for a.txt");
    let (res, close) = settle_reply::<u32>(ReplyWait::Response {
        ok: Some(false),
        result: None,
        error: Some(body.clone()),
    });
    assert_eq!(res.unwrap_err(), RunnerError::Execution(body));
    assert!(!close);
}

#[test]
fn walk_budget_stops_at_each_bound() {
    let mut b = WalkBudget::new(1, 2, 3);
    assert!(b.enter_directory());
    assert!(b.enter_directory());
    assert!(!b.enter_directory());
    assert!(b.truncated);
    let mut b = WalkBudget::new(1, 2, 1);
    assert!(b.see_entry());
    assert!(!b.truncated);
    assert!(!b.see_entry());
    assert!(b.truncated);
    let mut b = WalkBudget::new(1, 2, 3);
    assert!(b.may_descend(1));
    assert!(!b.truncated);
    assert!(!b.may_descend(2));
    assert!(b.truncated);
}

#[test]
fn sandbox_rooted_elsewhere_resolves_there() {
    let ws = Workspace::new(WorkspaceId("w".into()), "/link".to_string(), Profile::WorkspaceWrite);
    let sandbox = codespace::runner::sandboxing::PathSandbox::new(ws);
    let moved = sandbox.rooted_at("/real/ws".to_string());
    assert_eq!(moved.root(), "/real/ws");
    assert_eq!(moved.locate("a/b.txt").unwrap(), "/real/ws/a/b.txt");
    assert_eq!(moved.locate("../x").unwrap_err().code, ErrorCode::PathEscape);
}
