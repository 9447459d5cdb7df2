use codespace::patch::helper::HelperSuccess;
use codespace::patch::txn::{start as txn_start, step as txn_step, TxnEvent, TxnPhase, TxnStep};
use codespace::policy::environment::EnvironmentKind;
use codespace::runner::api::RunnerApplyPatchRequest;
use codespace::domain::patch::FileChange;
use codespace::patch::helper::{helper_op, helper_response};
use codespace::patch::plan::ApplyOutcome;
use codespace::domain::error::ErrorBody;
use codespace::filesys::nofollow_steps;
use codespace::domain::error::ErrorCode;
use codespace::domain::ids::WorkspaceId;
use codespace::domain::patch::{FileChangeKind, PatchStatus};
use codespace::domain::profile::Profile;
use codespace::filesys::{classify_io_error, FileMeta, FsError, IoErrorKind};
use codespace::order::sort_strings;
use codespace::patch::helper::{helper_outcome, HelperResponse};
use codespace::patch::plan::{
    parse_and_policy, plan_files, planned_change, preflight, relative_files, Hunk, HunkFacts,
    PathFacts, UpdateChunk,
};
use codespace::patch::txn::{check_version, failure_status, restore_action, snapshot_capture, FileSnapshot, RestoreAction};
use codespace::policy::workspace::Workspace;

fn ws() -> Workspace {
    Workspace::new(WorkspaceId("demo".into()), "/ws".to_string(), Profile::WorkspaceWrite)
}

fn clear() -> HunkFacts {
    HunkFacts {
        path: PathFacts { exists: false, symlink: None },
        move_to: PathFacts { exists: false, symlink: None },
    }
}

#[test]
fn plan_add_update_move_delete() {
    let hunks = vec![
        Hunk::AddFile { path: "new.txt".into() },
        Hunk::UpdateFile { path: "a.txt".into(), move_path: Some("b.txt".into()), chunks: vec![] },
        Hunk::DeleteFile { path: "dir\\old.txt".into() },
    ];
    let facts = vec![clear(), clear(), clear()];
    let plan = plan_files(&ws(), &hunks, &facts).unwrap();
    let kinds: Vec<FileChangeKind> = plan.iter().map(|p| p.kind).collect();
    assert_eq!(
        kinds,
        vec![FileChangeKind::Add, FileChangeKind::Delete, FileChangeKind::Move, FileChangeKind::Delete]
    );
    assert_eq!(plan[0].abs, "/ws/new.txt");
    assert_eq!(plan[3].relative, "dir/old.txt");
    assert_eq!(
        parse_and_policy(&ws(), &hunks, &facts).unwrap(),
        vec!["/ws/new.txt", "/ws/a.txt", "/ws/b.txt", "/ws/dir\\old.txt"]
    );
}

#[test]
fn add_file_existing_is_rejected() {
    let hunks = vec![Hunk::AddFile { path: "a.txt".into() }];
    let mut f = clear();
    f.path.exists = true;
    let err = plan_files(&ws(), &hunks, &vec![f]).unwrap_err();
    assert_eq!(err.code, ErrorCode::AddFileExists);
    assert_eq!(err.message, "a.txt already exists");
}

#[test]
fn parse_rejects_path_escape_and_symlinks() {
    let hunks = vec![Hunk::DeleteFile { path: "../x".into() }];
    assert_eq!(plan_files(&ws(), &hunks, &vec![clear()]).unwrap_err().code, ErrorCode::PathEscape);
    let hunks = vec![Hunk::DeleteFile { path: "x".into() }];
    let mut f = clear();
    f.path.symlink = Some("/ws/link".into());
    let err = plan_files(&ws(), &hunks, &vec![f]).unwrap_err();
    assert_eq!(err.code, ErrorCode::SymlinkRejected);
    assert_eq!(err.message, "/ws/link is a symlink");
    let hunks = vec![Hunk::UpdateFile { path: "a".into(), move_path: Some("b".into()), chunks: vec![] }];
    let mut f = clear();
    f.move_to.exists = true;
    assert_eq!(plan_files(&ws(), &hunks, &vec![f]).unwrap_err().code, ErrorCode::MoveDestinationExists);
}

#[test]
fn context_mismatch_on_later_file_is_reported() {
    let hunks = vec![
        Hunk::UpdateFile {
            path: "a.txt".into(),
            move_path: None,
            chunks: vec![UpdateChunk { old_lines: vec!["one".into(), "two".into()] }],
        },
        Hunk::UpdateFile {
            path: "b.txt".into(),
            move_path: None,
            chunks: vec![UpdateChunk { old_lines: vec!["gone".into()] }],
        },
    ];
    let facts = vec![clear(), clear()];
    let bodies = vec!["zero\r\none\r\ntwo\r\n".to_string(), "here".to_string()];
    let err = preflight(&ws(), &hunks, &facts, &bodies).unwrap_err();
    assert_eq!(err.code, ErrorCode::InvalidPatch);
    assert_eq!(err.message, "context mismatch in b.txt");
    let ok_bodies = vec!["one\ntwo".to_string(), "x gone y".to_string()];
    assert_eq!(preflight(&ws(), &hunks, &facts, &ok_bodies).unwrap().len(), 2);
}

#[test]
fn relative_files_and_changes() {
    let files = vec!["/ws/a.txt".to_string(), "/other/b".to_string(), "/ws/d/c".to_string()];
    assert_eq!(relative_files("/ws", &files), vec!["a.txt".to_string(), "d/c".to_string()]);
    let hunks = vec![Hunk::AddFile { path: "n.txt".into() }, Hunk::DeleteFile { path: "d.txt".into() }];
    let plan = plan_files(&ws(), &hunks, &vec![clear(), clear()]).unwrap();
    let added = planned_change(&plan[0], Some(b"hello"));
    assert_eq!(
        added.after_version.as_deref(),
        Some("sha256:2cf24dba5fb0a30e26e83b2ac5b9e29e1b161e5c1fa7425e73043362938b9824")
    );
    assert!(planned_change(&plan[1], Some(b"x")).after_version.is_none());
    assert!(planned_change(&plan[0], None).after_version.is_none());
}

#[test]
fn helper_answers() {
    let ok = HelperResponse { ok: true, files: Some(vec!["a".into()]), changes: None, code: None, message: None };
    let s = helper_outcome(10, b"", true, Ok(ok)).unwrap();
    assert_eq!(s.files, vec!["a".to_string()]);
    assert!(s.changes.is_empty());
    let refused = HelperResponse { ok: false, files: None, changes: None, code: Some(ErrorCode::VersionConflict), message: None };
    let e = helper_outcome(10, b"", true, Ok(refused)).unwrap_err();
    assert_eq!(e.code, ErrorCode::VersionConflict);
    assert_eq!(e.message, "patch helper failed");
    let e = helper_outcome(10, b"boom", false, Err("x".into())).unwrap_err();
    assert_eq!(e.message, "boom");
    let e = helper_outcome(2_000_000, b"", true, Err("x".into())).unwrap_err();
    assert_eq!(e.code, ErrorCode::OutputLimit);
    let e = helper_outcome(1, b"", true, Err("bad".into())).unwrap_err();
    assert_eq!(e.message, "patch helper returned invalid JSON: bad");
}

#[test]
fn transaction_decisions() {
    assert!(check_version("a.txt", "sha256:1", "sha256:1").is_ok());
    let e = check_version("a.txt", "sha256:1", "sha256:2").unwrap_err();
    assert_eq!(e.code, ErrorCode::VersionConflict);
    assert_eq!(e.message, "version conflict for a.txt");
    assert_eq!(failure_status(true), PatchStatus::FailedRolledBack);
    assert_eq!(failure_status(false), PatchStatus::FailedPartial);
    let file = FileMeta { is_file: true, is_dir: false, is_symlink: false };
    assert_eq!(snapshot_capture(&Ok(file)).unwrap(), true);
    assert_eq!(snapshot_capture(&Err(FsError::NotFound)).unwrap(), false);
    assert!(snapshot_capture(&Err(FsError::NotDirectory)).is_err());
    let snap = FileSnapshot { relative: "n".into(), existed: false, content: None, mode: None };
    assert_eq!(restore_action(&snap, &Ok(file)).unwrap(), RestoreAction::Remove);
    assert_eq!(restore_action(&snap, &Err(FsError::NotFound)).unwrap(), RestoreAction::Nothing);
}

#[test]
fn io_errors_are_classified() {
    assert_eq!(classify_io_error(IoErrorKind::NotFound, "x"), FsError::NotFound);
    assert_eq!(classify_io_error(IoErrorKind::Other, "Not A Directory"), FsError::NotDirectory);
    assert_eq!(classify_io_error(IoErrorKind::Other, "Too many levels of symbolic links"), FsError::SymlinkRejected);
    assert_eq!(classify_io_error(IoErrorKind::Other, "path is not a regular file"), FsError::NotRegularFile);
    assert_eq!(classify_io_error(IoErrorKind::Other, "disk full"), FsError::Io("disk full".into()));
}

#[test]
fn strings_sort_by_code_point() {
    let v = sort_strings(vec!["b".into(), "a.rs".into(), "a".into(), "Z".into(), "a".into()]);
    assert_eq!(v, vec!["Z", "a", "a", "a.rs", "b"]);
}

#[test]
fn helper_ops_and_answers() {
    assert_eq!(helper_op("preflight", false).unwrap(), true);
    assert_eq!(helper_op("apply", false).unwrap(), false);
    let e = helper_op("frob", false).unwrap_err();
    assert_eq!(e.message, "unknown helper op frob");
    let ok = helper_response(Ok(ApplyOutcome { files: vec!["a".into()], changes: vec![] }));
    let back = helper_outcome(10, b"", true, Ok(ok)).unwrap();
    assert_eq!(back.files, vec!["a".to_string()]);
    let refused = helper_response(Err(ErrorBody::new(ErrorCode::PathEscape, "no")));
    let back = helper_outcome(10, b"", true, Ok(refused)).unwrap_err();
    assert_eq!(back.code, ErrorCode::PathEscape);
    assert_eq!(back.message, "no");
}

#[test]
fn nofollow_steps_split_the_path() {
    let (dirs, leaf) = nofollow_steps("/a/./b/c.txt").unwrap();
    assert_eq!(dirs, vec!["a".to_string(), "b".to_string()]);
    assert_eq!(leaf, "c.txt");
    assert_eq!(
        nofollow_steps("rel").unwrap_err(),
        FsError::Io("no-follow filesystem operations require an absolute path".into())
    );
    assert_eq!(
        nofollow_steps("/a/../b").unwrap_err(),
        FsError::Io("no-follow filesystem operations require a normalized path".into())
    );
    assert_eq!(nofollow_steps("/").unwrap_err(), FsError::Io("path must name an entry".into()));
}

fn request(versions: &[(&str, &str)], check_only: bool) -> RunnerApplyPatchRequest {
    RunnerApplyPatchRequest {
        patch: "*** Begin Patch\n*** End Patch\n".into(),
        expected_versions: versions.iter().map(|(p, v)| (p.to_string(), v.to_string())).collect(),
        check_only,
    }
}

fn success(files: &[&str]) -> HelperSuccess {
    HelperSuccess { files: files.iter().map(|f| f.to_string()).collect(), changes: vec![] }
}

fn added(path: &str) -> FileChange {
    FileChange {
        path: path.into(),
        before_version: None,
        after_version: Some("sha256:x".into()),
        kind: FileChangeKind::Add,
    }
}

#[test]
fn txn_version_mismatch_refuses_before_helper() {
    let (mut t, s) = txn_start(&ws(), &request(&[("a.txt", "sha256:a"), ("b.txt", "sha256:b")], false));
    assert!(matches!(s, TxnStep::ReadVersion { ref path } if path == "a.txt"));
    let s = txn_step(&mut t, TxnEvent::Version(Ok("sha256:a".into())));
    assert!(matches!(s, TxnStep::ReadVersion { ref path } if path == "b.txt"));
    match txn_step(&mut t, TxnEvent::Version(Ok("sha256:other".into()))) {
        TxnStep::Finish(Err(e)) => {
            assert_eq!(e.code, ErrorCode::VersionConflict);
            assert_eq!(e.message, "version conflict for b.txt");
        }
        _ => panic!("expected a version conflict"),
    }
    assert_eq!(t.phase, TxnPhase::Finished);
}

#[test]
fn txn_unreadable_version_finishes_with_that_error() {
    let (mut t, _) = txn_start(&ws(), &request(&[("a.txt", "sha256:a")], false));
    let err = ErrorBody::new(ErrorCode::SymlinkRejected, "symlink files are rejected");
    match txn_step(&mut t, TxnEvent::Version(Err(err.clone()))) {
        TxnStep::Finish(Err(e)) => assert_eq!(e, err),
        _ => panic!("expected the read error"),
    }
}

#[test]
fn txn_check_only_finishes_checked_without_apply() {
    let (mut t, s) = txn_start(&ws(), &request(&[], true));
    assert!(matches!(s, TxnStep::Preflight));
    let s = txn_step(&mut t, TxnEvent::Preflighted(Ok(success(&["new.txt"]))));
    assert!(matches!(s, TxnStep::Verify));
    match txn_step(&mut t, TxnEvent::Verified(Ok(vec![added("new.txt")]))) {
        TxnStep::Finish(Ok(r)) => {
            assert_eq!(r.status, PatchStatus::Checked);
            assert_eq!(r.files, vec!["new.txt".to_string()]);
            assert_eq!(r.changes, vec![added("new.txt")]);
        }
        _ => panic!("expected a checked result"),
    }
}

#[test]
fn txn_failed_apply_rolls_back_with_planned_files() {
    let (mut t, _) = txn_start(&ws(), &request(&[], false));
    let mut planned = success(&["a.txt", "b.txt"]);
    planned.changes = vec![added("b.txt")];
    let s = txn_step(&mut t, TxnEvent::Preflighted(Ok(planned)));
    match s {
        TxnStep::Snapshot { files } => assert_eq!(files, vec!["a.txt".to_string(), "b.txt".to_string()]),
        _ => panic!("expected a snapshot"),
    }
    let s = txn_step(&mut t, TxnEvent::Snapshotted(Ok(vec![])));
    assert!(matches!(s, TxnStep::Apply));
    let s = txn_step(&mut t, TxnEvent::Applied(Err(ErrorBody::new(ErrorCode::InvalidPatch, "boom"))));
    assert!(matches!(s, TxnStep::Restore));
    match txn_step(&mut t, TxnEvent::Restored(false)) {
        TxnStep::Finish(Ok(r)) => {
            assert_eq!(r.status, PatchStatus::FailedPartial);
            assert_eq!(r.files, vec!["a.txt".to_string(), "b.txt".to_string()]);
            assert_eq!(r.changes, vec![added("b.txt")]);
        }
        _ => panic!("expected a failure result"),
    }
}

#[test]
fn txn_complete_rollback_reports_rolled_back() {
    let (mut t, _) = txn_start(&ws(), &request(&[], false));
    txn_step(&mut t, TxnEvent::Preflighted(Ok(success(&["a.txt"]))));
    txn_step(&mut t, TxnEvent::Snapshotted(Ok(vec![])));
    txn_step(&mut t, TxnEvent::Applied(Err(ErrorBody::new(ErrorCode::InvalidPatch, "boom"))));
    match txn_step(&mut t, TxnEvent::Restored(true)) {
        TxnStep::Finish(Ok(r)) => assert_eq!(r.status, PatchStatus::FailedRolledBack),
        _ => panic!("expected a rolled-back result"),
    }
}

#[test]
fn txn_successful_apply_finishes_applied() {
    let (mut t, _) = txn_start(&ws(), &request(&[("a.txt", "sha256:a")], false));
    let s = txn_step(&mut t, TxnEvent::Version(Ok("sha256:a".into())));
    assert!(matches!(s, TxnStep::Preflight));
    txn_step(&mut t, TxnEvent::Preflighted(Ok(success(&["a.txt"]))));
    txn_step(&mut t, TxnEvent::Snapshotted(Ok(vec![])));
    let s = txn_step(&mut t, TxnEvent::Applied(Ok(success(&["a.txt", "c.txt"]))));
    assert!(matches!(s, TxnStep::Verify));
    match txn_step(&mut t, TxnEvent::Verified(Ok(vec![added("c.txt")]))) {
        TxnStep::Finish(Ok(r)) => {
            assert_eq!(r.status, PatchStatus::Applied);
            assert_eq!(r.files, vec!["a.txt".to_string(), "c.txt".to_string()]);
            assert_eq!(r.changes, vec![added("c.txt")]);
        }
        _ => panic!("expected an applied result"),
    }
}

#[test]
fn txn_refuses_unwritable_environment() {
    let mut w = ws();
    w.environment_kind = EnvironmentKind::LinuxContainer;
    let (t, s) = txn_start(&w, &request(&[("a.txt", "v")], false));
    assert_eq!(t.phase, TxnPhase::Finished);
    match s {
        TxnStep::Finish(Err(e)) => assert_eq!(e.code, ErrorCode::Unauthorized),
        _ => panic!("expected a refusal"),
    }
}
