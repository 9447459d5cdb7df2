use codespace::domain::error::ErrorCode;
use codespace::domain::ids::WorkspaceId;
use codespace::domain::profile::Profile;
use codespace::policy::environment::{
    require_exec, require_file_read, require_file_write, EnvironmentKind,
};
use codespace::policy::permission::{NetworkAxis, PermissionProfile};
use codespace::policy::path::resolve_path;
use codespace::policy::registry::Registry;
use codespace::policy::workspace::{Action, Workspace};

#[test]
fn host_supports_exec_and_file_ops() {
    assert!(EnvironmentKind::Host.exec_supported());
    assert!(EnvironmentKind::Host.file_read_supported());
    assert!(EnvironmentKind::Host.file_write_supported());
    assert!(require_exec(EnvironmentKind::Host).is_ok());
    assert!(require_file_read(EnvironmentKind::Host).is_ok());
    assert!(require_file_write(EnvironmentKind::Host).is_ok());
}

#[test]
fn linux_container_is_closed_failure() {
    assert!(!EnvironmentKind::LinuxContainer.exec_supported());
    assert!(!EnvironmentKind::LinuxContainer.file_read_supported());
    assert!(!EnvironmentKind::LinuxContainer.file_write_supported());
    let exec_err = require_exec(EnvironmentKind::LinuxContainer).unwrap_err();
    let exec_body = exec_err.into_error_body();
    assert_eq!(exec_body.code, ErrorCode::Unauthorized);
    assert!(exec_body.message.contains("linux-container"));
    assert!(exec_body.message.contains("exec path"));
    assert!(exec_body.operation_id.is_none());
    let read_err = require_file_read(EnvironmentKind::LinuxContainer).unwrap_err();
    let read_body = read_err.into_error_body();
    assert_eq!(read_body.code, ErrorCode::Unauthorized);
    assert!(read_body.message.contains("file-read path"));
    assert!(read_body.operation_id.is_none());
    let write_err = require_file_write(EnvironmentKind::LinuxContainer).unwrap_err();
    let write_body = write_err.into_error_body();
    assert_eq!(write_body.code, ErrorCode::Unauthorized);
    assert!(write_body.message.contains("file-write path"));
    assert!(write_body.operation_id.is_none());
}

#[test]
fn unknown_workspace_is_rejected() {
    let registry = Registry::new();
    let err = registry.get("nope").unwrap_err();
    assert_eq!(err.code, ErrorCode::WorkspaceNotFound);
}

#[test]
fn model_cannot_register_a_workspace() {
    let mut registry = Registry::new();
    assert!(registry.get("sneaky").is_err());
    registry.insert(Workspace::new(
        WorkspaceId("sneaky".into()),
        "/tmp/sneaky".to_string(),
        Profile::WorkspaceWrite,
    ));
    assert!(registry.get("sneaky").is_ok());
}

#[test]
fn read_only_maps_to_read_and_restricted_network() {
    let profile = PermissionProfile::from_workspace_profile(Profile::ReadOnly);
    assert!(profile.allows(Action::Read));
    assert!(!profile.allows(Action::Write));
    assert!(!profile.allows(Action::Exec));
    assert!(!profile.process_exec);
    assert_eq!(profile.network, NetworkAxis::Restricted);
}

#[test]
fn permission_workspace_write_allows_mutation() {
    let profile = PermissionProfile::from_workspace_profile(Profile::WorkspaceWrite);
    assert!(profile.allows(Action::Write));
    assert!(profile.allows(Action::Exec));
    assert!(profile.process_exec);
    assert_eq!(profile.network, NetworkAxis::Restricted);
}

#[test]
fn process_exec_is_independent_of_write_glob() {
    let mut profile = PermissionProfile::from_workspace_profile(Profile::WorkspaceWrite);
    profile.process_exec = false;
    assert!(profile.allows(Action::Write));
    assert!(!profile.allows(Action::Exec));
}

#[test]
fn network_axis_does_not_grant() {
    let mut profile = PermissionProfile::from_workspace_profile(Profile::ReadOnly);
    profile.network = NetworkAxis::Enabled;
    assert!(!profile.allows(Action::Write));
    assert!(!profile.allows(Action::Exec));
    assert!(profile.allows(Action::Read));
    profile.process_exec = true;
    assert!(profile.allows(Action::Exec));
    assert!(!profile.allows(Action::Write));
}

#[test]
fn resolved_paths_stay_under_the_root() {
    let ws = Workspace::new(WorkspaceId("demo".into()), "/srv/ws".to_string(), Profile::ReadOnly);
    assert_eq!(resolve_path(&ws, "src/./lib.rs").unwrap(), "/srv/ws/src/lib.rs");
    assert_eq!(resolve_path(&ws, "a/../b.txt").unwrap(), "/srv/ws/b.txt");
    assert_eq!(resolve_path(&ws, "../etc/passwd").unwrap_err().code, ErrorCode::PathEscape);
    assert_eq!(resolve_path(&ws, "/etc/passwd").unwrap_err().code, ErrorCode::PathEscape);
    assert_eq!(resolve_path(&ws, "").unwrap_err().code, ErrorCode::PathEscape);
}

#[test]
fn lookups_return_the_entry_for_the_id_asked() {
    let mut registry = Registry::new();
    registry.insert(Workspace::new(WorkspaceId("a".into()), "/a".to_string(), Profile::ReadOnly));
    registry.insert(Workspace::new(WorkspaceId("b".into()), "/b".to_string(), Profile::WorkspaceWrite));
    assert_eq!(registry.get("b").unwrap().id.0, "b");
    assert_eq!(registry.get("b").unwrap().root, "/b");
    assert_eq!(registry.environment("local").unwrap().id, "local");
    let err = registry.environment("remote").unwrap_err();
    assert_eq!(err.code, ErrorCode::Unauthorized);
    assert_eq!(err.message, "unknown environment `remote`");
}
