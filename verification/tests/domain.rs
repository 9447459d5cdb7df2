use codespace::domain::error::{classify_http_status, ErrorBody, ErrorCode, FailureClass, TRANSPORT_FAILURE_IS_NOT_OPERATION};
use codespace::domain::ids::{IntentId, OperationId, ProcessId, WorkId};
use codespace::domain::info::workspace_info;
use codespace::domain::intent::{DeliveryPolicy, IntentKind, IntentState};
use codespace::domain::profile::Profile;
use codespace::domain::tools::{
    live_tools, SERVER_NAME, SERVER_VERSION, TOOL_WORKSPACE_INFO, TRANSPORT_STDIO,
    TRANSPORT_STREAMABLE_HTTP,
};
use codespace::domain::work::WorkState;

#[test]
fn http_401_is_transport_not_operation() {
    assert_eq!(classify_http_status(401), FailureClass::Transport);
    assert!(TRANSPORT_FAILURE_IS_NOT_OPERATION);
    let body = ErrorBody::new(ErrorCode::Unauthorized, "not used for bearer 401");
    assert!(body.operation_id.is_none());
}

#[test]
fn ids_are_distinct_types() {
    let op = OperationId("op-1".into());
    let proc = ProcessId("proc-1".into());
    assert_ne!(op.0, proc.0);
    let work = WorkId("work-1".into());
    let intent = IntentId("fb-1".into());
    assert_ne!(work.0, intent.0);
}

#[test]
fn workspace_info_contract_fields() {
    let info = workspace_info(None);
    assert!(!info.internal_model_calls);
    assert!(!info.workspace_id_is_credential);
    assert!(info.tools_exposed.iter().any(|s| s == TOOL_WORKSPACE_INFO));
    assert_eq!(
        info.tools_exposed,
        live_tools().iter().map(|s| (*s).to_string()).collect::<Vec<_>>()
    );
    assert_eq!(info.transports, vec![TRANSPORT_STDIO, TRANSPORT_STREAMABLE_HTTP]);
    assert_eq!(info.workspace_id, None);
    assert_eq!(info.server, SERVER_NAME);
    assert_eq!(info.version, SERVER_VERSION);
}

#[test]
fn workspace_id_is_echoed_not_trusted() {
    let info = workspace_info(Some("demo".into()));
    assert_eq!(info.workspace_id.as_deref(), Some("demo"));
    assert!(!info.workspace_id_is_credential);
}

#[test]
fn default_delivery_is_after_current_work() {
    assert_eq!(DeliveryPolicy::default(), DeliveryPolicy::AfterCurrentWork);
    assert!(!DeliveryPolicy::AfterCurrentWork.claimable_in(WorkState::Active));
    assert!(DeliveryPolicy::AfterCurrentWork.claimable_in(WorkState::Closing));
    assert!(DeliveryPolicy::NextCheckpoint.claimable_in(WorkState::Active));
    assert!(!DeliveryPolicy::NextWork.claimable_in(WorkState::Active));
    assert!(!DeliveryPolicy::NextWork.claimable_in(WorkState::Closing));
}

#[test]
fn draft_is_editable_claimed_is_not() {
    assert!(IntentState::Draft.is_editable());
    assert!(IntentState::Queued.is_editable());
    assert!(!IntentState::Claimed.is_editable());
}

#[test]
fn default_is_read_only() {
    assert_eq!(Profile::default(), Profile::ReadOnly);
    assert!(!Profile::ReadOnly.allows_mutation());
    assert!(Profile::WorkspaceWrite.allows_mutation());
}

#[test]
fn state_names_parse_back() {
    for s in [
        IntentState::Draft,
        IntentState::Queued,
        IntentState::Claimed,
        IntentState::Done,
        IntentState::Blocked,
        IntentState::Cancelled,
        IntentState::Superseded,
    ] {
        assert_eq!(IntentState::parse(s.as_str()), Some(s));
    }
    for w in [WorkState::Active, WorkState::Closing, WorkState::Closed, WorkState::Cancelled] {
        assert_eq!(WorkState::parse(w.as_str()), Some(w));
    }
    for k in [IntentKind::FollowUp, IntentKind::Note, IntentKind::StopNotice] {
        assert_eq!(IntentKind::parse(k.as_str()), Some(k));
    }
    assert_eq!(IntentState::parse("nope"), None);
    assert_eq!(DeliveryPolicy::parse("next_work"), Some(DeliveryPolicy::NextWork));
}
