use rmcp::model::ErrorCode;
use rust_lsp_mcp::json::JsonValue;
use rust_lsp_mcp::rpc::{ResponseError, SessionError, TimeSpan};
use rust_lsp_mcp::server::error::{ServerError, ServerErrorKind};
use rust_lsp_mcp::server::schema::{ToolExecutionSummary, ToolProgressPhase, ToolSemantics, WorkspaceEditSummary};
use rust_lsp_mcp::workspace::{WorkspaceSessionError, WorkspaceSessionPhase};

fn member<'a>(value: &'a JsonValue, key: &str) -> &'a JsonValue {
    value.get(key).expect("member present")
}

#[test]
fn tool_semantics_map_to_expected_rmcp_annotations() {
    let read_only = ToolSemantics::ReadOnly.annotations("Hover".to_owned());
    assert_eq!(read_only.title.as_deref(), Some("Hover"));
    assert_eq!(read_only.read_only_hint, Some(true));
    assert_eq!(read_only.destructive_hint, Some(false));
    assert_eq!(read_only.idempotent_hint, Some(true));
    assert_eq!(read_only.open_world_hint, Some(false));

    let mutating = ToolSemantics::Mutating {
        destructive: false,
        idempotent: true,
    }
    .annotations("Rename".to_owned());
    assert_eq!(mutating.read_only_hint, Some(false));
    assert_eq!(mutating.destructive_hint, Some(false));
    assert_eq!(mutating.idempotent_hint, Some(true));
    assert_eq!(mutating.open_world_hint, Some(false));
}

#[test]
fn destructive_mutations_are_annotated_as_destructive() {
    let hints = ToolSemantics::Mutating { destructive: true, idempotent: false }.hints();
    assert!(!hints.read_only);
    assert!(hints.destructive);
    assert!(!hints.idempotent);
    assert!(!hints.open_world);
    let annotations = ToolSemantics::Mutating { destructive: true, idempotent: false }.annotations("Rename Symbol".to_owned());
    assert_eq!(annotations.title.as_deref(), Some("Rename Symbol"));
    assert_eq!(annotations.destructive_hint, Some(true));
    assert_eq!(annotations.idempotent_hint, Some(false));
}

#[test]
fn server_error_maps_session_and_workspace_failures_into_stable_taxonomy() {
    let timeout = ServerError::from_session_error(SessionError::RequestTimeout {
        method: "textDocument/hover".to_owned(),
        timeout: TimeSpan::from_millis(250),
    });
    assert_eq!(timeout.kind, ServerErrorKind::Timeout);
    assert!(timeout.retriable);
    let timeout_data = timeout.to_error_data();
    assert_eq!(ErrorCode(timeout_data.code), ErrorCode(-32001));

    let invalid_phase = ServerError::from_workspace_error(WorkspaceSessionError::InvalidPhase {
        operation: "open_document".to_owned(),
        phase: WorkspaceSessionPhase::PreInitialize,
    });
    assert_eq!(invalid_phase.kind, ServerErrorKind::NotReady);
    assert!(invalid_phase.retriable);

    let missing_document = ServerError::from_workspace_error(WorkspaceSessionError::DocumentNotOpen {
        path: "/workspace/src/lib.rs".to_owned(),
    });
    assert_eq!(missing_document.kind, ServerErrorKind::DocumentNotAvailable);
    let error_data = missing_document.to_error_data();
    assert_eq!(ErrorCode(error_data.code), ErrorCode::RESOURCE_NOT_FOUND);
    assert_eq!(member(&error_data.data, "kind").as_str(), Some("document_not_available"));
}

#[test]
fn timeouts_report_the_duration_and_milliseconds() {
    let timeout = ServerError::from_session_error(SessionError::RequestTimeout {
        method: "textDocument/hover".to_owned(),
        timeout: TimeSpan::from_millis(250),
    });
    assert_eq!(timeout.message, "operation timed out after 250ms");
    assert_eq!(timeout.operation.as_deref(), Some("textDocument/hover"));
    let details = timeout.details.as_ref().expect("details");
    assert!(matches!(member(details, "timeout_ms"), JsonValue::Int(250)));

    let shutdown = ServerError::from_session_error(SessionError::ProcessExitTimeout {
        timeout: TimeSpan::from_millis(1500),
    });
    assert_eq!(shutdown.message, "operation timed out after 1.5s");
    assert_eq!(shutdown.operation.as_deref(), Some("shutdown"));
}

#[test]
fn every_session_failure_has_a_kind_and_message() {
    let cases: Vec<(SessionError, ServerErrorKind, &str, bool)> = vec![
        (SessionError::Protocol("bad frame".to_owned()), ServerErrorKind::Protocol, "bad frame", false),
        (SessionError::Disconnected, ServerErrorKind::Cancelled, "rust-analyzer session disconnected", true),
        (
            SessionError::ServerError(ResponseError { code: -32601, message: "no such method".to_owned(), data: None }),
            ServerErrorKind::Protocol,
            "rust-analyzer request failed: no such method",
            false,
        ),
        (SessionError::Spawn("not found".to_owned()), ServerErrorKind::Internal, "not found", false),
        (SessionError::Io("broken pipe".to_owned()), ServerErrorKind::Internal, "broken pipe", false),
        (SessionError::MissingPipe("stdin".to_owned()), ServerErrorKind::Internal, "child process missing stdin pipe", false),
        (SessionError::Json("expected value".to_owned()), ServerErrorKind::Protocol, "expected value", false),
    ];
    for (error, kind, message, retriable) in cases {
        let mapped = ServerError::from_session_error(error);
        assert_eq!(mapped.kind, kind);
        assert_eq!(mapped.message, message);
        assert_eq!(mapped.retriable, retriable);
        assert!(mapped.operation.is_none());
        assert!(mapped.details.is_none());
    }
}

#[test]
fn workspace_failures_keep_their_context() {
    let phase = ServerError::from_workspace_error(WorkspaceSessionError::InvalidPhase {
        operation: "hover".to_owned(),
        phase: WorkspaceSessionPhase::Failed,
    });
    assert_eq!(phase.message, "operation hover is invalid while workspace session is in phase Failed");
    assert_eq!(phase.operation.as_deref(), Some("hover"));

    let receiver = ServerError::from_workspace_error(WorkspaceSessionError::MissingEventReceiver);
    assert_eq!(receiver.kind, ServerErrorKind::Internal);
    assert_eq!(receiver.message, "workspace session is missing its event receiver");

    let already = ServerError::from_workspace_error(WorkspaceSessionError::DocumentAlreadyOpen {
        path: "/w/a.rs".to_owned(),
    });
    assert_eq!(already.kind, ServerErrorKind::DocumentNotAvailable);
    assert_eq!(already.message, "document is not available: /w/a.rs");
    let details = already.details.as_ref().expect("details");
    assert_eq!(member(details, "document_path").as_str(), Some("/w/a.rs"));

    let version = ServerError::from_workspace_error(WorkspaceSessionError::NonMonotonicDocumentVersion {
        path: "/w/a.rs".to_owned(),
        current_version: 5,
        new_version: -3,
    });
    assert_eq!(version.kind, ServerErrorKind::InvalidInput);
    assert_eq!(version.message, "document version must increase: current=5, new=-3");
    let details = version.details.as_ref().expect("details");
    assert!(matches!(member(details, "current_version"), JsonValue::Int(5)));
    assert!(matches!(member(details, "new_version"), JsonValue::Int(-3)));

    let invalid = ServerError::from_workspace_error(WorkspaceSessionError::InvalidResponse {
        method: "initialize".to_owned(),
        source: "missing field `capabilities`".to_owned(),
    });
    assert_eq!(invalid.kind, ServerErrorKind::Protocol);
    assert_eq!(invalid.message, "invalid response for initialize: missing field `capabilities`");
    assert_eq!(invalid.operation.as_deref(), Some("initialize"));

    let wrapped = ServerError::from_workspace_error(WorkspaceSessionError::Session(SessionError::Disconnected));
    assert_eq!(wrapped.kind, ServerErrorKind::Cancelled);
}

#[test]
fn error_kinds_have_stable_codes_and_names() {
    let cases = [
        (ServerErrorKind::InvalidInput, ErrorCode::INVALID_PARAMS, "invalid_input"),
        (ServerErrorKind::WorkspaceNotFound, ErrorCode::RESOURCE_NOT_FOUND, "workspace_not_found"),
        (ServerErrorKind::DocumentNotAvailable, ErrorCode::RESOURCE_NOT_FOUND, "document_not_available"),
        (ServerErrorKind::NotReady, ErrorCode::INVALID_REQUEST, "not_ready"),
        (ServerErrorKind::Cancelled, ErrorCode(-32800), "cancelled"),
        (ServerErrorKind::Timeout, ErrorCode(-32001), "timeout"),
        (ServerErrorKind::Protocol, ErrorCode::INTERNAL_ERROR, "protocol"),
        (ServerErrorKind::CapabilityUnsupported, ErrorCode(-32004), "capability_unsupported"),
        (ServerErrorKind::Internal, ErrorCode::INTERNAL_ERROR, "internal"),
    ];
    for (kind, code, name) in cases {
        assert_eq!(ErrorCode(kind.error_code()), code);
        assert_eq!(kind.name(), name);
    }
}

#[test]
fn error_data_carries_kind_operation_retriable_and_details() {
    let error = ServerError::workspace_not_found("/nowhere").with_operation("hover".to_owned());
    assert_eq!(error.message, "workspace root is not registered: /nowhere");
    let payload = error.to_error_data();
    assert_eq!(payload.message, "workspace root is not registered: /nowhere");
    assert_eq!(member(&payload.data, "kind").as_str(), Some("workspace_not_found"));
    assert_eq!(member(&payload.data, "operation").as_str(), Some("hover"));
    assert!(matches!(member(&payload.data, "retriable"), JsonValue::Bool(false)));
    let details = member(&payload.data, "details");
    assert_eq!(member(details, "workspace_root").as_str(), Some("/nowhere"));

    let plain = ServerError::capability_unsupported("no rename".to_owned()).to_error_data();
    assert!(matches!(member(&plain.data, "operation"), JsonValue::Null));
    assert!(matches!(member(&plain.data, "details"), JsonValue::Null));
    assert_eq!(plain.code, -32004);
}

#[test]
fn retriable_constructors_mark_retriable() {
    assert!(ServerError::not_ready("warming up".to_owned()).retriable);
    assert!(ServerError::cancelled("stop".to_owned()).retriable);
    assert!(!ServerError::protocol("bad".to_owned()).retriable);
    assert!(!ServerError::internal("oops".to_owned()).retriable);
    assert!(!ServerError::invalid_input("nope".to_owned()).retriable);
    let toggled = ServerError::new(ServerErrorKind::Internal, "x".to_owned()).retriable(true);
    assert!(toggled.retriable);
    let detailed = ServerError::internal("x".to_owned()).with_details(JsonValue::Bool(true));
    assert!(matches!(detailed.details, Some(JsonValue::Bool(true))));
}

#[test]
fn default_execution_summary_is_completed() {
    let summary = ToolExecutionSummary::default();
    assert_eq!(summary.progress_phase, ToolProgressPhase::Completed);
    assert!(summary.progress_message.is_none());
    assert!(summary.cancellation.is_none());
    assert!(WorkspaceEditSummary::default().changes.is_empty());
}
