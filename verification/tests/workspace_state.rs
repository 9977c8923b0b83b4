use rust_lsp_mcp::client_config::default_workspace_configuration;
use rust_lsp_mcp::json::JsonValue;
use rust_lsp_mcp::rpc::{JsonRpcId, ServerRequest, SessionEvent};
use rust_lsp_mcp::workspace::{
    configuration_response, lookup_config_section, WorkspaceLoadingState, WorkspaceSessionError,
    WorkspaceSessionPhase, WorkspaceState,
};

fn object(members: Vec<(&str, JsonValue)>) -> JsonValue {
    JsonValue::Object(members.into_iter().map(|(k, v)| (k.to_owned(), v)).collect())
}

fn text(s: &str) -> JsonValue {
    JsonValue::Str(s.to_owned())
}

fn ready_state() -> WorkspaceState {
    let mut state = WorkspaceState::new("/workspace".to_owned(), default_workspace_configuration());
    state.begin_initialize().expect("begin");
    state.complete_initialize(object(vec![]), None);
    state
}

#[test]
fn workspace_session_rejects_requests_before_initialize() {
    let state = WorkspaceState::new("/workspace".to_owned(), default_workspace_configuration());
    let error = state.ensure_ready("request").expect_err("request should fail before initialize");
    assert!(matches!(
        error,
        WorkspaceSessionError::InvalidPhase { ref operation, phase: WorkspaceSessionPhase::PreInitialize }
            if operation == "request"
    ));
}

#[test]
fn workspace_session_enters_failed_phase_when_initialize_fails() {
    let mut state = WorkspaceState::new("/workspace".to_owned(), default_workspace_configuration());
    state.begin_initialize().expect("begin");
    assert_eq!(state.phase(), WorkspaceSessionPhase::Initializing);
    state.fail_initialize();
    assert_eq!(state.phase(), WorkspaceSessionPhase::Failed);
    assert!(state.ready_state().is_none());

    let retry_error = state.begin_initialize().expect_err("failed session should reject initialize retries");
    assert!(matches!(
        retry_error,
        WorkspaceSessionError::InvalidPhase { ref operation, phase: WorkspaceSessionPhase::Failed }
            if operation == "initialize"
    ));
    assert_eq!(state.phase(), WorkspaceSessionPhase::Failed);
    assert!(state.ready_state().is_none());
}

#[test]
fn refused_initialize_keeps_the_ready_session() {
    let mut state = ready_state();
    assert!(state.begin_initialize().is_err());
    assert_eq!(state.phase(), WorkspaceSessionPhase::Ready);
    assert!(state.ready_state().is_some());
    assert!(matches!(state.workspace_configuration(), JsonValue::Object(_)));
}

#[test]
fn workspace_session_ignores_non_workspace_progress_tokens() {
    let mut state = WorkspaceState::new("/workspace".to_owned(), default_workspace_configuration());
    state.begin_initialize().expect("begin");
    state.update_loading_state(&text("rustAnalyzer/workspace"), &object(vec![("kind", text("begin"))]));
    assert!(matches!(state.loading_state(), WorkspaceLoadingState::InProgress { message: None }));
    state.update_loading_state(&text("rustAnalyzer/workspace"), &object(vec![("kind", text("end"))]));
    state.update_loading_state(
        &text("rustAnalyzer/Fetching"),
        &object(vec![("kind", text("begin")), ("message", text("metadata"))]),
    );
    state.complete_initialize(object(vec![]), None);
    let ready = state.ready_state().expect("ready state");
    assert!(matches!(ready.loading_state, WorkspaceLoadingState::Ready));
    assert!(matches!(state.loading_state(), WorkspaceLoadingState::Ready));
}

#[test]
fn workspace_progress_reports_keep_their_message() {
    let mut state = WorkspaceState::new("/workspace".to_owned(), default_workspace_configuration());
    state.update_loading_state(
        &text("rustAnalyzer/workspace"),
        &object(vec![("kind", text("report")), ("message", text("indexing"))]),
    );
    match state.loading_state() {
        WorkspaceLoadingState::InProgress { message } => assert_eq!(message.as_deref(), Some("indexing")),
        other => panic!("unexpected loading state: {other:?}"),
    }
    state.update_loading_state(&JsonValue::Int(7), &object(vec![("kind", text("end"))]));
    assert!(matches!(state.loading_state(), WorkspaceLoadingState::InProgress { .. }));
}

#[test]
fn rejects_non_monotonic_document_versions() {
    let mut state = ready_state();
    let document = state
        .begin_open("/workspace/main.rs", "rust".to_owned(), 5, "fn main() {}\n".to_owned())
        .expect("open");
    state.finish_open(document);
    let error = state.begin_change("/workspace/main.rs", 5).expect_err("non-monotonic version must fail");
    match error {
        WorkspaceSessionError::NonMonotonicDocumentVersion { current_version, new_version, .. } => {
            assert_eq!(current_version, 5);
            assert_eq!(new_version, 5);
        }
        other => panic!("unexpected error: {other:?}"),
    }
    let uri = state.begin_change("/workspace/main.rs", 6).expect("newer version");
    assert_eq!(uri, "file:///workspace/main.rs");
    state.finish_change("/workspace/main.rs", 6, "fn main() { unreachable!(); }\n".to_owned());
    let doc = state.document("/workspace/main.rs").expect("ready").expect("open document");
    assert_eq!(doc.version(), 6);
    assert_eq!(doc.text(), "fn main() { unreachable!(); }\n");
    assert_eq!(doc.language_id(), "rust");
}

#[test]
fn document_queries_require_ready_phase() {
    let state = WorkspaceState::new("/workspace".to_owned(), default_workspace_configuration());
    let document_error = state.document("/workspace/main.rs").expect_err("document lookup before initialize must fail");
    assert!(matches!(
        document_error,
        WorkspaceSessionError::InvalidPhase { ref operation, .. } if operation == "document"
    ));
    match state.open_documents() {
        Err(WorkspaceSessionError::InvalidPhase { ref operation, .. }) if operation == "open_documents" => {}
        Err(other) => panic!("unexpected error: {other:?}"),
        Ok(_) => panic!("document listing before initialize must fail"),
    }
}

#[test]
fn opening_twice_and_closing_unknown_documents_fail() {
    let mut state = ready_state();
    let document = state.begin_open("/workspace/a.rs", "rust".to_owned(), 1, String::new()).expect("open");
    state.finish_open(document);
    assert!(matches!(
        state.begin_open("/workspace/a.rs", "rust".to_owned(), 2, String::new()),
        Err(WorkspaceSessionError::DocumentAlreadyOpen { .. })
    ));
    assert!(matches!(state.begin_close("/workspace/b.rs"), Err(WorkspaceSessionError::DocumentNotOpen { .. })));
    assert!(matches!(state.begin_save("/workspace/b.rs"), Err(WorkspaceSessionError::DocumentNotOpen { .. })));
    assert!(matches!(state.begin_replace("/workspace/b.rs"), Err(WorkspaceSessionError::DocumentNotOpen { .. })));
    let (uri, next) = state.begin_replace("/workspace/a.rs").expect("replace");
    assert_eq!(uri, "file:///workspace/a.rs");
    assert_eq!(next, 2);
}

#[test]
fn opening_then_closing_restores_the_open_documents() {
    let mut state = ready_state();
    let first = state.begin_open("/workspace/keep.rs", "rust".to_owned(), 1, "k".to_owned()).expect("open");
    state.finish_open(first);
    let second = state.begin_open("/workspace/tmp.rs", "rust".to_owned(), 3, "t".to_owned()).expect("open");
    state.finish_open(second);
    assert_eq!(state.open_documents().expect("ready").len(), 2);
    assert_eq!(state.begin_close("/workspace/tmp.rs").expect("close"), "file:///workspace/tmp.rs");
    let closed = state.finish_close("/workspace/tmp.rs").expect("closed");
    assert_eq!(closed.path, "/workspace/tmp.rs");
    assert_eq!(closed.version(), 3);
    let docs = state.open_documents().expect("ready");
    assert_eq!(docs.len(), 1);
    assert_eq!(docs[0].path, "/workspace/keep.rs");
    assert!(state.finish_close("/workspace/tmp.rs").is_none());
}

#[test]
fn document_uris_fall_back_to_the_path_uri() {
    let state = ready_state();
    assert_eq!(state.workspace_uri(), "file:///workspace");
    assert_eq!(state.document_uri("/workspace/src/x y.rs"), "file:///workspace/src/x%20y.rs");
}

#[test]
fn startup_answers_configuration_requests_and_buffers_other_events() {
    let mut state = WorkspaceState::new("/workspace".to_owned(), default_workspace_configuration());
    state.begin_initialize().expect("begin");
    let request = SessionEvent::ServerRequest(ServerRequest {
        id: JsonRpcId::Integer(7),
        method: "workspace/configuration".to_owned(),
        params: Some(object(vec![(
            "items",
            JsonValue::Array(vec![
                object(vec![("section", text("rust-analyzer.files"))]),
                object(vec![("section", text("missing"))]),
            ]),
        )])),
    });
    let (id, reply) = state.handle_startup_event(request).expect("answered");
    assert!(matches!(id, JsonRpcId::Integer(7)));
    match reply {
        JsonValue::Array(items) => {
            assert_eq!(items.len(), 2);
            assert_eq!(items[0].get("watcher").and_then(|w| w.as_str()), Some("client"));
            assert!(matches!(items[1], JsonValue::Null));
        }
        other => panic!("unexpected reply: {other:?}"),
    }
    let note = SessionEvent::Notification { method: "custom/ready".to_owned(), params: None };
    assert!(state.handle_startup_event(note).is_none());
    state.complete_initialize(object(vec![]), None);
    assert!(state.ready_state().expect("ready").configuration_requested);
    match state.pop_buffered_event() {
        Some(SessionEvent::Notification { method, .. }) => assert_eq!(method, "custom/ready"),
        other => panic!("unexpected buffered event: {other:?}"),
    }
    assert!(state.pop_buffered_event().is_none());
}

#[test]
fn configuration_sections_are_looked_up_by_dotted_path() {
    let config = default_workspace_configuration();
    assert!(matches!(lookup_config_section(&config, None), Some(JsonValue::Object(_))));
    assert!(matches!(lookup_config_section(&config, Some("")), Some(JsonValue::Object(_))));
    assert!(matches!(
        lookup_config_section(&config, Some("rust-analyzer.checkOnSave")),
        Some(JsonValue::Bool(true))
    ));
    assert!(lookup_config_section(&config, Some("rust-analyzer.nothing")).is_none());
    let reply = configuration_response(&config, None);
    assert!(matches!(reply, JsonValue::Array(ref items) if items.is_empty()));
}
