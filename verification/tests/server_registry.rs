use rust_lsp_mcp::server::error::ServerErrorKind;
use rust_lsp_mcp::server::state::{
    missing_session_config, must_spawn, normalize_workspace_root, operation_error, same_path,
    task_failure, workspace_root_is_absolute,
};
use rust_lsp_mcp::workspace::{WorkspaceSessionError, WorkspaceSessionPhase};

#[test]
fn workspace_session_reuses_existing_session_for_the_same_root() {
    let root = "/tmp/rust-lsp-mcp-session-reuse";
    assert!(must_spawn(None, root, WorkspaceSessionPhase::PreInitialize, false));
    assert!(!must_spawn(Some(root), root, WorkspaceSessionPhase::Ready, false));
}

#[test]
fn workspace_session_replaces_when_root_changes() {
    let one = "/tmp/rust-lsp-mcp-session-replace-one";
    let two = "/tmp/rust-lsp-mcp-session-replace-two";
    assert!(must_spawn(Some(one), two, WorkspaceSessionPhase::Ready, false));
    assert!(!must_spawn(Some(two), two, WorkspaceSessionPhase::Ready, false));
}

#[test]
fn unusable_sessions_are_replaced_even_for_the_same_root() {
    let root = "/tmp/w";
    assert!(must_spawn(Some(root), root, WorkspaceSessionPhase::Failed, false));
    assert!(must_spawn(Some(root), root, WorkspaceSessionPhase::Shutdown, false));
    assert!(must_spawn(Some(root), root, WorkspaceSessionPhase::Ready, true));
    assert!(!must_spawn(Some("/tmp/w/"), root, WorkspaceSessionPhase::Ready, false));
}

#[test]
fn workspace_session_returns_structured_errors_for_invalid_roots() {
    let relative_error = normalize_workspace_root("relative/root", None, false).expect_err("relative root should be rejected");
    assert_eq!(relative_error.kind, ServerErrorKind::InvalidInput);
    assert_eq!(relative_error.message, "workspace root must be an absolute path");

    let nonexistent = "/tmp/rust-lsp-mcp-nonexistent-root-that-does-not-exist";
    let nonexistent_error = normalize_workspace_root(nonexistent, None, false).expect_err("nonexistent root should be rejected");
    assert_eq!(nonexistent_error.kind, ServerErrorKind::InvalidInput);
    assert_eq!(
        nonexistent_error.message,
        "workspace root is not available on disk: /tmp/rust-lsp-mcp-nonexistent-root-that-does-not-exist"
    );
}

#[test]
fn workspace_roots_must_be_directories() {
    let file_error = normalize_workspace_root("/tmp/file.txt", Some("/private/tmp/file.txt".to_owned()), false)
        .expect_err("files are not workspaces");
    assert_eq!(file_error.message, "workspace root must point to a directory: /private/tmp/file.txt");
    let accepted = normalize_workspace_root("/tmp/w/../w", Some("/tmp/w".to_owned()), true).expect("directory");
    assert_eq!(accepted, "/tmp/w");
    assert!(workspace_root_is_absolute("/x"));
    assert!(!workspace_root_is_absolute("x"));
}

#[test]
fn paths_compare_by_components() {
    assert!(same_path("/a//b/./c", "/a/b/c/"));
    assert!(!same_path("/a/b", "/a/c"));
    assert!(!same_path("/a/b", "/a/b/c"));
    assert!(!same_path("a", "/a"));
}

#[test]
fn routing_failures_are_reported_with_the_operation() {
    let missing = missing_session_config();
    assert_eq!(missing.kind, ServerErrorKind::Internal);
    assert_eq!(missing.message, "workspace session config is not set");
    let failed = operation_error(
        WorkspaceSessionError::DocumentNotOpen { path: "/w/x.rs".to_owned() },
        "hover",
    );
    assert_eq!(failed.kind, ServerErrorKind::DocumentNotAvailable);
    assert_eq!(failed.operation.as_deref(), Some("hover"));
    let task = task_failure("references", "task panicked");
    assert_eq!(task.message, "workspace operation task failed: task panicked");
    assert_eq!(task.operation.as_deref(), Some("references"));
}
