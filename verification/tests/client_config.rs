use rust_lsp_mcp::client_config::{
    default_client_capabilities, default_initialization_options, default_workspace_configuration,
};
use rust_lsp_mcp::json::JsonValue;

fn at<'a>(value: &'a JsonValue, path: &[&str]) -> &'a JsonValue {
    path.iter().fold(value, |v, key| v.get(key).expect("member present"))
}

fn strings(value: &JsonValue) -> Vec<String> {
    match value {
        JsonValue::Array(items) => items.iter().map(|i| i.as_str().expect("string").to_owned()).collect(),
        other => panic!("not an array: {other:?}"),
    }
}

#[test]
fn client_capabilities_announce_encodings_and_extensions() {
    let caps = default_client_capabilities();
    assert_eq!(strings(at(&caps, &["general", "positionEncodings"])), vec!["utf-8", "utf-16", "utf-32"]);
    assert!(matches!(at(&caps, &["experimental", "serverStatusNotification"]), JsonValue::Bool(true)));
    assert!(matches!(at(&caps, &["workspace", "configuration"]), JsonValue::Bool(true)));
    assert!(matches!(at(&caps, &["textDocument", "synchronization", "willSave"]), JsonValue::Bool(false)));
    assert_eq!(strings(at(&caps, &["workspace", "workspaceEdit", "resourceOperations"])), vec!["create", "rename", "delete"]);
    assert_eq!(
        strings(at(&caps, &["textDocument", "codeAction", "codeActionLiteralSupport", "codeActionKind", "valueSet"])).len(),
        8
    );
}

#[test]
fn initialization_options_enable_build_scripts_and_proc_macros() {
    let options = default_initialization_options();
    assert!(matches!(at(&options, &["cargo", "buildScripts", "enable"]), JsonValue::Bool(true)));
    assert!(matches!(at(&options, &["cargo", "autoreload"]), JsonValue::Bool(true)));
    assert!(matches!(at(&options, &["procMacro", "enable"]), JsonValue::Bool(true)));
}

#[test]
fn workspace_configuration_watches_files_from_the_client() {
    let config = default_workspace_configuration();
    assert!(matches!(at(&config, &["rust-analyzer", "cargo", "autoreload"]), JsonValue::Bool(true)));
    assert!(matches!(at(&config, &["rust-analyzer", "checkOnSave"]), JsonValue::Bool(true)));
    assert_eq!(at(&config, &["rust-analyzer", "files", "watcher"]).as_str(), Some("client"));
    assert!(matches!(at(&config, &["rust-analyzer", "procMacro", "enable"]), JsonValue::Bool(true)));
}
