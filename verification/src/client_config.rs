//! The client side of the rust-analyzer handshake: the default client capabilities, the
//! default initialization options, and the default workspace configuration that answers
//! `workspace/configuration` requests. Object members are listed in key order.

use vstd::prelude::*;
use crate::json::{items_view, json_string, members_view, push_item, push_member, Json, JsonValue};

verus! {

/// A member holding a boolean.
pub open spec fn flag(key: Seq<char>, value: bool) -> (Seq<char>, Json) {
    (key, Json::Bool(value))
}

/// An array of strings.
pub open spec fn strings(items: Seq<Seq<char>>) -> Json {
    Json::Array(items.map_values(|s: Seq<char>| Json::Str(s)))
}

/// `{"enable": true}`.
pub open spec fn enabled() -> Json {
    Json::Object(seq![flag("enable"@, true)])
}

/// The cargo settings: reload when Cargo.toml changes and run build scripts.
pub open spec fn spec_cargo_settings() -> Json {
    Json::Object(seq![flag("autoreload"@, true), ("buildScripts"@, enabled())])
}

/// The default initialization options.
pub open spec fn spec_default_initialization_options() -> Json {
    Json::Object(seq![("cargo"@, spec_cargo_settings()), ("procMacro"@, enabled())])
}

/// The default workspace configuration, under the `rust-analyzer` section.
pub open spec fn spec_default_workspace_configuration() -> Json {
    Json::Object(seq![
        ("rust-analyzer"@, Json::Object(seq![
            ("cargo"@, spec_cargo_settings()),
            flag("checkOnSave"@, true),
            ("files"@, Json::Object(seq![("watcher"@, Json::Str("client"@))])),
            ("procMacro"@, enabled()),
        ])),
    ])
}

/// The code action kinds the client understands.
pub open spec fn code_action_kinds() -> Seq<Seq<char>> {
    seq![
        ""@,
        "quickfix"@,
        "refactor"@,
        "refactor.extract"@,
        "refactor.inline"@,
        "refactor.rewrite"@,
        "source"@,
        "source.organizeImports"@,
    ]
}

/// The default client capabilities.
pub open spec fn spec_default_client_capabilities() -> Json {
    Json::Object(seq![
        ("experimental"@, Json::Object(seq![
            flag("codeActionGroup"@, true),
            flag("hoverActions"@, true),
            flag("serverStatusNotification"@, true),
            flag("snippetTextEdit"@, true),
            flag("testExplorer"@, true),
        ])),
        ("general"@, Json::Object(seq![
            ("positionEncodings"@, strings(seq!["utf-8"@, "utf-16"@, "utf-32"@])),
        ])),
        ("textDocument"@, Json::Object(seq![
            ("codeAction"@, Json::Object(seq![
                ("codeActionLiteralSupport"@, Json::Object(seq![
                    ("codeActionKind"@, Json::Object(seq![("valueSet"@, strings(code_action_kinds()))])),
                ])),
            ])),
            ("completion"@, Json::Object(seq![
                ("completionItem"@, Json::Object(seq![flag("snippetSupport"@, true)])),
            ])),
            ("publishDiagnostics"@, Json::Object(seq![flag("relatedInformation"@, true)])),
            ("synchronization"@, Json::Object(seq![
                flag("didSave"@, true),
                flag("dynamicRegistration"@, false),
                flag("willSave"@, false),
                flag("willSaveWaitUntil"@, false),
            ])),
        ])),
        ("workspace"@, Json::Object(seq![
            flag("applyEdit"@, true),
            flag("configuration"@, true),
            ("didChangeWatchedFiles"@, Json::Object(seq![flag("dynamicRegistration"@, true)])),
            ("workspaceEdit"@, Json::Object(seq![
                ("resourceOperations"@, strings(seq!["create"@, "rename"@, "delete"@])),
            ])),
        ])),
    ])
}

fn enabled_value() -> (r: JsonValue)
    ensures
        r@ == enabled(),
{
    let mut m: Vec<(String, JsonValue)> = Vec::new();
    push_member(&mut m, "enable", JsonValue::Bool(true));
    assert(members_view(m@) =~= seq![flag("enable"@, true)]);
    JsonValue::Object(m)
}

fn cargo_settings() -> (r: JsonValue)
    ensures
        r@ == spec_cargo_settings(),
{
    let mut m: Vec<(String, JsonValue)> = Vec::new();
    push_member(&mut m, "autoreload", JsonValue::Bool(true));
    push_member(&mut m, "buildScripts", enabled_value());
    assert(members_view(m@) =~= seq![flag("autoreload"@, true), ("buildScripts"@, enabled())]);
    JsonValue::Object(m)
}

/// The default initialization options: cargo reloads and build scripts, and proc macros.
pub fn default_initialization_options() -> (r: JsonValue)
    ensures
        r@ == spec_default_initialization_options(),
{
    let mut m: Vec<(String, JsonValue)> = Vec::new();
    push_member(&mut m, "cargo", cargo_settings());
    push_member(&mut m, "procMacro", enabled_value());
    assert(members_view(m@) =~= seq![("cargo"@, spec_cargo_settings()), ("procMacro"@, enabled())]);
    JsonValue::Object(m)
}

/// The default workspace configuration served to `workspace/configuration` requests.
pub fn default_workspace_configuration() -> (r: JsonValue)
    ensures
        r@ == spec_default_workspace_configuration(),
{
    let mut files: Vec<(String, JsonValue)> = Vec::new();
    push_member(&mut files, "watcher", json_string("client"));
    assert(members_view(files@) =~= seq![("watcher"@, Json::Str("client"@))]);
    let mut ra: Vec<(String, JsonValue)> = Vec::new();
    push_member(&mut ra, "cargo", cargo_settings());
    push_member(&mut ra, "checkOnSave", JsonValue::Bool(true));
    push_member(&mut ra, "files", JsonValue::Object(files));
    push_member(&mut ra, "procMacro", enabled_value());
    let mut m: Vec<(String, JsonValue)> = Vec::new();
    push_member(&mut m, "rust-analyzer", JsonValue::Object(ra));
    assert(members_view(ra@) =~= seq![
        ("cargo"@, spec_cargo_settings()),
        flag("checkOnSave"@, true),
        ("files"@, Json::Object(seq![("watcher"@, Json::Str("client"@))])),
        ("procMacro"@, enabled()),
    ]);
    assert(members_view(m@) =~= match spec_default_workspace_configuration() {
        Json::Object(ms) => ms,
        _ => Seq::empty(),
    });
    JsonValue::Object(m)
}

fn flags_object(keys: &Vec<&str>, values: &Vec<bool>) -> (r: JsonValue)
    requires
        keys@.len() == values@.len(),
    ensures
        r@ == Json::Object(Seq::new(keys@.len(), |i: int| flag(keys@[i]@, values@[i]))),
{
    let mut m: Vec<(String, JsonValue)> = Vec::new();
    let mut i: usize = 0;
    while i < keys.len()
        invariant
            keys@.len() == values@.len(),
            i <= keys@.len(),
            members_view(m@) == Seq::new(i as nat, |k: int| flag(keys@[k]@, values@[k])),
        decreases keys@.len() - i,
    {
        push_member(&mut m, keys[i], JsonValue::Bool(values[i]));
        assert(members_view(m@) =~= Seq::new((i + 1) as nat, |k: int| flag(keys@[k]@, values@[k])));
        i += 1;
    }
    JsonValue::Object(m)
}

fn strings_value(items: &Vec<&str>) -> (r: JsonValue)
    ensures
        r@ == Json::Array(Seq::new(items@.len(), |i: int| Json::Str(items@[i]@))),
{
    let mut out: Vec<JsonValue> = Vec::new();
    let mut i: usize = 0;
    while i < items.len()
        invariant
            i <= items@.len(),
            items_view(out@) == Seq::new(i as nat, |k: int| Json::Str(items@[k]@)),
        decreases items@.len() - i,
    {
        push_item(&mut out, json_string(items[i]));
        assert(items_view(out@) =~= Seq::new((i + 1) as nat, |k: int| Json::Str(items@[k]@)));
        i += 1;
    }
    JsonValue::Array(out)
}

fn one_member(key: &str, value: JsonValue) -> (r: JsonValue)
    ensures
        r@ == Json::Object(seq![(key@, value@)]),
{
    let mut m: Vec<(String, JsonValue)> = Vec::new();
    push_member(&mut m, key, value);
    assert(members_view(m@) =~= seq![(key@, value@)]);
    JsonValue::Object(m)
}

fn experimental_capabilities() -> (r: JsonValue)
    ensures
        r@ == Json::Object(seq![
            flag("codeActionGroup"@, true),
            flag("hoverActions"@, true),
            flag("serverStatusNotification"@, true),
            flag("snippetTextEdit"@, true),
            flag("testExplorer"@, true),
        ]),
{
    let keys: Vec<&str> = vec!["codeActionGroup", "hoverActions", "serverStatusNotification", "snippetTextEdit", "testExplorer"];
    let values: Vec<bool> = vec![true, true, true, true, true];
    let r = flags_object(&keys, &values);
    assert(Seq::new(keys@.len(), |i: int| flag(keys@[i]@, values@[i])) =~= seq![
        flag("codeActionGroup"@, true),
        flag("hoverActions"@, true),
        flag("serverStatusNotification"@, true),
        flag("snippetTextEdit"@, true),
        flag("testExplorer"@, true),
    ]);
    r
}

fn text_document_capabilities() -> (r: JsonValue)
    ensures
        r@ == Json::Object(seq![
            ("codeAction"@, Json::Object(seq![
                ("codeActionLiteralSupport"@, Json::Object(seq![
                    ("codeActionKind"@, Json::Object(seq![("valueSet"@, strings(code_action_kinds()))])),
                ])),
            ])),
            ("completion"@, Json::Object(seq![
                ("completionItem"@, Json::Object(seq![flag("snippetSupport"@, true)])),
            ])),
            ("publishDiagnostics"@, Json::Object(seq![flag("relatedInformation"@, true)])),
            ("synchronization"@, Json::Object(seq![
                flag("didSave"@, true),
                flag("dynamicRegistration"@, false),
                flag("willSave"@, false),
                flag("willSaveWaitUntil"@, false),
            ])),
        ]),
{
    let kinds: Vec<&str> = vec![
        "",
        "quickfix",
        "refactor",
        "refactor.extract",
        "refactor.inline",
        "refactor.rewrite",
        "source",
        "source.organizeImports",
    ];
    let value_set = strings_value(&kinds);
    assert(Seq::new(kinds@.len(), |i: int| Json::Str(kinds@[i]@)) =~= code_action_kinds().map_values(
        |s: Seq<char>| Json::Str(s),
    ));
    let code_action = one_member(
        "codeActionLiteralSupport",
        one_member("codeActionKind", one_member("valueSet", value_set)),
    );
    let completion = one_member("completionItem", one_member("snippetSupport", JsonValue::Bool(true)));
    let diagnostics = one_member("relatedInformation", JsonValue::Bool(true));
    let sync_keys: Vec<&str> = vec!["didSave", "dynamicRegistration", "willSave", "willSaveWaitUntil"];
    let sync_values: Vec<bool> = vec![true, false, false, false];
    let sync = flags_object(&sync_keys, &sync_values);
    assert(Seq::new(sync_keys@.len(), |i: int| flag(sync_keys@[i]@, sync_values@[i])) =~= seq![
        flag("didSave"@, true),
        flag("dynamicRegistration"@, false),
        flag("willSave"@, false),
        flag("willSaveWaitUntil"@, false),
    ]);
    let mut m: Vec<(String, JsonValue)> = Vec::new();
    push_member(&mut m, "codeAction", code_action);
    push_member(&mut m, "completion", completion);
    push_member(&mut m, "publishDiagnostics", diagnostics);
    push_member(&mut m, "synchronization", sync);
    assert(members_view(m@) =~= seq![
        ("codeAction"@, Json::Object(seq![
            ("codeActionLiteralSupport"@, Json::Object(seq![
                ("codeActionKind"@, Json::Object(seq![("valueSet"@, strings(code_action_kinds()))])),
            ])),
        ])),
        ("completion"@, Json::Object(seq![
            ("completionItem"@, Json::Object(seq![flag("snippetSupport"@, true)])),
        ])),
        ("publishDiagnostics"@, Json::Object(seq![flag("relatedInformation"@, true)])),
        ("synchronization"@, Json::Object(seq![
            flag("didSave"@, true),
            flag("dynamicRegistration"@, false),
            flag("willSave"@, false),
            flag("willSaveWaitUntil"@, false),
        ])),
    ]);
    JsonValue::Object(m)
}

fn workspace_capabilities() -> (r: JsonValue)
    ensures
        r@ == Json::Object(seq![
            flag("applyEdit"@, true),
            flag("configuration"@, true),
            ("didChangeWatchedFiles"@, Json::Object(seq![flag("dynamicRegistration"@, true)])),
            ("workspaceEdit"@, Json::Object(seq![
                ("resourceOperations"@, strings(seq!["create"@, "rename"@, "delete"@])),
            ])),
        ]),
{
    let ops: Vec<&str> = vec!["create", "rename", "delete"];
    let ops_value = strings_value(&ops);
    assert(Seq::new(ops@.len(), |i: int| Json::Str(ops@[i]@)) =~= seq!["create"@, "rename"@, "delete"@].map_values(
        |s: Seq<char>| Json::Str(s),
    ));
    let mut m: Vec<(String, JsonValue)> = Vec::new();
    push_member(&mut m, "applyEdit", JsonValue::Bool(true));
    push_member(&mut m, "configuration", JsonValue::Bool(true));
    push_member(&mut m, "didChangeWatchedFiles", one_member("dynamicRegistration", JsonValue::Bool(true)));
    push_member(&mut m, "workspaceEdit", one_member("resourceOperations", ops_value));
    assert(members_view(m@) =~= seq![
        flag("applyEdit"@, true),
        flag("configuration"@, true),
        ("didChangeWatchedFiles"@, Json::Object(seq![flag("dynamicRegistration"@, true)])),
        ("workspaceEdit"@, Json::Object(seq![
            ("resourceOperations"@, strings(seq!["create"@, "rename"@, "delete"@])),
        ])),
    ]);
    JsonValue::Object(m)
}

/// The default client capabilities announced in `initialize`.
pub fn default_client_capabilities() -> (r: JsonValue)
    ensures
        r@ == spec_default_client_capabilities(),
{
    let encodings: Vec<&str> = vec!["utf-8", "utf-16", "utf-32"];
    let encodings_value = strings_value(&encodings);
    assert(Seq::new(encodings@.len(), |i: int| Json::Str(encodings@[i]@)) =~= seq!["utf-8"@, "utf-16"@, "utf-32"@].map_values(
        |s: Seq<char>| Json::Str(s),
    ));
    let mut m: Vec<(String, JsonValue)> = Vec::new();
    push_member(&mut m, "experimental", experimental_capabilities());
    push_member(&mut m, "general", one_member("positionEncodings", encodings_value));
    push_member(&mut m, "textDocument", text_document_capabilities());
    push_member(&mut m, "workspace", workspace_capabilities());
    assert(members_view(m@) =~= match spec_default_client_capabilities() {
        Json::Object(ms) => ms,
        _ => Seq::empty(),
    });
    JsonValue::Object(m)
}

} // verus!
