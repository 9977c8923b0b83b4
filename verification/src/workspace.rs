//! Workspace session state: lifecycle phase, workspace loading progress, buffered events,
//! the configuration exchange, and the set of open documents kept in sync with the server.

use vstd::prelude::*;
use std::collections::VecDeque;
use crate::json::{json_get, json_str, str_eq, Json, JsonValue};
use crate::lsp::TextDocumentItem;
use crate::path::{file_uri_from_path, spec_file_uri};
use crate::rpc::{is_progress_method, progress_method, JsonRpcId, SessionError, SessionEvent};

verus! {

/// High-level session phase for the LSP initialization lifecycle.
#[derive(Debug, Clone, Copy, PartialEq, Eq, Structural)]
pub enum WorkspaceSessionPhase {
    /// The transport exists, but `initialize` has not been sent yet.
    PreInitialize,
    /// The client is performing the initialize and initialized handshake.
    Initializing,
    /// Initialization failed and the session can no longer be used safely.
    Failed,
    /// The workspace completed its startup handshake and can serve later requests.
    Ready,
    /// Shutdown completed and the session is no longer usable.
    Shutdown,
}

/// The phase changes that the lifecycle allows.
pub open spec fn allowed_transition(from: WorkspaceSessionPhase, to: WorkspaceSessionPhase) -> bool {
    ||| from == WorkspaceSessionPhase::PreInitialize && to == WorkspaceSessionPhase::Initializing
    ||| from == WorkspaceSessionPhase::Initializing && to == WorkspaceSessionPhase::Ready
    ||| from == WorkspaceSessionPhase::Initializing && to == WorkspaceSessionPhase::Failed
    ||| from == WorkspaceSessionPhase::Ready && to == WorkspaceSessionPhase::Shutdown
}

/// A failed or shut-down session never changes phase again, and a session becomes ready
/// only out of the handshake.
pub proof fn law_terminal_phases(from: WorkspaceSessionPhase, to: WorkspaceSessionPhase)
    ensures
        allowed_transition(from, to) ==> from != WorkspaceSessionPhase::Failed && from
            != WorkspaceSessionPhase::Shutdown,
        allowed_transition(from, WorkspaceSessionPhase::Ready) ==> from == WorkspaceSessionPhase::Initializing,
{
}

/// The `Debug` name of a phase.
pub open spec fn phase_name(p: WorkspaceSessionPhase) -> Seq<char> {
    match p {
        WorkspaceSessionPhase::PreInitialize => "PreInitialize"@,
        WorkspaceSessionPhase::Initializing => "Initializing"@,
        WorkspaceSessionPhase::Failed => "Failed"@,
        WorkspaceSessionPhase::Ready => "Ready"@,
        WorkspaceSessionPhase::Shutdown => "Shutdown"@,
    }
}

impl WorkspaceSessionPhase {
    /// The phase's `Debug` name.
    pub fn debug_name(&self) -> (r: &'static str)
        ensures
            r@ == phase_name(*self),
    {
        match self {
            WorkspaceSessionPhase::PreInitialize => "PreInitialize",
            WorkspaceSessionPhase::Initializing => "Initializing",
            WorkspaceSessionPhase::Failed => "Failed",
            WorkspaceSessionPhase::Ready => "Ready",
            WorkspaceSessionPhase::Shutdown => "Shutdown",
        }
    }
}

/// Workspace loading progress in the mathematical model.
pub enum Loading {
    NotStarted,
    InProgress(Option<Seq<char>>),
    Done,
}

/// Observed workspace loading state normalized from `$/progress`.
#[derive(Debug)]
pub enum WorkspaceLoadingState {
    /// No workspace loading activity has been observed yet.
    NotStarted,
    /// Workspace loading is still in progress.
    InProgress {
        /// Most recent progress message reported by the server, when present.
        message: Option<String>,
    },
    /// Workspace loading has finished.
    Ready,
}

impl View for WorkspaceLoadingState {
    type V = Loading;

    open spec fn view(&self) -> Loading {
        match self {
            WorkspaceLoadingState::NotStarted => Loading::NotStarted,
            WorkspaceLoadingState::InProgress { message } => Loading::InProgress(
                match message {
                    Some(m) => Some(m@),
                    None => None,
                },
            ),
            WorkspaceLoadingState::Ready => Loading::Done,
        }
    }
}

impl WorkspaceLoadingState {
    /// Returns an equal copy.
    pub fn duplicate(&self) -> (r: WorkspaceLoadingState)
        ensures
            r@ == self@,
    {
        match self {
            WorkspaceLoadingState::NotStarted => WorkspaceLoadingState::NotStarted,
            WorkspaceLoadingState::InProgress { message } => WorkspaceLoadingState::InProgress {
                message: match message {
                    Some(m) => Some(m.clone()),
                    None => None,
                },
            },
            WorkspaceLoadingState::Ready => WorkspaceLoadingState::Ready,
        }
    }

    /// Whether loading has finished.
    pub fn is_ready(&self) -> (r: bool)
        ensures
            r == (self@ == Loading::Done),
    {
        match self {
            WorkspaceLoadingState::Ready => true,
            _ => false,
        }
    }
}

/// The progress token under which rust-analyzer reports workspace loading.
pub open spec fn workspace_progress_token() -> Seq<char> {
    "rustAnalyzer/workspace"@
}

/// The loading state after a progress report: only reports under the workspace token count;
/// `begin` and `report` mean loading (with the report's message, if any), `end` means done.
pub open spec fn next_loading(state: Loading, token: Json, value: Json) -> Loading {
    if token != Json::Str(workspace_progress_token()) {
        state
    } else {
        match json_str(json_get(value, "kind"@)) {
            Some(kind) => if kind == "begin"@ || kind == "report"@ {
                Loading::InProgress(json_str(json_get(value, "message"@)))
            } else if kind == "end"@ {
                Loading::Done
            } else {
                state
            },
            None => state,
        }
    }
}

/// Progress under any other token than the workspace token never changes the loading
/// state, and loading is finished only after an `end` report under the workspace token.
pub proof fn law_loading_follows_workspace_token(state: Loading, token: Json, value: Json)
    ensures
        token != Json::Str(workspace_progress_token()) ==> next_loading(state, token, value) == state,
        next_loading(state, token, value) == Loading::Done ==> state == Loading::Done || (token
            == Json::Str(workspace_progress_token()) && json_str(json_get(value, "kind"@)) == Some("end"@)),
{
}

/// Structured summary produced by a successful `initialize` handshake.
#[derive(Debug)]
pub struct WorkspaceReadyState {
    /// Server capabilities reported by initialize.
    pub server_capabilities: JsonValue,
    /// Optional server information from the initialize response.
    pub server_info: Option<JsonValue>,
    /// Whether the server requested workspace configuration during initialization.
    pub configuration_requested: bool,
    /// Workspace loading progress observed during the handshake.
    pub loading_state: WorkspaceLoadingState,
}

/// The handshake summary in the mathematical model.
pub struct ReadyView {
    /// Server capabilities.
    pub capabilities: Json,
    /// Server information, when reported.
    pub server_info: Option<Json>,
    /// Whether the server asked for configuration during the handshake.
    pub configuration_requested: bool,
    /// Loading progress seen during the handshake.
    pub loading: Loading,
}

/// The view of a handshake summary.
pub open spec fn ready_view(rs: WorkspaceReadyState) -> ReadyView {
    ReadyView {
        capabilities: rs.server_capabilities@,
        server_info: match rs.server_info {
            Some(info) => Some(info@),
            None => None,
        },
        configuration_requested: rs.configuration_requested,
        loading: rs.loading_state@,
    }
}

/// Locally tracked state for an open text document.
#[derive(Debug)]
pub struct TrackedDocument {
    /// Absolute file-system path for the document.
    pub path: String,
    /// Canonical LSP text document item mirrored to the server.
    pub text_document: TextDocumentItem,
}

impl TrackedDocument {
    /// File URI sent to the server.
    pub fn uri(&self) -> (r: &str)
        ensures
            r@ == self.text_document.uri@,
    {
        self.text_document.uri.as_str()
    }

    /// Language identifier used when the document was opened.
    pub fn language_id(&self) -> (r: &str)
        ensures
            r@ == self.text_document.language_id@,
    {
        self.text_document.language_id.as_str()
    }

    /// Most recent synchronized document version.
    pub fn version(&self) -> (r: i32)
        ensures
            r == self.text_document.version,
    {
        self.text_document.version
    }

    /// Most recent synchronized document contents.
    pub fn text(&self) -> (r: &str)
        ensures
            r@ == self.text_document.text@,
    {
        self.text_document.text.as_str()
    }
}

/// A tracked document in the mathematical model.
pub struct DocView {
    pub uri: Seq<char>,
    pub language_id: Seq<char>,
    pub version: i32,
    pub text: Seq<char>,
}

/// The model of a tracked document.
pub open spec fn doc_view(d: TrackedDocument) -> DocView {
    DocView {
        uri: d.text_document.uri@,
        language_id: d.text_document.language_id@,
        version: d.text_document.version,
        text: d.text_document.text@,
    }
}

/// Tracked documents as a map from path to document.
pub open spec fn docs_map(docs: Seq<TrackedDocument>) -> Map<Seq<char>, DocView>
    decreases docs.len(),
{
    if docs.len() == 0 {
        Map::empty()
    } else {
        docs_map(docs.drop_last()).insert(docs.last().path@, doc_view(docs.last()))
    }
}

/// No path is tracked twice.
pub open spec fn paths_distinct(docs: Seq<TrackedDocument>) -> bool {
    forall|i: int, j: int| 0 <= i < j < docs.len() ==> docs[i].path@ != docs[j].path@
}

/// Errors produced by the workspace session layer.
#[derive(Debug)]
pub enum WorkspaceSessionError {
    /// A lower-level transport or JSON-RPC operation failed.
    Session(SessionError),
    /// The requested operation is invalid for the current session phase.
    InvalidPhase {
        /// Operation that was attempted.
        operation: String,
        /// Current session phase.
        phase: WorkspaceSessionPhase,
    },
    /// The event receiver was not available when the workspace session was created.
    MissingEventReceiver,
    /// The requested document is not currently open.
    DocumentNotOpen {
        /// Absolute path for the document.
        path: String,
    },
    /// The requested document is already open.
    DocumentAlreadyOpen {
        /// Absolute path for the document.
        path: String,
    },
    /// A document version must increase monotonically.
    NonMonotonicDocumentVersion {
        /// Absolute path for the document.
        path: String,
        /// Current synchronized version.
        current_version: i32,
        /// Proposed new version.
        new_version: i32,
    },
    /// A typed LSP response could not be decoded into the expected shape.
    InvalidResponse {
        /// LSP method whose response failed to decode.
        method: String,
        /// Underlying decode error message.
        source: String,
    },
}

/// Whether `e` reports that `operation` is invalid in `phase`.
pub open spec fn is_phase_error(e: WorkspaceSessionError, operation: Seq<char>, phase: WorkspaceSessionPhase) -> bool {
    e matches WorkspaceSessionError::InvalidPhase { operation: op, phase: p } && op@ == operation && p == phase
}

/// Whether `e` reports that `path` is not open.
pub open spec fn is_not_open_error(e: WorkspaceSessionError, path: Seq<char>) -> bool {
    e matches WorkspaceSessionError::DocumentNotOpen { path: p } && p@ == path
}

proof fn lemma_docs_map_contains(docs: Seq<TrackedDocument>, p: Seq<char>)
    ensures
        docs_map(docs).contains_key(p) <==> exists|i: int| 0 <= i < docs.len() && #[trigger] docs[i].path@ == p,
    decreases docs.len(),
{
    if docs.len() > 0 {
        let prev = docs.drop_last();
        lemma_docs_map_contains(prev, p);
        if docs_map(docs).contains_key(p) {
            if docs.last().path@ == p {
                assert(docs[docs.len() - 1].path@ == p);
            } else {
                let i = choose|i: int| 0 <= i < prev.len() && #[trigger] prev[i].path@ == p;
                assert(docs[i].path@ == p);
            }
        }
        if exists|i: int| 0 <= i < docs.len() && #[trigger] docs[i].path@ == p {
            let i = choose|i: int| 0 <= i < docs.len() && #[trigger] docs[i].path@ == p;
            if i < docs.len() - 1 {
                assert(prev[i].path@ == p);
            }
        }
    }
}

proof fn lemma_docs_map_value(docs: Seq<TrackedDocument>, i: int)
    requires
        paths_distinct(docs),
        0 <= i < docs.len(),
    ensures
        docs_map(docs).contains_key(docs[i].path@),
        docs_map(docs)[docs[i].path@] == doc_view(docs[i]),
    decreases docs.len(),
{
    let prev = docs.drop_last();
    if i < docs.len() - 1 {
        assert(paths_distinct(prev)) by {
            assert forall|a: int, b: int| 0 <= a < b < prev.len() implies prev[a].path@ != prev[b].path@ by {
                assert(prev[a] == docs[a] && prev[b] == docs[b]);
            }
        }
        assert(prev[i] == docs[i]);
        lemma_docs_map_value(prev, i);
        assert(docs[i].path@ != docs[docs.len() - 1].path@);
    }
}

proof fn lemma_distinct_prefix(docs: Seq<TrackedDocument>)
    requires
        paths_distinct(docs),
        docs.len() > 0,
    ensures
        paths_distinct(docs.drop_last()),
{
    let prev = docs.drop_last();
    assert forall|a: int, b: int| 0 <= a < b < prev.len() implies prev[a].path@ != prev[b].path@ by {
        assert(prev[a] == docs[a] && prev[b] == docs[b]);
    }
}

proof fn lemma_docs_map_update(docs: Seq<TrackedDocument>, i: int, x: TrackedDocument)
    requires
        paths_distinct(docs),
        0 <= i < docs.len(),
        x.path@ == docs[i].path@,
    ensures
        paths_distinct(docs.update(i, x)),
        docs_map(docs.update(i, x)) == docs_map(docs).insert(x.path@, doc_view(x)),
    decreases docs.len(),
{
    let nd = docs.update(i, x);
    assert forall|a: int, b: int| 0 <= a < b < nd.len() implies nd[a].path@ != nd[b].path@ by {
        assert(nd[a].path@ == docs[a].path@);
        assert(nd[b].path@ == docs[b].path@);
    }
    let prev = docs.drop_last();
    lemma_distinct_prefix(docs);
    if i == docs.len() - 1 {
        assert(nd.drop_last() =~= prev);
        assert(docs_map(nd) == docs_map(prev).insert(x.path@, doc_view(x)));
        assert(docs_map(docs).insert(x.path@, doc_view(x)) =~= docs_map(prev).insert(
            docs.last().path@,
            doc_view(docs.last()),
        ).insert(x.path@, doc_view(x)));
        assert(docs_map(nd) =~= docs_map(docs).insert(x.path@, doc_view(x)));
    } else {
        assert(nd.drop_last() =~= prev.update(i, x));
        assert(prev[i] == docs[i]);
        lemma_docs_map_update(prev, i, x);
        assert(nd.last() == docs.last());
        assert(docs.last().path@ != x.path@) by {
            assert(docs[docs.len() - 1].path@ != docs[i].path@);
        }
        assert(docs_map(nd) =~= docs_map(docs).insert(x.path@, doc_view(x)));
    }
}

proof fn lemma_docs_map_remove(docs: Seq<TrackedDocument>, i: int)
    requires
        paths_distinct(docs),
        0 <= i < docs.len(),
    ensures
        paths_distinct(docs.remove(i)),
        docs_map(docs.remove(i)) == docs_map(docs).remove(docs[i].path@),
    decreases docs.len(),
{
    let nd = docs.remove(i);
    let p = docs[i].path@;
    assert forall|a: int, b: int| 0 <= a < b < nd.len() implies nd[a].path@ != nd[b].path@ by {
        let a2 = if a < i { a } else { a + 1 };
        let b2 = if b < i { b } else { b + 1 };
        assert(nd[a] == docs[a2]);
        assert(nd[b] == docs[b2]);
    }
    let prev = docs.drop_last();
    lemma_distinct_prefix(docs);
    if i == docs.len() - 1 {
        assert(nd =~= prev);
        lemma_docs_map_contains(prev, p);
        assert(!docs_map(prev).contains_key(p)) by {
            if docs_map(prev).contains_key(p) {
                let j = choose|j: int| 0 <= j < prev.len() && #[trigger] prev[j].path@ == p;
                assert(docs[j].path@ == p);
            }
        }
        assert(docs_map(docs).remove(p) =~= docs_map(prev));
    } else {
        assert(nd.drop_last() =~= prev.remove(i));
        assert(nd.last() == docs.last());
        assert(prev[i] == docs[i]);
        lemma_docs_map_remove(prev, i);
        assert(docs.last().path@ != p) by {
            assert(docs[docs.len() - 1].path@ != docs[i].path@);
        }
        assert(docs_map(nd) =~= docs_map(docs).remove(p));
    }
}

/// The reply to a `workspace/configuration` request, in the model: one entry per requested
/// item, holding the configured value at the item's section (the whole configuration when
/// the section is absent or empty), or `null` when nothing is configured there.
pub open spec fn spec_configuration_response(config: Json, params: Option<Json>) -> Json {
    let items = match params {
        Some(p) => match json_get(p, "items"@) {
            Some(Json::Array(a)) => a,
            _ => Seq::empty(),
        },
        None => Seq::empty(),
    };
    Json::Array(
        Seq::new(
            items.len(),
            |i: int|
                match spec_lookup_section(config, json_str(json_get(items[i], "section"@))) {
                    Some(v) => v,
                    None => Json::Null,
                },
        ),
    )
}

/// The pieces of a dotted section name.
pub open spec fn split_dots(s: Seq<char>) -> Seq<Seq<char>>
    decreases s.len(),
{
    if s.len() == 0 {
        seq![Seq::<char>::empty()]
    } else {
        let prev = split_dots(s.drop_last());
        if s.last() == '.' {
            prev.push(Seq::<char>::empty())
        } else {
            prev.update(prev.len() - 1, prev.last().push(s.last()))
        }
    }
}

/// Walks object members by name, one piece after another.
pub open spec fn walk(root: Json, pieces: Seq<Seq<char>>) -> Option<Json>
    decreases pieces.len(),
{
    if pieces.len() == 0 {
        Some(root)
    } else {
        match walk(root, pieces.drop_last()) {
            Some(v) => json_get(v, pieces.last()),
            None => None,
        }
    }
}

/// The configured value at a dotted section.
pub open spec fn spec_lookup_section(root: Json, section: Option<Seq<char>>) -> Option<Json> {
    match section {
        None => Some(root),
        Some(s) => if s.len() == 0 { Some(root) } else { walk(root, split_dots(s)) },
    }
}

proof fn lemma_split_dots_len(s: Seq<char>)
    ensures
        split_dots(s).len() >= 1,
    decreases s.len(),
{
    if s.len() > 0 {
        lemma_split_dots_len(s.drop_last());
    }
}

/// Looks up the configured value at a dotted section.
pub fn lookup_config_section<'a>(root: &'a JsonValue, section: Option<&str>) -> (r: Option<&'a JsonValue>)
    ensures
        r is None <==> spec_lookup_section(root@, match section { Some(s) => Some(s@), None => None }) is None,
        r matches Some(v) ==> spec_lookup_section(root@, match section { Some(s) => Some(s@), None => None })
            == Some(v@),
{
    match section {
        None => Some(root),
        Some(s) => {
            let n = s.unicode_len();
            if n == 0 {
                return Some(root);
            }
            let mut current: Option<&JsonValue> = Some(root);
            let mut seg_start: usize = 0;
            let mut i: usize = 0;
            proof {
                assert(s@.take(0) =~= Seq::<char>::empty());
                assert(split_dots(s@.take(0)).drop_last() =~= Seq::<Seq<char>>::empty());
            }
            while i < n
                invariant
                    n == s@.len(),
                    i <= n,
                    seg_start <= i,
                    split_dots(s@.take(i as int)).len() >= 1,
                    split_dots(s@.take(i as int)).last() == s@.subrange(seg_start as int, i as int),
                    walk(root@, split_dots(s@.take(i as int)).drop_last()) == match current {
                        Some(c) => Some(c@),
                        None => None::<Json>,
                    },
                decreases n - i,
            {
                let c = s.get_char(i);
                let ghost prev = split_dots(s@.take(i as int));
                assert(s@.take(i + 1).drop_last() =~= s@.take(i as int));
                assert(s@.take(i + 1).last() == c);
                if c == '.' {
                    let piece = s.substring_char(seg_start, i);
                    assert(split_dots(s@.take(i + 1)) == prev.push(Seq::<char>::empty()));
                    assert(split_dots(s@.take(i + 1)).drop_last() =~= prev);
                    assert(prev == prev.drop_last().push(prev.last()));
                    current = match current {
                        Some(cur) => cur.get(piece),
                        None => None,
                    };
                    seg_start = i + 1;
                    assert(s@.subrange(seg_start as int, i + 1) =~= Seq::<char>::empty());
                } else {
                    let ghost next = prev.update(prev.len() - 1, prev.last().push(c));
                    assert(split_dots(s@.take(i + 1)) == next);
                    assert(next.drop_last() =~= prev.drop_last());
                    assert(s@.subrange(seg_start as int, i + 1) =~= s@.subrange(seg_start as int, i as int).push(c));
                }
                i += 1;
            }
            assert(s@.take(n as int) =~= s@);
            let piece = s.substring_char(seg_start, n);
            let ghost pieces = split_dots(s@);
            assert(pieces == pieces.drop_last().push(pieces.last()));
            match current {
                Some(cur) => cur.get(piece),
                None => None,
            }
        },
    }
}


/// Builds the reply to a `workspace/configuration` request.
pub fn configuration_response(workspace_configuration: &JsonValue, params: Option<&JsonValue>) -> (r: JsonValue)
    ensures
        r@ == spec_configuration_response(
            workspace_configuration@,
            match params { Some(p) => Some(p@), None => None },
        ),
{
    let ghost pv = match params { Some(p) => Some(p@), None => None::<Json> };
    let empty: Vec<JsonValue> = Vec::new();
    let items: &Vec<JsonValue> = match params {
        Some(p) => match p.get("items") {
            Some(JsonValue::Array(a)) => a,
            _ => &empty,
        },
        None => &empty,
    };
    let ghost iv = crate::json::items_view(items@);
    proof {
        crate::json::lemma_items_view(items@);
        let expected = match pv {
            Some(p) => match json_get(p, "items"@) {
                Some(Json::Array(a)) => a,
                _ => Seq::<Json>::empty(),
            },
            None => Seq::<Json>::empty(),
        };
        assert(iv =~= expected) by {
            if items@.len() == 0 {
                assert(iv.len() == 0);
            }
        }
    }
    let mut out: Vec<JsonValue> = Vec::new();
    let mut i: usize = 0;
    while i < items.len()
        invariant
            i <= items.len(),
            iv == crate::json::items_view(items@),
            iv.len() == items@.len(),
            forall|k: int| 0 <= k < items@.len() ==> #[trigger] iv[k] == crate::json::json_view(items@[k]),
            crate::json::items_view(out@).len() == i,
            forall|k: int| 0 <= k < i ==> #[trigger] crate::json::items_view(out@)[k] == match spec_lookup_section(
                workspace_configuration@,
                json_str(json_get(iv[k], "section"@)),
            ) {
                Some(v) => v,
                None => Json::Null,
            },
        decreases items.len() - i,
    {
        let item = &items[i];
        let section: Option<&str> = match item.get("section") {
            Some(v) => v.as_str(),
            None => None,
        };
        assert(match section { Some(t) => Some(t@), None => None::<Seq<char>> } == json_str(json_get(iv[i as int], "section"@)));
        let value = match lookup_config_section(workspace_configuration, section) {
            Some(v) => v.deep_clone(),
            None => JsonValue::Null,
        };
        let ghost before = out@;
        proof {
            crate::json::lemma_items_view(before);
        }
        out.push(value);
        proof {
            crate::json::lemma_items_view(out@);
            assert(out@.drop_last() =~= before);
            assert forall|k: int| 0 <= k < i + 1 implies #[trigger] crate::json::items_view(out@)[k] == match spec_lookup_section(
                workspace_configuration@,
                json_str(json_get(iv[k], "section"@)),
            ) {
                Some(v) => v,
                None => Json::Null,
            } by {
                if k < i {
                    assert(out@[k] == before[k]);
                    assert(crate::json::items_view(before)[k] == crate::json::json_view(before[k]));
                }
            }
        }
        i += 1;
    }
    proof {
        crate::json::lemma_items_view(out@);
        assert(crate::json::items_view(out@) =~= Seq::new(
            iv.len(),
            |k: int|
                match spec_lookup_section(workspace_configuration@, json_str(json_get(iv[k], "section"@))) {
                    Some(v) => v,
                    None => Json::Null,
                },
        ));
    }
    JsonValue::Array(out)
}

/// Whether an event is a raw `$/progress` notification.
pub open spec fn spec_is_progress_notification(e: SessionEvent) -> bool {
    e matches SessionEvent::Notification { method, .. } && method@ == progress_method()
}

/// Returns whether an event is a raw `$/progress` notification.
pub fn is_progress_notification(event: &SessionEvent) -> (r: bool)
    ensures
        r == spec_is_progress_notification(*event),
{
    match event {
        SessionEvent::Notification { method, .. } => is_progress_method(method.as_str()),
        _ => false,
    }
}

/// Whether an event is the server asking for the workspace configuration.
pub open spec fn is_configuration_request(e: SessionEvent) -> bool {
    e matches SessionEvent::ServerRequest(req) && req.method@ == "workspace/configuration"@
}

fn configuration_request_check(event: &SessionEvent) -> (r: bool)
    ensures
        r == is_configuration_request(*event),
{
    match event {
        SessionEvent::ServerRequest(req) => str_eq(req.method.as_str(), "workspace/configuration"),
        _ => false,
    }
}

/// The state of one workspace session apart from its transport: lifecycle phase, loading
/// progress, events buffered during startup, the configuration served to the server, and
/// the documents kept in sync with it.
pub struct WorkspaceState {
    phase: WorkspaceSessionPhase,
    workspace_root: String,
    workspace_uri: String,
    workspace_configuration: JsonValue,
    loading_state: WorkspaceLoadingState,
    ready_state: Option<WorkspaceReadyState>,
    configuration_requested: bool,
    buffered_events: VecDeque<SessionEvent>,
    open_documents: Vec<TrackedDocument>,
}

impl WorkspaceState {
    /// Internal consistency: no document is tracked twice, a handshake summary exists only
    /// once the session became ready, and no raw progress notification waits in the event
    /// buffer.
    pub closed spec fn wf(&self) -> bool {
        &&& paths_distinct(self.open_documents@)
        &&& (self.ready_state is Some ==> self.phase == WorkspaceSessionPhase::Ready || self.phase
            == WorkspaceSessionPhase::Shutdown)
        &&& forall|i: int| 0 <= i < self.buffered_events@.len() ==> !spec_is_progress_notification(
            #[trigger] self.buffered_events@[i],
        )
    }

    /// The lifecycle phase.
    pub closed spec fn spec_phase(&self) -> WorkspaceSessionPhase {
        self.phase
    }

    /// The workspace root path.
    pub closed spec fn spec_root(&self) -> Seq<char> {
        self.workspace_root@
    }

    /// The workspace root URI.
    pub closed spec fn spec_uri(&self) -> Seq<char> {
        self.workspace_uri@
    }

    /// The loading progress.
    pub closed spec fn spec_loading(&self) -> Loading {
        self.loading_state@
    }

    /// The open documents, by path.
    pub closed spec fn spec_documents(&self) -> Map<Seq<char>, DocView> {
        docs_map(self.open_documents@)
    }

    /// The events buffered for later delivery, oldest first.
    pub closed spec fn spec_buffered(&self) -> Seq<SessionEvent> {
        self.buffered_events@
    }

    /// Whether the server asked for configuration during the handshake.
    pub closed spec fn spec_configuration_requested(&self) -> bool {
        self.configuration_requested
    }

    /// The served workspace configuration.
    pub closed spec fn spec_configuration(&self) -> Json {
        self.workspace_configuration@
    }

    /// The recorded handshake summary, if any.
    pub closed spec fn spec_ready(&self) -> Option<ReadyView> {
        match self.ready_state {
            Some(rs) => Some(ready_view(rs)),
            None => None,
        }
    }

    /// A session for a workspace root, before `initialize`.
    pub fn new(workspace_root: String, workspace_configuration: JsonValue) -> (r: WorkspaceState)
        ensures
            r.wf(),
            r.spec_phase() == WorkspaceSessionPhase::PreInitialize,
            r.spec_root() == workspace_root@,
            r.spec_uri() == spec_file_uri(workspace_root@),
            r.spec_loading() == Loading::NotStarted,
            r.spec_documents() == Map::<Seq<char>, DocView>::empty(),
            r.spec_buffered().len() == 0,
            r.spec_configuration() == workspace_configuration@,
            r.spec_ready() is None,
    {
        let workspace_uri = file_uri_from_path(workspace_root.as_str());
        let r = WorkspaceState {
            phase: WorkspaceSessionPhase::PreInitialize,
            workspace_root,
            workspace_uri,
            workspace_configuration,
            loading_state: WorkspaceLoadingState::NotStarted,
            ready_state: None,
            configuration_requested: false,
            buffered_events: VecDeque::new(),
            open_documents: Vec::new(),
        };
        assert(docs_map(r.open_documents@) =~= Map::<Seq<char>, DocView>::empty());
        r
    }

    /// Returns the current lifecycle phase.
    pub fn phase(&self) -> (r: WorkspaceSessionPhase)
        ensures
            r == self.spec_phase(),
    {
        self.phase
    }

    /// Returns the workspace root path.
    pub fn workspace_root(&self) -> (r: &str)
        ensures
            r@ == self.spec_root(),
    {
        self.workspace_root.as_str()
    }

    /// Returns the workspace root URI sent to the server.
    pub fn workspace_uri(&self) -> (r: &str)
        ensures
            r@ == self.spec_uri(),
    {
        self.workspace_uri.as_str()
    }

    /// Returns the served workspace configuration.
    pub fn workspace_configuration(&self) -> (r: &JsonValue)
        ensures
            r@ == self.spec_configuration(),
    {
        &self.workspace_configuration
    }

    /// Returns the most recently observed workspace loading state.
    pub fn loading_state(&self) -> (r: &WorkspaceLoadingState)
        ensures
            r@ == self.spec_loading(),
    {
        &self.loading_state
    }

    /// Returns the handshake summary once initialization has completed.
    pub fn ready_state(&self) -> (r: Option<&WorkspaceReadyState>)
        ensures
            r is Some <==> self.spec_ready() is Some,
            r matches Some(rs) ==> self.spec_ready() == Some(ready_view(*rs)),
    {
        self.ready_state.as_ref()
    }

    /// Checks that the session is in `phase`; the error names the operation and the
    /// session's actual phase.
    pub fn ensure_phase(&self, operation: &str, phase: WorkspaceSessionPhase) -> (r: Result<(), WorkspaceSessionError>)
        ensures
            r is Ok <==> self.spec_phase() == phase,
            r matches Err(e) ==> is_phase_error(e, operation@, self.spec_phase()),
    {
        if self.phase == phase {
            Ok(())
        } else {
            Err(WorkspaceSessionError::InvalidPhase { operation: operation.to_owned(), phase: self.phase })
        }
    }

    /// Checks that the session is ready.
    pub fn ensure_ready(&self, operation: &str) -> (r: Result<(), WorkspaceSessionError>)
        ensures
            r is Ok <==> self.spec_phase() == WorkspaceSessionPhase::Ready,
            r matches Err(e) ==> is_phase_error(e, operation@, self.spec_phase()),
    {
        self.ensure_phase(operation, WorkspaceSessionPhase::Ready)
    }
}


impl WorkspaceState {
    /// Starts the handshake: only a session that has not been initialized may start it.
    pub fn begin_initialize(&mut self) -> (r: Result<(), WorkspaceSessionError>)
        requires
            old(self).wf(),
        ensures
            final(self).wf(),
            final(self).spec_root() == old(self).spec_root(),
            final(self).spec_uri() == old(self).spec_uri(),
            final(self).spec_configuration() == old(self).spec_configuration(),
            final(self).spec_ready() == old(self).spec_ready(),
            r is Ok ==> final(self).spec_ready() is None,
            r is Err ==> *final(self) == *old(self),
            r is Ok <==> old(self).spec_phase() == WorkspaceSessionPhase::PreInitialize,
            r matches Err(e) ==> is_phase_error(e, "initialize"@, old(self).spec_phase()),
            r is Ok ==> final(self).spec_phase() == WorkspaceSessionPhase::Initializing
                && !final(self).spec_configuration_requested(),
            r is Err ==> final(self).spec_phase() == old(self).spec_phase(),
            allowed_transition(old(self).spec_phase(), final(self).spec_phase())
                || final(self).spec_phase() == old(self).spec_phase(),
            final(self).spec_documents() == old(self).spec_documents(),
            final(self).spec_loading() == old(self).spec_loading(),
            final(self).spec_buffered() == old(self).spec_buffered(),
    {
        let checked = self.ensure_phase("initialize", WorkspaceSessionPhase::PreInitialize);
        match checked {
            Ok(()) => {
                self.phase = WorkspaceSessionPhase::Initializing;
                self.configuration_requested = false;
                Ok(())
            },
            Err(e) => Err(e),
        }
    }

    /// Applies a progress report to the loading state.
    pub fn update_loading_state(&mut self, token: &JsonValue, progress_value: &JsonValue)
        requires
            old(self).wf(),
        ensures
            final(self).wf(),
            final(self).spec_root() == old(self).spec_root(),
            final(self).spec_uri() == old(self).spec_uri(),
            final(self).spec_configuration() == old(self).spec_configuration(),
            final(self).spec_loading() == next_loading(old(self).spec_loading(), token@, progress_value@),
            final(self).spec_phase() == old(self).spec_phase(),
            final(self).spec_documents() == old(self).spec_documents(),
            final(self).spec_buffered() == old(self).spec_buffered(),
            final(self).spec_configuration_requested() == old(self).spec_configuration_requested(),
            final(self).spec_ready() == old(self).spec_ready(),
    {
        proof {
            reveal_strlit("rustAnalyzer/workspace");
            reveal_strlit("begin");
            reveal_strlit("report");
            reveal_strlit("end");
        }
        let is_workspace_token = match token {
            JsonValue::Str(t) => str_eq(t.as_str(), "rustAnalyzer/workspace"),
            _ => false,
        };
        if !is_workspace_token {
            return;
        }
        let kind: Option<&str> = match progress_value.get("kind") {
            Some(k) => k.as_str(),
            None => None,
        };
        match kind {
            Some(k) => {
                if str_eq(k, "begin") || str_eq(k, "report") {
                    let message: Option<String> = match progress_value.get("message") {
                        Some(m) => match m.as_str() {
                            Some(t) => Some(t.to_owned()),
                            None => None,
                        },
                        None => None,
                    };
                    self.loading_state = WorkspaceLoadingState::InProgress { message };
                } else if str_eq(k, "end") {
                    self.loading_state = WorkspaceLoadingState::Ready;
                }
            },
            None => {},
        }
    }

    /// Keeps an event for later delivery: a progress report also updates the loading state,
    /// and raw `$/progress` notifications are not kept.
    pub fn capture_event(&mut self, event: SessionEvent)
        requires
            old(self).wf(),
        ensures
            final(self).wf(),
            final(self).spec_root() == old(self).spec_root(),
            final(self).spec_uri() == old(self).spec_uri(),
            final(self).spec_configuration() == old(self).spec_configuration(),
            final(self).spec_loading() == match event {
                SessionEvent::Progress { token, value } => next_loading(old(self).spec_loading(), token@, value@),
                _ => old(self).spec_loading(),
            },
            spec_is_progress_notification(event) ==> final(self).spec_buffered() == old(self).spec_buffered(),
            !spec_is_progress_notification(event) ==> final(self).spec_buffered() == old(self).spec_buffered().push(event),
            final(self).spec_phase() == old(self).spec_phase(),
            final(self).spec_documents() == old(self).spec_documents(),
            final(self).spec_configuration_requested() == old(self).spec_configuration_requested(),
            final(self).spec_ready() == old(self).spec_ready(),
    {
        match &event {
            SessionEvent::Progress { token, value } => {
                self.update_loading_state(token, value);
            },
            _ => {},
        }
        if is_progress_notification(&event) {
            return;
        }
        let ghost before = self.buffered_events@;
        self.buffered_events.push_back(event);
        assert forall|i: int| 0 <= i < self.buffered_events@.len() implies !spec_is_progress_notification(
            #[trigger] self.buffered_events@[i],
        ) by {
            if i < before.len() {
                assert(self.buffered_events@[i] == before[i]);
            }
        }
    }

    /// Handles an event that arrives during the handshake: a configuration request is
    /// answered (the returned id and reply are to be sent back) and noted; a progress report
    /// updates the loading state; anything else is kept for later delivery.
    pub fn handle_startup_event(&mut self, event: SessionEvent) -> (r: Option<(JsonRpcId, JsonValue)>)
        requires
            old(self).wf(),
        ensures
            final(self).wf(),
            final(self).spec_root() == old(self).spec_root(),
            final(self).spec_uri() == old(self).spec_uri(),
            final(self).spec_configuration() == old(self).spec_configuration(),
            final(self).spec_phase() == old(self).spec_phase(),
            final(self).spec_documents() == old(self).spec_documents(),
            final(self).spec_ready() == old(self).spec_ready(),
            is_configuration_request(event) ==> {
                &&& r matches Some((id, reply))
                &&& event matches SessionEvent::ServerRequest(req)
                &&& id == req.id
                &&& reply@ == spec_configuration_response(
                    old(self).spec_configuration(),
                    match req.params { Some(p) => Some(p@), None => None },
                )
                &&& final(self).spec_configuration_requested()
                &&& final(self).spec_buffered() == old(self).spec_buffered()
                &&& final(self).spec_loading() == old(self).spec_loading()
            },
            !is_configuration_request(event) ==> {
                &&& r is None
                &&& final(self).spec_configuration_requested() == old(self).spec_configuration_requested()
                &&& match event {
                    SessionEvent::Progress { token, value } => {
                        &&& final(self).spec_loading() == next_loading(old(self).spec_loading(), token@, value@)
                        &&& final(self).spec_buffered() == old(self).spec_buffered()
                    },
                    _ => {
                        &&& final(self).spec_loading() == old(self).spec_loading()
                        &&& !spec_is_progress_notification(event) ==> final(self).spec_buffered()
                            == old(self).spec_buffered().push(event)
                        &&& spec_is_progress_notification(event) ==> final(self).spec_buffered()
                            == old(self).spec_buffered()
                    },
                }
            },
    {
        if configuration_request_check(&event) {
            match event {
                SessionEvent::ServerRequest(request) => {
                    self.configuration_requested = true;
                    let reply = configuration_response(&self.workspace_configuration, request.params.as_ref());
                    Some((request.id, reply))
                },
                _ => None,
            }
        } else {
            match event {
                SessionEvent::Progress { token, value } => {
                    self.update_loading_state(&token, &value);
                },
                other => {
                    self.capture_event(other);
                },
            }
            None
        }
    }

    /// Handles an event while waiting for the workspace to load: a configuration request is
    /// answered (the returned id and reply are to be sent back); anything else is captured.
    pub fn handle_loading_event(&mut self, event: SessionEvent) -> (r: Option<(JsonRpcId, JsonValue)>)
        requires
            old(self).wf(),
        ensures
            final(self).wf(),
            final(self).spec_root() == old(self).spec_root(),
            final(self).spec_uri() == old(self).spec_uri(),
            final(self).spec_configuration() == old(self).spec_configuration(),
            final(self).spec_phase() == old(self).spec_phase(),
            final(self).spec_documents() == old(self).spec_documents(),
            final(self).spec_configuration_requested() == old(self).spec_configuration_requested(),
            final(self).spec_ready() == old(self).spec_ready(),
            is_configuration_request(event) ==> {
                &&& r matches Some((id, reply))
                &&& event matches SessionEvent::ServerRequest(req)
                &&& id == req.id
                &&& reply@ == spec_configuration_response(
                    old(self).spec_configuration(),
                    match req.params { Some(p) => Some(p@), None => None },
                )
                &&& final(self).spec_buffered() == old(self).spec_buffered()
                &&& final(self).spec_loading() == old(self).spec_loading()
            },
            !is_configuration_request(event) ==> {
                &&& r is None
                &&& final(self).spec_loading() == match event {
                    SessionEvent::Progress { token, value } => next_loading(old(self).spec_loading(), token@, value@),
                    _ => old(self).spec_loading(),
                }
                &&& !spec_is_progress_notification(event) ==> final(self).spec_buffered()
                    == old(self).spec_buffered().push(event)
                &&& spec_is_progress_notification(event) ==> final(self).spec_buffered()
                    == old(self).spec_buffered()
            },
    {
        if configuration_request_check(&event) {
            match event {
                SessionEvent::ServerRequest(request) => {
                    let reply = configuration_response(&self.workspace_configuration, request.params.as_ref());
                    Some((request.id, reply))
                },
                _ => None,
            }
        } else {
            self.capture_event(event);
            None
        }
    }

    /// Completes the handshake: the session becomes ready and records the server's
    /// capabilities and information with what the handshake observed.
    pub fn complete_initialize(&mut self, server_capabilities: JsonValue, server_info: Option<JsonValue>)
        requires
            old(self).wf(),
            old(self).spec_phase() == WorkspaceSessionPhase::Initializing,
        ensures
            final(self).wf(),
            final(self).spec_root() == old(self).spec_root(),
            final(self).spec_uri() == old(self).spec_uri(),
            final(self).spec_configuration() == old(self).spec_configuration(),
            final(self).spec_phase() == WorkspaceSessionPhase::Ready,
            allowed_transition(old(self).spec_phase(), final(self).spec_phase()),
            final(self).spec_ready() == Some(ReadyView {
                capabilities: server_capabilities@,
                server_info: match server_info {
                    Some(info) => Some(info@),
                    None => None,
                },
                configuration_requested: old(self).spec_configuration_requested(),
                loading: old(self).spec_loading(),
            }),
            final(self).spec_documents() == old(self).spec_documents(),
            final(self).spec_loading() == old(self).spec_loading(),
            final(self).spec_buffered() == old(self).spec_buffered(),
    {
        let loading = self.loading_state.duplicate();
        self.phase = WorkspaceSessionPhase::Ready;
        self.ready_state = Some(WorkspaceReadyState {
            server_capabilities,
            server_info,
            configuration_requested: self.configuration_requested,
            loading_state: loading,
        });
    }

    /// Marks a failed handshake; the session can no longer be used.
    pub fn fail_initialize(&mut self)
        requires
            old(self).wf(),
            old(self).spec_phase() == WorkspaceSessionPhase::Initializing,
        ensures
            final(self).wf(),
            final(self).spec_root() == old(self).spec_root(),
            final(self).spec_uri() == old(self).spec_uri(),
            final(self).spec_configuration() == old(self).spec_configuration(),
            final(self).spec_phase() == WorkspaceSessionPhase::Failed,
            allowed_transition(old(self).spec_phase(), final(self).spec_phase()),
            final(self).spec_documents() == old(self).spec_documents(),
            final(self).spec_loading() == old(self).spec_loading(),
            final(self).spec_buffered() == old(self).spec_buffered(),
            final(self).spec_ready() == old(self).spec_ready(),
    {
        self.phase = WorkspaceSessionPhase::Failed;
    }

    /// Marks a completed shutdown.
    pub fn finish_shutdown(&mut self)
        requires
            old(self).wf(),
            old(self).spec_phase() == WorkspaceSessionPhase::Ready,
        ensures
            final(self).wf(),
            final(self).spec_root() == old(self).spec_root(),
            final(self).spec_uri() == old(self).spec_uri(),
            final(self).spec_configuration() == old(self).spec_configuration(),
            final(self).spec_ready() == old(self).spec_ready(),
            final(self).spec_phase() == WorkspaceSessionPhase::Shutdown,
            allowed_transition(old(self).spec_phase(), final(self).spec_phase()),
            final(self).spec_documents() == old(self).spec_documents(),
            final(self).spec_loading() == old(self).spec_loading(),
            final(self).spec_buffered() == old(self).spec_buffered(),
    {
        self.phase = WorkspaceSessionPhase::Shutdown;
    }

    /// Takes the oldest buffered event, passing over raw `$/progress` notifications.
    pub fn pop_buffered_event(&mut self) -> (r: Option<SessionEvent>)
        requires
            old(self).wf(),
        ensures
            final(self).wf(),
            final(self).spec_root() == old(self).spec_root(),
            final(self).spec_uri() == old(self).spec_uri(),
            final(self).spec_configuration() == old(self).spec_configuration(),
            old(self).spec_buffered().len() == 0 ==> r is None && final(self).spec_buffered() == old(self).spec_buffered(),
            old(self).spec_buffered().len() > 0 ==> r == Some(old(self).spec_buffered()[0])
                && final(self).spec_buffered() == old(self).spec_buffered().drop_first(),
            r matches Some(e) ==> !spec_is_progress_notification(e),
            final(self).spec_phase() == old(self).spec_phase(),
            final(self).spec_documents() == old(self).spec_documents(),
            final(self).spec_loading() == old(self).spec_loading(),
            final(self).spec_ready() == old(self).spec_ready(),
    {
        let ghost before = self.buffered_events@;
        match self.buffered_events.pop_front() {
            Some(event) => {
                assert(before[0] == event);
                assert(!spec_is_progress_notification(before[0]));
                assert forall|i: int| 0 <= i < self.buffered_events@.len() implies !spec_is_progress_notification(
                    #[trigger] self.buffered_events@[i],
                ) by {
                    assert(self.buffered_events@[i] == before[i + 1]);
                }
                Some(event)
            },
            None => None,
        }
    }
}


/// Whether `e` reports that `path` is already open.
pub open spec fn is_already_open_error(e: WorkspaceSessionError, path: Seq<char>) -> bool {
    e matches WorkspaceSessionError::DocumentAlreadyOpen { path: p } && p@ == path
}

/// Whether `e` reports a version that does not increase.
pub open spec fn is_version_error(e: WorkspaceSessionError, path: Seq<char>, current: i32, new: i32) -> bool {
    e matches WorkspaceSessionError::NonMonotonicDocumentVersion { path: p, current_version: c, new_version: n }
        && p@ == path && c == current && n == new
}

impl WorkspaceState {
    fn find_document(&self, path: &str) -> (r: Option<usize>)
        requires
            self.wf(),
        ensures
            r matches Some(i) ==> i < self.open_documents@.len() && self.open_documents@[i as int].path@ == path@,
            r is None <==> !self.spec_documents().contains_key(path@),
            r matches Some(i) ==> self.spec_documents().contains_key(path@)
                && self.spec_documents()[path@] == doc_view(self.open_documents@[i as int]),
    {
        let mut i: usize = 0;
        while i < self.open_documents.len()
            invariant
                i <= self.open_documents@.len(),
                paths_distinct(self.open_documents@),
                forall|k: int| 0 <= k < i ==> self.open_documents@[k].path@ != path@,
            decreases self.open_documents.len() - i,
        {
            if str_eq(self.open_documents[i].path.as_str(), path) {
                proof {
                    lemma_docs_map_value(self.open_documents@, i as int);
                }
                return Some(i);
            }
            i += 1;
        }
        proof {
            lemma_docs_map_contains(self.open_documents@, path@);
        }
        None
    }

    /// Returns the tracked state of an open document (paths are absolute and normalized).
    pub fn document(&self, path: &str) -> (r: Result<Option<&TrackedDocument>, WorkspaceSessionError>)
        requires
            self.wf(),
        ensures
            r is Err <==> self.spec_phase() != WorkspaceSessionPhase::Ready,
            r matches Err(e) ==> is_phase_error(e, "document"@, self.spec_phase()),
            r matches Ok(found) ==> (found is Some <==> self.spec_documents().contains_key(path@)),
            r matches Ok(Some(d)) ==> d.path@ == path@ && doc_view(*d) == self.spec_documents()[path@],
    {
        self.ensure_ready("document")?;
        match self.find_document(path) {
            Some(i) => Ok(Some(&self.open_documents[i])),
            None => Ok(None),
        }
    }

    /// Returns all tracked open documents.
    pub fn open_documents(&self) -> (r: Result<&Vec<TrackedDocument>, WorkspaceSessionError>)
        requires
            self.wf(),
        ensures
            r is Err <==> self.spec_phase() != WorkspaceSessionPhase::Ready,
            r matches Err(e) ==> is_phase_error(e, "open_documents"@, self.spec_phase()),
            r matches Ok(docs) ==> docs_map(docs@) == self.spec_documents() && paths_distinct(docs@),
    {
        self.ensure_ready("open_documents")?;
        Ok(&self.open_documents)
    }

    /// The URI to name a document by: that of the open document, or the path's file URI.
    pub fn document_uri(&self, path: &str) -> (r: String)
        requires
            self.wf(),
        ensures
            self.spec_documents().contains_key(path@) ==> r@ == self.spec_documents()[path@].uri,
            !self.spec_documents().contains_key(path@) ==> r@ == spec_file_uri(path@),
    {
        match self.find_document(path) {
            Some(i) => self.open_documents[i].text_document.uri.clone(),
            None => file_uri_from_path(path),
        }
    }

    /// Checks that a document can be opened and prepares its tracked state; the caller
    /// sends `textDocument/didOpen` with it and then records it with `finish_open`.
    pub fn begin_open(&self, path: &str, language_id: String, version: i32, text: String) -> (r: Result<TrackedDocument, WorkspaceSessionError>)
        requires
            self.wf(),
        ensures
            self.spec_phase() != WorkspaceSessionPhase::Ready ==> (r matches Err(e) && is_phase_error(e, "open_document"@, self.spec_phase())),
            self.spec_phase() == WorkspaceSessionPhase::Ready && self.spec_documents().contains_key(path@) ==> (r matches Err(e) && is_already_open_error(e, path@)),
            self.spec_phase() == WorkspaceSessionPhase::Ready && !self.spec_documents().contains_key(path@) ==> (r matches Ok(d) && d.path@ == path@ && doc_view(d) == DocView {
                uri: spec_file_uri(path@),
                language_id: language_id@,
                version,
                text: text@,
            }),
    {
        self.ensure_ready("open_document")?;
        if self.find_document(path).is_some() {
            return Err(WorkspaceSessionError::DocumentAlreadyOpen { path: path.to_owned() });
        }
        Ok(TrackedDocument {
            path: path.to_owned(),
            text_document: TextDocumentItem { uri: file_uri_from_path(path), language_id, version, text },
        })
    }

    /// Records a document that was announced as opened.
    pub fn finish_open(&mut self, document: TrackedDocument)
        requires
            old(self).wf(),
            !old(self).spec_documents().contains_key(document.path@),
        ensures
            final(self).wf(),
            final(self).spec_root() == old(self).spec_root(),
            final(self).spec_uri() == old(self).spec_uri(),
            final(self).spec_configuration() == old(self).spec_configuration(),
            final(self).spec_ready() == old(self).spec_ready(),
            final(self).spec_documents() == old(self).spec_documents().insert(document.path@, doc_view(document)),
            final(self).spec_phase() == old(self).spec_phase(),
            final(self).spec_loading() == old(self).spec_loading(),
            final(self).spec_buffered() == old(self).spec_buffered(),
    {
        let ghost before = self.open_documents@;
        proof {
            lemma_docs_map_contains(before, document.path@);
        }
        self.open_documents.push(document);
        assert(self.open_documents@.drop_last() =~= before);
        assert forall|a: int, b: int| 0 <= a < b < self.open_documents@.len() implies self.open_documents@[a].path@
            != self.open_documents@[b].path@ by {
            if b == before.len() {
                assert(self.open_documents@[a] == before[a]);
            } else {
                assert(self.open_documents@[a] == before[a]);
                assert(self.open_documents@[b] == before[b]);
            }
        }
    }

    /// Checks a full-text change to an open document: the version must increase.
    /// Returns the document's URI for the `textDocument/didChange` notification.
    pub fn begin_change(&self, path: &str, version: i32) -> (r: Result<String, WorkspaceSessionError>)
        requires
            self.wf(),
        ensures
            self.spec_phase() != WorkspaceSessionPhase::Ready ==> (r matches Err(e) && is_phase_error(e, "change_document"@, self.spec_phase())),
            self.spec_phase() == WorkspaceSessionPhase::Ready && !self.spec_documents().contains_key(path@) ==> (r matches Err(e) && is_not_open_error(e, path@)),
            self.spec_phase() == WorkspaceSessionPhase::Ready && self.spec_documents().contains_key(path@) ==> {
                let current = self.spec_documents()[path@].version;
                &&& version <= current ==> (r matches Err(e) && is_version_error(e, path@, current, version))
                &&& version > current ==> (r matches Ok(uri) && uri@ == self.spec_documents()[path@].uri)
            },
    {
        self.ensure_ready("change_document")?;
        match self.find_document(path) {
            None => Err(WorkspaceSessionError::DocumentNotOpen { path: path.to_owned() }),
            Some(i) => {
                let current = self.open_documents[i].version();
                if version <= current {
                    Err(WorkspaceSessionError::NonMonotonicDocumentVersion {
                        path: path.to_owned(),
                        current_version: current,
                        new_version: version,
                    })
                } else {
                    Ok(self.open_documents[i].text_document.uri.clone())
                }
            },
        }
    }

    /// Checks a full-text replacement of an open document and returns its URI and the next
    /// version, one past the current one.
    pub fn begin_replace(&self, path: &str) -> (r: Result<(String, i32), WorkspaceSessionError>)
        requires
            self.wf(),
            self.spec_documents().contains_key(path@) ==> self.spec_documents()[path@].version < i32::MAX,
        ensures
            self.spec_phase() != WorkspaceSessionPhase::Ready ==> (r matches Err(e) && is_phase_error(e, "replace_document"@, self.spec_phase())),
            self.spec_phase() == WorkspaceSessionPhase::Ready && !self.spec_documents().contains_key(path@) ==> (r matches Err(e) && is_not_open_error(e, path@)),
            self.spec_phase() == WorkspaceSessionPhase::Ready && self.spec_documents().contains_key(path@) ==> (r matches Ok((uri, v))
                && uri@ == self.spec_documents()[path@].uri && v == self.spec_documents()[path@].version + 1),
    {
        self.ensure_ready("replace_document")?;
        match self.find_document(path) {
            None => Err(WorkspaceSessionError::DocumentNotOpen { path: path.to_owned() }),
            Some(i) => {
                let next = self.open_documents[i].version() + 1;
                Ok((self.open_documents[i].text_document.uri.clone(), next))
            },
        }
    }

    /// Records the new version and text of an open document after the change was announced.
    pub fn finish_change(&mut self, path: &str, version: i32, text: String)
        requires
            old(self).wf(),
            old(self).spec_documents().contains_key(path@),
        ensures
            final(self).wf(),
            final(self).spec_root() == old(self).spec_root(),
            final(self).spec_uri() == old(self).spec_uri(),
            final(self).spec_configuration() == old(self).spec_configuration(),
            final(self).spec_ready() == old(self).spec_ready(),
            final(self).spec_documents() == old(self).spec_documents().insert(path@, DocView {
                uri: old(self).spec_documents()[path@].uri,
                language_id: old(self).spec_documents()[path@].language_id,
                version,
                text: text@,
            }),
            final(self).spec_phase() == old(self).spec_phase(),
            final(self).spec_loading() == old(self).spec_loading(),
            final(self).spec_buffered() == old(self).spec_buffered(),
    {
        match self.find_document(path) {
            Some(i) => {
                let updated = TrackedDocument {
                    path: self.open_documents[i].path.clone(),
                    text_document: TextDocumentItem {
                        uri: self.open_documents[i].text_document.uri.clone(),
                        language_id: self.open_documents[i].text_document.language_id.clone(),
                        version,
                        text,
                    },
                };
                proof {
                    lemma_docs_map_update(self.open_documents@, i as int, updated);
                }
                self.open_documents.set(i, updated);
            },
            None => {},
        }
    }

    /// Checks that a document is open before `textDocument/didSave` and returns its URI.
    pub fn begin_save(&self, path: &str) -> (r: Result<String, WorkspaceSessionError>)
        requires
            self.wf(),
        ensures
            self.spec_phase() != WorkspaceSessionPhase::Ready ==> (r matches Err(e) && is_phase_error(e, "save_document"@, self.spec_phase())),
            self.spec_phase() == WorkspaceSessionPhase::Ready && !self.spec_documents().contains_key(path@) ==> (r matches Err(e) && is_not_open_error(e, path@)),
            self.spec_phase() == WorkspaceSessionPhase::Ready && self.spec_documents().contains_key(path@) ==> (r matches Ok(uri) && uri@ == self.spec_documents()[path@].uri),
    {
        self.ensure_ready("save_document")?;
        match self.find_document(path) {
            None => Err(WorkspaceSessionError::DocumentNotOpen { path: path.to_owned() }),
            Some(i) => Ok(self.open_documents[i].text_document.uri.clone()),
        }
    }

    /// Checks that a document is open before `textDocument/didClose` and returns its URI.
    pub fn begin_close(&self, path: &str) -> (r: Result<String, WorkspaceSessionError>)
        requires
            self.wf(),
        ensures
            self.spec_phase() != WorkspaceSessionPhase::Ready ==> (r matches Err(e) && is_phase_error(e, "close_document"@, self.spec_phase())),
            self.spec_phase() == WorkspaceSessionPhase::Ready && !self.spec_documents().contains_key(path@) ==> (r matches Err(e) && is_not_open_error(e, path@)),
            self.spec_phase() == WorkspaceSessionPhase::Ready && self.spec_documents().contains_key(path@) ==> (r matches Ok(uri) && uri@ == self.spec_documents()[path@].uri),
    {
        self.ensure_ready("close_document")?;
        match self.find_document(path) {
            None => Err(WorkspaceSessionError::DocumentNotOpen { path: path.to_owned() }),
            Some(i) => Ok(self.open_documents[i].text_document.uri.clone()),
        }
    }

    /// Stops tracking an open document after its closing was announced, and returns it.
    pub fn finish_close(&mut self, path: &str) -> (r: Option<TrackedDocument>)
        requires
            old(self).wf(),
        ensures
            final(self).wf(),
            final(self).spec_root() == old(self).spec_root(),
            final(self).spec_uri() == old(self).spec_uri(),
            final(self).spec_configuration() == old(self).spec_configuration(),
            final(self).spec_ready() == old(self).spec_ready(),
            old(self).spec_documents().contains_key(path@) ==> (r matches Some(d) && d.path@ == path@ && doc_view(d) == old(self).spec_documents()[path@]),
            !old(self).spec_documents().contains_key(path@) ==> r is None,
            final(self).spec_documents() == old(self).spec_documents().remove(path@),
            final(self).spec_phase() == old(self).spec_phase(),
            final(self).spec_loading() == old(self).spec_loading(),
            final(self).spec_buffered() == old(self).spec_buffered(),
    {
        match self.find_document(path) {
            Some(i) => {
                proof {
                    lemma_docs_map_remove(self.open_documents@, i as int);
                }
                let d = self.open_documents.remove(i);
                Some(d)
            },
            None => {
                assert(self.spec_documents().remove(path@) =~= self.spec_documents());
                None
            },
        }
    }
}

/// Opening a document that is not open and then closing it leaves the open documents as
/// they were; changing a document keeps its URI and language and only moves its version
/// and text.
pub proof fn law_open_close_restores(docs: Map<Seq<char>, DocView>, path: Seq<char>, doc: DocView)
    requires
        !docs.contains_key(path),
    ensures
        docs.insert(path, doc).remove(path) == docs,
{
    assert(docs.insert(path, doc).remove(path) =~= docs);
}

} // verus!
