//! Stable MCP-facing error taxonomy for rust-analyzer-backed tools.

use vstd::prelude::*;
use crate::json::{Json, JsonValue};
use crate::rpc::{spec_duration_debug, SessionError, TimeSpan};
use crate::text::{concat_str, push_signed_decimal, push_str_chars, signed_decimal_text, string_from_chars};
use crate::workspace::{phase_name, WorkspaceSessionError};

verus! {

/// Stable error categories surfaced by the MCP server layer.
#[derive(Debug, Clone, Copy, PartialEq, Eq, Structural)]
pub enum ServerErrorKind {
    /// The caller supplied invalid or incomplete input.
    InvalidInput,
    /// The requested workspace root is unknown to the server.
    WorkspaceNotFound,
    /// The requested document is missing or not synchronized.
    DocumentNotAvailable,
    /// The underlying rust-analyzer workspace is not yet ready.
    NotReady,
    /// The request was cancelled before completion.
    Cancelled,
    /// The request exceeded its configured deadline.
    Timeout,
    /// The downstream protocol returned an invalid or unsupported payload.
    Protocol,
    /// The requested operation is unsupported by the negotiated capabilities.
    CapabilityUnsupported,
    /// An internal server failure occurred.
    Internal,
}

/// The JSON-RPC error code of each kind.
pub open spec fn spec_error_code(kind: ServerErrorKind) -> int {
    match kind {
        ServerErrorKind::InvalidInput => -32602,
        ServerErrorKind::WorkspaceNotFound => -32002,
        ServerErrorKind::DocumentNotAvailable => -32002,
        ServerErrorKind::NotReady => -32600,
        ServerErrorKind::Cancelled => -32800,
        ServerErrorKind::Timeout => -32001,
        ServerErrorKind::Protocol => -32603,
        ServerErrorKind::CapabilityUnsupported => -32004,
        ServerErrorKind::Internal => -32603,
    }
}

/// The serialized (snake case) name of each kind.
pub open spec fn kind_name(kind: ServerErrorKind) -> Seq<char> {
    match kind {
        ServerErrorKind::InvalidInput => "invalid_input"@,
        ServerErrorKind::WorkspaceNotFound => "workspace_not_found"@,
        ServerErrorKind::DocumentNotAvailable => "document_not_available"@,
        ServerErrorKind::NotReady => "not_ready"@,
        ServerErrorKind::Cancelled => "cancelled"@,
        ServerErrorKind::Timeout => "timeout"@,
        ServerErrorKind::Protocol => "protocol"@,
        ServerErrorKind::CapabilityUnsupported => "capability_unsupported"@,
        ServerErrorKind::Internal => "internal"@,
    }
}

impl ServerErrorKind {
    /// The JSON-RPC error code for this kind.
    pub fn error_code(self) -> (r: i32)
        ensures
            r == spec_error_code(self),
    {
        match self {
            ServerErrorKind::InvalidInput => -32602,
            ServerErrorKind::WorkspaceNotFound => -32002,
            ServerErrorKind::DocumentNotAvailable => -32002,
            ServerErrorKind::NotReady => -32600,
            ServerErrorKind::Cancelled => -32800,
            ServerErrorKind::Timeout => -32001,
            ServerErrorKind::Protocol => -32603,
            ServerErrorKind::CapabilityUnsupported => -32004,
            ServerErrorKind::Internal => -32603,
        }
    }

    /// The serialized name of this kind.
    pub fn name(self) -> (r: &'static str)
        ensures
            r@ == kind_name(self),
    {
        match self {
            ServerErrorKind::InvalidInput => "invalid_input",
            ServerErrorKind::WorkspaceNotFound => "workspace_not_found",
            ServerErrorKind::DocumentNotAvailable => "document_not_available",
            ServerErrorKind::NotReady => "not_ready",
            ServerErrorKind::Cancelled => "cancelled",
            ServerErrorKind::Timeout => "timeout",
            ServerErrorKind::Protocol => "protocol",
            ServerErrorKind::CapabilityUnsupported => "capability_unsupported",
            ServerErrorKind::Internal => "internal",
        }
    }
}

/// Every error kind maps to a code in the JSON-RPC error range.
pub proof fn law_error_codes_in_range(kind: ServerErrorKind)
    ensures
        -32800 <= spec_error_code(kind) <= -32000,
{
}

/// Structured MCP-facing error value used before conversion into transport errors.
#[derive(Debug)]
pub struct ServerError {
    /// Stable error category.
    pub kind: ServerErrorKind,
    /// Short human-readable summary.
    pub message: String,
    /// Operation name that produced the failure, when known.
    pub operation: Option<String>,
    /// Whether retrying the operation could plausibly succeed.
    pub retriable: bool,
    /// Additional structured context for callers.
    pub details: Option<JsonValue>,
}

/// A server error in the mathematical model.
pub struct ErrorView {
    pub kind: ServerErrorKind,
    pub message: Seq<char>,
    pub operation: Option<Seq<char>>,
    pub retriable: bool,
    pub details: Option<Json>,
}

/// The view of an optional string.
pub open spec fn opt_view(s: Option<String>) -> Option<Seq<char>> {
    match s {
        Some(t) => Some(t@),
        None => None,
    }
}

/// The view of an optional JSON value.
pub open spec fn opt_json(v: Option<JsonValue>) -> Option<Json> {
    match v {
        Some(j) => Some(j@),
        None => None,
    }
}

impl View for ServerError {
    type V = ErrorView;

    open spec fn view(&self) -> ErrorView {
        ErrorView {
            kind: self.kind,
            message: self.message@,
            operation: opt_view(self.operation),
            retriable: self.retriable,
            details: opt_json(self.details),
        }
    }
}

/// A JSON object holding one string member.
pub open spec fn one_string_member(key: Seq<char>, value: Seq<char>) -> Json {
    Json::Object(seq![(key, Json::Str(value))])
}

fn string_member_object(key: &str, value: &str) -> (r: JsonValue)
    ensures
        r@ == one_string_member(key@, value@),
{
    let mut members: Vec<(String, JsonValue)> = Vec::new();
    members.push((key.to_owned(), JsonValue::Str(value.to_owned())));
    let r = JsonValue::Object(members);
    proof {
        reveal_with_fuel(crate::json::members_view, 2);
        assert(crate::json::members_view(members@) =~= seq![(key@, Json::Str(value@))]);
    }
    r
}

/// The error data sent to MCP clients: a JSON-RPC code, a message, and structured data.
#[derive(Debug)]
pub struct ErrorPayload {
    /// JSON-RPC error code.
    pub code: i32,
    /// Message.
    pub message: String,
    /// Structured data: kind, operation, retriable flag and details.
    pub data: JsonValue,
}

/// The structured data of an error payload.
pub open spec fn payload_data(e: ErrorView) -> Json {
    Json::Object(seq![
        ("kind"@, Json::Str(kind_name(e.kind))),
        ("operation"@, match e.operation { Some(op) => Json::Str(op), None => Json::Null }),
        ("retriable"@, Json::Bool(e.retriable)),
        ("details"@, match e.details { Some(d) => d, None => Json::Null }),
    ])
}

impl ServerError {
    /// Creates a new server error.
    pub fn new(kind: ServerErrorKind, message: String) -> (r: Self)
        ensures
            r@ == (ErrorView { kind, message: message@, operation: None, retriable: false, details: None }),
    {
        ServerError { kind, message, operation: None, retriable: false, details: None }
    }

    /// Marks the error with the operation that failed.
    pub fn with_operation(self, operation: String) -> (r: Self)
        ensures
            r@ == (ErrorView { operation: Some(operation@), ..self@ }),
    {
        ServerError { operation: Some(operation), ..self }
    }

    /// Marks the error as plausibly retriable.
    pub fn retriable(self, retriable: bool) -> (r: Self)
        ensures
            r@ == (ErrorView { retriable, ..self@ }),
    {
        ServerError { retriable, ..self }
    }

    /// Adds structured details for downstream callers.
    pub fn with_details(self, details: JsonValue) -> (r: Self)
        ensures
            r@ == (ErrorView { details: Some(details@), ..self@ }),
    {
        ServerError { details: Some(details), ..self }
    }

    /// Convenience constructor for invalid input errors.
    pub fn invalid_input(message: String) -> (r: Self)
        ensures
            r@ == (ErrorView { kind: ServerErrorKind::InvalidInput, message: message@, operation: None, retriable: false, details: None }),
    {
        Self::new(ServerErrorKind::InvalidInput, message)
    }

    /// Convenience constructor for unknown workspace roots.
    pub fn workspace_not_found(root: &str) -> (r: Self)
        ensures
            r@ == (ErrorView {
                kind: ServerErrorKind::WorkspaceNotFound,
                message: "workspace root is not registered: "@ + root@,
                operation: None,
                retriable: false,
                details: Some(one_string_member("workspace_root"@, root@)),
            }),
    {
        Self::new(ServerErrorKind::WorkspaceNotFound, concat_str("workspace root is not registered: ", root))
            .with_details(string_member_object("workspace_root", root))
    }

    /// Convenience constructor for missing documents.
    pub fn document_not_available(path: &str) -> (r: Self)
        ensures
            r@ == (ErrorView {
                kind: ServerErrorKind::DocumentNotAvailable,
                message: "document is not available: "@ + path@,
                operation: None,
                retriable: false,
                details: Some(one_string_member("document_path"@, path@)),
            }),
    {
        Self::new(ServerErrorKind::DocumentNotAvailable, concat_str("document is not available: ", path))
            .with_details(string_member_object("document_path", path))
    }

    /// Convenience constructor for workspace readiness failures.
    pub fn not_ready(message: String) -> (r: Self)
        ensures
            r@ == (ErrorView { kind: ServerErrorKind::NotReady, message: message@, operation: None, retriable: true, details: None }),
    {
        Self::new(ServerErrorKind::NotReady, message).retriable(true)
    }

    /// Convenience constructor for cancelled work.
    pub fn cancelled(message: String) -> (r: Self)
        ensures
            r@ == (ErrorView { kind: ServerErrorKind::Cancelled, message: message@, operation: None, retriable: true, details: None }),
    {
        Self::new(ServerErrorKind::Cancelled, message).retriable(true)
    }

    /// Convenience constructor for timed out work.
    pub fn timeout(operation: String, timeout: TimeSpan) -> (r: Self)
        requires
            timeout.wf(),
        ensures
            r@ == timeout_view(operation@, timeout),
    {
        let text = timeout.debug_text();
        let message = concat_str("operation timed out after ", text.as_str());
        let millis = timeout.as_millis();
        let mut members: Vec<(String, JsonValue)> = Vec::new();
        members.push(("timeout_ms".to_owned(), JsonValue::Int(millis as i128)));
        let details = JsonValue::Object(members);
        proof {
            reveal_with_fuel(crate::json::members_view, 2);
            assert(crate::json::members_view(members@) =~= seq![("timeout_ms"@, Json::Int(timeout.total_millis()))]);
        }
        Self::new(ServerErrorKind::Timeout, message).with_operation(operation).retriable(true).with_details(details)
    }

    /// Convenience constructor for downstream protocol failures.
    pub fn protocol(message: String) -> (r: Self)
        ensures
            r@ == (ErrorView { kind: ServerErrorKind::Protocol, message: message@, operation: None, retriable: false, details: None }),
    {
        Self::new(ServerErrorKind::Protocol, message)
    }

    /// Convenience constructor for unsupported capability failures.
    pub fn capability_unsupported(message: String) -> (r: Self)
        ensures
            r@ == (ErrorView { kind: ServerErrorKind::CapabilityUnsupported, message: message@, operation: None, retriable: false, details: None }),
    {
        Self::new(ServerErrorKind::CapabilityUnsupported, message)
    }

    /// Convenience constructor for internal server failures.
    pub fn internal(message: String) -> (r: Self)
        ensures
            r@ == (ErrorView { kind: ServerErrorKind::Internal, message: message@, operation: None, retriable: false, details: None }),
    {
        Self::new(ServerErrorKind::Internal, message)
    }

    /// The error as MCP clients receive it: the kind's code, the message, and the kind,
    /// operation, retriable flag and details as structured data.
    pub fn to_error_data(&self) -> (r: ErrorPayload)
        ensures
            r.code == spec_error_code(self.kind),
            r.message@ == self.message@,
            r.data@ == payload_data(self@),
    {
        let mut members: Vec<(String, JsonValue)> = Vec::new();
        members.push(("kind".to_owned(), JsonValue::Str(self.kind.name().to_owned())));
        members.push((
            "operation".to_owned(),
            match &self.operation {
                Some(op) => JsonValue::Str(op.clone()),
                None => JsonValue::Null,
            },
        ));
        members.push(("retriable".to_owned(), JsonValue::Bool(self.retriable)));
        members.push((
            "details".to_owned(),
            match &self.details {
                Some(d) => d.deep_clone(),
                None => JsonValue::Null,
            },
        ));
        let data = JsonValue::Object(members);
        proof {
            reveal_with_fuel(crate::json::members_view, 5);
            assert(crate::json::members_view(members@) =~= match payload_data(self@) {
                Json::Object(m) => m,
                _ => Seq::empty(),
            });
        }
        ErrorPayload { code: self.kind.error_code(), message: self.message.clone(), data }
    }
}

/// Whether the spans that a session error carries are well formed, as every `Duration` is.
pub open spec fn session_error_wf(e: SessionError) -> bool {
    match e {
        SessionError::RequestTimeout { timeout, .. } => timeout.wf(),
        SessionError::ProcessExitTimeout { timeout } => timeout.wf(),
        _ => true,
    }
}

/// Whether the spans that a workspace error carries are well formed.
pub open spec fn workspace_error_wf(e: WorkspaceSessionError) -> bool {
    match e {
        WorkspaceSessionError::Session(s) => session_error_wf(s),
        _ => true,
    }
}

/// The server error that a timeout of `operation` after `t` becomes.
pub open spec fn timeout_view(operation: Seq<char>, t: TimeSpan) -> ErrorView {
    ErrorView {
        kind: ServerErrorKind::Timeout,
        message: "operation timed out after "@ + spec_duration_debug(t.secs, t.nanos),
        operation: Some(operation),
        retriable: true,
        details: Some(Json::Object(seq![("timeout_ms"@, Json::Int(t.total_millis()))])),
    }
}

/// An error of the given kind and message with nothing else set but `retriable`.
pub open spec fn plain_view(kind: ServerErrorKind, message: Seq<char>, retriable: bool) -> ErrorView {
    ErrorView { kind, message, operation: None, retriable, details: None }
}

/// The server error that a session error becomes.
pub open spec fn session_error_view(e: SessionError) -> ErrorView {
    match e {
        SessionError::RequestTimeout { method, timeout } => timeout_view(method@, timeout),
        SessionError::Protocol(m) => plain_view(ServerErrorKind::Protocol, m@, false),
        SessionError::Disconnected => plain_view(ServerErrorKind::Cancelled, "rust-analyzer session disconnected"@, true),
        SessionError::ServerError(err) => plain_view(
            ServerErrorKind::Protocol,
            "rust-analyzer request failed: "@ + err.message@,
            false,
        ),
        SessionError::ProcessExitTimeout { timeout } => timeout_view("shutdown"@, timeout),
        SessionError::Spawn(m) => plain_view(ServerErrorKind::Internal, m@, false),
        SessionError::Io(m) => plain_view(ServerErrorKind::Internal, m@, false),
        SessionError::MissingPipe(pipe) => plain_view(
            ServerErrorKind::Internal,
            "child process missing "@ + pipe@ + " pipe"@,
            false,
        ),
        SessionError::Json(m) => plain_view(ServerErrorKind::Protocol, m@, false),
    }
}

/// The details attached to a refused document version.
pub open spec fn version_details(path: Seq<char>, current: i32, new: i32) -> Json {
    Json::Object(seq![
        ("document_path"@, Json::Str(path)),
        ("current_version"@, Json::Int(current as int)),
        ("new_version"@, Json::Int(new as int)),
    ])
}

/// The server error that a workspace session error becomes.
pub open spec fn workspace_error_view(e: WorkspaceSessionError) -> ErrorView {
    match e {
        WorkspaceSessionError::Session(s) => session_error_view(s),
        WorkspaceSessionError::InvalidPhase { operation, phase } => ErrorView {
            kind: ServerErrorKind::NotReady,
            message: "operation "@ + operation@ + " is invalid while workspace session is in phase "@
                + phase_name(phase),
            operation: Some(operation@),
            retriable: true,
            details: None,
        },
        WorkspaceSessionError::MissingEventReceiver => plain_view(
            ServerErrorKind::Internal,
            "workspace session is missing its event receiver"@,
            false,
        ),
        WorkspaceSessionError::DocumentNotOpen { path } => ErrorView {
            kind: ServerErrorKind::DocumentNotAvailable,
            message: "document is not available: "@ + path@,
            operation: None,
            retriable: false,
            details: Some(one_string_member("document_path"@, path@)),
        },
        WorkspaceSessionError::DocumentAlreadyOpen { path } => ErrorView {
            kind: ServerErrorKind::DocumentNotAvailable,
            message: "document is not available: "@ + path@,
            operation: None,
            retriable: false,
            details: Some(one_string_member("document_path"@, path@)),
        },
        WorkspaceSessionError::NonMonotonicDocumentVersion { path, current_version, new_version } => ErrorView {
            kind: ServerErrorKind::InvalidInput,
            message: "document version must increase: current="@ + signed_decimal_text(current_version as int)
                + ", new="@ + signed_decimal_text(new_version as int),
            operation: None,
            retriable: false,
            details: Some(version_details(path@, current_version, new_version)),
        },
        WorkspaceSessionError::InvalidResponse { method, source } => ErrorView {
            kind: ServerErrorKind::Protocol,
            message: "invalid response for "@ + method@ + ": "@ + source@,
            operation: Some(method@),
            retriable: false,
            details: None,
        },
    }
}

/// Whether a kind names a failure that waiting can cure.
pub open spec fn transient_kind(kind: ServerErrorKind) -> bool {
    kind == ServerErrorKind::NotReady || kind == ServerErrorKind::Cancelled || kind == ServerErrorKind::Timeout
}

/// A server error made from a session or workspace failure is retriable exactly when its
/// kind is transient: not ready, cancelled, or timed out.
pub proof fn law_retriable_exactly_when_transient(e: WorkspaceSessionError)
    ensures
        workspace_error_view(e).retriable <==> transient_kind(workspace_error_view(e).kind),
{
}

fn concat3(a: &str, b: &str, c: &str) -> (r: String)
    ensures
        r@ == a@ + b@ + c@,
{
    let mut v: Vec<char> = Vec::new();
    push_str_chars(&mut v, a);
    push_str_chars(&mut v, b);
    push_str_chars(&mut v, c);
    string_from_chars(&v)
}

impl ServerError {
    /// The server error that a session error becomes (`From<SessionError>`).
    pub fn from_session_error(value: SessionError) -> (r: Self)
        requires
            session_error_wf(value),
        ensures
            r@ == session_error_view(value),
    {
        match value {
            SessionError::RequestTimeout { method, timeout } => Self::timeout(method, timeout),
            SessionError::Protocol(message) => Self::protocol(message),
            SessionError::Disconnected => Self::cancelled("rust-analyzer session disconnected".to_owned()),
            SessionError::ServerError(error) => Self::protocol(
                concat_str("rust-analyzer request failed: ", error.message.as_str()),
            ),
            SessionError::ProcessExitTimeout { timeout } => Self::timeout("shutdown".to_owned(), timeout),
            SessionError::Spawn(error) => Self::internal(error),
            SessionError::Io(error) => Self::internal(error),
            SessionError::MissingPipe(pipe) => Self::internal(
                concat3("child process missing ", pipe.as_str(), " pipe"),
            ),
            SessionError::Json(error) => Self::protocol(error),
        }
    }

    /// The server error that a workspace session error becomes (`From<WorkspaceSessionError>`).
    pub fn from_workspace_error(value: WorkspaceSessionError) -> (r: Self)
        requires
            workspace_error_wf(value),
        ensures
            r@ == workspace_error_view(value),
    {
        match value {
            WorkspaceSessionError::Session(error) => Self::from_session_error(error),
            WorkspaceSessionError::InvalidPhase { operation, phase } => {
                let mut v: Vec<char> = Vec::new();
                push_str_chars(&mut v, "operation ");
                push_str_chars(&mut v, operation.as_str());
                push_str_chars(&mut v, " is invalid while workspace session is in phase ");
                push_str_chars(&mut v, phase.debug_name());
                let message = string_from_chars(&v);
                proof {
                    assert(message@ =~= "operation "@ + operation@
                        + " is invalid while workspace session is in phase "@ + phase_name(phase));
                }
                Self::not_ready(message).with_operation(operation)
            },
            WorkspaceSessionError::MissingEventReceiver => Self::internal(
                "workspace session is missing its event receiver".to_owned(),
            ),
            WorkspaceSessionError::DocumentNotOpen { path } => Self::document_not_available(path.as_str()),
            WorkspaceSessionError::DocumentAlreadyOpen { path } => Self::document_not_available(path.as_str()),
            WorkspaceSessionError::NonMonotonicDocumentVersion { path, current_version, new_version } => {
                let mut v: Vec<char> = Vec::new();
                push_str_chars(&mut v, "document version must increase: current=");
                push_signed_decimal(&mut v, current_version as i128);
                push_str_chars(&mut v, ", new=");
                push_signed_decimal(&mut v, new_version as i128);
                let message = string_from_chars(&v);
                proof {
                    assert(message@ =~= "document version must increase: current="@
                        + signed_decimal_text(current_version as int) + ", new="@
                        + signed_decimal_text(new_version as int));
                }
                let mut members: Vec<(String, JsonValue)> = Vec::new();
                members.push(("document_path".to_owned(), JsonValue::Str(path)));
                members.push(("current_version".to_owned(), JsonValue::Int(current_version as i128)));
                members.push(("new_version".to_owned(), JsonValue::Int(new_version as i128)));
                let details = JsonValue::Object(members);
                proof {
                    reveal_with_fuel(crate::json::members_view, 4);
                    assert(crate::json::members_view(members@) =~= match version_details(
                        path@,
                        current_version,
                        new_version,
                    ) {
                        Json::Object(m) => m,
                        _ => Seq::empty(),
                    });
                }
                Self::invalid_input(message).with_details(details)
            },
            WorkspaceSessionError::InvalidResponse { method, source } => {
                let mut v: Vec<char> = Vec::new();
                push_str_chars(&mut v, "invalid response for ");
                push_str_chars(&mut v, method.as_str());
                push_str_chars(&mut v, ": ");
                push_str_chars(&mut v, source.as_str());
                let message = string_from_chars(&v);
                proof {
                    assert(message@ =~= "invalid response for "@ + method@ + ": "@ + source@);
                }
                Self::protocol(message).with_operation(method)
            },
        }
    }
}

} // verus!
