//! JSON-RPC identifiers, transport errors and events, and the routing of incoming messages.

use vstd::prelude::*;
use crate::json::{json_get, str_eq, JsonValue, Json};

verus! {

/// A span of time: whole seconds and the nanoseconds past them.
#[derive(Debug, Clone, Copy, PartialEq, Eq)]
pub struct TimeSpan {
    /// Whole seconds.
    pub secs: u64,
    /// Nanoseconds past the whole seconds, below one billion.
    pub nanos: u32,
}

/// What std's `Debug` rendering of `Duration::new(secs, nanos)` is.
pub uninterp spec fn spec_duration_debug(secs: u64, nanos: u32) -> Seq<char>;

/// Renders a span as std's `Debug` for `Duration` does (for instance `250ms` or `1.5s`).
#[verifier::external_body]
pub(crate) fn duration_debug_text(secs: u64, nanos: u32) -> (r: String)
    requires
        nanos < 1_000_000_000,
    ensures
        r@ == spec_duration_debug(secs, nanos),
{
    format!("{:?}", std::time::Duration::new(secs, nanos))
}

impl TimeSpan {
    /// A well-formed span keeps its nanoseconds below one second.
    pub open spec fn wf(self) -> bool {
        self.nanos < 1_000_000_000
    }

    /// Whole milliseconds in the span.
    pub open spec fn total_millis(self) -> int {
        self.secs * 1000 + self.nanos / 1_000_000
    }

    /// A span of whole milliseconds.
    pub fn from_millis(ms: u64) -> (r: TimeSpan)
        ensures
            r.wf(),
            r.total_millis() == ms,
    {
        TimeSpan { secs: ms / 1000, nanos: ((ms % 1000) * 1_000_000) as u32 }
    }

    /// Whole milliseconds in the span.
    pub fn as_millis(&self) -> (r: u128)
        requires
            self.wf(),
        ensures
            r == self.total_millis(),
    {
        self.secs as u128 * 1000 + (self.nanos / 1_000_000) as u128
    }

    /// The span's `Debug` text.
    pub fn debug_text(&self) -> (r: String)
        requires
            self.wf(),
        ensures
            r@ == spec_duration_debug(self.secs, self.nanos),
    {
        duration_debug_text(self.secs, self.nanos)
    }
}

/// JSON-RPC request identifier.
#[derive(Debug)]
pub enum JsonRpcId {
    /// Numeric request identifier.
    Integer(i64),
    /// String request identifier.
    String(String),
}

/// The request identifier carried on the wire by the LSP transport: a 32-bit integer or text.
#[derive(Debug)]
pub enum LspRequestId {
    /// Integer identifier.
    Int(i32),
    /// Text identifier.
    Text(String),
}

/// JSON-RPC error returned by a remote server.
#[derive(Debug)]
pub struct ResponseError {
    /// Protocol-defined numeric error code.
    pub code: i64,
    /// Human-readable error message.
    pub message: String,
    /// Optional structured error payload.
    pub data: Option<JsonValue>,
}

/// The error object of a response as the LSP transport carries it.
#[derive(Debug)]
pub struct LspResponseError {
    /// Numeric error code.
    pub code: i32,
    /// Error message.
    pub message: String,
    /// Optional structured payload.
    pub data: Option<JsonValue>,
}

/// A server-originated request surfaced to higher layers.
#[derive(Debug)]
pub struct ServerRequest {
    /// Server-generated request id.
    pub id: JsonRpcId,
    /// Requested method name.
    pub method: String,
    /// Optional request parameters.
    pub params: Option<JsonValue>,
}

/// Transport-level events emitted by a running session.
#[derive(Debug)]
pub enum SessionEvent {
    /// A server notification.
    Notification {
        /// Notification method name.
        method: String,
        /// Optional notification params.
        params: Option<JsonValue>,
    },
    /// A normalized progress notification extracted from `$/progress`.
    Progress {
        /// Progress token.
        token: JsonValue,
        /// Progress payload.
        value: JsonValue,
    },
    /// A server-originated request that higher layers may answer.
    ServerRequest(ServerRequest),
    /// A line observed on the child process stderr stream.
    Stderr(String),
}

/// Errors produced by session setup, transport, or JSON-RPC handling.
/// Failures of the operating system or of the JSON codec are held as their messages.
#[derive(Debug)]
pub enum SessionError {
    /// The child process could not be started.
    Spawn(String),
    /// A required stdio pipe was not available on the spawned process.
    MissingPipe(String),
    /// Transport I/O failed while reading or writing frames.
    Io(String),
    /// A frame body could not be decoded as JSON.
    Json(String),
    /// The peer sent an invalid or unsupported JSON-RPC payload.
    Protocol(String),
    /// The peer answered a request with a JSON-RPC error object.
    ServerError(ResponseError),
    /// A request exceeded its configured response deadline.
    RequestTimeout {
        /// The JSON-RPC method that timed out.
        method: String,
        /// The configured timeout that elapsed.
        timeout: TimeSpan,
    },
    /// The child process did not exit within the configured shutdown timeout.
    ProcessExitTimeout {
        /// The configured shutdown timeout that elapsed.
        timeout: TimeSpan,
    },
    /// The child process or transport disconnected before completion.
    Disconnected,
}

/// Whether `e` is a protocol error with the given message.
pub open spec fn is_protocol_error(e: SessionError, msg: Seq<char>) -> bool {
    e matches SessionError::Protocol(m) && m@ == msg
}

/// The integer id for an outgoing request counter, when it fits.
pub open spec fn spec_from_outgoing(id: u64) -> Option<i64> {
    if id <= i64::MAX { Some(id as i64) } else { None }
}

/// The 32-bit wire id for an integer id, when it fits.
pub open spec fn spec_wire_int(id: i64) -> Option<i32> {
    if i32::MIN <= id <= i32::MAX { Some(id as i32) } else { None }
}

/// The outgoing request counter that a response's integer id names, when it is one.
pub open spec fn spec_response_counter(id: i32) -> Option<u64> {
    if id >= 0 { Some(id as u64) } else { None }
}

impl JsonRpcId {
    /// The identifier for an outgoing request counter.
    pub fn from_outgoing(id: u64) -> (r: Result<Self, SessionError>)
        ensures
            r is Ok <==> spec_from_outgoing(id) is Some,
            r matches Ok(v) ==> v matches JsonRpcId::Integer(n) && Some(n) == spec_from_outgoing(id),
            r matches Err(e) ==> is_protocol_error(e, "request id overflow"@),
    {
        if id <= 9223372036854775807u64 {
            Ok(JsonRpcId::Integer(id as i64))
        } else {
            Err(SessionError::Protocol("request id overflow".to_owned()))
        }
    }

    /// The identifier as the LSP transport carries it.
    pub fn into_lsp(self) -> (r: Result<LspRequestId, SessionError>)
        ensures
            match self {
                JsonRpcId::Integer(n) => {
                    &&& (r is Ok <==> spec_wire_int(n) is Some)
                    &&& (r matches Ok(w) ==> w matches LspRequestId::Int(k) && Some(k) == spec_wire_int(n))
                    &&& (r matches Err(e) ==> is_protocol_error(e, "request id overflow"@))
                },
                JsonRpcId::String(s) => r matches Ok(LspRequestId::Text(t)) && t@ == s@,
            },
    {
        match self {
            JsonRpcId::Integer(n) => {
                if -2147483648i64 <= n && n <= 2147483647i64 {
                    Ok(LspRequestId::Int(n as i32))
                } else {
                    Err(SessionError::Protocol("request id overflow".to_owned()))
                }
            },
            JsonRpcId::String(s) => Ok(LspRequestId::Text(s)),
        }
    }

    /// The identifier of a request that arrived over the LSP transport.
    pub fn from_lsp(id: LspRequestId) -> (r: Result<Self, SessionError>)
        ensures
            match id {
                LspRequestId::Int(k) => r matches Ok(JsonRpcId::Integer(n)) && n == k,
                LspRequestId::Text(t) => r matches Ok(JsonRpcId::String(s)) && s@ == t@,
            },
    {
        match id {
            LspRequestId::Int(k) => Ok(JsonRpcId::Integer(k as i64)),
            LspRequestId::Text(t) => Ok(JsonRpcId::String(t)),
        }
    }
}

/// Reads back the outgoing request counter from the id of a response.
pub fn parse_outgoing_response_id(id: &LspRequestId) -> (r: Result<u64, SessionError>)
    ensures
        match id {
            LspRequestId::Int(k) => {
                &&& (r is Ok <==> spec_response_counter(*k) is Some)
                &&& (r matches Ok(v) ==> Some(v) == spec_response_counter(*k))
                &&& (r matches Err(e) ==> is_protocol_error(e, "response id must be non-negative"@))
            },
            LspRequestId::Text(_) => r matches Err(e) && is_protocol_error(e, "response id must be an integer"@),
        },
{
    match id {
        LspRequestId::Int(k) => {
            if *k >= 0 {
                Ok(*k as u64)
            } else {
                Err(SessionError::Protocol("response id must be non-negative".to_owned()))
            }
        },
        LspRequestId::Text(_) => Err(SessionError::Protocol("response id must be an integer".to_owned())),
    }
}

/// A response that answers an outgoing request carries the request's own counter back:
/// every counter up to the largest 32-bit id survives the trip to the wire and back.
pub proof fn law_request_id_correlation(counter: u64)
    requires
        counter <= i32::MAX,
    ensures
        spec_from_outgoing(counter) is Some,
        spec_wire_int(spec_from_outgoing(counter)->0) is Some,
        spec_response_counter(spec_wire_int(spec_from_outgoing(counter)->0)->0) == Some(counter),
{
}

/// The 32-bit code that an error response carries, or a protocol error when the code does
/// not fit.
pub fn response_error_code(code: i64) -> (r: Result<i32, SessionError>)
    ensures
        i32::MIN <= code <= i32::MAX ==> r == Ok::<i32, SessionError>(code as i32),
        !(i32::MIN <= code <= i32::MAX) ==> (r matches Err(e) && is_protocol_error(e, "response error code overflow"@)),
{
    if i32::MIN as i64 <= code && code <= i32::MAX as i64 {
        Ok(code as i32)
    } else {
        Err(SessionError::Protocol("response error code overflow".to_owned()))
    }
}

/// Converts a transport error object into the session's error record.
pub fn parse_response_error(error: LspResponseError) -> (r: ResponseError)
    ensures
        r.code == error.code as i64,
        r.message@ == error.message@,
        r.data == error.data,
{
    ResponseError { code: error.code as i64, message: error.message, data: error.data }
}

impl ResponseError {
    /// Returns an equal copy.
    pub fn duplicate(&self) -> (r: ResponseError)
        ensures
            r.code == self.code,
            r.message@ == self.message@,
            r.data is Some <==> self.data is Some,
            r.data matches Some(d) ==> d@ == self.data->0@,
    {
        ResponseError {
            code: self.code,
            message: self.message.clone(),
            data: match &self.data {
                Some(d) => Some(d.deep_clone()),
                None => None,
            },
        }
    }
}

impl SessionError {
    /// The error handed to each waiter that is still pending when the transport stops:
    /// failures of the operating system keep their message, codec and spawn failures
    /// become protocol errors with their message, and everything else is copied.
    pub fn for_waiter(&self) -> (r: SessionError)
        ensures
            match *self {
                SessionError::Spawn(m) => is_protocol_error(r, m@),
                SessionError::MissingPipe(p) => is_protocol_error(r, p@),
                SessionError::Io(m) => r matches SessionError::Io(m2) && m2@ == m@,
                SessionError::Json(m) => is_protocol_error(r, m@),
                SessionError::Protocol(m) => is_protocol_error(r, m@),
                SessionError::ServerError(e) => r matches SessionError::ServerError(e2) && e2.code == e.code
                    && e2.message@ == e.message@ && (e2.data is Some <==> e.data is Some) && (e2.data matches Some(
                    d2) ==> d2@ == e.data->0@),
                SessionError::RequestTimeout { method, timeout } => r matches SessionError::RequestTimeout {
                    method: m2,
                    timeout: t2,
                } && m2@ == method@ && t2 == timeout,
                SessionError::ProcessExitTimeout { timeout } => r == SessionError::ProcessExitTimeout {
                    timeout,
                },
                SessionError::Disconnected => r == SessionError::Disconnected,
            },
    {
        match self {
            SessionError::Spawn(m) => SessionError::Protocol(m.clone()),
            SessionError::MissingPipe(p) => SessionError::Protocol(p.clone()),
            SessionError::Io(m) => SessionError::Io(m.clone()),
            SessionError::Json(m) => SessionError::Protocol(m.clone()),
            SessionError::Protocol(m) => SessionError::Protocol(m.clone()),
            SessionError::ServerError(e) => SessionError::ServerError(e.duplicate()),
            SessionError::RequestTimeout { method, timeout } => SessionError::RequestTimeout {
                method: method.clone(),
                timeout: *timeout,
            },
            SessionError::ProcessExitTimeout { timeout } => SessionError::ProcessExitTimeout {
                timeout: *timeout,
            },
            SessionError::Disconnected => SessionError::Disconnected,
        }
    }
}


/// A message that arrived over the LSP transport.
#[derive(Debug)]
pub enum IncomingMessage {
    /// A request from the server.
    Request {
        /// Request id.
        id: LspRequestId,
        /// Method name.
        method: String,
        /// Parameters.
        params: JsonValue,
    },
    /// A notification from the server.
    Notification {
        /// Method name.
        method: String,
        /// Parameters.
        params: JsonValue,
    },
    /// A response to one of our requests.
    Response {
        /// Id of the request that this answers.
        id: LspRequestId,
        /// Result, when the request succeeded.
        result: Option<JsonValue>,
        /// Error, when it failed.
        error: Option<LspResponseError>,
    },
}

/// Where an incoming message goes.
#[derive(Debug)]
pub enum IncomingRoute {
    /// Events to hand to higher layers, in order.
    Deliver(Vec<SessionEvent>),
    /// The outcome of the pending request with this counter.
    Resolve {
        /// Counter of the answered request.
        id: u64,
        /// Its result or error.
        outcome: Result<JsonValue, SessionError>,
    },
}

/// The method name of progress notifications.
pub open spec fn progress_method() -> Seq<char> {
    seq!['$', '/', 'p', 'r', 'o', 'g', 'r', 'e', 's', 's']
}

/// Whether a method name is `$/progress`.
pub fn is_progress_method(method: &str) -> (r: bool)
    ensures
        r == (method@ == progress_method()),
{
    let r = str_eq(method, "$/progress");
    proof {
        reveal_strlit("$/progress");
        assert("$/progress"@ =~= progress_method());
    }
    r
}

/// The event for a request from the server.
pub open spec fn is_server_request_event(e: SessionEvent, id: LspRequestId, method: Seq<char>, params: JsonValue) -> bool {
    match e {
        SessionEvent::ServerRequest(req) => {
            &&& req.method@ == method
            &&& req.params == Some(params)
            &&& match id {
                LspRequestId::Int(k) => req.id == JsonRpcId::Integer(k as i64),
                LspRequestId::Text(t) => req.id matches JsonRpcId::String(s) && s@ == t@,
            }
        },
        _ => false,
    }
}

/// The event for a notification from the server.
pub open spec fn is_notification_event(e: SessionEvent, method: Seq<char>, params: JsonValue) -> bool {
    match e {
        SessionEvent::Notification { method: m, params: p } => m@ == method && p == Some(params),
        _ => false,
    }
}

/// The event that carries a progress token and value.
pub open spec fn is_progress_event(e: SessionEvent, token: Json, value: Json) -> bool {
    match e {
        SessionEvent::Progress { token: t, value: v } => t@ == token && v@ == value,
        _ => false,
    }
}

/// Events handed on, as a route.
pub open spec fn delivers(r: Result<IncomingRoute, SessionError>) -> Seq<SessionEvent> {
    match r {
        Ok(IncomingRoute::Deliver(events)) => events@,
        _ => Seq::empty(),
    }
}

/// What routing an incoming message yields.
pub open spec fn routed_as(message: IncomingMessage, r: Result<IncomingRoute, SessionError>) -> bool {
    match message {
        IncomingMessage::Request { id, method, params } => {
            &&& r matches Ok(IncomingRoute::Deliver(_))
            &&& delivers(r).len() == 1
            &&& is_server_request_event(delivers(r)[0], id, method@, params)
        },
        IncomingMessage::Notification { method, params } => {
            if method@ == progress_method() {
                if json_get(params@, "token"@) is None {
                    r matches Err(e) && is_protocol_error(e, "progress notification missing token"@)
                } else if json_get(params@, "value"@) is None {
                    r matches Err(e) && is_protocol_error(e, "progress notification missing value"@)
                } else {
                    &&& r matches Ok(IncomingRoute::Deliver(_))
                    &&& delivers(r).len() == 2
                    &&& is_progress_event(
                        delivers(r)[0],
                        json_get(params@, "token"@)->0,
                        json_get(params@, "value"@)->0,
                    )
                    &&& is_notification_event(delivers(r)[1], method@, params)
                }
            } else {
                &&& r matches Ok(IncomingRoute::Deliver(_))
                &&& delivers(r).len() == 1
                &&& is_notification_event(delivers(r)[0], method@, params)
            }
        },
        IncomingMessage::Response { id, result, error } => {
            match id {
                LspRequestId::Text(_) => r matches Err(e) && is_protocol_error(e, "response id must be an integer"@),
                LspRequestId::Int(k) => if k < 0 {
                    r matches Err(e) && is_protocol_error(e, "response id must be non-negative"@)
                } else {
                    &&& r matches Ok(IncomingRoute::Resolve { id: n, outcome })
                    &&& n == k
                    &&& match error {
                        Some(err) => {
                            &&& outcome matches Err(SessionError::ServerError(re))
                            &&& re.code == err.code as i64
                            &&& re.message@ == err.message@
                            &&& re.data == err.data
                        },
                        None => {
                            &&& outcome matches Ok(v)
                            &&& match result {
                                Some(res) => v == res,
                                None => v@ == Json::Null,
                            }
                        },
                    }
                },
            }
        },
    }
}

/// A request from the server reaches the session as exactly one event that carries the
/// request's own method and parameters.
pub proof fn law_server_requests_keep_their_params(
    id: LspRequestId,
    method: String,
    params: JsonValue,
    r: Result<IncomingRoute, SessionError>,
)
    requires
        routed_as((IncomingMessage::Request { id, method, params }), r),
    ensures
        r matches Ok(IncomingRoute::Deliver(events)) && (events@.len() == 1 && (
        events@[0] matches SessionEvent::ServerRequest(req) && (req.params == Some(params) && req.method@ == method@))),
{
}

/// A response without an error resolves the request that its id names to the response's
/// result as it came, and to `null` only when the response carries no result.
pub proof fn law_successful_responses_resolve_to_their_result(
    k: i32,
    result: Option<JsonValue>,
    r: Result<IncomingRoute, SessionError>,
)
    requires
        0 <= k,
        routed_as((IncomingMessage::Response { id: LspRequestId::Int(k), result, error: None }), r),
    ensures
        r matches Ok(IncomingRoute::Resolve { id, outcome }) && (id == k && (outcome matches Ok(v) && (
        (result matches Some(res) ==> v == res) && (result is None ==> v@ == Json::Null)))),
{
}

/// A response with an error resolves the request that its id names to that error, with the
/// same code, message and data, whatever result the response also carries.
pub proof fn law_error_responses_keep_their_error(
    k: i32,
    result: Option<JsonValue>,
    err: LspResponseError,
    r: Result<IncomingRoute, SessionError>,
)
    requires
        0 <= k,
        routed_as((IncomingMessage::Response { id: LspRequestId::Int(k), result, error: Some(err) }), r),
    ensures
        r matches Ok(IncomingRoute::Resolve { id, outcome }) && (id == k && (outcome matches Err(
            SessionError::ServerError(re),
        ) && (re.code == err.code as i64 && re.message@ == err.message@ && re.data == err.data))),
{
}

/// A notification other than `$/progress` reaches the session as exactly one event with the
/// notification's own method and parameters.
pub proof fn law_notifications_keep_their_params(
    method: String,
    params: JsonValue,
    r: Result<IncomingRoute, SessionError>,
)
    requires
        method@ != progress_method(),
        routed_as((IncomingMessage::Notification { method, params }), r),
    ensures
        r matches Ok(IncomingRoute::Deliver(events)) && (events@.len() == 1 && (
        events@[0] matches SessionEvent::Notification { method: m, params: p } && (m@ == method@ && p == Some(params)))),
{
}

/// Routes a message that arrived from the server: requests and notifications become events
/// (a `$/progress` notification also yields its token and value first); responses resolve
/// the pending request whose counter their id carries.
pub fn route_incoming(message: IncomingMessage) -> (r: Result<IncomingRoute, SessionError>)
    ensures
        routed_as(message, r),
{
    match message {
        IncomingMessage::Request { id, method, params } => {
            let id = JsonRpcId::from_lsp(id)?;
            let request = ServerRequest { id, method, params: Some(params) };
            let mut events: Vec<SessionEvent> = Vec::new();
            events.push(SessionEvent::ServerRequest(request));
            Ok(IncomingRoute::Deliver(events))
        },
        IncomingMessage::Notification { method, params } => {
            let mut events: Vec<SessionEvent> = Vec::new();
            if is_progress_method(method.as_str()) {
                let token = match params.get("token") {
                    Some(t) => t.deep_clone(),
                    None => {
                        return Err(SessionError::Protocol("progress notification missing token".to_owned()));
                    },
                };
                let value = match params.get("value") {
                    Some(v) => v.deep_clone(),
                    None => {
                        return Err(SessionError::Protocol("progress notification missing value".to_owned()));
                    },
                };
                events.push(SessionEvent::Progress { token, value });
            }
            events.push(SessionEvent::Notification { method, params: Some(params) });
            Ok(IncomingRoute::Deliver(events))
        },
        IncomingMessage::Response { id, result, error } => {
            let n = parse_outgoing_response_id(&id)?;
            let outcome = match error {
                Some(err) => Err(SessionError::ServerError(parse_response_error(err))),
                None => match result {
                    Some(v) => Ok(v),
                    None => Ok(JsonValue::Null),
                },
            };
            Ok(IncomingRoute::Resolve { id: n, outcome })
        },
    }
}

/// How a child process ended after `exit`: killed after the timeout, exited cleanly, or
/// exited with a failure status (described by `status_text`).
pub fn exit_outcome(forced: bool, success: bool, status_text: &str, timeout: TimeSpan) -> (r: Result<(), SessionError>)
    ensures
        forced ==> r == Err::<(), SessionError>(SessionError::ProcessExitTimeout { timeout }),
        !forced && success ==> r is Ok,
        !forced && !success ==> (r matches Err(e) && is_protocol_error(
            e,
            "child process exited with status "@ + status_text@,
        )),
{
    if forced {
        Err(SessionError::ProcessExitTimeout { timeout })
    } else if success {
        Ok(())
    } else {
        Err(SessionError::Protocol(crate::text::concat_str("child process exited with status ", status_text)))
    }
}

/// Whether a session stays marked as shut down after a shutdown attempt: it does unless the
/// attempt failed for a reason other than the child outliving the exit timeout.
pub fn shutdown_stays_sent(result: &Result<(), SessionError>) -> (r: bool)
    ensures
        r == (result is Ok || result matches Err(SessionError::ProcessExitTimeout { .. })),
{
    match result {
        Ok(()) => true,
        Err(SessionError::ProcessExitTimeout { .. }) => true,
        Err(_) => false,
    }
}

} // verus!
