use rust_lsp_mcp::pending::PendingRequests;
use rust_lsp_mcp::json::JsonValue;
use rust_lsp_mcp::rpc::{
    exit_outcome, parse_outgoing_response_id, response_error_code, route_incoming, shutdown_stays_sent,
    IncomingMessage, IncomingRoute, JsonRpcId, LspRequestId, LspResponseError, SessionError,
    SessionEvent, TimeSpan,
};

fn object(members: Vec<(&str, JsonValue)>) -> JsonValue {
    JsonValue::Object(members.into_iter().map(|(k, v)| (k.to_owned(), v)).collect())
}

#[test]
fn outgoing_ids_round_trip_through_the_wire() {
    let id = JsonRpcId::from_outgoing(41).expect("fits");
    let wire = id.into_lsp().expect("fits in 32 bits");
    assert!(matches!(wire, LspRequestId::Int(41)));
    assert_eq!(parse_outgoing_response_id(&LspRequestId::Int(41)).expect("counter"), 41);
    assert!(JsonRpcId::from_outgoing(u64::MAX).is_err());
    assert!(JsonRpcId::Integer(1 << 40).into_lsp().is_err());
    assert!(parse_outgoing_response_id(&LspRequestId::Int(-1)).is_err());
    assert!(parse_outgoing_response_id(&LspRequestId::Text("x".to_owned())).is_err());
    assert!(matches!(JsonRpcId::from_lsp(LspRequestId::Text("a".to_owned())), Ok(JsonRpcId::String(ref s)) if s == "a"));
}

#[test]
fn response_error_codes_must_fit_in_32_bits() {
    assert_eq!(response_error_code(-32601).expect("fits"), -32601);
    match response_error_code(1 << 40) {
        Err(SessionError::Protocol(message)) => assert_eq!(message, "response error code overflow"),
        other => panic!("unexpected: {other:?}"),
    }
}

#[test]
fn progress_notifications_yield_a_progress_event_first() {
    let route = route_incoming(IncomingMessage::Notification {
        method: "$/progress".to_owned(),
        params: object(vec![("token", JsonValue::Str("t".to_owned())), ("value", JsonValue::Int(3))]),
    })
    .expect("routed");
    match route {
        IncomingRoute::Deliver(events) => {
            assert_eq!(events.len(), 2);
            assert!(matches!(events[0], SessionEvent::Progress { value: JsonValue::Int(3), .. }));
            assert!(matches!(events[1], SessionEvent::Notification { ref method, .. } if method == "$/progress"));
        }
        other => panic!("unexpected route: {other:?}"),
    }
    let missing = route_incoming(IncomingMessage::Notification {
        method: "$/progress".to_owned(),
        params: object(vec![("value", JsonValue::Int(3))]),
    });
    assert!(matches!(missing, Err(SessionError::Protocol(ref m)) if m == "progress notification missing token"));
    let no_value = route_incoming(IncomingMessage::Notification {
        method: "$/progress".to_owned(),
        params: object(vec![("token", JsonValue::Str("t".to_owned()))]),
    });
    assert!(matches!(no_value, Err(SessionError::Protocol(ref m)) if m == "progress notification missing value"));
    let plain = route_incoming(IncomingMessage::Notification { method: "custom".to_owned(), params: JsonValue::Null })
        .expect("routed");
    assert!(matches!(plain, IncomingRoute::Deliver(ref events) if events.len() == 1));
}

#[test]
fn responses_resolve_their_pending_request() {
    let ok = route_incoming(IncomingMessage::Response { id: LspRequestId::Int(5), result: None, error: None }).expect("routed");
    assert!(matches!(ok, IncomingRoute::Resolve { id: 5, outcome: Ok(JsonValue::Null) }));
    let failed = route_incoming(IncomingMessage::Response {
        id: LspRequestId::Int(6),
        result: None,
        error: Some(LspResponseError { code: -32601, message: "nope".to_owned(), data: None }),
    })
    .expect("routed");
    match failed {
        IncomingRoute::Resolve { id: 6, outcome: Err(SessionError::ServerError(e)) } => {
            assert_eq!(e.code, -32601);
            assert_eq!(e.message, "nope");
        }
        other => panic!("unexpected route: {other:?}"),
    }
    let request = route_incoming(IncomingMessage::Request {
        id: LspRequestId::Int(9),
        method: "workspace/configuration".to_owned(),
        params: JsonValue::Null,
    })
    .expect("routed");
    assert!(matches!(request, IncomingRoute::Deliver(ref events) if events.len() == 1));
}

#[test]
fn child_exit_outcomes() {
    let timeout = TimeSpan::from_millis(50);
    assert!(matches!(exit_outcome(true, false, "", timeout), Err(SessionError::ProcessExitTimeout { .. })));
    assert!(exit_outcome(false, true, "exit status: 0", timeout).is_ok());
    match exit_outcome(false, false, "exit status: 1", timeout) {
        Err(SessionError::Protocol(m)) => assert_eq!(m, "child process exited with status exit status: 1"),
        other => panic!("unexpected: {other:?}"),
    }
    assert!(shutdown_stays_sent(&Ok(())));
    assert!(shutdown_stays_sent(&Err(SessionError::ProcessExitTimeout { timeout })));
    assert!(!shutdown_stays_sent(&Err(SessionError::Disconnected)));
}

#[test]
fn waiters_receive_a_copy_of_the_failure() {
    let failure = SessionError::Io("pipe closed".to_owned());
    assert!(matches!(failure.for_waiter(), SessionError::Io(ref m) if m == "pipe closed"));
    assert!(matches!(SessionError::Json("eof".to_owned()).for_waiter(), SessionError::Protocol(ref m) if m == "eof"));
    assert!(matches!(SessionError::Disconnected.for_waiter(), SessionError::Disconnected));
}

#[test]
fn time_spans_count_whole_milliseconds() {
    let span = TimeSpan::from_millis(1250);
    assert_eq!(span.secs, 1);
    assert_eq!(span.nanos, 250_000_000);
    assert_eq!(span.as_millis(), 1250);
    assert_eq!(span.debug_text(), "1.25s");
}

#[test]
fn pending_requests_resolve_once_and_refuse_after_close() {
    let mut pending: PendingRequests<&str> = PendingRequests::new();
    pending.register(1, "first").expect("open table");
    pending.register(2, "second").expect("open table");
    assert_eq!(pending.take(1), Some("first"));
    assert_eq!(pending.take(1), None);
    pending.register(3, "third").expect("open table");
    let mut waiters = pending.close();
    waiters.sort();
    assert_eq!(waiters, vec!["second", "third"]);
    assert!(matches!(pending.register(4, "late"), Err(SessionError::Disconnected)));
    assert_eq!(pending.take(2), None);
    assert!(pending.close().is_empty());
}
