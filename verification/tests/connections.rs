use protocol::client;
use protocol::client::{Answer, UdsClient};
use protocol::error::ProtocolError;
use protocol::json::Value;
use protocol::protocol::{HandshakeRequest, HandshakeResponse, ServiceRequest, ServiceResponse};
use protocol::reliable;
use protocol::reliable::{ConnectionConfig, ConnectionState, ReliableUdsClient};
use protocol::schema::ServiceSchema;
use protocol::server::{
    Action, Body, Connection, ConnectionGate, Event, Phase, ServerConfig, UdsServer,
};
use protocol::streaming::{StreamMessage, StreamMode, StreamResponse};
use protocol::tcp::{
    ClientAction, ClientEvent, ServerPhase, TcpClient, TcpConnection, TcpServer,
};
use protocol::time::{Duration, Instant};
use protocol::wire::{
    MSG_CLOSE, MSG_ERROR, MSG_HANDSHAKE, MSG_HANDSHAKE_ACK, MSG_PING, MSG_PONG, MSG_REQUEST,
    MSG_RESPONSE, MSG_SCHEMA_REQUEST, MSG_SCHEMA_RESPONSE, MSG_STREAM_CHUNK, MSG_STREAM_END,
    MSG_STREAM_REQUEST, MSG_STREAM_START,
};

fn at(millis: u64) -> Instant {
    Instant {
        nanos: millis * 1_000_000,
    }
}

fn text_of(value: &Value, name: &str) -> String {
    value.get(name).unwrap().as_str().unwrap().to_string()
}

fn hello() -> HandshakeRequest {
    HandshakeRequest {
        client_id: "c1".to_string(),
        service_name: "client".to_string(),
        capabilities: vec!["json".to_string()],
    }
}

fn welcome(success: bool) -> HandshakeResponse {
    HandshakeResponse {
        server_id: "svc".to_string(),
        session_id: "s1".to_string(),
        success,
        encoding: "json".to_string(),
    }
}

fn request(id: &str) -> ServiceRequest {
    ServiceRequest::with_ids(
        id.to_string(),
        "corr".to_string(),
        "svc",
        "m",
        Value::text("in"),
    )
}

fn message(msg_type: u8, payload: &[u8]) -> Event {
    Event::Message {
        msg_type,
        payload: payload.to_vec(),
    }
}

fn connection(config: &ServerConfig) -> Connection {
    UdsServer::new("/tmp/s")
        .with_metrics()
        .connection(config, "svc")
}

fn idle(config: &ServerConfig) -> Connection {
    let mut c = connection(config);
    c.step(message(MSG_HANDSHAKE, b"{}"), at(0));
    c.step(Event::HandshakeDecoded(Ok(hello())), at(0));
    c.step(Event::RateChecked(true), at(0));
    c.step(Event::Greeted(welcome(true)), at(0));
    assert_eq!(c.phase(), Phase::Idle);
    c
}

fn error_sent(action: &Action) -> String {
    match action {
        Action::Send {
            msg_type: MSG_ERROR,
            body: Body::Json(v),
        } => text_of(v, "error"),
        other => panic!("{:?}", other),
    }
}

#[test]
fn handshake_is_answered() {
    let config = ServerConfig::default().with_webhook("http://hook");
    let mut c = connection(&config);
    assert!(matches!(c.start(), Action::ReadFirst));
    let a = c.step(message(MSG_HANDSHAKE, b"hi"), at(0));
    assert!(matches!(&a[..], [Action::DecodeHandshake(p)] if p == b"hi"));
    let a = c.step(Event::HandshakeDecoded(Ok(hello())), at(0));
    assert!(matches!(
        &a[..],
        [
            Action::NotifyReceived { request_id, service_name, method },
            Action::CheckRate { client_id }
        ] if request_id == "c1" && service_name == "svc" && method == "handshake"
            && client_id == "c1"
    ));
    let a = c.step(Event::RateChecked(true), at(0));
    assert!(matches!(&a[..], [Action::Greet(q)] if q.client_id == "c1"));
    let a = c.step(Event::Greeted(welcome(true)), at(0));
    assert!(matches!(
        &a[..],
        [
            Action::Send { msg_type: MSG_HANDSHAKE_ACK, body: Body::Handshake(r) },
            Action::Read { timeout }
        ] if r.session_id == "s1" && *timeout == Duration::from_secs(30)
    ));
}

#[test]
fn connection_has_to_begin_with_a_handshake() {
    let config = ServerConfig::default();
    let mut c = connection(&config);
    let a = c.step(message(MSG_REQUEST, b""), at(0));
    assert!(matches!(
        &a[..],
        [Action::Finish(Err(ProtocolError::Protocol(m)))] if m == "expected handshake"
    ));
    assert_eq!(c.phase(), Phase::Closed);
    assert!(c.step(message(MSG_HANDSHAKE, b""), at(0)).is_empty());
}

#[test]
fn oversized_handshake_is_refused() {
    let mut config = ServerConfig::default();
    config.max_request_size = 3;
    let mut c = connection(&config);
    let a = c.step(message(MSG_HANDSHAKE, b"12345"), at(0));
    assert!(matches!(
        &a[..],
        [Action::Finish(Err(ProtocolError::InvalidMessage(m)))]
            if m == "handshake payload too large: 5 > 3"
    ));
}

#[test]
fn undecodable_handshake_ends_the_connection() {
    let config = ServerConfig::default();
    let mut c = connection(&config);
    c.step(message(MSG_HANDSHAKE, b"{"), at(0));
    let a = c.step(Event::HandshakeDecoded(Err("bad".to_string())), at(0));
    assert!(matches!(
        &a[..],
        [Action::Finish(Err(ProtocolError::Encoding(m)))] if m == "bad"
    ));
}

#[test]
fn client_over_its_rate_is_told() {
    let config = ServerConfig::default();
    let mut c = connection(&config);
    c.step(message(MSG_HANDSHAKE, b"{}"), at(0));
    c.step(Event::HandshakeDecoded(Ok(hello())), at(0));
    let a = c.step(Event::RateChecked(false), at(0));
    assert_eq!(a.len(), 2);
    assert_eq!(error_sent(&a[0]), "rate limit exceeded");
    assert!(matches!(
        &a[1],
        Action::Finish(Err(ProtocolError::ResourceExhausted(m))) if m == "rate limit exceeded"
    ));
}

#[test]
fn refusal_that_cannot_be_sent_ends_with_that_error() {
    let config = ServerConfig::default();
    let mut c = connection(&config);
    c.step(message(MSG_HANDSHAKE, b"{}"), at(0));
    c.step(Event::HandshakeDecoded(Ok(hello())), at(0));
    c.step(Event::RateChecked(false), at(0));
    assert_eq!(c.phase(), Phase::Refusing);
    let a = c.step(Event::SendFailed(ProtocolError::ConnectionClosed), at(0));
    assert!(matches!(
        &a[..],
        [Action::Finish(Err(ProtocolError::ConnectionClosed))]
    ));
    assert_eq!(c.phase(), Phase::Closed);
    assert!(c.step(message(MSG_PING, b""), at(0)).is_empty());
}

#[test]
fn request_is_counted_and_answered() {
    let config = ServerConfig::default().with_webhook("http://hook");
    let mut c = idle(&config);
    let a = c.step(message(MSG_REQUEST, b"q"), at(5));
    assert!(matches!(
        &a[..],
        [
            Action::CountStart,
            Action::NotifyReceived { method, .. },
            Action::DecodeRequest(p)
        ] if method == "16" && p == b"q"
    ));
    let a = c.step(Event::RequestDecoded(Ok(request("r1"))), at(6));
    assert!(matches!(&a[..], [Action::Handle(q)] if q.request_id == "r1"));
    let response = ServiceResponse::success(&request("r1"), Value::text("out"));
    let a = c.step(Event::Handled(response), at(12));
    assert!(matches!(
        &a[..],
        [
            Action::Send { msg_type: MSG_RESPONSE, body: Body::Response(r) },
            Action::CountEnd { latency, success: true, is_timeout: false },
            Action::NotifySent { request_id, status, duration_ms: 7, .. },
            Action::Read { .. }
        ] if r.payload.as_str() == Some("out") && *latency == Duration::from_millis(7)
            && request_id == "r1" && status == "success"
    ));
    assert_eq!(c.phase(), Phase::Idle);
}

#[test]
fn failed_response_counts_as_a_failure() {
    let config = ServerConfig::default();
    let mut c = idle(&config);
    c.step(message(MSG_REQUEST, b"q"), at(0));
    c.step(Event::RequestDecoded(Ok(request("r1"))), at(0));
    let a = c.step(
        Event::Handled(ServiceResponse::error(&request("r1"), "no")),
        at(1),
    );
    assert!(matches!(
        a[1],
        Action::CountEnd {
            success: false,
            is_timeout: false,
            ..
        }
    ));
}

#[test]
fn invalid_requests_are_rejected() {
    let config = ServerConfig::default();
    let mut c = idle(&config);
    c.step(message(MSG_REQUEST, b"q"), at(0));
    let a = c.step(Event::RequestDecoded(Err("eof".to_string())), at(1));
    assert_eq!(a.len(), 3);
    assert!(matches!(a[0], Action::CountEnd { success: false, .. }));
    assert_eq!(error_sent(&a[1]), "invalid request: eof");

    c.step(message(MSG_REQUEST, b"q"), at(2));
    let a = c.step(Event::RequestDecoded(Ok(request(""))), at(3));
    assert_eq!(error_sent(&a[1]), "invalid request format");
    assert_eq!(c.phase(), Phase::Idle);
}

#[test]
fn request_fields_are_limited_in_bytes() {
    assert!(UdsServer::validate_request(&request("r")));
    let mut q = request("r");
    q.request_id = "x".repeat(128);
    assert!(UdsServer::validate_request(&q));
    q.request_id = "x".repeat(129);
    assert!(!UdsServer::validate_request(&q));
    let mut q = request("r");
    q.service_name = "\u{e9}".repeat(128);
    assert!(UdsServer::validate_request(&q));
    q.service_name = "\u{e9}".repeat(129);
    assert!(!UdsServer::validate_request(&q));
    let mut q = request("r");
    q.method = "".to_string();
    assert!(!UdsServer::validate_request(&q));
    q.method = "m".repeat(257);
    assert!(!UdsServer::validate_request(&q));
}

#[test]
fn oversized_message_is_rejected_and_the_connection_goes_on() {
    let mut config = ServerConfig::default();
    config.max_request_size = 4;
    let mut c = idle(&config);
    let a = c.step(message(MSG_CLOSE, b"123456"), at(0));
    assert_eq!(error_sent(&a[0]), "payload too large: 6 > 4");
    assert!(matches!(a[1], Action::Read { .. }));
    assert_eq!(c.phase(), Phase::Idle);
}

#[test]
fn ping_schema_and_close() {
    let config = ServerConfig::default();
    let mut c = idle(&config);
    let a = c.step(message(MSG_PING, b""), at(0));
    assert!(matches!(
        &a[..],
        [
            Action::Send {
                msg_type: MSG_PONG,
                body: Body::Empty
            },
            Action::Read { .. }
        ]
    ));
    let a = c.step(message(MSG_SCHEMA_REQUEST, b""), at(0));
    assert!(matches!(
        &a[0],
        Action::Send { msg_type: MSG_SCHEMA_RESPONSE, body: Body::Schema(s) }
            if s.service_name == "svc" && s.version == "1.0"
    ));
    let a = c.step(message(0x77, b""), at(0));
    assert!(matches!(&a[..], [Action::Read { .. }]));
    let a = c.step(message(MSG_CLOSE, b""), at(0));
    assert!(matches!(&a[..], [Action::Finish(Ok(()))]));
}

#[test]
fn switched_off_features_are_ignored() {
    let config = ServerConfig::default()
        .with_streaming(false)
        .with_schema_introspection(false);
    let mut c = idle(&config);
    let a = c.step(message(MSG_STREAM_REQUEST, b"q"), at(0));
    assert!(matches!(&a[..], [Action::Read { .. }]));
    let a = c.step(message(MSG_SCHEMA_REQUEST, b""), at(0));
    assert!(matches!(&a[..], [Action::Read { .. }]));
}

#[test]
fn stream_request_is_opened_and_ended() {
    let config = ServerConfig::default();
    let mut c = idle(&config);
    c.step(message(MSG_STREAM_REQUEST, b"q"), at(0));
    let mut q = request("r9");
    q.payload = Value::object1("stream_mode", Value::text("values"));
    let a = c.step(Event::RequestDecoded(Ok(q.clone())), at(0));
    match &a[0] {
        Action::Send {
            msg_type: MSG_STREAM_START,
            body: Body::Json(v),
        } => {
            assert_eq!(text_of(v, "request_id"), "r9");
            assert_eq!(text_of(v, "mode"), "values");
            assert_eq!(text_of(v, "status"), "streaming");
        }
        other => panic!("{:?}", other),
    }
    assert!(matches!(&a[1], Action::Handle(_)));
    let a = c.step(
        Event::Handled(ServiceResponse::success(&q, Value::text("done"))),
        at(0),
    );
    match &a[0] {
        Action::Send {
            msg_type: MSG_STREAM_END,
            body: Body::Json(v),
        } => {
            assert_eq!(text_of(v, "request_id"), "r9");
            assert_eq!(text_of(v, "mode"), "values");
            assert_eq!(text_of(v, "status"), "success");
            assert_eq!(text_of(v, "payload"), "done");
        }
        other => panic!("{:?}", other),
    }
    c.step(message(MSG_STREAM_REQUEST, b"q"), at(0));
    let a = c.step(Event::RequestDecoded(Err("bad".to_string())), at(0));
    assert!(matches!(
        &a[..],
        [Action::Finish(Err(ProtocolError::Encoding(_)))]
    ));
}

#[test]
fn stream_mode_is_whole_results_unless_named() {
    let config = ServerConfig::default();
    for payload in [
        Value::Null,
        Value::object1("stream_mode", Value::text("nonsense")),
        Value::object1("stream_mode", Value::Bool(true)),
    ] {
        let mut c = idle(&config);
        c.step(message(MSG_STREAM_REQUEST, b"q"), at(0));
        let mut q = request("r");
        q.payload = payload;
        let a = c.step(Event::RequestDecoded(Ok(q)), at(0));
        match &a[0] {
            Action::Send {
                body: Body::Json(v),
                ..
            } => assert_eq!(text_of(v, "mode"), "result"),
            other => panic!("{:?}", other),
        }
    }
}

#[test]
fn silence_and_read_errors_end_a_connection_in_peace() {
    let config = ServerConfig::default();
    let mut c = idle(&config);
    let a = c.step(Event::TimedOut, at(0));
    assert!(matches!(&a[..], [Action::Finish(Ok(()))]));
    let mut c = idle(&config);
    let a = c.step(Event::ReadFailed(ProtocolError::ConnectionClosed), at(0));
    assert!(matches!(&a[..], [Action::Finish(Ok(()))]));
    let mut c = idle(&config);
    let a = c.step(Event::SendFailed(ProtocolError::ConnectionClosed), at(0));
    assert!(matches!(
        &a[..],
        [Action::Finish(Err(ProtocolError::ConnectionClosed))]
    ));
}

#[test]
fn gate_lets_in_as_many_as_allowed() {
    let mut gate = ConnectionGate::new();
    assert!(gate.try_enter(2));
    assert!(gate.try_enter(2));
    assert!(!gate.try_enter(2));
    assert_eq!(UdsServer::active_connections(&gate), 2);
    gate.leave();
    assert!(gate.try_enter(2));
}

#[test]
fn server_hands_its_webhook_to_its_settings() {
    let server = UdsServer::new("/tmp/s").with_webhook("http://hook");
    let config = server.config();
    assert_eq!(config.webhook_url, Some("http://hook".to_string()));
    let service = config.webhook_service().unwrap();
    assert_eq!(service.senders()[0].config().url, "http://hook");
    assert!(UdsServer::new("/tmp/s").config().webhook_service().is_none());
    let mut limiter = config.with_rate_limit(1, 60).rate_limiter();
    assert!(limiter.check_at("c", at(0)));
    assert!(!limiter.check_at("c", at(59_999)));
    assert!(limiter.check_at("c", at(60_000)));
}

fn reply(msg_type: u8, payload: &[u8]) -> client::Event {
    client::Event::Message {
        msg_type,
        payload: payload.to_vec(),
    }
}

fn connected_client() -> UdsClient {
    let mut c = UdsClient::new("/tmp/s");
    c.connect();
    c.step(client::Event::Dialed);
    c.step(reply(MSG_HANDSHAKE_ACK, b"{}"));
    let a = c.step(client::Event::HandshakeDecoded(Ok(welcome(true))));
    assert!(matches!(
        &a[..],
        [
            client::Action::KeepStream,
            client::Action::Finish(Ok(Answer::Connected))
        ]
    ));
    assert!(c.is_connected());
    assert_eq!(c.session_id(), &Some("s1".to_string()));
    c
}

#[test]
fn client_connects_before_its_first_call() {
    let mut c = UdsClient::new("/tmp/s");
    let a = c.call("svc", "m", Value::Null);
    assert!(
        matches!(&a[..], [client::Action::Dial { timeout }] if *timeout == Duration::from_secs(5))
    );
    let a = c.step(client::Event::Dialed);
    assert!(matches!(
        &a[..],
        [
            client::Action::Send { msg_type: MSG_HANDSHAKE, body: client::Outgoing::Handshake(q) },
            client::Action::Read { .. }
        ] if q.client_id == "protocol-client" && q.capabilities == vec!["json".to_string()]
    ));
    c.step(reply(MSG_HANDSHAKE_ACK, b"{}"));
    let a = c.step(client::Event::HandshakeDecoded(Ok(welcome(true))));
    assert!(matches!(
        &a[..],
        [
            client::Action::KeepStream,
            client::Action::Send { msg_type: MSG_REQUEST, body: client::Outgoing::Request(q) },
            client::Action::Read { .. }
        ] if q.service_name == "svc" && q.method == "m"
    ));
    let a = c.step(reply(MSG_RESPONSE, b"r"));
    assert!(matches!(&a[..], [client::Action::DecodeResponse(_)]));
    let response = ServiceResponse::success(&request("r"), Value::Null);
    let a = c.step(client::Event::ResponseDecoded(Ok(response)));
    assert!(
        matches!(&a[..], [client::Action::Finish(Ok(Answer::Response(r)))] if r.request_id == "r")
    );
    let a = c.call("svc", "m", Value::Null);
    assert!(matches!(a[0], client::Action::Send { .. }));
}

#[test]
fn client_tells_why_it_could_not_connect() {
    let mut c = UdsClient::new("/tmp/s");
    c.connect();
    let a = c.step(client::Event::TimedOut);
    assert!(matches!(
        &a[..],
        [client::Action::Finish(Err(ProtocolError::Timeout))]
    ));
    c.connect();
    c.step(client::Event::Dialed);
    let a = c.step(reply(MSG_ERROR, b"{}"));
    assert!(matches!(
        &a[..],
        [client::Action::Finish(Err(ProtocolError::Protocol(m)))]
            if m == "invalid handshake response"
    ));
    c.connect();
    c.step(client::Event::Dialed);
    c.step(reply(MSG_HANDSHAKE_ACK, b"{}"));
    let a = c.step(client::Event::HandshakeDecoded(Ok(welcome(false))));
    assert!(matches!(
        &a[..],
        [client::Action::Finish(Err(ProtocolError::Protocol(m)))] if m == "handshake rejected"
    ));
    assert!(!c.is_connected());
}

#[test]
fn failed_call_gives_up_the_connection() {
    let mut c = connected_client();
    c.call("svc", "m", Value::Null);
    let a = c.step(reply(MSG_PONG, b""));
    assert!(matches!(
        &a[..],
        [client::Action::DropStream, client::Action::Finish(Err(ProtocolError::Protocol(m)))]
            if m == "invalid response type"
    ));
    assert!(!c.is_connected());
    let a = c.call("svc", "m", Value::Null);
    assert!(matches!(&a[..], [client::Action::Dial { .. }]));
}

#[test]
fn stream_is_collected_in_order() {
    let mut c = connected_client();
    let a = c.call_streaming("svc", "m", Value::Null, StreamMode::Updates);
    match &a[0] {
        client::Action::Send {
            msg_type: MSG_STREAM_REQUEST,
            body: client::Outgoing::Request(q),
        } => assert_eq!(text_of(&q.payload, "stream_mode"), "updates"),
        other => panic!("{:?}", other),
    }
    c.step(reply(MSG_STREAM_START, b"{}"));
    for i in 0..3 {
        c.step(reply(MSG_STREAM_CHUNK, b"{}"));
        c.step(client::Event::ChunkDecoded(Ok(StreamMessage::new(
            "r",
            i,
            Value::Null,
        ))));
    }
    c.step(reply(MSG_STREAM_END, b"{}"));
    let a = c.step(client::Event::StreamEndDecoded(Ok(
        StreamResponse::completed("r", Value::Null),
    )));
    match &a[..] {
        [client::Action::Finish(Ok(Answer::Messages(m)))] => {
            let indices: Vec<u64> = m.iter().map(|x| x.chunk_index).collect();
            assert_eq!(indices, vec![0, 1, 2]);
        }
        other => panic!("{:?}", other),
    }
}

#[test]
fn stream_errors_are_told() {
    let mut c = connected_client();
    c.call_streaming("svc", "m", Value::empty_object(), StreamMode::Result);
    c.step(reply(MSG_STREAM_END, b"{}"));
    let a = c.step(client::Event::StreamEndDecoded(Ok(StreamResponse::error(
        "r", "broken",
    ))));
    assert!(matches!(
        &a[1],
        client::Action::Finish(Err(ProtocolError::Protocol(m))) if m == "error: broken"
    ));

    let mut c = connected_client();
    c.call_streaming("svc", "m", Value::empty_object(), StreamMode::Result);
    let a = c.step(reply(MSG_ERROR, b"{ \"error\" :  \"rate limit exceeded\" }"));
    assert!(matches!(
        &a[1],
        client::Action::Finish(Err(ProtocolError::Protocol(m)))
            if m == "{\"error\":\"rate limit exceeded\"}"
    ));

    let mut c = connected_client();
    c.call_streaming("svc", "m", Value::empty_object(), StreamMode::Result);
    let a = c.step(reply(MSG_ERROR, b"{"));
    assert!(matches!(
        &a[1],
        client::Action::Finish(Err(ProtocolError::Encoding(_)))
    ));

    let mut c = connected_client();
    c.call_streaming("svc", "m", Value::empty_object(), StreamMode::Result);
    let a = c.step(reply(MSG_PING, b""));
    assert!(matches!(
        &a[1],
        client::Action::Finish(Err(ProtocolError::Protocol(m)))
            if m == "unexpected message type: 64"
    ));
}

#[test]
fn schema_is_asked_for() {
    let mut c = connected_client();
    let a = c.get_schema();
    assert!(matches!(
        a[0],
        client::Action::Send {
            msg_type: MSG_SCHEMA_REQUEST,
            body: client::Outgoing::Empty
        }
    ));
    c.step(reply(MSG_SCHEMA_RESPONSE, b"{}"));
    let a = c.step(client::Event::SchemaDecoded(Ok(ServiceSchema::new(
        "svc", "1.0",
    ))));
    assert!(matches!(
        &a[..],
        [client::Action::Finish(Ok(Answer::Schema(s)))] if s.service_name == "svc"
    ));
    c.get_schema();
    let a = c.step(reply(MSG_RESPONSE, b"{}"));
    assert!(matches!(
        &a[1],
        client::Action::Finish(Err(ProtocolError::Protocol(m))) if m == "expected schema response"
    ));
    assert!(matches!(c.close(), client::Action::DropStream));
    assert_eq!(c.session_id(), &None);
}

fn dialed() -> ReliableUdsClient {
    let mut c = ReliableUdsClient::new("/tmp/s");
    c.connect();
    let a = c.step(reliable::Event::Dialed, at(1), 100);
    assert!(matches!(
        &a[..],
        [
            reliable::Action::KeepStream,
            reliable::Action::Finish(Ok(None))
        ]
    ));
    c
}

#[test]
fn reliable_client_counts_its_calls() {
    let mut c = dialed();
    assert_eq!(c.state(), ConnectionState::Connected);
    assert_eq!(c.stats().reconnection_successes, 1);
    assert_eq!(c.stats().last_connected_at, 100);
    assert!(!c.needs_reconnect_at(at(1_000_000)));

    let a = c.begin_call(request("r"));
    assert!(matches!(
        &a[..],
        [
            reliable::Action::SendRequest(_),
            reliable::Action::Read { .. }
        ]
    ));
    c.step(
        reliable::Event::Message {
            msg_type: MSG_RESPONSE,
            payload: vec![],
        },
        at(2),
        101,
    );
    let response = ServiceResponse::success(&request("r"), Value::Null);
    let a = c.step(reliable::Event::ResponseDecoded(Ok(response)), at(3), 101);
    assert!(matches!(&a[..], [reliable::Action::Finish(Ok(Some(r)))] if r.request_id == "r"));
    assert_eq!(c.stats().successful_requests, 1);
    assert_eq!(c.stats().success_rate().part, 1);
    assert!(!c.needs_reconnect_at(at(300_003)));
    assert!(c.needs_reconnect_at(at(300_004)));

    c.begin_call(request("r"));
    let a = c.step(reliable::Event::TimedOut, at(4), 102);
    assert!(matches!(
        &a[..],
        [reliable::Action::Finish(Err(ProtocolError::Timeout))]
    ));
    assert_eq!(c.stats().failed_requests, 1);
    assert_eq!(c.stats().total_requests, 2);
    assert_eq!(c.state(), ConnectionState::Connected);
}

#[test]
fn error_of_the_server_breaks_off() {
    let mut c = dialed();
    c.begin_call(request("r"));
    let a = c.step(
        reliable::Event::Message {
            msg_type: MSG_ERROR,
            payload: b"{\"message\":\"down\"}".to_vec(),
        },
        at(2),
        1,
    );
    assert!(matches!(
        &a[..],
        [reliable::Action::DropStream, reliable::Action::Finish(Err(ProtocolError::Server(m)))]
            if m == "down"
    ));
    assert_eq!(c.state(), ConnectionState::Disconnected);
    assert_eq!(c.stats().failed_requests, 1);

    let mut c = dialed();
    c.begin_call(request("r"));
    let a = c.step(
        reliable::Event::Message {
            msg_type: MSG_ERROR,
            payload: b"{\"error\":\"down\"}".to_vec(),
        },
        at(2),
        1,
    );
    assert!(matches!(
        &a[1],
        reliable::Action::Finish(Err(ProtocolError::Server(m))) if m == "Unknown error"
    ));

    let mut c = dialed();
    c.begin_call(request("r"));
    let a = c.step(
        reliable::Event::Message {
            msg_type: MSG_ERROR,
            payload: b"?".to_vec(),
        },
        at(2),
        1,
    );
    assert!(matches!(
        &a[..],
        [reliable::Action::Finish(Err(ProtocolError::Encoding(_)))]
    ));
    assert_eq!(c.state(), ConnectionState::Connected);

    let mut c = dialed();
    c.begin_call(request("r"));
    let a = c.step(
        reliable::Event::Message {
            msg_type: MSG_PONG,
            payload: vec![],
        },
        at(2),
        1,
    );
    assert!(matches!(
        &a[1],
        reliable::Action::Finish(Err(ProtocolError::Protocol(m)))
            if m == "Unexpected message type: 65"
    ));
}

#[test]
fn reliable_client_tells_why_it_could_not_connect() {
    let mut c = ReliableUdsClient::new("/tmp/s");
    let a = c.begin_call(request("r"));
    assert!(matches!(&a[..], [reliable::Action::Dial { .. }]));
    assert!(c.is_connecting());
    let a = c.step(reliable::Event::DialFailed("refused".to_string()), at(0), 1);
    assert!(matches!(
        &a[..],
        [reliable::Action::Finish(Err(ProtocolError::ConnectionFailed(m)))] if m == "refused"
    ));
    assert_eq!(c.state(), ConnectionState::Failed);
    assert_eq!(c.stats().reconnection_attempts, 1);
    assert_eq!(c.stats().reconnection_rate().part, 0);
}

#[test]
fn reconnecting_pauses_longer_every_time_and_gives_up() {
    let config = ConnectionConfig::default()
        .with_max_reconnect_attempts(3)
        .with_reconnect_delay(Duration::from_secs(20));
    let mut c = ReliableUdsClient::with_config("/tmp/s", config);
    let mut pauses: Vec<u64> = vec![];
    let mut a = c.reconnect(1);
    for _ in 0..3 {
        assert!(matches!(
            &a[..],
            [reliable::Action::DropStream, reliable::Action::Dial { .. }]
        ));
        assert_eq!(c.state(), ConnectionState::Reconnecting);
        match &c.step(reliable::Event::DialFailed("no".to_string()), at(0), 1)[..] {
            [reliable::Action::Sleep { span }] => pauses.push(span.as_secs()),
            other => panic!("{:?}", other),
        }
        a = c.step(reliable::Event::Slept, at(0), 1);
    }
    assert_eq!(pauses, vec![20, 30, 30]);
    assert!(matches!(
        &a[..],
        [reliable::Action::Finish(Err(ProtocolError::ConnectionFailed(m)))]
            if m == "Failed to reconnect after 3 attempts"
    ));
    assert_eq!(c.state(), ConnectionState::Failed);
    assert_eq!(c.stats().reconnection_attempts, 1);
}

#[test]
fn ping_needs_a_connection() {
    let mut c = ReliableUdsClient::new("/tmp/s");
    let a = c.ping();
    assert!(matches!(
        &a[..],
        [reliable::Action::Finish(Err(
            ProtocolError::ConnectionClosed
        ))]
    ));
    let mut c = dialed();
    assert!(matches!(&c.ping()[..], [reliable::Action::SendPing]));
    assert!(matches!(
        &c.step(reliable::Event::Sent, at(0), 1)[..],
        [reliable::Action::Finish(Ok(None))]
    ));
    assert!(matches!(c.disconnect(), reliable::Action::DropStream));
    assert_eq!(c.state(), ConnectionState::Disconnected);
}

#[test]
fn tcp_connection_serves() {
    assert_eq!(TcpServer::new("127.0.0.1:1").addr(), "127.0.0.1:1");
    let mut c = TcpConnection::new();
    c.step(message(MSG_HANDSHAKE, b"{}"));
    c.step(Event::HandshakeDecoded(Ok(hello())));
    c.step(Event::Greeted(welcome(true)));
    c.step(message(MSG_REQUEST, b"q"));
    let a = c.step(Event::RequestDecoded(Ok(request(""))));
    assert!(matches!(&a[..], [Action::Handle(_)]));
    let a = c.step(Event::Handled(ServiceResponse::success(
        &request("r"),
        Value::Null,
    )));
    assert!(matches!(
        &a[..],
        [
            Action::Send {
                msg_type: MSG_RESPONSE,
                ..
            },
            Action::ReadFirst
        ]
    ));
    let a = c.step(Event::ReadFailed(ProtocolError::InvalidMessage(
        "x".to_string(),
    )));
    assert!(matches!(&a[..], [Action::ReadFirst]));
    let a = c.step(Event::ReadFailed(ProtocolError::ConnectionClosed));
    assert!(matches!(&a[..], [Action::Finish(Ok(()))]));
    assert_eq!(c.phase(), ServerPhase::Closed);

    let mut c = TcpConnection::new();
    let a = c.step(message(MSG_PING, b""));
    assert!(matches!(
        &a[..],
        [Action::Finish(Err(ProtocolError::Protocol(_)))]
    ));
}

#[test]
fn tcp_client_calls() {
    let mut c = TcpClient::new("127.0.0.1:1");
    let a = c.begin_call(request("r"));
    assert!(matches!(&a[..], [ClientAction::Dial]));
    let a = c.step(ClientEvent::Dialed);
    assert!(matches!(
        &a[..],
        [ClientAction::SendHandshake(q), ClientAction::Read]
            if q.client_id == "protocol-tcp-client" && q.service_name == "client"
    ));
    c.step(ClientEvent::Message {
        msg_type: MSG_HANDSHAKE_ACK,
        payload: vec![],
    });
    let a = c.step(ClientEvent::HandshakeDecoded(Ok(welcome(true))));
    assert!(matches!(&a[..], [ClientAction::Dial]));
    let a = c.step(ClientEvent::Dialed);
    assert!(matches!(
        &a[..],
        [ClientAction::KeepStream, ClientAction::SendHandshake(q), ClientAction::Read]
            if q.service_name == "svc"
    ));
    let a = c.step(ClientEvent::Message {
        msg_type: 0x99,
        payload: vec![],
    });
    assert!(matches!(
        &a[..],
        [ClientAction::SendRequest(q), ClientAction::Read] if q.request_id == "r"
    ));
    let a = c.step(ClientEvent::Message {
        msg_type: MSG_PONG,
        payload: vec![],
    });
    assert!(matches!(
        &a[..],
        [ClientAction::Finish(Err(ProtocolError::Protocol(m)))] if m == "invalid response type"
    ));
    assert!(!c.is_connected());
    let a = c.begin_call(request("r"));
    assert!(matches!(&a[..], [ClientAction::Dial]));
}

#[test]
fn tcp_client_without_a_stream_cannot_call() {
    let mut c = TcpClient::new("127.0.0.1:1");
    c.connect();
    c.step(ClientEvent::Dialed);
    c.step(ClientEvent::Message {
        msg_type: MSG_HANDSHAKE_ACK,
        payload: vec![],
    });
    c.step(ClientEvent::HandshakeDecoded(Ok(welcome(true))));
    c.step(ClientEvent::DialFailed(ProtocolError::ConnectionFailed(
        "no".to_string(),
    )));
    assert!(c.is_connected());
    let a = c.begin_call(request("r"));
    assert!(matches!(
        &a[..],
        [ClientAction::Finish(Err(ProtocolError::ConnectionClosed))]
    ));
}
