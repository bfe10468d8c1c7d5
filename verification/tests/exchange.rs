use protocol::client;
use protocol::client::{Answer, Outgoing, UdsClient};
use protocol::error::ProtocolError;
use protocol::json::Value;
use protocol::protocol::{HandshakeRequest, HandshakeResponse, ServiceRequest, ServiceResponse};
use protocol::server::{Action, Body, Connection, Event, Phase, ServerConfig, UdsServer};
use protocol::streaming::{StreamMode, StreamResponse};
use protocol::time::{whole_millis, whole_seconds, Instant};
use protocol::utils::CancellationToken;
use protocol::wire::{
    read_message, write_message, ReadOutcome, MSG_ERROR, MSG_HANDSHAKE, MSG_HANDSHAKE_ACK,
    MSG_REQUEST, MSG_RESPONSE, MSG_SCHEMA_REQUEST, MSG_SCHEMA_RESPONSE, MSG_STREAM_END,
    MSG_STREAM_REQUEST, MSG_STREAM_START,
};

fn now() -> Instant {
    Instant { nanos: 0 }
}

/// Sends a message over a byte stream.
fn carried(msg_type: u8, payload: &[u8]) -> (u8, Vec<u8>) {
    let mut stream: Vec<u8> = vec![];
    write_message(&mut stream, msg_type, payload).unwrap();
    match read_message(&stream) {
        ReadOutcome::Message {
            msg_type, payload, ..
        } => (msg_type, payload),
        other => panic!("{:?}", other),
    }
}

fn to_server(msg_type: u8) -> Event {
    let (msg_type, payload) = carried(msg_type, b"bytes");
    Event::Message { msg_type, payload }
}

fn to_client(msg_type: u8) -> client::Event {
    let (msg_type, payload) = carried(msg_type, b"bytes");
    client::Event::Message { msg_type, payload }
}

fn handshake_sent(actions: &[client::Action]) -> HandshakeRequest {
    match &actions[0] {
        client::Action::Send {
            msg_type: MSG_HANDSHAKE,
            body: Outgoing::Handshake(q),
        } => q.clone(),
        other => panic!("{:?}", other),
    }
}

fn request_sent(actions: &[client::Action]) -> ServiceRequest {
    match &actions[0] {
        client::Action::Send {
            msg_type: MSG_REQUEST,
            body: Outgoing::Request(q),
        } => q.clone(),
        other => panic!("{:?}", other),
    }
}

fn welcome() -> HandshakeResponse {
    HandshakeResponse {
        server_id: "svc".to_string(),
        session_id: "s1".to_string(),
        success: true,
        encoding: "json".to_string(),
    }
}

fn pair() -> (UdsClient, Connection) {
    let mut c = UdsClient::new("/tmp/s");
    let mut s = UdsServer::new("/tmp/s").connection(&ServerConfig::default(), "svc");
    c.connect();
    let hello = handshake_sent(&c.step(client::Event::Dialed));
    s.step(to_server(MSG_HANDSHAKE), now());
    s.step(Event::HandshakeDecoded(Ok(hello)), now());
    let a = s.step(Event::RateChecked(true), now());
    assert!(matches!(&a[..], [Action::Greet(q)] if q.client_id == "protocol-client"));
    s.step(Event::Greeted(welcome()), now());
    c.step(to_client(MSG_HANDSHAKE_ACK));
    c.step(client::Event::HandshakeDecoded(Ok(welcome())));
    assert!(c.is_connected());
    assert_eq!(s.phase(), Phase::Idle);
    (c, s)
}

#[test]
fn call_gives_back_what_the_service_responded() {
    let (mut c, mut s) = pair();
    for text in ["one", "two"] {
        let sent = request_sent(&c.call("svc", "m", Value::text(text)));
        s.step(to_server(MSG_REQUEST), now());
        let a = s.step(Event::RequestDecoded(Ok(sent)), now());
        let handled = match &a[..] {
            [Action::Handle(q)] => q.clone(),
            other => panic!("{:?}", other),
        };
        assert_eq!(handled.payload.as_str(), Some(text));
        let response = ServiceResponse::success(&handled, Value::text("done"));
        let a = s.step(Event::Handled(response), now());
        let answer = match &a[0] {
            Action::Send {
                msg_type: MSG_RESPONSE,
                body: Body::Response(r),
            } => r.clone(),
            other => panic!("{:?}", other),
        };
        c.step(to_client(MSG_RESPONSE));
        let a = c.step(client::Event::ResponseDecoded(Ok(answer)));
        match &a[..] {
            [client::Action::Finish(Ok(Answer::Response(r)))] => {
                assert_eq!(r.request_id, handled.request_id);
                assert_eq!(r.payload.as_str(), Some("done"));
            }
            other => panic!("{:?}", other),
        }
    }
}

fn member(value: &Value, name: &str) -> String {
    value.get(name).unwrap().as_str().unwrap().to_string()
}

#[test]
fn stream_runs_from_its_request_to_its_end() {
    let (mut c, mut s) = pair();
    for text in ["one", "two"] {
        let a = c.call_streaming("svc", "m", Value::empty_object(), StreamMode::Values);
        let sent = match &a[0] {
            client::Action::Send {
                msg_type: MSG_STREAM_REQUEST,
                body: Outgoing::Request(q),
            } => q.clone(),
            other => panic!("{:?}", other),
        };
        s.step(to_server(MSG_STREAM_REQUEST), now());
        let a = s.step(Event::RequestDecoded(Ok(sent)), now());
        let handled = match &a[..] {
            [Action::Send {
                msg_type: MSG_STREAM_START,
                body: Body::Json(v),
            }, Action::Handle(q)] => {
                assert_eq!(member(v, "mode"), "values");
                q.clone()
            }
            other => panic!("{:?}", other),
        };
        let response = ServiceResponse::success(&handled, Value::text(text));
        let a = s.step(Event::Handled(response), now());
        let end = match &a[0] {
            Action::Send {
                msg_type: MSG_STREAM_END,
                body: Body::Json(v),
            } => StreamResponse {
                request_id: member(v, "request_id"),
                mode: member(v, "mode"),
                status: member(v, "status"),
                final_payload: v.get("final_payload").cloned(),
            },
            other => panic!("{:?}", other),
        };
        assert_eq!(end.request_id, handled.request_id);
        assert_eq!(end.mode, "values");
        assert_eq!(s.phase(), Phase::Idle);
        c.step(to_client(MSG_STREAM_START));
        c.step(to_client(MSG_STREAM_END));
        let a = c.step(client::Event::StreamEndDecoded(Ok(end)));
        assert!(matches!(
            &a[..],
            [client::Action::Finish(Ok(Answer::Messages(m)))] if m.is_empty()
        ));
        assert!(c.is_connected());
    }
}

#[test]
fn invalid_call_fails_on_both_sides() {
    let (mut c, mut s) = pair();
    let sent = request_sent(&c.call("", "m", Value::Null));
    s.step(to_server(MSG_REQUEST), now());
    let a = s.step(Event::RequestDecoded(Ok(sent)), now());
    assert!(matches!(
        &a[0],
        Action::Send {
            msg_type: MSG_ERROR,
            ..
        }
    ));
    assert_eq!(s.phase(), Phase::Idle);
    let a = c.step(to_client(MSG_ERROR));
    assert!(matches!(
        &a[..],
        [
            client::Action::DropStream,
            client::Action::Finish(Err(ProtocolError::Protocol(_)))
        ]
    ));
    assert!(!c.is_connected());
}

#[test]
fn client_over_its_rate_stays_unconnected() {
    let mut c = UdsClient::new("/tmp/s");
    let mut s = UdsServer::new("/tmp/s").connection(&ServerConfig::default(), "svc");
    c.connect();
    let hello = handshake_sent(&c.step(client::Event::Dialed));
    s.step(to_server(MSG_HANDSHAKE), now());
    s.step(Event::HandshakeDecoded(Ok(hello)), now());
    let a = s.step(Event::RateChecked(false), now());
    assert!(matches!(
        &a[0],
        Action::Send {
            msg_type: MSG_ERROR,
            ..
        }
    ));
    let a = c.step(to_client(MSG_ERROR));
    assert!(matches!(
        &a[..],
        [client::Action::Finish(Err(ProtocolError::Protocol(_)))]
    ));
    assert!(!c.is_connected());
}

#[test]
fn schema_names_the_service() {
    let (mut c, mut s) = pair();
    c.get_schema();
    let a = s.step(to_server(MSG_SCHEMA_REQUEST), now());
    let schema = match &a[0] {
        Action::Send {
            msg_type: MSG_SCHEMA_RESPONSE,
            body: Body::Schema(schema),
        } => schema.clone(),
        other => panic!("{:?}", other),
    };
    c.step(to_client(MSG_SCHEMA_RESPONSE));
    let a = c.step(client::Event::SchemaDecoded(Ok(schema)));
    assert!(matches!(
        &a[..],
        [client::Action::Finish(Ok(Answer::Schema(s)))] if s.service_name == "svc"
    ));
}

#[test]
fn spans_are_counted_in_whole_units() {
    assert_eq!(whole_millis(Some((1, 999_999_999))), 1999);
    assert_eq!(whole_millis(None), 0);
    assert_eq!(whole_seconds(Some((7, 999_999_999))), 7);
    assert_eq!(whole_seconds(None), 0);
}

#[test]
fn token_counts_as_cancelled_by_its_flag() {
    let mut token = CancellationToken::new();
    assert!(!token.cancelled_by(false));
    assert!(token.cancelled_by(true));
    let fork = token.fork();
    token.cancel();
    assert!(token.cancelled_by(false));
    assert!(fork.is_cancelled());
    assert!(fork.fork().is_cancelled());
    assert!(!CancellationToken::default().is_cancelled());
}
