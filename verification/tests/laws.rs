use protocol::auth::{
    ApiKeyAuthenticator, AuthContext, AuthMiddleware, Authenticator, CompositeAuthenticator,
    Credentials, Permission, TokenAuthenticator,
};
use protocol::discovery::{
    BackgroundHealthChecker, Balancer, LoadBalancingStrategy, ServiceDiscovery, ServiceEndpoint,
};
use protocol::error::ProtocolError;
use protocol::handler::{FnServiceHandler, ServiceHandler};
use protocol::json::{Number, Value};
use protocol::map::StrMap;
use protocol::metrics::{
    Alert, AlertCallback, AlertCondition, AlertManager, AlertRule, ConnectionTracker,
    FnAlertCallback, Histogram, MetricsCollector, Rate,
};
use protocol::protocol::{ServiceRequest, ServiceResponse};
use protocol::session::SessionManager;
use protocol::streaming::{
    pass_on_response, stream_response, DefaultStreamingHandler, StreamMode, StreamingHandler,
};
use protocol::time::{Duration, Instant, Timestamp};
use protocol::utils::{DeadLetterQueue, Metrics, RateLimiter};
use protocol::webhook::{
    notify_outcome, Delivery, DeliveryStep, PostOutcome, WebhookConfig, WebhookEvent,
    WebhookRetryPolicy, WebhookSender, WebhookService, DOUBLE_ONE, DOUBLE_TWO,
};
use protocol::wire::{
    frame_header, payload_length, read_message, write_message, ReadOutcome, MAX_MESSAGE_SIZE,
    MSG_PING, MSG_REQUEST,
};
use protocol::{AuthRateLimiter, CircuitBreaker, CircuitState};
use std::sync::atomic::{AtomicUsize, Ordering};
use std::sync::Arc;

fn at(millis: u64) -> Instant {
    Instant {
        nanos: millis * 1_000_000,
    }
}

fn request(id: &str) -> ServiceRequest {
    ServiceRequest::with_ids(id.to_string(), "c".to_string(), "svc", "m", Value::Null)
}

fn with_token(token: &str) -> Credentials {
    Credentials {
        client_id: "x".to_string(),
        token: Some(token.to_string()),
        api_key: None,
    }
}

fn refusal(r: Result<AuthContext, ProtocolError>) -> String {
    match r {
        Err(ProtocolError::Protocol(m)) => m,
        other => panic!("{:?}", other),
    }
}

#[test]
fn written_messages_are_read_back() {
    let mut stream: Vec<u8> = vec![];
    write_message(&mut stream, MSG_REQUEST, b"abc").unwrap();
    write_message(&mut stream, MSG_PING, b"").unwrap();
    assert_eq!(
        stream,
        vec![0, 0, 0, 5, 0x10, 1, b'a', b'b', b'c', 0, 0, 0, 2, 0x40, 1]
    );
    match read_message(&stream) {
        ReadOutcome::Message {
            msg_type,
            payload,
            consumed,
        } => {
            assert_eq!((msg_type, payload, consumed), (0x10, b"abc".to_vec(), 9));
        }
        other => panic!("{:?}", other),
    }
    match read_message(&stream[9..]) {
        ReadOutcome::Message {
            msg_type, consumed, ..
        } => assert_eq!((msg_type, consumed), (0x40, 6)),
        other => panic!("{:?}", other),
    }
    for n in 0..9 {
        assert!(matches!(
            read_message(&stream[..n]),
            ReadOutcome::Incomplete
        ));
    }
}

#[test]
fn malformed_frames_are_told_apart() {
    assert!(matches!(
        read_message(&[0, 0, 0, 2, 9, 77]),
        ReadOutcome::Message { msg_type: 9, .. }
    ));
    assert!(matches!(
        read_message(&[0, 0, 0, 1]),
        ReadOutcome::Malformed(ProtocolError::InvalidMessage(m)) if m == "invalid length: 1"
    ));
    assert!(matches!(
        payload_length([1, 0, 0, 1]),
        Err(ProtocolError::InvalidMessage(m)) if m == "invalid length: 16777217"
    ));
    assert!(matches!(
        frame_header(1, MAX_MESSAGE_SIZE),
        Err(ProtocolError::InvalidMessage(_))
    ));
    assert_eq!(
        frame_header(0x41, 0x0102).unwrap(),
        vec![0, 0, 1, 4, 0x41, 1]
    );
}

#[test]
fn object_member_is_found_once_it_was_set() {
    let v = Value::empty_object()
        .with("a", Value::text("1"))
        .with("b", Value::Bool(true))
        .with("a", Value::text("2"));
    assert_eq!(v.get("a").unwrap().as_str(), Some("2"));
    assert!(matches!(v.get("b"), Some(Value::Bool(true))));
    assert!(v.get("c").is_none());
    assert!(Value::Number(Number::Unsigned(1)).as_str().is_none());
}

#[test]
fn string_map_keeps_the_last_value_of_a_key() {
    let mut m: StrMap<u8> = StrMap::new();
    m.insert("a".to_string(), 1);
    m.insert("b".to_string(), 2);
    m.insert("a".to_string(), 3);
    assert_eq!(m.len(), 2);
    assert_eq!(m.get("a"), Some(&3));
    assert_eq!(m.remove("a"), Some(3));
    assert_eq!(m.remove("a"), None);
    assert!(!m.contains_key("a"));
    assert_eq!(m.keys(), vec!["b".to_string()]);
}

#[test]
fn breaker_goes_through_its_states() {
    let mut b = CircuitBreaker::new(2).with_timeout(Duration::from_millis(100));
    b.record_failure_at(at(0));
    assert_eq!(b.state_at(at(0)), CircuitState::Closed);
    b.record_failure_at(at(10));
    assert_eq!(b.state_at(at(110)), CircuitState::Open);
    assert!(matches!(
        b.can_execute_at(at(110)),
        Err(ProtocolError::ConnectionFailed(m)) if m == "circuit breaker open"
    ));
    assert_eq!(b.state_at(at(111)), CircuitState::HalfOpen);
    assert!(b.can_execute_at(at(111)).is_ok());
    b.record_failure_at(at(112));
    assert_eq!(b.state_at(at(112)), CircuitState::Open);
    assert_eq!(b.state_at(at(300)), CircuitState::HalfOpen);
    b.record_success();
    assert_eq!(b.state_at(at(301)), CircuitState::Closed);
    b.record_failure_at(at(302));
    assert_eq!(b.state_at(at(303)), CircuitState::Closed);
}

#[test]
fn failures_in_a_row_open_whatever_came_before() {
    let mut b = CircuitBreaker::new(2).with_timeout(Duration::from_millis(100));
    b.record_failure_at(at(0));
    b.record_failure_at(at(1));
    b.record_success();
    assert_eq!(b.state_at(at(150)), CircuitState::HalfOpen);
    b.record_failure_at(at(200));
    assert_eq!(b.state_at(at(200)), CircuitState::HalfOpen);
    b.record_failure_at(at(210));
    assert_eq!(b.state_at(at(310)), CircuitState::Open);
    assert_eq!(b.state_at(at(311)), CircuitState::HalfOpen);
    assert_eq!(b.state_at(at(311)), CircuitState::HalfOpen);
}

#[test]
fn rate_is_bounded_in_every_window() {
    let mut limiter = RateLimiter::new(2, Duration::from_millis(100));
    assert!(limiter.try_acquire_at(at(0)));
    assert!(limiter.try_acquire_at(at(50)));
    assert_eq!(limiter.available_at(at(60)), 0);
    assert!(!limiter.try_acquire_at(at(99)));
    assert!(limiter.try_acquire_at(at(100)));
    assert!(!limiter.try_acquire_at(at(149)));
    assert!(limiter.try_acquire_at(at(150)));
    assert_eq!(limiter.available_at(at(250)), 2);
    let mut closed = RateLimiter::new(0, Duration::from_millis(100));
    assert!(!closed.try_acquire_at(at(0)));
}

#[test]
fn only_accepted_requests_count() {
    let mut limiter = AuthRateLimiter::new(2, Duration::from_millis(100));
    assert!(limiter.check_at("c", at(0)));
    assert!(limiter.check_at("c", at(60)));
    assert!(!limiter.check_at("c", at(70)));
    assert_eq!(limiter.remaining_at("c", at(70)), 0);
    assert!(!limiter.check_at("c", at(99)));
    assert!(limiter.check_at("c", at(100)));
    assert!(!limiter.check_at("c", at(159)));
    assert!(limiter.check_at("d", at(159)));
    assert!(limiter.check_at("c", at(160)));
    limiter.reset("c");
    assert_eq!(limiter.remaining_at("c", at(161)), 2);
    assert_eq!(limiter.remaining_at("d", at(161)), 1);
    let mut limiter = RateLimiter::new(1, Duration::from_millis(100));
    assert!(limiter.try_acquire_at(at(0)));
    assert!(!limiter.try_acquire_at(at(50)));
    assert_eq!(limiter.available_at(at(99)), 0);
    assert_eq!(limiter.available_at(at(100)), 1);
    assert!(limiter.try_acquire_at(at(100)));
}

#[test]
fn clients_have_limits_of_their_own() {
    let mut limiter = AuthRateLimiter::new(1, Duration::from_millis(100));
    assert!(limiter.check_at("a", at(0)));
    assert!(!limiter.check_at("a", at(1)));
    assert!(limiter.check_at("b", at(1)));
    assert_eq!(limiter.remaining_at("a", at(1)), 0);
    assert_eq!(limiter.remaining_at("c", at(1)), 1);
    limiter.reset("a");
    assert!(limiter.check_at("a", at(2)));
}

#[test]
fn tokens_expire() {
    let mut tokens = TokenAuthenticator::new().with_ttl(Duration::from_millis(100));
    tokens.add_token_at("t", "client", vec![Permission::all()], at(1000));
    let ctx = tokens
        .authenticate_at(&with_token("t"), at(1099))
        .unwrap();
    assert_eq!(ctx.client_id, "client");
    assert!(ctx.is_valid_at(at(1099)));
    assert!(!ctx.is_valid_at(at(1100)));
    assert_eq!(
        refusal(tokens.authenticate_at(&with_token("t"), at(1100))),
        "token expired"
    );
    assert_eq!(
        refusal(tokens.authenticate_at(&with_token("u"), at(0))),
        "invalid token"
    );
    tokens.remove_token("t");
    assert_eq!(
        refusal(tokens.authenticate_at(&with_token("t"), at(1000))),
        "invalid token"
    );
    let nothing = Credentials {
        client_id: "x".to_string(),
        token: None,
        api_key: None,
    };
    assert_eq!(
        refusal(tokens.authenticate(&nothing)),
        "missing authentication token"
    );
    let mut keys = ApiKeyAuthenticator::new();
    assert_eq!(refusal(keys.authenticate(&nothing)), "missing API key");
    keys.add_key("k", "c", vec![]);
    let wrong = Credentials {
        client_id: "x".to_string(),
        token: None,
        api_key: Some("l".to_string()),
    };
    assert_eq!(refusal(keys.authenticate(&wrong)), "invalid API key");
}

#[test]
fn composite_takes_the_first_that_accepts() {
    let mut first = ApiKeyAuthenticator::new();
    first.add_key("k", "by key", vec![]);
    let mut second = TokenAuthenticator::new();
    second.add_token("t", "by token", vec![]);
    let both = CompositeAuthenticator::new().add(first).add(second);
    let mut creds = with_token("t");
    assert_eq!(both.authenticate(&creds).unwrap().client_id, "by token");
    creds.api_key = Some("k".to_string());
    assert_eq!(both.authenticate(&creds).unwrap().client_id, "by key");
    assert_eq!(
        refusal(CompositeAuthenticator::new().authenticate(&creds)),
        "authentication failed"
    );
}

#[test]
fn authenticators_can_be_chosen_at_run_time() {
    let mut keys = ApiKeyAuthenticator::new();
    keys.add_key("k", "by key", vec![]);
    let mut tokens = TokenAuthenticator::new();
    tokens.add_token("t", "by token", vec![]);
    let list: Vec<Box<dyn Authenticator>> = vec![Box::new(keys), Box::new(tokens)];
    let chosen: Arc<dyn Authenticator> = Arc::new(CompositeAuthenticator::of(list));
    let mut creds = with_token("t");
    assert_eq!(chosen.authenticate(&creds).unwrap().client_id, "by token");
    creds.api_key = Some("k".to_string());
    assert_eq!(chosen.authenticate(&creds).unwrap().client_id, "by key");
    assert_eq!(refusal(chosen.authenticate(&with_token("no"))), "invalid token");
    let nobody: Vec<Box<dyn Authenticator>> = vec![];
    assert_eq!(
        refusal(CompositeAuthenticator::of(nobody).authenticate(&creds)),
        "authentication failed"
    );
    let gate = AuthMiddleware::new(chosen).require_permission("svc", Permission::all());
    assert_eq!(
        gate.check(&with_token("t"), "svc", "m").unwrap().client_id,
        "by token"
    );
    assert_eq!(
        refusal(gate.check(&with_token("no"), "svc", "m")),
        "invalid token"
    );
}

#[test]
fn middleware_lets_listed_methods_through() {
    let mut tokens = TokenAuthenticator::new();
    tokens.add_token("t", "c", vec![Permission::new("svc", "read")]);
    tokens.add_token("root", "r", vec![Permission::all()]);
    let gate = AuthMiddleware::new(Arc::new(tokens))
        .require_permission("svc", Permission::new("svc", "read"))
        .require_permission("svc", Permission::new("svc", "write"));
    assert!(gate.check(&with_token("t"), "svc", "read").is_ok());
    assert!(gate.check(&with_token("root"), "svc", "write").is_ok());
    assert_eq!(
        refusal(gate.check(&with_token("root"), "svc", "drop")),
        "permission denied"
    );
    assert!(gate.check(&with_token("t"), "other", "drop").is_ok());
    assert_eq!(
        refusal(gate.check(&with_token("no"), "svc", "read")),
        "invalid token"
    );
    let ctx = AuthContext {
        client_id: "c".to_string(),
        permissions: vec![],
        expires_at: None,
    };
    assert_eq!(
        refusal(gate.decide(ctx, false, "svc", "read")),
        "authentication expired"
    );
}

#[test]
fn permissions_cover_services_and_methods() {
    let ctx = |permissions: Vec<Permission>| AuthContext {
        client_id: "c".to_string(),
        permissions,
        expires_at: None,
    };
    assert!(ctx(vec![Permission::all()]).has_permission(&Permission::new("a", "b")));
    assert!(!ctx(vec![]).has_permission(&Permission::new("a", "b")));
    let some = ctx(vec![Permission::new("a", "*")]);
    assert!(some.has_permission(&Permission::new("a", "b")));
    assert!(!some.has_permission(&Permission::new("b", "b")));
    assert!(Permission::new("a", "b").same_as(&Permission::new("a", "b")));
    assert!(!Permission::new("a", "b").same_as(&Permission::new("a", "c")));
}

#[test]
fn values_fall_into_one_bucket_each() {
    let mut h = Histogram::new(&[10, 20, 30]);
    for v in [0, 10, 11, 20, 30, 31, 1000] {
        h.observe(v);
    }
    assert_eq!(h.buckets().iter().sum::<u64>(), 7);
    assert!(h.percentile(0, 7) <= h.percentile(50, 7));
    assert!(h.percentile(50, 7) <= h.percentile(99, 7));
    assert_eq!(h.percentile(50, 0), 0);
}

#[test]
fn percentiles_are_bucket_bounds() {
    let mut h = Histogram::new(&[10, 20, 30]);
    for _ in 0..90 {
        h.observe(5);
    }
    for _ in 0..10 {
        h.observe(25);
    }
    assert_eq!(h.percentile(50, 100), 10);
    assert_eq!(h.percentile(90, 100), 10);
    assert_eq!(h.percentile(91, 100), 30);
    assert_eq!(h.percentile(99, 100), 30);
    assert_eq!(h.percentile(200, 100), 30);
    assert_eq!(h.percentile(255, u64::MAX), 30);

    let mut h = Histogram::new(&[10, 50, 100]);
    for v in [5, 25, 75, 150] {
        h.observe(v);
    }
    assert_eq!(h.percentile(25, 4), 10);
    assert_eq!(h.percentile(50, 4), 50);
    assert_eq!(h.percentile(75, 4), 100);
    assert_eq!(h.percentile(100, 4), 100);
    assert_eq!(h.value_at_rank(2), 50);
    assert_eq!(h.value_at_rank(4), 100);
}

#[test]
fn peak_is_the_most_that_were_open() {
    let mut t = ConnectionTracker::new();
    t.connection_opened();
    t.connection_opened();
    t.connection_opened();
    t.connection_closed();
    t.connection_closed();
    t.connection_error();
    t.connection_opened();
    let m = t.snapshot();
    assert_eq!(m.peak_connections, 3);
    assert_eq!(m.active_connections, 2);
    assert_eq!(m.total_connections, 4);
    assert_eq!(m.closed_connections, 2);
    assert_eq!(m.connection_errors, 1);
}

#[test]
fn average_is_over_all_latencies() {
    let mut m = Metrics::default();
    assert_eq!(m.snapshot().avg_latency_ms, 0);
    for (ms, average) in [(10, 10), (20, 15), (1, 10)] {
        m.record_latency(Duration::from_millis(ms));
        assert_eq!(m.snapshot().avg_latency_ms, average);
    }
    m.record_request();
    assert_eq!(m.snapshot().avg_latency_ms, 10);
    let mut c = MetricsCollector::new();
    let svc = c.get_or_create_service("svc");
    for ms in [4, 8, 30] {
        c.request_start(svc);
        c.request_end(svc, Duration::from_millis(ms), true, false);
    }
    assert_eq!(c.service(svc).snapshot().latency_avg_ms, 14);
}

#[test]
fn requests_and_connections_stay_balanced() {
    let mut c = MetricsCollector::new();
    let a = c.get_or_create_service("a");
    let b = c.get_or_create_service("b");
    assert_eq!(c.get_or_create_service("a"), a);
    assert_ne!(a, b);
    c.request_start(a);
    c.request_start(a);
    assert_eq!(c.service(a).active_count(), 2);
    c.request_end(a, Duration::from_millis(4), true, false);
    assert_eq!(c.service(a).active_count(), 1);
    assert_eq!(c.service(a).snapshot().total, 2);
    c.request_end(a, Duration::from_millis(8), false, true);
    assert_eq!(c.service(a).active_count(), 0);
    let m = c.service(a).snapshot();
    assert_eq!(
        (m.total, m.success, m.failure, m.timeout),
        (2, 1, 0, 1)
    );
    assert_eq!((m.latency_avg_ms, m.latency_max_ms), (6, 8));
    assert_eq!(c.service(b).snapshot().total, 0);
    assert_eq!(c.snapshot_all().len(), 2);
    c.connection_opened();
    c.connection_opened();
    c.connection_closed();
    c.connection_error();
    let k = c.connection_tracker().snapshot();
    assert_eq!(
        (
            k.total_connections,
            k.active_connections,
            k.peak_connections,
            k.closed_connections,
            k.connection_errors
        ),
        (2, 1, 2, 1, 1)
    );
}

#[test]
fn alerts_have_a_cause() {
    let mut c = MetricsCollector::new();
    let svc = c.get_or_create_service("svc");
    for i in 0..10 {
        c.request_start(svc);
        c.request_end(svc, Duration::from_millis(1), i != 0, false);
    }
    let mut manager = AlertManager::new();
    for (name, part) in [("tenth", 10), ("less", 9)] {
        manager.add_rule(AlertRule {
            name: name.to_string(),
            metric: "svc".to_string(),
            condition: AlertCondition::ErrorRateAbove(Rate { part, whole: 100 }),
            cooldown: Duration::from_secs(0),
        });
    }
    let alerts = manager.check(&c, at(1));
    assert_eq!(alerts.len(), 1);
    assert_eq!(alerts[0].rule_name, "less");
    assert!(AlertManager::new().check(&c, at(1)).is_empty());
}

struct Counting {
    told: Arc<AtomicUsize>,
}

impl AlertCallback for Counting {
    fn on_alert(&self, _alert: &Alert) {
        self.told.fetch_add(1, Ordering::SeqCst);
    }
}

#[test]
fn every_callback_is_told_of_every_alert() {
    let mut c = MetricsCollector::new();
    let svc = c.get_or_create_service("svc");
    c.request_start(svc);
    c.request_end(svc, Duration::from_millis(1), false, false);
    let mut manager = AlertManager::new();
    for name in ["one", "two"] {
        manager.add_rule(AlertRule {
            name: name.to_string(),
            metric: "svc".to_string(),
            condition: AlertCondition::ErrorRateAbove(Rate {
                part: 1,
                whole: 100,
            }),
            cooldown: Duration::from_secs(0),
        });
    }
    let first = Arc::new(AtomicUsize::new(0));
    let second = Arc::new(AtomicUsize::new(0));
    manager.add_callback(Box::new(Counting {
        told: first.clone(),
    }));
    let told = second.clone();
    manager.add_callback(Box::new(FnAlertCallback::new(move |alert: &Alert| {
        assert_eq!(alert.timestamp, at(1));
        told.fetch_add(10, Ordering::SeqCst);
    })));
    assert_eq!(manager.check(&c, at(1)).len(), 2);
    assert_eq!(first.load(Ordering::SeqCst), 2);
    assert_eq!(second.load(Ordering::SeqCst), 20);
}

#[test]
fn streams_are_numbered_from_zero() {
    for mode in [
        StreamMode::Messages,
        StreamMode::Values,
        StreamMode::Updates,
        StreamMode::Result,
    ] {
        assert_eq!(StreamMode::from_str(mode.as_str()), Some(mode));
        let response = ServiceResponse::success(&request("r"), Value::text("p"));
        let pieces = stream_response(response.clone(), mode);
        for (i, piece) in pieces.iter().enumerate() {
            assert_eq!(piece.chunk_index, i as u64);
            assert_eq!(piece.request_id, "r");
        }
        assert_eq!(pass_on_response(response, mode).len(), 1);
    }
    assert_eq!(StreamMode::from_str("else"), None);
    let response = ServiceResponse::success(&request("r"), Value::text("p"));
    let pieces = stream_response(response, StreamMode::Updates);
    assert_eq!(pieces[0].content.get("type").unwrap().as_str(), Some("update"));
    assert_eq!(pieces[0].content.get("data").unwrap().as_str(), Some("p"));
}

#[test]
fn any_service_can_stream() {
    let service = FnServiceHandler::new("echo", |q: ServiceRequest| {
        ServiceResponse::success(&q, Value::text("hi"))
    });
    let streaming = DefaultStreamingHandler::new(service);
    assert_eq!(streaming.service_name(), "echo");
    assert_eq!(streaming.supported_stream_modes(), vec![StreamMode::Result]);
    let pieces = streaming.handle_streaming(request("r"), StreamMode::Messages);
    assert_eq!(pieces[0].content.as_str(), Some("hi"));
}

#[test]
fn handshake_is_accepted_under_a_new_session() {
    let service = FnServiceHandler::new("echo", |q: ServiceRequest| {
        ServiceResponse::error(&q, "no")
    });
    let hello = protocol::protocol::HandshakeRequest::from_client("c", "client");
    let a = service.on_handshake(hello.clone());
    let b = service.on_handshake(hello);
    assert!(a.success);
    assert_eq!(a.server_id, "echo");
    assert_eq!(a.encoding, "json");
    assert_eq!(a.session_id.len(), 36);
    assert_ne!(a.session_id, b.session_id);
}

#[test]
fn webhook_is_retried_as_often_as_allowed() {
    let mut d = Delivery::new(&WebhookRetryPolicy::exponential(2));
    assert!(matches!(
        d.record(PostOutcome::Failed("down".to_string())),
        DeliveryStep::Retry { attempt: 1 }
    ));
    assert!(matches!(
        d.record(PostOutcome::Answered {
            success: false,
            status: "503".to_string()
        }),
        DeliveryStep::Retry { attempt: 2 }
    ));
    assert!(matches!(
        d.record(PostOutcome::Answered {
            success: false,
            status: "500".to_string()
        }),
        DeliveryStep::GiveUp(ProtocolError::Server(m))
            if m == "Webhook failed after 3 attempts: HTTP 500"
    ));
    let mut d = Delivery::new(&WebhookRetryPolicy::linear(0, 5));
    assert!(matches!(
        d.record(PostOutcome::Failed("down".to_string())),
        DeliveryStep::GiveUp(ProtocolError::ConnectionFailed(m))
            if m == "Webhook failed after 1 attempts: down"
    ));
    let mut d = Delivery::new(&WebhookRetryPolicy::default());
    assert!(matches!(
        d.record(PostOutcome::Answered {
            success: true,
            status: "200".to_string()
        }),
        DeliveryStep::Delivered
    ));
    assert_eq!(
        f64::from_bits(WebhookRetryPolicy::exponential(1).backoff_multiplier_bits),
        2.0
    );
    assert_eq!((f64::from_bits(DOUBLE_ONE), f64::from_bits(DOUBLE_TWO)), (1.0, 2.0));
}

#[test]
fn webhook_posts_carry_their_headers() {
    let config = WebhookConfig::new("http://h")
        .with_header("A", "1")
        .with_timeout(7);
    let sender = WebhookSender::new(config);
    let event = WebhookEvent::failed("r", "svc", "no", "t".to_string());
    assert_eq!(
        sender.headers(&event),
        vec![
            ("Content-Type".to_string(), "application/json".to_string()),
            ("X-Webhook-Event".to_string(), event.event_type().to_string()),
            ("A".to_string(), "1".to_string()),
        ]
    );
    let service = WebhookService::new()
        .with_webhook(WebhookConfig::new("a"))
        .with_webhook(WebhookConfig::new("b"));
    assert_eq!(service.senders()[1].config().url, "b");
    assert!(notify_outcome(vec![Ok(()), Ok(())]).is_ok());
    let errors = notify_outcome(vec![
        Err(ProtocolError::Timeout),
        Ok(()),
        Err(ProtocolError::ConnectionClosed),
    ])
    .unwrap_err();
    assert!(matches!(
        &errors[..],
        [ProtocolError::Timeout, ProtocolError::ConnectionClosed]
    ));
}

#[test]
fn sessions_are_found_and_forgotten() {
    let mut m = SessionManager::new().with_max_idle_time(Duration::from_millis(100));
    let a = m.create_session_at("s1".to_string(), "c1".to_string(), "svc".to_string(), at(0));
    m.create_session_at("s2".to_string(), "c2".to_string(), "svc".to_string(), at(0));
    assert_eq!(a.client_id, "c1");
    assert_eq!(m.session_count(), 2);
    assert!(m.get_session_at("s1", at(90)).is_some());
    assert_eq!(m.cleanup_idle_at(at(101)), 1);
    assert_eq!(m.cleanup_idle_at(at(101)), 0);
    assert!(m.get_session_at("s2", at(101)).is_none());
    assert!(m.remove_session("s1").is_some());
    assert_eq!(m.session_count(), 0);
}

#[test]
fn dead_letters_leave_in_order() {
    let mut q = DeadLetterQueue::new(2);
    let t = |secs| Timestamp { secs, nanos: 0 };
    for i in 0..3 {
        q.push_at(request(&format!("r{}", i)), "e".to_string(), t(i));
    }
    assert_eq!(q.len(), 2);
    assert_eq!(q.pop().unwrap().request.request_id, "r1");
    assert_eq!(q.pop().unwrap().timestamp, t(2));
    assert!(q.pop().is_none());
    assert!(q.is_empty());
}

#[test]
fn selection_goes_by_the_strategy() {
    for strategy in [
        LoadBalancingStrategy::RoundRobin,
        LoadBalancingStrategy::Random,
        LoadBalancingStrategy::ConsistentHash,
    ] {
        let mut d: ServiceDiscovery<u8, u16, u32> =
            ServiceDiscovery::new().with_strategy(strategy);
        assert_eq!(
            d.register(ServiceEndpoint::new("svc", "a:1")),
            vec!["a:1".to_string()]
        );
        d.register(ServiceEndpoint::new("svc", "b:2"));
        d.rebuild_load_balancers("svc", Some(1), Some(2), Some(3));
        let chosen = d.select_with_key("svc", b"k").unwrap();
        assert_eq!(chosen.max_iterations, 256);
        match (strategy, chosen.balancer) {
            (LoadBalancingStrategy::RoundRobin, Balancer::RoundRobin(x)) => assert_eq!(*x, 1),
            (LoadBalancingStrategy::Random, Balancer::Random(x)) => assert_eq!(*x, 2),
            (LoadBalancingStrategy::ConsistentHash, Balancer::ConsistentHash(x)) => {
                assert_eq!(*x, 3)
            }
            other => panic!("{:?}", other),
        }
        assert!(d.select("else").is_none());
        assert_eq!(
            d.unregister("svc", "a:1"),
            Some(vec!["b:2".to_string()])
        );
        assert_eq!(d.discover("svc").len(), 1);
    }
}

#[test]
fn every_endpoint_is_probed_once() {
    let mut d: ServiceDiscovery<u8, u16, u32> = ServiceDiscovery::new();
    assert!(d.probes().is_empty());
    d.register(ServiceEndpoint::new("svc", "b:1"));
    d.register(ServiceEndpoint::new("other", "c:1"));
    d.register(ServiceEndpoint::new("svc", "a:1"));
    let probes = d.probes();
    let of = |name: &str| -> Vec<String> {
        probes
            .iter()
            .filter(|p| p.0 == name)
            .map(|p| p.1.clone())
            .collect()
    };
    assert_eq!(probes.len(), 3);
    assert_eq!(of("svc"), vec!["b:1".to_string(), "a:1".to_string()]);
    assert_eq!(of("other"), vec!["c:1".to_string()]);
}

#[test]
fn health_checks_run_once() {
    let mut checker = BackgroundHealthChecker::new().with_interval(Duration::from_secs(3));
    assert!(!checker.is_running());
    assert!(checker.start());
    assert!(!checker.start());
    assert!(checker.verdict(Some(true)));
    assert!(!checker.verdict(Some(false)));
    assert!(!checker.verdict(None));
    assert_eq!(checker.interval(), Duration::from_secs(3));
}
