use bytes::Bytes;
use protocol::config::ConfigError;
use protocol::error::ProtocolError;
use protocol::grpc::{
    check_startup, endpoint, grpc_request, grpc_response, internal_request, internal_response,
    invalid_payload_message, serialization_message, GrpcServerConfig, GrpcTlsConfig,
};
use protocol::json::Value;
use protocol::pool::{
    check_reply, CallAction, CallEvent, CallOutcome, CallStage, PoolConfig, ProductionAction,
    ProductionEvent, ProductionPool, Route, TopicBasedPool, UdsClientPool, UdsConnectionPool,
};
use protocol::protocol::{ServiceRequest, ServiceResponse};
use protocol::runtime::{plan, plan_for, ProtocolRuntime, RuntimePlan, RuntimeType};
use protocol::socket::unique_file_name;
use protocol::time::{unix_millis, unix_seconds, Clock, Duration, Instant, Timestamp};
use protocol::tls::{setup_error, TlsConfig};
use protocol::utils::{count_receivers, MessageQueue};
use protocol::webhook::WebhookEvent;
use protocol::wire::{MSG_PONG, MSG_RESPONSE};
use protocol::CircuitState;

fn at(millis: u64) -> Instant {
    Instant {
        nanos: millis * 1_000_000,
    }
}

fn request(id: &str) -> ServiceRequest {
    ServiceRequest::with_ids(id.to_string(), "c".to_string(), "svc", "m", Value::text("p"))
}

fn answer() -> Result<ServiceResponse, ProtocolError> {
    Ok(ServiceResponse::success(&request("r"), Value::Null))
}

fn is_random_uuid(text: &str) -> bool {
    let hyphens = [8, 13, 18, 23];
    text.len() == 36
        && text.bytes().enumerate().all(|(i, b)| {
            if hyphens.contains(&i) {
                b == b'-'
            } else if i == 14 {
                b == b'4'
            } else if i == 19 {
                b"89ab".contains(&b)
            } else {
                b"0123456789abcdef".contains(&b)
            }
        })
}

#[test]
fn new_requests_have_random_identifiers() {
    let a = ServiceRequest::new("svc", "m", Value::Null);
    let b = ServiceRequest::new("svc", "m", Value::Null);
    for id in [&a.request_id, &a.correlation_id, &b.request_id] {
        assert!(is_random_uuid(id), "{}", id);
    }
    assert_ne!(a.request_id, b.request_id);
    assert_ne!(a.request_id, a.correlation_id);
    let name = unique_file_name();
    assert_eq!(&name[36..], ".sock");
    assert!(is_random_uuid(&name[..36]));
}

#[test]
fn clocks_move_forward() {
    let clock = Clock::new();
    let a = clock.now();
    let b = clock.now();
    assert!(a.nanos <= b.nanos);
    assert!(unix_seconds() > 1_600_000_000);
    assert!(unix_millis() / 1000 >= 1_600_000_000);
    let t = Timestamp::now();
    assert!(t.secs > 1_600_000_000);
    assert!(t.nanos < 2_000_000_000);
    assert!(unix_millis() / 1000 >= unix_seconds() as i64 - 1);
    assert!((t.secs - unix_seconds() as i64).abs() <= 2);
}

#[test]
fn events_are_stamped_in_utc() {
    let stamp = WebhookEvent::timestamp();
    assert!(stamp.ends_with("+00:00"), "{}", stamp);
    assert_eq!(&stamp[10..11], "T");
    match WebhookEvent::request_received_now("r", "svc", "m") {
        WebhookEvent::RequestReceived { timestamp, .. } => {
            assert!(timestamp.ends_with("+00:00"))
        }
        other => panic!("{:?}", other),
    }
}

#[test]
fn outside_errors_keep_their_text() {
    let io = std::io::Error::new(std::io::ErrorKind::Other, "disk on fire");
    assert!(matches!(
        ProtocolError::from(io),
        ProtocolError::ConnectionFailed(m) if m == "disk on fire"
    ));
    let json = serde_json::from_str::<u8>("x").unwrap_err();
    let text = json.to_string();
    assert!(matches!(ProtocolError::from(json), ProtocolError::Encoding(m) if m == text));
    let io = std::io::Error::new(std::io::ErrorKind::Other, "gone");
    assert_eq!(ConfigError::IoError(io).to_string(), "IO error: gone");
    assert_eq!(
        ConfigError::ParseError("x".to_string()).to_string(),
        "Parse error: x"
    );
    assert_eq!(
        ConfigError::SerializeError("x".to_string()).to_string(),
        "Serialize error: x"
    );
}

#[test]
fn published_data_reaches_the_latest_subscriber() {
    let mut queue = MessageQueue::new();
    assert_eq!(queue.publish("t", Bytes::from_static(b"early")), 0);
    let mut a = queue.subscribe("t");
    let mut b = queue.subscribe("t");
    let mut other = queue.subscribe("u");
    assert_eq!(queue.publish("t", Bytes::from_static(b"data")), 1);
    assert!(a.try_recv().is_err());
    assert_eq!(b.try_recv().unwrap(), Bytes::from_static(b"data"));
    assert!(other.try_recv().is_err());
    assert_eq!(count_receivers(Some(3)), 3);
    assert_eq!(count_receivers(None), 0);
    drop(b);
    assert_eq!(queue.publish("t", Bytes::from_static(b"late")), 0);
    let mut topics = queue.topics();
    topics.sort();
    assert_eq!(topics, vec!["t".to_string(), "u".to_string()]);
}

#[test]
fn topics_hold_what_a_slow_subscriber_missed() {
    let mut queue = MessageQueue::new();
    let mut slow = queue.subscribe("t");
    for i in 0..1024u32 {
        queue.publish("t", Bytes::copy_from_slice(&i.to_be_bytes()));
    }
    assert_eq!(slow.try_recv().unwrap(), Bytes::copy_from_slice(&[0, 0, 0, 0]));
    queue.publish("t", Bytes::from_static(b"a"));
    queue.publish("t", Bytes::from_static(b"b"));
    assert!(slow.try_recv().is_err());
    assert_eq!(slow.try_recv().unwrap(), Bytes::copy_from_slice(&[0, 0, 0, 2]));
}

#[test]
fn pool_keeps_as_many_connections_as_it_was_made_for() {
    let runtime = tokio::runtime::Builder::new_current_thread()
        .enable_all()
        .build()
        .unwrap();
    runtime.block_on(async {
        for (max, kept) in [(1, 1), (2, 2), (3, 3)] {
            let mut pool = UdsConnectionPool::new("/tmp/s", max);
            let mut others = vec![];
            for _ in 0..3 {
                let (a, b) = tokio::net::UnixStream::pair().unwrap();
                pool.put(a);
                others.push(b);
            }
            for _ in 0..kept {
                assert!(pool.get().is_some());
            }
            assert!(pool.get().is_none());
        }
    });
}

#[test]
fn connections_are_pooled() {
    let runtime = tokio::runtime::Builder::new_current_thread()
        .enable_all()
        .build()
        .unwrap();
    runtime.block_on(async {
        let mut pool = UdsConnectionPool::new("/tmp/s", 4);
        assert!(pool.begin_call().is_none());
        let (a, _b) = tokio::net::UnixStream::pair().unwrap();
        let (c, _d) = tokio::net::UnixStream::pair().unwrap();
        pool.put(a);
        pool.put(c);
        assert!(pool.begin_call().is_some());
        assert!(pool.get().is_some());
        assert!(pool.get().is_none());
        let m = pool.metrics();
        assert_eq!(
            (m.total_requests(), m.pool_hits(), m.pool_misses()),
            (2, 1, 1)
        );
        assert_eq!((m.reuse_rate().reused, m.reuse_rate().total), (1, 2));
        let (e, _f) = tokio::net::UnixStream::pair().unwrap();
        assert!(matches!(
            pool.finish_call(e, Err(ProtocolError::Timeout)),
            Err(ProtocolError::Timeout)
        ));
        assert!(pool.get().is_some());
        assert!(matches!(
            pool.open_failed("no".to_string()),
            ProtocolError::ConnectionFailed(m) if m == "no"
        ));
        assert_eq!(pool.metrics().connections_evicted(), 1);
    });
}

#[test]
fn first_connection_is_cleaned_up() {
    let runtime = tokio::runtime::Builder::new_current_thread()
        .enable_all()
        .build()
        .unwrap();
    runtime.block_on(async {
        let mut pool = UdsConnectionPool::new("/tmp/s", 4);
        let (a, _b) = tokio::net::UnixStream::pair().unwrap();
        pool.put(a);
        pool.cleanup();
        assert!(pool.get().is_none());
        let (a, _b) = tokio::net::UnixStream::pair().unwrap();
        pool.put(a);
        pool.cleanup();
        assert!(pool.get().is_some());
    });
}

#[test]
fn connectors_are_built() {
    assert!(TlsConfig::new().build().is_ok());
    assert!(TlsConfig::default().accept_invalid_certs().build().is_ok());
    assert!(matches!(
        setup_error(&ProtocolError::Timeout),
        ProtocolError::ConnectionFailed(_)
    ));
}

#[test]
fn runtime_follows_the_machine() {
    let n = num_cpus::get();
    assert_eq!(ProtocolRuntime::new().get_thread_count(), n);
    assert_eq!(
        ProtocolRuntime::new().with_threads(3).get_thread_count(),
        3
    );
    assert_eq!(
        plan(RuntimeType::recommended(), None),
        plan_for(RuntimeType::recommended(), None, n)
    );
    assert_eq!(
        ProtocolRuntime::new().with_type(RuntimeType::SingleThread).plan(),
        plan_for(RuntimeType::SingleThread, None, n)
    );
    assert_eq!(
        plan_for(RuntimeType::SingleThread, Some(5), 8),
        RuntimePlan::CurrentThread
    );
}

#[test]
fn replies_other_than_responses_are_refused() {
    assert!(check_reply(MSG_RESPONSE).is_ok());
    assert!(matches!(
        check_reply(MSG_PONG),
        Err(ProtocolError::Protocol(m))
            if m == "invalid response type: expected 17, got 65"
    ));
}

#[test]
fn pool_reuses_and_bounds_its_clients() {
    let mut pool: UdsClientPool<u8> = UdsClientPool::with_max_pool_size("/tmp/s", 8, 1);
    let (stage, action) = pool.advance(CallStage::AwaitingPermit, CallEvent::PermitGranted, true);
    assert!(matches!(action, CallAction::Call { client: None }));
    assert_eq!(pool.pooled_count(), 1);
    let (over, action) = pool.advance(
        stage,
        CallEvent::Called {
            client: 7,
            result: answer(),
        },
        true,
    );
    assert_eq!(over, CallStage::Over);
    assert!(matches!(action, CallAction::Finish(Ok(_))));
    let (stage, action) = pool.advance(CallStage::AwaitingPermit, CallEvent::PermitGranted, true);
    assert!(matches!(action, CallAction::Call { client: Some(7) }));
    pool.advance(
        stage,
        CallEvent::Called {
            client: 7,
            result: Err(ProtocolError::ConnectionClosed),
        },
        true,
    );
    let (stage, action) = pool.advance(CallStage::AwaitingPermit, CallEvent::PermitGranted, true);
    assert!(matches!(action, CallAction::Call { client: Some(7) }));
    pool.advance(
        stage,
        CallEvent::Called {
            client: 7,
            result: Err(ProtocolError::Timeout),
        },
        true,
    );
    let (mut stage, mut action) =
        pool.advance(CallStage::AwaitingPermit, CallEvent::PermitGranted, true);
    let mut pauses = 0;
    while matches!(action, CallAction::Pause) {
        pauses += 1;
        (stage, action) = pool.advance(stage, CallEvent::Paused, true);
    }
    assert_eq!(pauses, 3);
    assert_eq!(stage, CallStage::Calling);
    assert!(matches!(action, CallAction::Call { client: None }));
    let (_, action) = pool.advance(CallStage::AwaitingPermit, CallEvent::PermitGranted, false);
    assert!(matches!(action, CallAction::Call { client: None }));
    let (_, action) = pool.advance(CallStage::AwaitingPermit, CallEvent::PermitDenied, true);
    assert!(matches!(
        action,
        CallAction::Finish(Err(ProtocolError::ResourceExhausted(m))) if m == "pool exhausted"
    ));
}

#[test]
fn topics_keep_their_clients() {
    let mut pool: TopicBasedPool<u8> = TopicBasedPool::new("/tmp/s", 4);
    assert!(matches!(
        TopicBasedPool::<u8>::route(&None),
        Route::Shared
    ));
    assert!(matches!(
        TopicBasedPool::<u8>::route(&Some("t".to_string())),
        Route::Serial(t) if t == "t"
    ));
    assert!(matches!(
        TopicBasedPool::<u8>::route(&Some("".to_string())),
        Route::Shared
    ));
    assert!(pool.topic_client("t").is_none());
    pool.ensure_topic("t", 1);
    pool.ensure_topic("t", 2);
    assert_eq!(pool.topic_client("t"), Some(&1));
    assert_eq!(pool.topic_count(), 1);
    assert_eq!(pool.topics(), vec!["t".to_string()]);
    let (stage, action) = pool.advance(CallStage::AwaitingPermit, CallEvent::PermitGranted);
    assert!(matches!(action, CallAction::Call { client: None }));
    pool.advance(
        stage,
        CallEvent::Called {
            client: 9,
            result: answer(),
        },
    );
    assert_eq!(pool.close(), vec![9]);
    assert_eq!(pool.topic_client("t"), Some(&1));
}

#[test]
fn failing_service_is_spared() {
    let config = PoolConfig {
        circuit_breaker_threshold: 2,
        circuit_breaker_timeout: Duration::from_millis(100),
        ..PoolConfig::default()
    };
    let mut pool: ProductionPool<u8> = ProductionPool::with_config("/tmp/s", config);
    for outcome in [
        CallOutcome::TimedOut,
        CallOutcome::Answered(Err(ProtocolError::ConnectionClosed)),
    ] {
        let (stage, action) = pool.start_at(at(0));
        assert!(matches!(action, ProductionAction::AcquirePermit));
        let (stage, _) = pool.advance_at(stage, ProductionEvent::PermitGranted, at(0));
        let (stage, action) =
            pool.advance_at(stage, ProductionEvent::Called { client: 1, outcome }, at(0));
        assert_eq!(stage, CallStage::Over);
        assert!(matches!(action, ProductionAction::Finish(Err(_))));
    }
    let (stage, action) = pool.start_at(at(50));
    assert_eq!(stage, CallStage::Over);
    assert!(matches!(
        action,
        ProductionAction::Finish(Err(ProtocolError::ConnectionFailed(m)))
            if m == "circuit breaker open"
    ));
    let (stage, _) = pool.start_at(at(200));
    let (stage, _) = pool.advance_at(stage, ProductionEvent::PermitGranted, at(200));
    let (_, action) = pool.advance_at(
        stage,
        ProductionEvent::Called {
            client: 1,
            outcome: CallOutcome::Answered(answer()),
        },
        at(200),
    );
    assert!(matches!(action, ProductionAction::Finish(Ok(_))));
    let m = pool.metrics();
    assert_eq!(
        (m.successful_requests, m.timeout_errors, m.active_requests),
        (1, 1, 0)
    );
    assert_eq!(m.circuit_breaker_state, "Closed");
    assert_eq!(pool.circuit_breaker_state(), CircuitState::Closed);
    assert_eq!(pool.close(), vec![1]);
    assert!(pool.is_shutting_down());
    assert!(matches!(
        pool.begin_call_at(at(300)),
        Err(ProtocolError::Server(m)) if m == "pool is shutting down"
    ));
}

#[test]
fn grpc_messages_come_through() {
    let q = request("r1").with_topic("t");
    let sent = grpc_request(q, vec![1, 2], 99);
    assert_eq!(sent.timestamp, 99);
    assert_eq!(sent.payload, vec![1, 2]);
    let got = internal_request(sent, Value::text("p"));
    assert_eq!(got.request_id, "r1");
    assert_eq!(got.topic, Some("t".to_string()));
    let reply = grpc_response(ServiceResponse::error(&got, "no"), vec![3], 5);
    assert_eq!(reply.error, Some("no".to_string()));
    let back = internal_response(reply, Value::Null);
    assert_eq!(back.status, "error");
    assert_eq!(back.correlation_id, "c");
    assert_eq!(endpoint("h:1"), "http://h:1");
    assert_eq!(invalid_payload_message("x"), "invalid payload: x");
    assert_eq!(serialization_message("x"), "serialization error: x");
    assert_eq!(
        GrpcServerConfig::default().tcp_keepalive(),
        Duration::from_secs(60)
    );
}

#[test]
fn grpc_tls_needs_certificate_and_key() {
    let on = |s: &str| Some(s.to_string());
    assert!(GrpcTlsConfig::from_vars(on("no"), None, None).validate().is_ok());
    for v in ["true", "1", "yes"] {
        assert!(matches!(
            GrpcTlsConfig::from_vars(on(v), None, on("k")).validate(),
            Err(ProtocolError::InvalidMessage(m)) if m.starts_with("GRPC_TLS_CERT_PATH")
        ));
    }
    let keyless = GrpcTlsConfig::from_vars(on("1"), on("c"), None);
    assert!(matches!(
        check_startup(Ok(()), &keyless),
        Err(ProtocolError::InvalidMessage(m)) if m.starts_with("GRPC_TLS_KEY_PATH")
    ));
    assert!(matches!(
        check_startup(Err("bad address".to_string()), &keyless),
        Err(ProtocolError::InvalidMessage(m)) if m == "bad address"
    ));
    let sound = GrpcTlsConfig::from_vars(on("1"), on("c"), on("k"));
    assert!(check_startup(Ok(()), &sound).is_ok());
}
