use protocol::auth::{
    ApiKeyAuthenticator, AuthContext, Authenticator, CompositeAuthenticator, Credentials,
    Permission, TokenAuthenticator,
};
use protocol::config::{
    Config, ConfigBuilder, PoolConfig as ConfigPoolConfig, ServerConfig as ConfigServerConfig,
};
use protocol::discovery::{LoadBalancingStrategy, ServiceDiscovery, ServiceEndpoint};
use protocol::error::ProtocolError;
use protocol::handler::{FnServiceHandler, HealthStatus, ServiceHandler};
use protocol::json::{Number, Value};
use protocol::metrics::{
    Alert, AlertCondition, AlertManager, AlertRule, ConnectionTracker, FnAlertCallback, Histogram,
    MetricsCollector, Rate, ServiceMetrics,
};
use protocol::pool::PoolConfig;
use protocol::protocol::{HandshakeRequest, HandshakeResponse, ServiceRequest, ServiceResponse};
use protocol::schema::{ServiceCapability, ServiceSchema};
use protocol::server::{RateLimitConfig, ServerConfig};
use protocol::streaming::{StreamMessage, StreamMode, StreamResponse};
use protocol::time::{Duration, Instant};
use protocol::utils::{
    CancellationToken, DeadLetterQueue, HealthChecker, MessageQueue, Metrics, RateLimiter,
};
use protocol::{AuthRateLimiter, CircuitBreaker, CircuitState};
use std::sync::atomic::{AtomicBool, Ordering};
use std::sync::Arc;

struct EchoService;

impl ServiceHandler for EchoService {
    fn service_name(&self) -> &str {
        "echo"
    }

    fn handle(&self, request: ServiceRequest) -> ServiceResponse {
        let payload = request.payload.clone();
        ServiceResponse::success(&request, payload)
    }
}

fn millis(n: u64) -> Instant {
    Instant { nanos: n * 1_000_000 }
}

fn registry() -> ServiceDiscovery<u32, u32, u32> {
    ServiceDiscovery::new()
}

#[test]
fn test_service_request() {
    let req = ServiceRequest::new(
        "test_svc",
        "test_method",
        Value::object1("key", Value::text("value")),
    );
    assert_eq!(req.service_name, "test_svc");
    assert_eq!(req.method, "test_method");
    assert!(!req.request_id.is_empty());
    assert!(!req.correlation_id.is_empty());
    assert!(req.topic.is_none());

    let req_with_topic = req.clone().with_topic("order-123");
    assert_eq!(req_with_topic.topic, Some("order-123".to_string()));
}

#[test]
fn test_service_response() {
    let req = ServiceRequest::new("svc", "method", Value::Null);

    let resp = ServiceResponse::success(&req, Value::object1("result", Value::text("ok")));
    assert_eq!(resp.status, "success");
    assert!(resp.error.is_none());
    assert_eq!(resp.request_id, req.request_id);

    let resp = ServiceResponse::error(&req, "test error");
    assert_eq!(resp.status, "error");
    assert!(resp.error.is_some());
    assert!(resp.error.unwrap().contains("test error"));
}

#[test]
fn test_handshake_request_response() {
    let req = HandshakeRequest {
        client_id: "client-1".to_string(),
        service_name: "test".to_string(),
        capabilities: vec!["json".to_string()],
    };
    assert_eq!(req.client_id, "client-1");

    let resp = HandshakeResponse {
        server_id: "server-1".to_string(),
        session_id: "session-123".to_string(),
        success: true,
        encoding: "json".to_string(),
    };
    assert!(resp.success);
}

#[test]
fn test_service_handler_trait() {
    let service = EchoService;
    assert_eq!(service.service_name(), "echo");

    let caps = service.capabilities();
    assert!(caps.contains(&"json".to_string()));

    let status = service.health_status();
    assert!(matches!(status, HealthStatus::Healthy(s) if s == "echo"));

    let unhealthy = HealthStatus::unhealthy("echo", "test error");
    assert!(
        matches!(unhealthy, HealthStatus::Unhealthy(s, e) if s == "echo" && e == "test error")
    );
}

fn number(v: Option<&Value>) -> u64 {
    match v {
        Some(Value::Number(Number::Unsigned(n))) => *n,
        _ => 0,
    }
}

#[test]
fn test_fn_service_handler() {
    let handler = FnServiceHandler::new("calc", |req: ServiceRequest| {
        let a = number(req.payload.get("a"));
        let b = number(req.payload.get("b"));
        ServiceResponse::success(
            &req,
            Value::object1("result", Value::Number(Number::Unsigned(a + b))),
        )
    });

    assert_eq!(handler.service_name(), "calc");

    let req = ServiceRequest::new(
        "calc",
        "add",
        Value::object2(
            "a",
            Value::Number(Number::Unsigned(1)),
            "b",
            Value::Number(Number::Unsigned(2)),
        ),
    );
    let resp = handler.handle(req);
    assert_eq!(resp.status, "success");
    assert_eq!(number(resp.payload.get("result")), 3);
}

#[test]
fn test_stream_mode() {
    assert_eq!(StreamMode::Result.as_str(), "result");
    assert_eq!(StreamMode::Messages.as_str(), "messages");
    assert_eq!(StreamMode::Values.as_str(), "values");
    assert_eq!(StreamMode::Updates.as_str(), "updates");

    assert_eq!(StreamMode::from_str("result"), Some(StreamMode::Result));
    assert_eq!(StreamMode::from_str("messages"), Some(StreamMode::Messages));
    assert_eq!(StreamMode::from_str("unknown"), None);
}

#[test]
fn test_stream_message() {
    let msg = StreamMessage::new("req-123", 0, Value::text("hello"));
    assert_eq!(msg.request_id, "req-123");
    assert_eq!(msg.chunk_index, 0);
    assert!(msg.metadata.is_none());

    let msg_with_meta = msg.with_metadata(Value::object1("key", Value::text("value")));
    assert!(msg_with_meta.metadata.is_some());
}

#[test]
fn test_stream_response() {
    let started = StreamResponse::started("req-123", "result");
    assert_eq!(started.status, "streaming");

    let completed =
        StreamResponse::completed("req-123", Value::object1("done", Value::Bool(true)));
    assert_eq!(completed.status, "completed");
    assert!(completed.final_payload.is_some());

    let error = StreamResponse::error("req-123", "something went wrong");
    assert!(error.status.contains("error"));
}

#[test]
fn test_service_schema() {
    let schema = ServiceSchema::new("my-service", "1.0.0");
    assert_eq!(schema.service_name, "my-service");
    assert_eq!(schema.version, "1.0.0");

    let custom = ServiceSchema::new("custom", "2.0")
        .with_input_schema(Value::object1("type", Value::text("object")))
        .with_output_schema(Value::object1("type", Value::text("object")))
        .with_capabilities(vec![ServiceCapability {
            name: "streaming".to_string(),
            description: "Supports streaming".to_string(),
            version: Some("1.0".to_string()),
        }]);

    assert!(!custom.capabilities.is_empty());
    assert_eq!(custom.capabilities[0].name, "streaming");
    assert_eq!(custom.service_name, "custom");
}

#[test]
fn test_service_discovery() {
    let mut sd = registry();

    let ep1 = ServiceEndpoint::new("email", "/tmp/email.sock").with_weight(10);
    let ep2 = ServiceEndpoint::new("email", "/tmp/email2.sock").with_weight(5);
    let ep3 = ServiceEndpoint::new("email", "/tmp/email3.sock")
        .with_weight(3)
        .with_metadata("region", "us-east");

    sd.register(ep1);
    sd.register(ep2);
    sd.register(ep3);

    let endpoints = sd.discover("email");
    assert_eq!(endpoints.len(), 3);

    let unknown = sd.discover("unknown");
    assert!(unknown.is_empty());

    let services = sd.list_services();
    assert!(services.contains(&"email".to_string()));
}

/// A registry whose balancers are the addresses that they are built from.
type Addresses = ServiceDiscovery<Vec<String>, Vec<String>, Vec<String>>;

fn enter(sd: &mut Addresses, endpoint: ServiceEndpoint) {
    let name = endpoint.name.clone();
    let all = sd.register(endpoint);
    sd.rebuild_load_balancers(&name, Some(all.clone()), Some(all.clone()), Some(all));
}

#[test]
fn test_service_discovery_with_strategy() {
    let mut sd = Addresses::new().with_strategy(LoadBalancingStrategy::Random);

    enter(
        &mut sd,
        ServiceEndpoint::new("users", "127.0.0.1:8001").with_weight(10),
    );
    enter(
        &mut sd,
        ServiceEndpoint::new("users", "127.0.0.1:8002").with_weight(5),
    );

    let endpoints = sd.discover("users");
    assert_eq!(endpoints.len(), 2);

    let selected = sd.select("users");
    assert!(selected.is_some());

    let selected_with_key = sd.select_with_key("users", b"user-123");
    assert!(selected_with_key.is_some());

    let mut consistent_sd = Addresses::new().with_strategy(LoadBalancingStrategy::ConsistentHash);
    enter(
        &mut consistent_sd,
        ServiceEndpoint::new("users", "127.0.0.1:8001"),
    );
    enter(
        &mut consistent_sd,
        ServiceEndpoint::new("users", "127.0.0.1:8002"),
    );

    let consistent1 = consistent_sd.select_with_key("users", b"same-key");
    let consistent2 = consistent_sd.select_with_key("users", b"same-key");
    assert_eq!(format!("{:?}", consistent1), format!("{:?}", consistent2));
}

#[test]
fn test_load_balancing_strategies() {
    let sd_rr = registry();
    let sd_random = registry().with_strategy(LoadBalancingStrategy::Random);
    let sd_consistent = registry().with_strategy(LoadBalancingStrategy::ConsistentHash);

    assert_eq!(sd_rr.strategy(), LoadBalancingStrategy::RoundRobin);
    assert_eq!(sd_random.strategy(), LoadBalancingStrategy::Random);
    assert_eq!(
        sd_consistent.strategy(),
        LoadBalancingStrategy::ConsistentHash
    );
}

#[test]
fn test_service_discovery_unregister() {
    let mut sd = registry();

    sd.register(ServiceEndpoint::new("cache", "/tmp/cache1.sock"));
    sd.register(ServiceEndpoint::new("cache", "/tmp/cache2.sock"));

    assert_eq!(sd.discover("cache").len(), 2);

    sd.unregister("cache", "/tmp/cache1.sock");

    assert_eq!(sd.discover("cache").len(), 1);
    assert_eq!(sd.discover("cache")[0].address, "/tmp/cache2.sock");
}

#[test]
fn test_endpoint_metadata() {
    let ep = ServiceEndpoint::new("svc", "addr")
        .with_weight(5)
        .with_metadata("env", "prod")
        .with_metadata("region", "us-west");

    assert_eq!(ep.weight, 5);
    assert_eq!(ep.metadata.get("env"), Some(&"prod".to_string()));
    assert_eq!(ep.metadata.get("region"), Some(&"us-west".to_string()));
}

#[test]
fn test_circuit_breaker_closed_to_open() {
    let mut cb = CircuitBreaker::new(3);

    assert_eq!(cb.state(), CircuitState::Closed);
    assert!(cb.is_available());
    assert!(cb.can_execute().is_ok());

    cb.record_failure();
    assert_eq!(cb.state(), CircuitState::Closed);

    cb.record_failure();
    assert_eq!(cb.state(), CircuitState::Closed);

    cb.record_failure();
    assert_eq!(cb.state(), CircuitState::Open);
    assert!(!cb.is_available());
    assert!(cb.can_execute().is_err());
}

#[test]
fn test_circuit_breaker_half_open() {
    let mut cb = CircuitBreaker::new(2);

    cb.record_failure();
    cb.record_failure();
    assert_eq!(cb.state(), CircuitState::Open);

    cb.record_failure();
    assert_eq!(cb.state(), CircuitState::Open);
}

#[test]
fn test_circuit_breaker_success_resets() {
    let mut cb = CircuitBreaker::new(5);

    cb.record_failure();
    cb.record_failure();
    cb.record_success();

    assert_eq!(cb.state(), CircuitState::Closed);
}

#[test]
fn test_circuit_breaker_timeout() {
    let mut cb = CircuitBreaker::new(1).with_timeout(Duration::from_millis(100));

    cb.record_failure_at(millis(0));
    assert_eq!(cb.state_at(millis(0)), CircuitState::Open);
    assert_eq!(cb.state_at(millis(100)), CircuitState::Open);

    assert_eq!(cb.state_at(millis(150)), CircuitState::HalfOpen);
}

#[test]
fn test_rate_limiter() {
    let mut rl = RateLimiter::new(2, Duration::from_secs(1));

    assert!(rl.try_acquire_at(millis(0)));
    assert!(rl.try_acquire_at(millis(0)));
    assert!(!rl.try_acquire_at(millis(0)));

    assert!(rl.try_acquire_at(millis(1100)));

    let mut now = RateLimiter::new(2, Duration::from_secs(1));
    assert!(now.try_acquire());
    assert!(now.try_acquire());
    assert!(!now.try_acquire());
}

#[test]
fn test_metrics() {
    let mut m = Metrics::default();

    m.record_request();
    m.record_success();
    m.record_failure();
    m.record_latency(Duration::from_millis(100));

    m.inc_connections();
    m.add_bytes_sent(1024);
    m.add_bytes_received(512);

    let snapshot = m.snapshot();
    assert_eq!(snapshot.requests_total, 1);
    assert_eq!(snapshot.requests_success, 1);
    assert_eq!(snapshot.requests_failure, 1);
    assert!(snapshot.success_rate.is_above(Rate { part: 0, whole: 1 }));
    assert_eq!(snapshot.connections_active, 1);
    assert_eq!(snapshot.bytes_sent, 1024);
    assert_eq!(snapshot.bytes_received, 512);
    assert_eq!(snapshot.avg_latency_ms, 100);

    m.dec_connections();
    let snapshot2 = m.snapshot();
    assert_eq!(snapshot2.connections_active, 0);
}

#[test]
fn test_cancellation_token() {
    let mut token = CancellationToken::new();
    assert!(!token.is_cancelled());

    token.cancel();
    assert!(token.is_cancelled());

    let forked = token.fork();
    assert!(forked.is_cancelled());
}

#[test]
fn test_health_checker() {
    let hc = HealthChecker::new();
    assert_eq!(hc.interval(), Duration::from_secs(30));
    assert_eq!(hc.timeout_duration(), Duration::from_secs(5));

    let hc2 = HealthChecker::new()
        .with_interval(Duration::from_secs(60))
        .with_timeout(Duration::from_secs(10));

    assert_eq!(hc2.interval(), Duration::from_secs(60));
    assert_eq!(hc2.timeout_duration(), Duration::from_secs(10));
}

#[test]
fn test_message_queue() {
    let mut mq = MessageQueue::new();

    let count_no_sub = mq.publish("topic1", bytes::Bytes::from_static(b"hello"));
    assert_eq!(count_no_sub, 0);

    let mut receiver = mq.subscribe("topic1");

    let topics = mq.topics();
    assert!(topics.contains(&"topic1".to_string()));

    let count_with_sub = mq.publish("topic1", bytes::Bytes::from_static(b"world"));
    assert_eq!(count_with_sub, 1);

    let msg = receiver.try_recv().unwrap();
    let msg_slice: &[u8] = &msg;
    assert_eq!(msg_slice, b"world");
}

#[test]
fn test_dead_letter_queue() {
    let mut dlq = DeadLetterQueue::new(10);

    assert!(dlq.is_empty());
    assert_eq!(dlq.len(), 0);

    let req = ServiceRequest::new("svc", "method", Value::object1("error", Value::Bool(true)));
    dlq.push(req.clone(), "timeout".to_string());

    assert!(!dlq.is_empty());
    assert_eq!(dlq.len(), 1);

    let letter = dlq.pop();
    assert!(letter.is_some());
    assert_eq!(letter.unwrap().error, "timeout");

    dlq.clear();
    assert!(dlq.is_empty());
}

#[test]
fn test_dead_letter_queue_max_size() {
    let mut dlq = DeadLetterQueue::new(3);

    for i in 0..5u64 {
        let req = ServiceRequest::new(
            "svc",
            &format!("method{}", i),
            Value::Number(Number::Unsigned(i)),
        );
        dlq.push(req, format!("error{}", i));
    }

    assert_eq!(dlq.len(), 3);

    let letters = dlq.get_all();
    assert!(letters[0].error.contains("error2"));
    assert!(letters[2].error.contains("error4"));
}

#[test]
fn test_token_authenticator() {
    let mut auth = TokenAuthenticator::new().with_ttl(Duration::from_secs(3600));

    auth.add_token(
        "token-123",
        "client-1",
        vec![Permission::new("svc", "method")],
    );

    let valid_creds = Credentials {
        client_id: "client-1".to_string(),
        token: Some("token-123".to_string()),
        api_key: None,
    };

    let result = auth.authenticate(&valid_creds);
    assert!(result.is_ok());
    let ctx = result.unwrap();
    assert_eq!(ctx.client_id, "client-1");
    assert!(ctx.has_permission(&Permission::new("svc", "method")));

    let invalid_creds = Credentials {
        client_id: "unknown".to_string(),
        token: Some("invalid-token".to_string()),
        api_key: None,
    };
    assert!(auth.authenticate(&invalid_creds).is_err());

    let no_token = Credentials {
        client_id: "client-1".to_string(),
        token: None,
        api_key: None,
    };
    assert!(auth.authenticate(&no_token).is_err());
}

#[test]
fn test_api_key_authenticator() {
    let mut auth = ApiKeyAuthenticator::new();
    auth.add_key("api-key-123", "client-2", vec![Permission::all()]);

    let valid_creds = Credentials {
        client_id: "client-2".to_string(),
        token: None,
        api_key: Some("api-key-123".to_string()),
    };

    let result = auth.authenticate(&valid_creds);
    assert!(result.is_ok());
    let ctx = result.unwrap();
    assert!(ctx.has_permission(&Permission::new("any", "any")));
}

#[test]
fn test_composite_authenticator() {
    let auth = CompositeAuthenticator::new()
        .add(TokenAuthenticator::new())
        .add(ApiKeyAuthenticator::new());

    let creds = Credentials {
        client_id: "test".to_string(),
        token: Some("test".to_string()),
        api_key: None,
    };

    let result = auth.authenticate(&creds);
    assert!(result.is_err());
}

#[test]
fn test_permission() {
    let perm = Permission::new("service", "method");
    assert_eq!(perm.service, "service");
    assert_eq!(perm.method, "method");

    let all = Permission::all();
    assert_eq!(all.service, "*");
    assert_eq!(all.method, "*");
}

#[test]
fn test_auth_context() {
    let ctx = AuthContext {
        client_id: "client".to_string(),
        permissions: vec![Permission::new("svc", "method")],
        expires_at: None,
    };

    assert!(ctx.is_valid());
    assert!(ctx.has_permission(&Permission::new("svc", "method")));
    assert!(ctx.has_permission(&Permission::new("svc", "*")));
    assert!(!ctx.has_permission(&Permission::new("other", "method")));
}

#[test]
fn test_auth_rate_limiter() {
    let mut rl = AuthRateLimiter::new(3, Duration::from_secs(1));

    assert!(rl.check("client-1"));
    assert!(rl.check("client-1"));
    assert!(rl.check("client-1"));
    assert!(!rl.check("client-1"));

    assert_eq!(rl.remaining("client-1"), 0);
    assert_eq!(rl.remaining("client-2"), 3);

    rl.reset("client-1");
    assert_eq!(rl.remaining("client-1"), 3);
}

#[test]
fn test_histogram() {
    let mut h = Histogram::new(&[10, 50, 100]);

    h.observe(5);
    h.observe(25);
    h.observe(75);
    h.observe(150);

    assert_eq!(h.percentile(50, 4), 50);
}

#[test]
fn test_service_metrics() {
    let mut m = ServiceMetrics::new();

    m.request_start();
    m.request_end(Duration::from_millis(10), true, false);

    m.request_start();
    m.request_end(Duration::from_millis(50), false, false);

    let snapshot = m.snapshot();
    assert_eq!(snapshot.total, 2);
    assert_eq!(snapshot.success, 1);
    assert_eq!(snapshot.failure, 1);
    assert!(snapshot.latency_avg_ms > 0);
}

#[test]
fn test_connection_tracker() {
    let mut ct = ConnectionTracker::new();

    ct.connection_opened();
    ct.connection_opened();
    ct.connection_opened();

    let metrics = ct.snapshot();
    assert_eq!(metrics.total_connections, 3);
    assert_eq!(metrics.active_connections, 3);
    assert_eq!(metrics.peak_connections, 3);

    ct.connection_closed();
    let metrics = ct.snapshot();
    assert_eq!(metrics.active_connections, 2);
    assert_eq!(metrics.closed_connections, 1);

    ct.connection_error();
    assert_eq!(ct.snapshot().connection_errors, 1);
}

#[test]
fn test_metrics_collector() {
    let mut collector = MetricsCollector::new();

    let svc1 = collector.get_or_create_service("service-1");
    let svc2 = collector.get_or_create_service("service-2");
    let svc1_again = collector.get_or_create_service("service-1");

    assert_eq!(svc1, svc1_again);
    assert_ne!(svc1, svc2);

    collector.request_start(svc1);
    collector.request_end(svc1, Duration::from_millis(10), true, false);

    let snapshots = collector.snapshot_all();
    assert_eq!(snapshots.len(), 2);
    assert_eq!(snapshots.get("service-1").unwrap().total, 1);
}

#[test]
fn test_alert_manager() {
    let mut alert_manager = AlertManager::new();
    let mut collector = MetricsCollector::new();

    alert_manager.add_rule(AlertRule {
        name: "high_latency".to_string(),
        metric: "svc".to_string(),
        condition: AlertCondition::LatencyP99Above(100),
        cooldown: Duration::from_secs(60),
    });

    let svc = collector.get_or_create_service("svc");
    for _ in 0..100 {
        collector.request_start(svc);
        collector.request_end(svc, Duration::from_millis(200), true, false);
    }

    let alert_fired = Arc::new(AtomicBool::new(false));
    let fired = alert_fired.clone();
    alert_manager.add_callback(Box::new(FnAlertCallback::new(move |alert: &Alert| {
        assert_eq!(alert.rule_name, "high_latency");
        fired.store(true, Ordering::SeqCst);
    })));

    let alerts = alert_manager.check(&collector, millis(7));

    assert!(alert_fired.load(Ordering::SeqCst));
    assert_eq!(alerts.len(), 1);
    assert_eq!(
        alerts[0].to_string(),
        "[WARNING] high_latency - svc: threshold exceeded"
    );
    assert_eq!(alerts[0].timestamp, millis(7));
}

#[test]
fn test_config_builder() {
    let config = ConfigBuilder::new()
        .with_server_config(ConfigServerConfig {
            path: Some("/tmp/test.sock".to_string()),
            ..Default::default()
        })
        .with_pool_config(ConfigPoolConfig {
            max_concurrent: 200,
            ..Default::default()
        })
        .build();

    assert_eq!(config.server.path, Some("/tmp/test.sock".to_string()));
    assert_eq!(config.pool.max_concurrent, 200);
}

#[test]
fn test_config_default() {
    let config = Config::default();

    assert_eq!(config.server.request_timeout_secs, 30);
    assert_eq!(config.client.request_timeout_secs, 30);
    assert_eq!(config.pool.max_concurrent, 100);
    assert!(config.security.rate_limit.enabled);
}

#[test]
fn test_server_config() {
    let config = ServerConfig::default();
    assert_eq!(config.max_connections, 10000);
    assert_eq!(config.max_request_size, 16 * 1024 * 1024);
    assert!(config.enable_streaming);
    assert!(config.enable_schema_introspection);

    let config = config.with_max_connections(5000).with_rate_limit(500, 60);

    assert_eq!(config.max_connections, 5000);
    assert_eq!(config.rate_limit.max_requests, 500);
}

#[test]
fn test_rate_limit_config() {
    let config = RateLimitConfig {
        max_requests: 1000,
        window_secs: 60,
    };

    assert_eq!(config.max_requests, 1000);
    assert_eq!(config.window_secs, 60);
}

#[test]
fn test_pool_config() {
    let config = PoolConfig::default();
    assert_eq!(config.max_concurrent, 100);
    assert_eq!(config.request_timeout.as_secs(), 30);
    assert_eq!(config.circuit_breaker_threshold, 5);
}

#[test]
fn test_protocol_error_display() {
    let err = ProtocolError::ConnectionFailed("test".to_string());
    assert!(err.to_string().contains("Connection failed"));

    let err = ProtocolError::Timeout;
    assert_eq!(err.to_string(), "Request timeout");

    let err = ProtocolError::NotFound("service".to_string());
    assert!(err.to_string().contains("Service not found"));
}

#[test]
fn test_protocol_error_from_io() {
    let io_err = std::io::Error::new(std::io::ErrorKind::NotFound, "file not found");
    let protocol_err: ProtocolError = io_err.into();
    assert!(matches!(protocol_err, ProtocolError::ConnectionFailed(s) if s == "file not found"));
}

#[test]
fn test_protocol_error_from_json() {
    let json_err = serde_json::from_slice::<serde_json::Value>(b"invalid").unwrap_err();
    let shown = json_err.to_string();
    let protocol_err: ProtocolError = json_err.into();
    assert!(matches!(protocol_err, ProtocolError::Encoding(s) if s == shown));
}
