//! Service-to-service communication.
//!
//! The library holds the decisions of the framework: the framing of messages,
//! the connection state machines of servers and clients, admission control,
//! pooling, discovery, authentication and metrics. What touches a socket, a
//! timer or a thread lives in the application around it, which performs the
//! actions that the functions here return and hands back what happened.

pub mod time;
pub mod text;
pub mod json;
pub mod map;
pub mod actions;
pub mod error;
pub mod wire;
pub mod ids;
pub mod protocol;
pub mod circuit_breaker;
pub mod window;
pub mod auth;
pub mod handler;
pub mod metrics;
pub mod streaming;
pub mod schema;
pub mod webhook;
pub mod server;
pub mod reliable;
pub mod client;
pub mod exchange;
pub mod pool;
pub mod utils;
pub mod session;
pub mod tcp;
pub mod grpc;
pub mod runtime;
pub mod socket;
pub mod config;
pub mod discovery;
pub mod tls;

pub use auth::{
    ApiKeyAuthenticator, AuthContext, Authenticator, CompositeAuthenticator, Credentials,
    Permission, RateLimiter as AuthRateLimiter, TokenAuthenticator,
};
pub use circuit_breaker::{CircuitBreaker, CircuitState};
pub use client::{
    ConnectionConfig, ConnectionState, ConnectionStats, ReliableUdsClient, UdsClient,
};
pub use config::{Config, ConfigBuilder, ConfigError};
pub use discovery::{
    BackgroundHealthChecker, LoadBalancingStrategy, ServiceDiscovery, ServiceEndpoint,
};
pub use error::{ProtocolError, Result};
pub use handler::{FnServiceHandler, HealthStatus, ServiceHandler};
pub use metrics::{
    Alert, AlertCallback, AlertCondition, AlertManager, AlertRule, AlertSeverity,
    ConnectionMetrics, ConnectionTracker, Histogram, MetricsCollector, RequestMetrics,
    ServiceMetrics,
};
pub use pool::{
    PoolConfig, PoolMetrics, ProductionPool, TopicBasedPool, UdsClientPool, UdsConnectionPool,
};
pub use protocol::{HandshakeRequest, HandshakeResponse, ServiceRequest, ServiceResponse};
pub use schema::{ServiceCapability, ServiceSchema, ServiceSchemaProvider};
pub use server::{ServerConfig, UdsServer};
pub use session::SessionManager;
pub use streaming::{
    DefaultStreamingHandler, StreamMessage, StreamMode, StreamResponse, StreamingHandler,
};
pub use tcp::{TcpClient, TcpServer};
pub use utils::{
    CancellationToken, DeadLetter, DeadLetterQueue, HealthChecker, MessageQueue, Metrics,
    MetricsSnapshot, RateLimiter, RetryConfig,
};
pub use webhook::{WebhookConfig, WebhookEvent, WebhookRetryPolicy, WebhookSender, WebhookService};
pub use wire::{
    read_message, write_message, MSG_CLOSE, MSG_ERROR, MSG_HANDSHAKE, MSG_HANDSHAKE_ACK, MSG_PING,
    MSG_PONG, MSG_REQUEST, MSG_RESPONSE, MSG_SCHEMA_REQUEST, MSG_SCHEMA_RESPONSE, MSG_STREAM_CHUNK,
    MSG_STREAM_END, MSG_STREAM_REQUEST, MSG_STREAM_START,
};
