//! The settings of a program that uses the framework.

use crate::error;
use crate::text;
use vstd::prelude::*;

verus! {

#[derive(Debug, Clone)]
pub struct Config {
    pub server: ServerConfig,
    pub client: ClientConfig,
    pub pool: PoolConfig,
    pub security: SecurityConfig,
    pub logging: LoggingConfig,
    pub monitoring: MonitoringConfig,
}

#[derive(Debug, Clone)]
pub struct ServerConfig {
    pub path: Option<String>,
    pub addr: Option<String>,
    pub request_timeout_secs: u64,
    pub idle_timeout_secs: u64,
    pub max_request_size: usize,
    pub max_connections: usize,
    pub enable_streaming: bool,
    pub enable_schema_introspection: bool,
    pub webhook_url: Option<String>,
}

#[derive(Debug, Clone, Copy, PartialEq, Eq, Structural)]
pub struct ClientConfig {
    pub connect_timeout_secs: u64,
    pub request_timeout_secs: u64,
    pub idle_timeout_secs: u64,
    pub heartbeat_interval_secs: u64,
    pub max_reconnect_attempts: u32,
    pub reconnect_delay_secs: u64,
}

#[derive(Debug, Clone, Copy, PartialEq, Eq, Structural)]
pub struct PoolConfig {
    pub max_concurrent: usize,
    pub max_pool_size: usize,
    pub connection_timeout_secs: u64,
    pub request_timeout_secs: u64,
    pub circuit_breaker_threshold: usize,
    pub circuit_breaker_timeout_secs: u64,
}

#[derive(Debug, Clone)]
pub struct SecurityConfig {
    pub auth_type: Option<String>,
    pub api_keys: Vec<ApiKeyEntry>,
    pub tokens: Vec<TokenEntry>,
    pub rate_limit: RateLimitConfig,
}

#[derive(Debug, Clone)]
pub struct ApiKeyEntry {
    pub key: String,
    pub client_id: String,
    pub permissions: Vec<String>,
}

#[derive(Debug, Clone)]
pub struct TokenEntry {
    pub token: String,
    pub client_id: String,
    pub permissions: Vec<String>,
    pub ttl_secs: Option<u64>,
}

#[derive(Debug, Clone, Copy, PartialEq, Eq, Structural)]
pub struct RateLimitConfig {
    pub enabled: bool,
    pub max_requests: usize,
    pub window_secs: u64,
}

#[derive(Debug, Clone)]
pub struct LoggingConfig {
    pub level: String,
    pub format: String,
    pub output: String,
}

#[derive(Debug, Clone)]
pub struct MonitoringConfig {
    pub enabled: bool,
    pub metrics_port: Option<u16>,
    pub alert_rules: Vec<AlertRuleConfig>,
}

/// A rule on a metric. The threshold is kept as the bits of an IEEE 754 double.
#[derive(Debug, Clone)]
pub struct AlertRuleConfig {
    pub name: String,
    pub metric: String,
    pub condition: String,
    pub threshold_bits: u64,
}

impl ServerConfig {
    /// The settings of a server that was told nothing.
    pub open spec fn is_default(self) -> bool {
        &&& self.path is None
        &&& self.addr is None
        &&& self.request_timeout_secs == 30
        &&& self.idle_timeout_secs == 300
        &&& self.max_request_size == 16_777_216
        &&& self.max_connections == 10000
        &&& self.enable_streaming
        &&& self.enable_schema_introspection
        &&& self.webhook_url is None
    }
}

impl Default for ServerConfig {
    fn default() -> (r: ServerConfig)
        ensures
            r.is_default(),
    {
        ServerConfig {
            path: None,
            addr: None,
            request_timeout_secs: 30,
            idle_timeout_secs: 300,
            max_request_size: 16_777_216,
            max_connections: 10000,
            enable_streaming: true,
            enable_schema_introspection: true,
            webhook_url: None,
        }
    }
}

impl ClientConfig {
    /// The settings of a client that was told nothing.
    pub open spec fn is_default(self) -> bool {
        self == (ClientConfig {
            connect_timeout_secs: 5,
            request_timeout_secs: 30,
            idle_timeout_secs: 300,
            heartbeat_interval_secs: 30,
            max_reconnect_attempts: 5,
            reconnect_delay_secs: 1,
        })
    }
}

impl Default for ClientConfig {
    fn default() -> (r: ClientConfig)
        ensures
            r.is_default(),
    {
        ClientConfig {
            connect_timeout_secs: 5,
            request_timeout_secs: 30,
            idle_timeout_secs: 300,
            heartbeat_interval_secs: 30,
            max_reconnect_attempts: 5,
            reconnect_delay_secs: 1,
        }
    }
}

impl PoolConfig {
    /// The settings of a pool that was told nothing.
    pub open spec fn is_default(self) -> bool {
        self == (PoolConfig {
            max_concurrent: 100,
            max_pool_size: 100,
            connection_timeout_secs: 5,
            request_timeout_secs: 30,
            circuit_breaker_threshold: 5,
            circuit_breaker_timeout_secs: 30,
        })
    }
}

impl Default for PoolConfig {
    fn default() -> (r: PoolConfig)
        ensures
            r.is_default(),
    {
        PoolConfig {
            max_concurrent: 100,
            max_pool_size: 100,
            connection_timeout_secs: 5,
            request_timeout_secs: 30,
            circuit_breaker_threshold: 5,
            circuit_breaker_timeout_secs: 30,
        }
    }
}

impl RateLimitConfig {
    /// The limits that hold unless others are set.
    pub open spec fn is_default(self) -> bool {
        self == (RateLimitConfig { enabled: true, max_requests: 1000, window_secs: 60 })
    }
}

impl Default for RateLimitConfig {
    fn default() -> (r: RateLimitConfig)
        ensures
            r.is_default(),
    {
        RateLimitConfig { enabled: true, max_requests: 1000, window_secs: 60 }
    }
}

impl SecurityConfig {
    /// No authentication, and the usual limits.
    pub open spec fn is_default(self) -> bool {
        &&& self.auth_type is None
        &&& self.api_keys@.len() == 0
        &&& self.tokens@.len() == 0
        &&& self.rate_limit.is_default()
    }
}

impl Default for SecurityConfig {
    fn default() -> (r: SecurityConfig)
        ensures
            r.is_default(),
    {
        SecurityConfig {
            auth_type: None,
            api_keys: Vec::new(),
            tokens: Vec::new(),
            rate_limit: RateLimitConfig::default(),
        }
    }
}

impl LoggingConfig {
    /// JSON to the standard output, from level `info` on.
    pub open spec fn is_default(self) -> bool {
        &&& self.level@ == "info"@
        &&& self.format@ == "json"@
        &&& self.output@ == "stdout"@
    }
}

impl Default for LoggingConfig {
    fn default() -> (r: LoggingConfig)
        ensures
            r.is_default(),
    {
        LoggingConfig {
            level: "info".to_string(),
            format: "json".to_string(),
            output: "stdout".to_string(),
        }
    }
}

impl MonitoringConfig {
    /// Metrics on port 9090, and no rules.
    pub open spec fn is_default(self) -> bool {
        &&& self.enabled
        &&& self.metrics_port == Some(9090u16)
        &&& self.alert_rules@.len() == 0
    }
}

impl Default for MonitoringConfig {
    fn default() -> (r: MonitoringConfig)
        ensures
            r.is_default(),
    {
        MonitoringConfig { enabled: true, metrics_port: Some(9090), alert_rules: Vec::new() }
    }
}

impl Config {
    /// The settings of a program that was told nothing.
    pub open spec fn is_default(self) -> bool {
        &&& self.server.is_default()
        &&& self.client.is_default()
        &&& self.pool.is_default()
        &&& self.security.is_default()
        &&& self.logging.is_default()
        &&& self.monitoring.is_default()
    }
}

impl Default for Config {
    fn default() -> (r: Config)
        ensures
            r.is_default(),
    {
        Config {
            server: ServerConfig::default(),
            client: ClientConfig::default(),
            pool: PoolConfig::default(),
            security: SecurityConfig::default(),
            logging: LoggingConfig::default(),
            monitoring: MonitoringConfig::default(),
        }
    }
}

/// Why settings could not be read or written.
#[derive(Debug)]
pub enum ConfigError {
    IoError(std::io::Error),
    ParseError(String),
    SerializeError(String),
}

impl ConfigError {
    /// What the message that is shown for the error begins with.
    pub open spec fn prefix(self) -> Seq<char> {
        match self {
            ConfigError::IoError(_) => "IO error: "@,
            ConfigError::ParseError(_) => "Parse error: "@,
            ConfigError::SerializeError(_) => "Serialize error: "@,
        }
    }

    /// Whether this may be told of the error, after the prefix. How an error of
    /// the system reads is up to the system.
    pub open spec fn may_tell(self, detail: Seq<char>) -> bool {
        match self {
            ConfigError::IoError(e) => error::io_error_may_read(e, detail),
            ConfigError::ParseError(e) => detail == e@,
            ConfigError::SerializeError(e) => detail == e@,
        }
    }

    /// The message that is shown for the error.
    pub fn to_string(&self) -> (r: String)
        ensures
            exists|detail: Seq<char>| #[trigger]
                self.may_tell(detail) && r@ == self.prefix() + detail,
    {
        match self {
            ConfigError::IoError(e) => {
                let detail = error::io_error_text(e);
                assert(self.may_tell(detail@));
                text::join("IO error: ", detail.as_str())
            },
            ConfigError::ParseError(e) => {
                assert(self.may_tell(e@));
                text::join("Parse error: ", e.as_str())
            },
            ConfigError::SerializeError(e) => {
                assert(self.may_tell(e@));
                text::join("Serialize error: ", e.as_str())
            },
        }
    }
}

/// Puts settings together.
#[derive(Debug)]
pub struct ConfigBuilder {
    config: Config,
}

impl View for ConfigBuilder {
    type V = Config;

    closed spec fn view(&self) -> Config {
        self.config
    }
}

impl ConfigBuilder {
    pub fn new() -> (r: ConfigBuilder)
        ensures
            r@.is_default(),
    {
        ConfigBuilder { config: Config::default() }
    }

    pub fn with_server_config(self, server: ServerConfig) -> (r: ConfigBuilder)
        ensures
            r@ == (Config { server, ..self@ }),
    {
        ConfigBuilder { config: Config { server, ..self.config } }
    }

    pub fn with_client_config(self, client: ClientConfig) -> (r: ConfigBuilder)
        ensures
            r@ == (Config { client, ..self@ }),
    {
        ConfigBuilder { config: Config { client, ..self.config } }
    }

    pub fn with_pool_config(self, pool: PoolConfig) -> (r: ConfigBuilder)
        ensures
            r@ == (Config { pool, ..self@ }),
    {
        ConfigBuilder { config: Config { pool, ..self.config } }
    }

    pub fn with_security_config(self, security: SecurityConfig) -> (r: ConfigBuilder)
        ensures
            r@ == (Config { security, ..self@ }),
    {
        ConfigBuilder { config: Config { security, ..self.config } }
    }

    pub fn with_logging_config(self, logging: LoggingConfig) -> (r: ConfigBuilder)
        ensures
            r@ == (Config { logging, ..self@ }),
    {
        ConfigBuilder { config: Config { logging, ..self.config } }
    }

    pub fn with_monitoring_config(self, monitoring: MonitoringConfig) -> (r: ConfigBuilder)
        ensures
            r@ == (Config { monitoring, ..self@ }),
    {
        ConfigBuilder { config: Config { monitoring, ..self.config } }
    }

    pub fn build(self) -> (r: Config)
        ensures
            r == self@,
    {
        self.config
    }
}

impl Default for ConfigBuilder {
    fn default() -> (r: ConfigBuilder)
        ensures
            r@.is_default(),
    {
        ConfigBuilder::new()
    }
}

/// What a program that was told nothing goes by.
pub proof fn law_defaults_are_these(c: Config)
    requires
        c.is_default(),
    ensures
        c.server.path is None && c.server.addr is None && c.server.webhook_url is None,
        c.server.request_timeout_secs == 30 && c.server.idle_timeout_secs == 5 * 60,
        c.server.max_request_size == 16 * 1024 * 1024 && c.server.max_connections == 10 * 1000,
        c.server.enable_streaming && c.server.enable_schema_introspection,
        c.client.connect_timeout_secs == 5 && c.client.request_timeout_secs == 30,
        c.client.idle_timeout_secs == 5 * 60 && c.client.heartbeat_interval_secs == 30,
        c.client.max_reconnect_attempts == 5 && c.client.reconnect_delay_secs == 1,
        c.pool.max_concurrent == 100 && c.pool.max_pool_size == 100,
        c.pool.connection_timeout_secs == 5 && c.pool.request_timeout_secs == 30,
        c.pool.circuit_breaker_threshold == 5 && c.pool.circuit_breaker_timeout_secs == 30,
        c.security.auth_type is None && c.security.api_keys@.len() == 0
            && c.security.tokens@.len() == 0,
        c.security.rate_limit.enabled && c.security.rate_limit.max_requests == 1000
            && c.security.rate_limit.window_secs == 60,
        c.logging.level@ == "info"@ && c.logging.format@ == "json"@ && c.logging.output@
            == "stdout"@,
        c.monitoring.enabled && c.monitoring.metrics_port == Some(9090u16)
            && c.monitoring.alert_rules@.len() == 0,
{
}

/// The message of an error tells what could not be done, and then why.
pub proof fn law_error_tells_what_and_why(e: String, detail: Seq<char>)
    ensures
        ConfigError::ParseError(e).prefix() == "Parse error: "@,
        ConfigError::SerializeError(e).prefix() == "Serialize error: "@,
        ConfigError::ParseError(e).may_tell(detail) <==> detail == e@,
        ConfigError::SerializeError(e).may_tell(detail) <==> detail == e@,
{
}

/// Each part of the settings is put in without the others, and what is built is what was
/// put together.
pub proof fn law_parts_are_put_in_one_by_one(
    b: ConfigBuilder,
    server: ServerConfig,
    with_server: ConfigBuilder,
    client: ClientConfig,
    with_client: ConfigBuilder,
    pool: PoolConfig,
    with_pool: ConfigBuilder,
    security: SecurityConfig,
    with_security: ConfigBuilder,
    logging: LoggingConfig,
    with_logging: ConfigBuilder,
    monitoring: MonitoringConfig,
    with_monitoring: ConfigBuilder,
    built: Config,
)
    requires
        call_ensures(ConfigBuilder::with_server_config, (b, server), with_server),
        call_ensures(ConfigBuilder::with_client_config, (with_server, client), with_client),
        call_ensures(ConfigBuilder::with_pool_config, (with_client, pool), with_pool),
        call_ensures(ConfigBuilder::with_security_config, (with_pool, security), with_security),
        call_ensures(ConfigBuilder::with_logging_config, (with_security, logging), with_logging),
        call_ensures(
            ConfigBuilder::with_monitoring_config,
            (with_logging, monitoring),
            with_monitoring,
        ),
        call_ensures(ConfigBuilder::build, (with_monitoring,), built),
    ensures
        built.server == server && built.client == client && built.pool == pool,
        built.security == security && built.logging == logging && built.monitoring == monitoring,
        with_server@.client == b@.client && with_server@.pool == b@.pool,
{
}

} // verus!
