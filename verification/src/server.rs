//! The server: its settings, how many connections it takes, and what it does
//! on each of them.

use crate::actions;
use crate::actions::{both, just, nothing, then_do};
use crate::auth;
use crate::auth::RateLimiter;
use crate::error::{ErrorView, ProtocolError};
use crate::json;
use crate::json::{Json, Value};
use crate::protocol;
use crate::protocol::{
    HandshakeRequest, HandshakeRequestView, HandshakeResponse, HandshakeResponseView, RequestView,
    ResponseView, ServiceRequest, ServiceResponse,
};
use crate::schema;
use crate::schema::{SchemaView, ServiceSchema};
use crate::streaming;
use crate::streaming::StreamMode;
use crate::text;
use crate::time;
use crate::time::{Duration, Instant};
use crate::webhook::{WebhookConfig, WebhookConfigView, WebhookService};
use crate::wire::{
    MSG_CLOSE, MSG_ERROR, MSG_HANDSHAKE, MSG_HANDSHAKE_ACK, MSG_PING, MSG_PONG, MSG_REQUEST,
    MSG_RESPONSE, MSG_SCHEMA_REQUEST, MSG_SCHEMA_RESPONSE, MSG_STREAM_END, MSG_STREAM_REQUEST,
    MSG_STREAM_START,
};
use vstd::prelude::*;
use vstd::utf8::encode_utf8;

verus! {

#[derive(Debug, Clone, Copy, PartialEq, Eq, Structural)]
pub struct RateLimitConfig {
    pub max_requests: usize,
    pub window_secs: u64,
}

#[derive(Debug)]
pub struct ServerConfig {
    pub request_timeout: Duration,
    pub idle_timeout: Duration,
    pub max_request_size: usize,
    pub max_connections: usize,
    pub webhook_url: Option<String>,
    pub enable_streaming: bool,
    pub enable_schema_introspection: bool,
    pub rate_limit: RateLimitConfig,
}

/// The mathematical model of a [`ServerConfig`].
pub struct ServerConfigView {
    /// In nanoseconds.
    pub request_timeout: nat,
    /// In nanoseconds.
    pub idle_timeout: nat,
    pub max_request_size: usize,
    pub max_connections: usize,
    pub webhook_url: Option<Seq<char>>,
    pub enable_streaming: bool,
    pub enable_schema_introspection: bool,
    pub rate_limit: RateLimitConfig,
}

impl View for ServerConfig {
    type V = ServerConfigView;

    open spec fn view(&self) -> ServerConfigView {
        ServerConfigView {
            request_timeout: self.request_timeout@,
            idle_timeout: self.idle_timeout@,
            max_request_size: self.max_request_size,
            max_connections: self.max_connections,
            webhook_url: protocol::opt_text(self.webhook_url),
            enable_streaming: self.enable_streaming,
            enable_schema_introspection: self.enable_schema_introspection,
            rate_limit: self.rate_limit,
        }
    }
}

/// The settings that a server has unless it is told otherwise.
pub open spec fn default_config() -> ServerConfigView {
    ServerConfigView {
        request_timeout: 30_000_000_000,
        idle_timeout: 300_000_000_000,
        max_request_size: 16_777_216,
        max_connections: 10000,
        webhook_url: None,
        enable_streaming: true,
        enable_schema_introspection: true,
        rate_limit: RateLimitConfig { max_requests: 1000, window_secs: 60 },
    }
}

impl Default for ServerConfig {
    fn default() -> (r: ServerConfig)
        ensures
            r@ == default_config(),
    {
        ServerConfig {
            request_timeout: Duration::from_secs(30),
            idle_timeout: Duration::from_secs(300),
            max_request_size: 16_777_216,
            max_connections: 10000,
            webhook_url: None,
            enable_streaming: true,
            enable_schema_introspection: true,
            rate_limit: RateLimitConfig { max_requests: 1000, window_secs: 60 },
        }
    }
}

impl Clone for ServerConfig {
    fn clone(&self) -> (r: ServerConfig)
        ensures
            r@ == self@,
    {
        ServerConfig {
            request_timeout: self.request_timeout,
            idle_timeout: self.idle_timeout,
            max_request_size: self.max_request_size,
            max_connections: self.max_connections,
            webhook_url: protocol::copy_opt(&self.webhook_url),
            enable_streaming: self.enable_streaming,
            enable_schema_introspection: self.enable_schema_introspection,
            rate_limit: self.rate_limit,
        }
    }
}

impl ServerConfig {
    pub fn with_request_timeout(self, timeout: Duration) -> (r: ServerConfig)
        ensures
            r@ == (ServerConfigView { request_timeout: timeout@, ..self@ }),
    {
        ServerConfig { request_timeout: timeout, ..self }
    }

    pub fn with_webhook(self, url: &str) -> (r: ServerConfig)
        ensures
            r@ == (ServerConfigView { webhook_url: Some(url@), ..self@ }),
    {
        ServerConfig { webhook_url: Some(url.to_string()), ..self }
    }

    pub fn with_streaming(self, enabled: bool) -> (r: ServerConfig)
        ensures
            r@ == (ServerConfigView { enable_streaming: enabled, ..self@ }),
    {
        ServerConfig { enable_streaming: enabled, ..self }
    }

    pub fn with_schema_introspection(self, enabled: bool) -> (r: ServerConfig)
        ensures
            r@ == (ServerConfigView { enable_schema_introspection: enabled, ..self@ }),
    {
        ServerConfig { enable_schema_introspection: enabled, ..self }
    }

    pub fn with_max_connections(self, max: usize) -> (r: ServerConfig)
        ensures
            r@ == (ServerConfigView { max_connections: max, ..self@ }),
    {
        ServerConfig { max_connections: max, ..self }
    }

    pub fn with_rate_limit(self, max_requests: usize, window_secs: u64) -> (r: ServerConfig)
        ensures
            r@ == (ServerConfigView {
                rate_limit: RateLimitConfig { max_requests, window_secs },
                ..self@
            }),
    {
        ServerConfig { rate_limit: RateLimitConfig { max_requests, window_secs }, ..self }
    }

    /// The limiter that all connections of the server share.
    pub fn rate_limiter(&self) -> (r: RateLimiter)
        ensures
            r@ == (auth::LimiterView {
                max_requests: self.rate_limit.max_requests as nat,
                window: (self.rate_limit.window_secs * 1_000_000_000) as nat,
                requests: Map::empty(),
                clock: r@.clock,
            }),
    {
        RateLimiter::new(
            self.rate_limit.max_requests,
            Duration::from_secs(self.rate_limit.window_secs),
        )
    }

    /// The webhooks that are told of requests, if there are any.
    pub fn webhook_service(&self) -> (r: Option<WebhookService>)
        ensures
            r is Some <==> self.webhook_url is Some,
            r matches Some(service) ==> service.configs().len() == 1 && service.configs()[0]@
                == WebhookConfigView::plain(self.webhook_url->0@),
    {
        match &self.webhook_url {
            Some(url) => Some(
                WebhookService::new().with_webhook(WebhookConfig::new(url.as_str())),
            ),
            None => None,
        }
    }
}

/// How many connections are open.
#[derive(Debug)]
pub struct ConnectionGate {
    active: usize,
}

impl View for ConnectionGate {
    type V = usize;

    closed spec fn view(&self) -> usize {
        self.active
    }
}

/// How many connections are open after one more has asked to enter.
pub open spec fn entered(active: usize, max_connections: usize) -> usize {
    if active < max_connections {
        (active + 1) as usize
    } else {
        active
    }
}

impl ConnectionGate {
    pub fn new() -> (r: ConnectionGate)
        ensures
            r@ == 0,
    {
        ConnectionGate { active: 0 }
    }

    /// Lets one more connection in, if there are fewer than `max_connections`.
    pub fn try_enter(&mut self, max_connections: usize) -> (r: bool)
        ensures
            r == (old(self)@ < max_connections),
            final(self)@ == entered(old(self)@, max_connections),
    {
        if self.active >= max_connections {
            return false;
        }
        self.active = self.active + 1;
        true
    }

    /// A connection was closed.
    pub fn leave(&mut self)
        requires
            old(self)@ > 0,
        ensures
            final(self)@ == old(self)@ - 1,
    {
        self.active = self.active - 1;
    }

    pub fn active_connections(&self) -> (r: usize)
        ensures
            r == self@,
    {
        self.active
    }
}

/// A server on a Unix domain socket.
#[derive(Debug)]
pub struct UdsServer {
    path: String,
    webhook_url: Option<String>,
    collects_metrics: bool,
}

/// The mathematical model of a [`UdsServer`].
pub struct UdsServerView {
    pub path: Seq<char>,
    pub webhook_url: Option<Seq<char>>,
    pub collects_metrics: bool,
}

impl View for UdsServer {
    type V = UdsServerView;

    closed spec fn view(&self) -> UdsServerView {
        UdsServerView {
            path: self.path@,
            webhook_url: protocol::opt_text(self.webhook_url),
            collects_metrics: self.collects_metrics,
        }
    }
}

/// Whether a request has a service, a method and an identifier, of no more than
/// 256, 256 and 128 bytes.
pub open spec fn valid_request(request: RequestView) -> bool {
    &&& request.service_name.len() > 0 && text::byte_len(request.service_name) <= 256
    &&& request.method.len() > 0 && text::byte_len(request.method) <= 256
    &&& request.request_id.len() > 0 && text::byte_len(request.request_id) <= 128
}

impl UdsServer {
    pub fn new(path: &str) -> (r: UdsServer)
        ensures
            r@ == (UdsServerView { path: path@, webhook_url: None, collects_metrics: false }),
    {
        UdsServer { path: path.to_string(), webhook_url: None, collects_metrics: false }
    }

    pub fn with_webhook(self, url: &str) -> (r: UdsServer)
        ensures
            r@ == (UdsServerView { webhook_url: Some(url@), ..self@ }),
    {
        UdsServer { webhook_url: Some(url.to_string()), ..self }
    }

    /// The server counts its requests in a collector.
    pub fn with_metrics(self) -> (r: UdsServer)
        ensures
            r@ == (UdsServerView { collects_metrics: true, ..self@ }),
    {
        UdsServer { collects_metrics: true, ..self }
    }

    pub fn path(&self) -> (r: &str)
        ensures
            r@ == self@.path,
    {
        self.path.as_str()
    }

    /// The settings that the server runs with when it is given none.
    pub fn config(&self) -> (r: ServerConfig)
        ensures
            r@ == (ServerConfigView { webhook_url: self@.webhook_url, ..default_config() }),
    {
        let config = ServerConfig::default();
        match &self.webhook_url {
            Some(url) => config.with_webhook(url.as_str()),
            None => config,
        }
    }

    /// A new connection of the server.
    pub fn connection(&self, config: &ServerConfig, service_name: &str) -> (r: Connection)
        ensures
            r@ == ConnectionView::opened(
                SettingsView {
                    service_name: service_name@,
                    request_timeout: config@.request_timeout,
                    max_request_size: config@.max_request_size,
                    enable_streaming: config@.enable_streaming,
                    enable_schema_introspection: config@.enable_schema_introspection,
                    has_webhook: config@.webhook_url is Some,
                    has_metrics: self@.collects_metrics,
                },
            ),
    {
        Connection {
            service_name: service_name.to_string(),
            request_timeout: config.request_timeout,
            max_request_size: config.max_request_size,
            enable_streaming: config.enable_streaming,
            enable_schema_introspection: config.enable_schema_introspection,
            has_webhook: config.webhook_url.is_some(),
            has_metrics: self.collects_metrics,
            handshake: None,
            client_id: "".to_string(),
            phase: Phase::Opening,
        }
    }

    /// How many connections are open.
    pub fn active_connections(gate: &ConnectionGate) -> (r: usize)
        ensures
            r == gate@,
    {
        gate.active_connections()
    }

    pub fn validate_request(request: &ServiceRequest) -> (r: bool)
        ensures
            r == valid_request(request@),
    {
        if text::empty_or_longer(request.service_name.as_str(), 256) {
            return false;
        }
        if text::empty_or_longer(request.method.as_str(), 256) {
            return false;
        }
        if text::empty_or_longer(request.request_id.as_str(), 128) {
            return false;
        }
        true
    }
}

/// Where a connection stands.
#[derive(Debug, Clone, Copy, PartialEq, Eq, Structural)]
pub enum Phase {
    /// Waiting for the first message.
    Opening,
    /// Waiting for the handshake to be decoded.
    DecodingHandshake,
    /// Waiting to hear whether the client is within its rate.
    CheckingRate,
    /// Waiting for the service's answer to the handshake.
    Greeting,
    /// Waiting for a message.
    Idle,
    /// Waiting for a request to be decoded that came in at this time.
    DecodingRequest { started: Instant },
    /// Waiting for the service's response to a request that came in at this
    /// time.
    Handling { started: Instant },
    /// Waiting for a streaming request to be decoded.
    DecodingStream,
    /// Waiting for the service's response to a streaming request, which asked for
    /// this mode.
    HandlingStream { mode: StreamMode },
    /// Turning the client away: all that is left is to tell it so.
    Refusing,
    Closed,
}

/// What happened on a connection.
#[derive(Debug)]
pub enum Event {
    /// A message was read.
    Message { msg_type: u8, payload: Vec<u8> },
    /// No message could be read.
    ReadFailed(ProtocolError),
    /// No message came in time.
    TimedOut,
    /// The handshake was decoded, or why it could not be.
    HandshakeDecoded(Result<HandshakeRequest, String>),
    /// Whether the client is within its rate.
    RateChecked(bool),
    /// The service answered the handshake.
    Greeted(HandshakeResponse),
    /// The request was decoded, or why it could not be.
    RequestDecoded(Result<ServiceRequest, String>),
    /// The service responded.
    Handled(ServiceResponse),
    /// A message could not be sent. The actions after it were not performed.
    SendFailed(ProtocolError),
}

/// The mathematical model of an [`Event`].
pub enum EventView {
    Message { msg_type: u8, payload: Seq<u8> },
    ReadFailed(ErrorView),
    TimedOut,
    HandshakeDecoded(Result<HandshakeRequestView, Seq<char>>),
    RateChecked(bool),
    Greeted(HandshakeResponseView),
    RequestDecoded(Result<RequestView, Seq<char>>),
    Handled(ResponseView),
    SendFailed(ErrorView),
}

impl View for Event {
    type V = EventView;

    open spec fn view(&self) -> EventView {
        match *self {
            Event::Message { msg_type, payload } => EventView::Message {
                msg_type,
                payload: payload@,
            },
            Event::ReadFailed(e) => EventView::ReadFailed(e@),
            Event::TimedOut => EventView::TimedOut,
            Event::HandshakeDecoded(r) => EventView::HandshakeDecoded(
                match r {
                    Ok(q) => Ok(q@),
                    Err(e) => Err(e@),
                },
            ),
            Event::RateChecked(allowed) => EventView::RateChecked(allowed),
            Event::Greeted(r) => EventView::Greeted(r@),
            Event::RequestDecoded(r) => EventView::RequestDecoded(
                match r {
                    Ok(q) => Ok(q@),
                    Err(e) => Err(e@),
                },
            ),
            Event::Handled(r) => EventView::Handled(r@),
            Event::SendFailed(e) => EventView::SendFailed(e@),
        }
    }
}

/// What a message carries.
#[derive(Debug)]
pub enum Body {
    Empty,
    Json(Value),
    Handshake(HandshakeResponse),
    Response(ServiceResponse),
    Schema(ServiceSchema),
}

/// The mathematical model of a [`Body`].
pub enum BodyView {
    Empty,
    Json(Json),
    Handshake(HandshakeResponseView),
    Response(ResponseView),
    Schema(SchemaView),
}

impl View for Body {
    type V = BodyView;

    open spec fn view(&self) -> BodyView {
        match *self {
            Body::Empty => BodyView::Empty,
            Body::Json(v) => BodyView::Json(v@),
            Body::Handshake(r) => BodyView::Handshake(r@),
            Body::Response(r) => BodyView::Response(r@),
            Body::Schema(s) => BodyView::Schema(s@),
        }
    }
}

/// What to do on a connection.
#[derive(Debug)]
pub enum Action {
    /// Read a message, however long it takes.
    ReadFirst,
    /// Read a message within this time.
    Read { timeout: Duration },
    DecodeHandshake(Vec<u8>),
    /// Ask the rate limiter about the client.
    CheckRate { client_id: String },
    /// Hand the handshake to the service.
    Greet(HandshakeRequest),
    DecodeRequest(Vec<u8>),
    /// Hand the request to the service.
    Handle(ServiceRequest),
    /// Tell the webhooks that a request came in.
    NotifyReceived { request_id: String, service_name: String, method: String },
    /// Tell the webhooks that a response went out.
    NotifySent { request_id: String, service_name: String, status: String, duration_ms: u64 },
    /// Count a request as started.
    CountStart,
    /// Count a request as ended.
    CountEnd { latency: Duration, success: bool, is_timeout: bool },
    Send { msg_type: u8, body: Body },
    /// Close the connection, and report how it ended.
    Finish(Result<(), ProtocolError>),
}

/// The mathematical model of an [`Action`].
pub enum ActionView {
    ReadFirst,
    Read { timeout: nat },
    DecodeHandshake(Seq<u8>),
    CheckRate { client_id: Seq<char> },
    Greet(HandshakeRequestView),
    DecodeRequest(Seq<u8>),
    Handle(RequestView),
    NotifyReceived { request_id: Seq<char>, service_name: Seq<char>, method: Seq<char> },
    NotifySent {
        request_id: Seq<char>,
        service_name: Seq<char>,
        status: Seq<char>,
        duration_ms: u64,
    },
    CountStart,
    CountEnd { latency: nat, success: bool, is_timeout: bool },
    Send { msg_type: u8, body: BodyView },
    Finish(Result<(), ErrorView>),
}

impl View for Action {
    type V = ActionView;

    open spec fn view(&self) -> ActionView {
        match *self {
            Action::ReadFirst => ActionView::ReadFirst,
            Action::Read { timeout } => ActionView::Read { timeout: timeout@ },
            Action::DecodeHandshake(payload) => ActionView::DecodeHandshake(payload@),
            Action::CheckRate { client_id } => ActionView::CheckRate { client_id: client_id@ },
            Action::Greet(request) => ActionView::Greet(request@),
            Action::DecodeRequest(payload) => ActionView::DecodeRequest(payload@),
            Action::Handle(request) => ActionView::Handle(request@),
            Action::NotifyReceived { request_id, service_name, method } => {
                ActionView::NotifyReceived {
                    request_id: request_id@,
                    service_name: service_name@,
                    method: method@,
                }
            },
            Action::NotifySent { request_id, service_name, status, duration_ms } => {
                ActionView::NotifySent {
                    request_id: request_id@,
                    service_name: service_name@,
                    status: status@,
                    duration_ms,
                }
            },
            Action::CountStart => ActionView::CountStart,
            Action::CountEnd { latency, success, is_timeout } => ActionView::CountEnd {
                latency: latency@,
                success,
                is_timeout,
            },
            Action::Send { msg_type, body } => ActionView::Send { msg_type, body: body@ },
            Action::Finish(r) => ActionView::Finish(
                match r {
                    Ok(()) => Ok(()),
                    Err(e) => Err(e@),
                },
            ),
        }
    }
}

/// What a connection goes by.
pub struct SettingsView {
    pub service_name: Seq<char>,
    /// In nanoseconds.
    pub request_timeout: nat,
    pub max_request_size: usize,
    pub enable_streaming: bool,
    pub enable_schema_introspection: bool,
    pub has_webhook: bool,
    pub has_metrics: bool,
}

/// A connection of a server, from the handshake on.
#[derive(Debug)]
pub struct Connection {
    service_name: String,
    request_timeout: Duration,
    max_request_size: usize,
    enable_streaming: bool,
    enable_schema_introspection: bool,
    has_webhook: bool,
    has_metrics: bool,
    handshake: Option<HandshakeRequest>,
    client_id: String,
    phase: Phase,
}

/// The mathematical model of a [`Connection`].
pub struct ConnectionView {
    pub settings: SettingsView,
    /// The handshake until it was handed to the service.
    pub handshake: Option<HandshakeRequestView>,
    /// Who the client is, once the handshake was decoded.
    pub client_id: Seq<char>,
    pub phase: Phase,
}

impl View for Connection {
    type V = ConnectionView;

    closed spec fn view(&self) -> ConnectionView {
        ConnectionView {
            settings: SettingsView {
                service_name: self.service_name@,
                request_timeout: self.request_timeout@,
                max_request_size: self.max_request_size,
                enable_streaming: self.enable_streaming,
                enable_schema_introspection: self.enable_schema_introspection,
                has_webhook: self.has_webhook,
                has_metrics: self.has_metrics,
            },
            handshake: match self.handshake {
                Some(q) => Some(q@),
                None => None,
            },
            client_id: self.client_id@,
            phase: self.phase,
        }
    }
}

/// `{"error": message}`
pub open spec fn error_json(message: Seq<char>) -> Json {
    json::object1("error"@, Json::String(message))
}

/// The message that tells the client of an error.
pub open spec fn error_reply(message: Seq<char>) -> ActionView {
    ActionView::Send { msg_type: MSG_ERROR, body: BodyView::Json(error_json(message)) }
}

/// `size > limit`
pub open spec fn excess(size: nat, limit: usize) -> Seq<char> {
    text::decimal(size) + " > "@ + text::decimal(limit as nat)
}

/// The mode that a request asks for: whole results unless it names another.
pub open spec fn requested_mode(payload: Json) -> StreamMode {
    match payload.field("stream_mode"@) {
        Some(named) => match named.text() {
            Some(name) => match streaming::mode_named(name) {
                Some(mode) => mode,
                None => StreamMode::Result,
            },
            None => StreamMode::Result,
        },
        None => StreamMode::Result,
    }
}

/// The message that opens a stream.
pub open spec fn stream_start_json(request: RequestView) -> Json {
    json::object3(
        "request_id"@,
        Json::String(request.request_id),
        "mode"@,
        Json::String(requested_mode(request.payload).label()),
        "status"@,
        Json::String("streaming"@),
    )
}

/// The message that ends a stream in this mode.
pub open spec fn stream_end_json(response: ResponseView, mode: StreamMode) -> Json {
    json::object4(
        "request_id"@,
        Json::String(response.request_id),
        "mode"@,
        Json::String(mode.label()),
        "status"@,
        Json::String(response.status),
        "payload"@,
        response.payload,
    )
}

/// The one action, if it is called for.
pub open spec fn only_if(wanted: bool, action: ActionView) -> Seq<ActionView> {
    if wanted {
        seq![action]
    } else {
        Seq::empty()
    }
}

impl ConnectionView {
    /// A connection that was just accepted.
    pub open spec fn opened(settings: SettingsView) -> ConnectionView {
        ConnectionView { settings, handshake: None, client_id: ""@, phase: Phase::Opening }
    }

    pub open spec fn at(self, phase: Phase) -> ConnectionView {
        ConnectionView { phase, ..self }
    }

    /// The action that waits for the next message.
    pub open spec fn read(self) -> ActionView {
        ActionView::Read { timeout: self.settings.request_timeout }
    }

    /// Closes the connection with a result.
    pub open spec fn finished(self, result: Result<(), ErrorView>) -> (
        ConnectionView,
        Seq<ActionView>,
    ) {
        (self.at(Phase::Closed), seq![ActionView::Finish(result)])
    }

    pub open spec fn notify_received(self, method: Seq<char>) -> Seq<ActionView> {
        only_if(
            self.settings.has_webhook,
            ActionView::NotifyReceived {
                request_id: self.client_id,
                service_name: self.settings.service_name,
                method,
            },
        )
    }

    pub open spec fn count_end(self, started: Instant, now: Instant, success: bool) -> Seq<
        ActionView,
    > {
        only_if(
            self.settings.has_metrics,
            ActionView::CountEnd {
                latency: time::elapsed_nanos(now, started),
                success,
                is_timeout: false,
            },
        )
    }

    /// The first message has to be a handshake of an acceptable size.
    pub open spec fn on_first_message(self, msg_type: u8, payload: Seq<u8>) -> (
        ConnectionView,
        Seq<ActionView>,
    ) {
        if msg_type != MSG_HANDSHAKE {
            self.finished(Err(ErrorView::Protocol("expected handshake"@)))
        } else if payload.len() > self.settings.max_request_size {
            self.finished(
                Err(
                    ErrorView::InvalidMessage(
                        "handshake payload too large: "@ + excess(
                            payload.len(),
                            self.settings.max_request_size,
                        ),
                    ),
                ),
            )
        } else {
            (self.at(Phase::DecodingHandshake), seq![ActionView::DecodeHandshake(payload)])
        }
    }

    pub open spec fn on_handshake(self, decoded: Result<HandshakeRequestView, Seq<char>>) -> (
        ConnectionView,
        Seq<ActionView>,
    ) {
        match decoded {
            Ok(request) => {
                let known = ConnectionView {
                    client_id: request.client_id,
                    handshake: Some(request),
                    phase: Phase::CheckingRate,
                    ..self
                };
                (
                    known,
                    known.notify_received("handshake"@) + seq![
                        ActionView::CheckRate { client_id: request.client_id },
                    ],
                )
            },
            Err(e) => self.finished(Err(ErrorView::Encoding(e))),
        }
    }

    /// A client over its rate is told so and turned away. If it cannot be told,
    /// the connection ends with the reason for that.
    pub open spec fn on_rate(self, allowed: bool) -> (ConnectionView, Seq<ActionView>) {
        match self.handshake {
            Some(request) if allowed => (
                ConnectionView { handshake: None, phase: Phase::Greeting, ..self },
                seq![ActionView::Greet(request)],
            ),
            _ => (
                self.at(Phase::Refusing),
                seq![
                    error_reply("rate limit exceeded"@),
                    ActionView::Finish(
                        Err(ErrorView::ResourceExhausted("rate limit exceeded"@)),
                    ),
                ],
            ),
        }
    }

    pub open spec fn on_greeted(self, response: HandshakeResponseView) -> (
        ConnectionView,
        Seq<ActionView>,
    ) {
        (
            self.at(Phase::Idle),
            seq![
                ActionView::Send {
                    msg_type: MSG_HANDSHAKE_ACK,
                    body: BodyView::Handshake(response),
                },
                self.read(),
            ],
        )
    }

    /// A message that is too large is answered with an error, whatever its
    /// type.
    pub open spec fn on_message(self, msg_type: u8, payload: Seq<u8>, now: Instant) -> (
        ConnectionView,
        Seq<ActionView>,
    ) {
        if payload.len() > self.settings.max_request_size {
            (
                self,
                seq![
                    error_reply(
                        "payload too large: "@ + excess(
                            payload.len(),
                            self.settings.max_request_size,
                        ),
                    ),
                    self.read(),
                ],
            )
        } else if msg_type == MSG_REQUEST {
            (
                self.at(Phase::DecodingRequest { started: now }),
                only_if(self.settings.has_metrics, ActionView::CountStart) + self.notify_received(
                    text::decimal(MSG_REQUEST as nat),
                ) + seq![ActionView::DecodeRequest(payload)],
            )
        } else if msg_type == MSG_STREAM_REQUEST && self.settings.enable_streaming {
            (self.at(Phase::DecodingStream), seq![ActionView::DecodeRequest(payload)])
        } else if msg_type == MSG_PING {
            (
                self,
                seq![ActionView::Send { msg_type: MSG_PONG, body: BodyView::Empty }, self.read()],
            )
        } else if msg_type == MSG_SCHEMA_REQUEST && self.settings.enable_schema_introspection {
            (
                self,
                seq![
                    ActionView::Send {
                        msg_type: MSG_SCHEMA_RESPONSE,
                        body: BodyView::Schema(
                            schema::plain_schema(self.settings.service_name, "1.0"@),
                        ),
                    },
                    self.read(),
                ],
            )
        } else if msg_type == MSG_CLOSE {
            self.finished(Ok(()))
        } else {
            (self, seq![self.read()])
        }
    }

    /// A request that cannot be decoded, or is not valid, is answered with an
    /// error; any other goes to the service.
    pub open spec fn on_request(
        self,
        started: Instant,
        decoded: Result<RequestView, Seq<char>>,
        now: Instant,
    ) -> (ConnectionView, Seq<ActionView>) {
        match decoded {
            Ok(request) => if valid_request(request) {
                (self.at(Phase::Handling { started }), seq![ActionView::Handle(request)])
            } else {
                (
                    self.at(Phase::Idle),
                    self.count_end(started, now, false) + seq![
                        error_reply("invalid request format"@),
                        self.read(),
                    ],
                )
            },
            Err(e) => (
                self.at(Phase::Idle),
                self.count_end(started, now, false) + seq![
                    error_reply("invalid request: "@ + e),
                    self.read(),
                ],
            ),
        }
    }

    /// The response of the service goes to the client, and is then counted and
    /// reported.
    pub open spec fn on_handled(self, started: Instant, response: ResponseView, now: Instant) -> (
        ConnectionView,
        Seq<ActionView>,
    ) {
        (
            self.at(Phase::Idle),
            seq![
                ActionView::Send { msg_type: MSG_RESPONSE, body: BodyView::Response(response) },
            ] + self.count_end(started, now, response.status == "success"@) + only_if(
                self.settings.has_webhook,
                ActionView::NotifySent {
                    request_id: response.request_id,
                    service_name: self.settings.service_name,
                    status: response.status,
                    duration_ms: (time::elapsed_nanos(now, started) / 1_000_000) as u64,
                },
            ) + seq![self.read()],
        )
    }

    pub open spec fn on_stream_request(self, decoded: Result<RequestView, Seq<char>>) -> (
        ConnectionView,
        Seq<ActionView>,
    ) {
        match decoded {
            Ok(request) => (
                self.at(Phase::HandlingStream { mode: requested_mode(request.payload) }),
                seq![
                    ActionView::Send {
                        msg_type: MSG_STREAM_START,
                        body: BodyView::Json(stream_start_json(request)),
                    },
                    ActionView::Handle(request),
                ],
            ),
            Err(e) => self.finished(Err(ErrorView::Encoding(e))),
        }
    }

    pub open spec fn on_stream_handled(self, mode: StreamMode, response: ResponseView) -> (
        ConnectionView,
        Seq<ActionView>,
    ) {
        (
            self.at(Phase::Idle),
            seq![
                ActionView::Send {
                    msg_type: MSG_STREAM_END,
                    body: BodyView::Json(stream_end_json(response, mode)),
                },
                self.read(),
            ],
        )
    }

    /// The connection after an event at the time `now`, and what to do. An event
    /// that the connection is not waiting for changes nothing.
    pub open spec fn step(self, event: EventView, now: Instant) -> (
        ConnectionView,
        Seq<ActionView>,
    ) {
        match (self.phase, event) {
            (Phase::Closed, _) => (self, Seq::empty()),
            (_, EventView::SendFailed(e)) => self.finished(Err(e)),
            (Phase::Opening, EventView::Message { msg_type, payload }) => self.on_first_message(
                msg_type,
                payload,
            ),
            (Phase::Opening, EventView::ReadFailed(e)) => self.finished(Err(e)),
            (Phase::DecodingHandshake, EventView::HandshakeDecoded(decoded)) => self.on_handshake(
                decoded,
            ),
            (Phase::CheckingRate, EventView::RateChecked(allowed)) => self.on_rate(allowed),
            (Phase::Greeting, EventView::Greeted(response)) => self.on_greeted(response),
            (Phase::Idle, EventView::Message { msg_type, payload }) => self.on_message(
                msg_type,
                payload,
                now,
            ),
            (Phase::Idle, EventView::ReadFailed(_)) => self.finished(Ok(())),
            (Phase::Idle, EventView::TimedOut) => self.finished(Ok(())),
            (Phase::DecodingRequest { started }, EventView::RequestDecoded(decoded)) => {
                self.on_request(started, decoded, now)
            },
            (Phase::Handling { started }, EventView::Handled(response)) => self.on_handled(
                started,
                response,
                now,
            ),
            (Phase::DecodingStream, EventView::RequestDecoded(decoded)) => self.on_stream_request(
                decoded,
            ),
            (Phase::HandlingStream { mode }, EventView::Handled(response)) => {
                self.on_stream_handled(mode, response)
            },
            _ => (self, Seq::empty()),
        }
    }
}

/// The mode that a request asks for: whole results unless it names another.
fn mode_of(payload: &Value) -> (r: StreamMode)
    ensures
        r == requested_mode(payload@),
{
    match payload.get("stream_mode") {
        Some(named) => match named.as_str() {
            Some(name) => match StreamMode::from_str(name) {
                Some(mode) => mode,
                None => StreamMode::Result,
            },
            None => StreamMode::Result,
        },
        None => StreamMode::Result,
    }
}

/// The message that tells the client of an error.
fn error_message(message: &str) -> (r: Action)
    ensures
        r@ == error_reply(message@),
{
    Action::Send {
        msg_type: MSG_ERROR,
        body: Body::Json(Value::object1("error", Value::text(message))),
    }
}

/// `head` followed by `size > limit`.
fn excess_text(head: &str, size: usize, limit: usize) -> (r: String)
    ensures
        r@ == head@ + excess(size as nat, limit),
{
    let tail = text::join_number("", size as u64, " > ");
    let tail = text::join(tail.as_str(), text::decimal_text(limit as u64).as_str());
    let r = text::join(head, tail.as_str());
    proof {
        reveal_strlit("");
        assert(tail@ =~= excess(size as nat, limit));
    }
    r
}

impl Connection {
    /// What to do first.
    pub fn start(&self) -> (r: Action)
        ensures
            r@ == ActionView::ReadFirst,
    {
        Action::ReadFirst
    }

    /// Where the connection stands.
    pub fn phase(&self) -> (r: Phase)
        ensures
            r == self@.phase,
    {
        self.phase
    }

    fn read(&self) -> (r: Action)
        ensures
            r@ == self@.read(),
    {
        Action::Read { timeout: self.request_timeout }
    }

    fn finish(&mut self, result: Result<(), ProtocolError>) -> (r: Vec<Action>)
        ensures
            (final(self)@, actions::views(r@)) == old(self)@.finished(
                match result {
                    Ok(()) => Ok(()),
                    Err(e) => Err(e@),
                },
            ),
    {
        self.phase = Phase::Closed;
        just(Action::Finish(result))
    }

    /// Appends what tells the webhooks that a request came in.
    fn notify_received(&self, method: &str, actions: &mut Vec<Action>)
        ensures
            actions::views(final(actions)@) == actions::views(old(actions)@)
                + self@.notify_received(method@),
    {
        if self.has_webhook {
            then_do(
                actions,
                Action::NotifyReceived {
                    request_id: self.client_id.clone(),
                    service_name: self.service_name.clone(),
                    method: method.to_string(),
                },
            );
        }
        assert(actions::views(actions@) =~= actions::views(old(actions)@) + self@.notify_received(
            method@,
        ));
    }

    /// Appends what counts a request as ended.
    fn count_end(&self, started: Instant, now: Instant, success: bool, actions: &mut Vec<Action>)
        ensures
            actions::views(final(actions)@) == actions::views(old(actions)@) + self@.count_end(
                started,
                now,
                success,
            ),
    {
        if self.has_metrics {
            then_do(
                actions,
                Action::CountEnd {
                    latency: now.duration_since(started),
                    success,
                    is_timeout: false,
                },
            );
        }
        assert(actions::views(actions@) =~= actions::views(old(actions)@) + self@.count_end(
            started,
            now,
            success,
        ));
    }

    fn on_first_message(&mut self, msg_type: u8, payload: Vec<u8>) -> (r: Vec<Action>)
        ensures
            (final(self)@, actions::views(r@)) == old(self)@.on_first_message(msg_type, payload@),
    {
        if msg_type != MSG_HANDSHAKE {
            return self.finish(Err(ProtocolError::Protocol("expected handshake".to_string())));
        }
        if payload.len() > self.max_request_size {
            let message = excess_text(
                "handshake payload too large: ",
                payload.len(),
                self.max_request_size,
            );
            return self.finish(Err(ProtocolError::InvalidMessage(message)));
        }
        self.phase = Phase::DecodingHandshake;
        just(Action::DecodeHandshake(payload))
    }

    fn on_handshake(&mut self, decoded: Result<HandshakeRequest, String>) -> (r: Vec<Action>)
        ensures
            (final(self)@, actions::views(r@)) == old(self)@.on_handshake(
                match decoded {
                    Ok(q) => Ok(q@),
                    Err(e) => Err(e@),
                },
            ),
    {
        match decoded {
            Ok(request) => {
                let client_id = request.client_id.clone();
                self.client_id = client_id.clone();
                self.handshake = Some(request);
                self.phase = Phase::CheckingRate;
                let mut actions = nothing();
                self.notify_received("handshake", &mut actions);
                then_do(&mut actions, Action::CheckRate { client_id });
                assert(actions::views(actions@) =~= self@.notify_received("handshake"@) + seq![
                    ActionView::CheckRate { client_id: request@.client_id },
                ]);
                actions
            },
            Err(e) => self.finish(Err(ProtocolError::Encoding(e))),
        }
    }

    fn on_rate(&mut self, allowed: bool) -> (r: Vec<Action>)
        ensures
            (final(self)@, actions::views(r@)) == old(self)@.on_rate(allowed),
    {
        if allowed {
            if let Some(request) = self.handshake.take() {
                self.phase = Phase::Greeting;
                return just(Action::Greet(request));
            }
        }
        self.phase = Phase::Refusing;
        both(
            error_message("rate limit exceeded"),
            Action::Finish(
                Err(ProtocolError::ResourceExhausted("rate limit exceeded".to_string())),
            ),
        )
    }

    fn on_message(&mut self, msg_type: u8, payload: Vec<u8>, now: Instant) -> (r: Vec<Action>)
        ensures
            (final(self)@, actions::views(r@)) == old(self)@.on_message(msg_type, payload@, now),
    {
        if payload.len() > self.max_request_size {
            let message = excess_text("payload too large: ", payload.len(), self.max_request_size);
            return both(error_message(message.as_str()), self.read());
        }
        if msg_type == MSG_REQUEST {
            self.phase = Phase::DecodingRequest { started: now };
            let mut actions = nothing();
            if self.has_metrics {
                then_do(&mut actions, Action::CountStart);
            }
            assert(actions::views(actions@) =~= only_if(self.has_metrics, ActionView::CountStart));
            let method = text::decimal_text(msg_type as u64);
            self.notify_received(method.as_str(), &mut actions);
            then_do(&mut actions, Action::DecodeRequest(payload));
            assert(actions::views(actions@) =~= only_if(self.has_metrics, ActionView::CountStart)
                + self@.notify_received(method@) + seq![ActionView::DecodeRequest(payload@)]);
            actions
        } else if msg_type == MSG_STREAM_REQUEST && self.enable_streaming {
            self.phase = Phase::DecodingStream;
            just(Action::DecodeRequest(payload))
        } else if msg_type == MSG_PING {
            both(Action::Send { msg_type: MSG_PONG, body: Body::Empty }, self.read())
        } else if msg_type == MSG_SCHEMA_REQUEST && self.enable_schema_introspection {
            let described = ServiceSchema::new(self.service_name.as_str(), "1.0");
            both(
                Action::Send { msg_type: MSG_SCHEMA_RESPONSE, body: Body::Schema(described) },
                self.read(),
            )
        } else if msg_type == MSG_CLOSE {
            self.finish(Ok(()))
        } else {
            just(self.read())
        }
    }

    /// Counts a request as failed and answers it with an error.
    fn reject(&mut self, started: Instant, message: &str, now: Instant) -> (r: Vec<Action>)
        ensures
            final(self)@ == old(self)@.at(Phase::Idle),
            actions::views(r@) == old(self)@.count_end(started, now, false) + seq![
                error_reply(message@),
                old(self)@.read(),
            ],
    {
        self.phase = Phase::Idle;
        let mut actions = nothing();
        self.count_end(started, now, false, &mut actions);
        then_do(&mut actions, error_message(message));
        then_do(&mut actions, self.read());
        assert(actions::views(actions@) =~= old(self)@.count_end(started, now, false) + seq![
            error_reply(message@),
            old(self)@.read(),
        ]);
        actions
    }

    fn on_request(
        &mut self,
        started: Instant,
        decoded: Result<ServiceRequest, String>,
        now: Instant,
    ) -> (r: Vec<Action>)
        ensures
            (final(self)@, actions::views(r@)) == old(self)@.on_request(
                started,
                match decoded {
                    Ok(q) => Ok(q@),
                    Err(e) => Err(e@),
                },
                now,
            ),
    {
        match decoded {
            Ok(request) => {
                if UdsServer::validate_request(&request) {
                    self.phase = Phase::Handling { started };
                    just(Action::Handle(request))
                } else {
                    self.reject(started, "invalid request format", now)
                }
            },
            Err(e) => {
                let message = text::join("invalid request: ", e.as_str());
                self.reject(started, message.as_str(), now)
            },
        }
    }

    fn on_handled(&mut self, started: Instant, response: ServiceResponse, now: Instant) -> (r: Vec<
        Action,
    >)
        ensures
            (final(self)@, actions::views(r@)) == old(self)@.on_handled(started, response@, now),
    {
        self.phase = Phase::Idle;
        let success = text::str_eq(response.status.as_str(), "success");
        let duration_ms = now.duration_since(started).millis_wrapped();
        let request_id = response.request_id.clone();
        let status = response.status.clone();
        let mut actions = just(
            Action::Send { msg_type: MSG_RESPONSE, body: Body::Response(response) },
        );
        self.count_end(started, now, success, &mut actions);
        let ghost counted = actions::views(actions@);
        if self.has_webhook {
            then_do(
                &mut actions,
                Action::NotifySent {
                    request_id,
                    service_name: self.service_name.clone(),
                    status,
                    duration_ms,
                },
            );
        }
        then_do(&mut actions, self.read());
        assert(actions::views(actions@) =~= old(self)@.on_handled(started, response@, now).1);
        actions
    }

    fn on_stream_request(&mut self, decoded: Result<ServiceRequest, String>) -> (r: Vec<Action>)
        ensures
            (final(self)@, actions::views(r@)) == old(self)@.on_stream_request(
                match decoded {
                    Ok(q) => Ok(q@),
                    Err(e) => Err(e@),
                },
            ),
    {
        match decoded {
            Ok(request) => {
                let mode = mode_of(&request.payload);
                self.phase = Phase::HandlingStream { mode };
                let opening = Value::object3(
                    "request_id",
                    Value::text(request.request_id.as_str()),
                    "mode",
                    Value::text(mode.as_str()),
                    "status",
                    Value::text("streaming"),
                );
                both(
                    Action::Send { msg_type: MSG_STREAM_START, body: Body::Json(opening) },
                    Action::Handle(request),
                )
            },
            Err(e) => self.finish(Err(ProtocolError::Encoding(e))),
        }
    }

    fn on_stream_handled(&mut self, mode: StreamMode, response: ServiceResponse) -> (r: Vec<Action>)
        ensures
            (final(self)@, actions::views(r@)) == old(self)@.on_stream_handled(mode, response@),
    {
        self.phase = Phase::Idle;
        let closing = Value::object4(
            "request_id",
            Value::String(response.request_id),
            "mode",
            Value::text(mode.as_str()),
            "status",
            Value::String(response.status),
            "payload",
            response.payload,
        );
        both(
            Action::Send { msg_type: MSG_STREAM_END, body: Body::Json(closing) },
            self.read(),
        )
    }

    /// Takes note of an event at the time `now`, and says what to do: the
    /// actions are performed in order, up to the first message that cannot be
    /// sent.
    pub fn step(&mut self, event: Event, now: Instant) -> (r: Vec<Action>)
        ensures
            final(self)@ == old(self)@.step(event@, now).0,
            actions::views(r@) == old(self)@.step(event@, now).1,
    {
        match (self.phase, event) {
            (Phase::Closed, _) => nothing(),
            (_, Event::SendFailed(e)) => self.finish(Err(e)),
            (Phase::Opening, Event::Message { msg_type, payload }) => self.on_first_message(
                msg_type,
                payload,
            ),
            (Phase::Opening, Event::ReadFailed(e)) => self.finish(Err(e)),
            (Phase::DecodingHandshake, Event::HandshakeDecoded(decoded)) => self.on_handshake(
                decoded,
            ),
            (Phase::CheckingRate, Event::RateChecked(allowed)) => self.on_rate(allowed),
            (Phase::Greeting, Event::Greeted(response)) => {
                self.phase = Phase::Idle;
                both(
                    Action::Send { msg_type: MSG_HANDSHAKE_ACK, body: Body::Handshake(response) },
                    self.read(),
                )
            },
            (Phase::Idle, Event::Message { msg_type, payload }) => self.on_message(
                msg_type,
                payload,
                now,
            ),
            (Phase::Idle, Event::ReadFailed(_)) => self.finish(Ok(())),
            (Phase::Idle, Event::TimedOut) => self.finish(Ok(())),
            (Phase::DecodingRequest { started }, Event::RequestDecoded(decoded)) => {
                self.on_request(started, decoded, now)
            },
            (Phase::Handling { started }, Event::Handled(response)) => self.on_handled(
                started,
                response,
                now,
            ),
            (Phase::DecodingStream, Event::RequestDecoded(decoded)) => self.on_stream_request(
                decoded,
            ),
            (Phase::HandlingStream { mode }, Event::Handled(response)) => self.on_stream_handled(
                mode,
                response,
            ),
            _ => nothing(),
        }
    }
}

/// The connection after a series of events, and all that was to be done.
pub open spec fn run(c: ConnectionView, events: Seq<(EventView, Instant)>) -> (
    ConnectionView,
    Seq<ActionView>,
)
    decreases events.len(),
{
    if events.len() == 0 {
        (c, Seq::empty())
    } else {
        let (before, done) = run(c, events.drop_last());
        let (after, more) = before.step(events.last().0, events.last().1);
        (after, done + more)
    }
}

/// The action whose outcome a connection waits for in a phase.
pub open spec fn awaits(phase: Phase, action: ActionView) -> bool {
    match phase {
        Phase::Opening => action is ReadFirst,
        Phase::DecodingHandshake => action is DecodeHandshake,
        Phase::CheckingRate => action is CheckRate,
        Phase::Greeting => action is Greet,
        Phase::Idle => action is Read,
        Phase::DecodingRequest { .. } => action is DecodeRequest,
        Phase::Handling { .. } => action is Handle,
        Phase::DecodingStream => action is DecodeRequest,
        Phase::HandlingStream { .. } => action is Handle,
        Phase::Refusing => action is Finish,
        Phase::Closed => action is Finish,
    }
}

/// Whether this may come of what a connection waits for in a phase, or of what
/// it has to send on the way there.
pub open spec fn may_happen(phase: Phase, event: EventView) -> bool {
    ||| phase != Phase::Closed && event is SendFailed
    ||| match phase {
        Phase::Opening => event is Message || event is ReadFailed,
        Phase::DecodingHandshake => event is HandshakeDecoded,
        Phase::CheckingRate => event is RateChecked,
        Phase::Greeting => event is Greeted,
        Phase::Idle => event is Message || event is ReadFailed || event is TimedOut,
        Phase::DecodingRequest { .. } => event is RequestDecoded,
        Phase::Handling { .. } => event is Handled,
        Phase::DecodingStream => event is RequestDecoded,
        Phase::HandlingStream { .. } => event is Handled,
        Phase::Refusing => false,
        Phase::Closed => false,
    }
}

/// A connection never stalls. Whatever comes of what it waits for, or of what it
/// sends on the way, it has something to do, which ends with the one action whose
/// outcome it then waits for, or with its end. What cannot be sent ends it with
/// that error, and a connection that is closed has nothing left to send.
pub proof fn law_never_stalls(c: ConnectionView, event: EventView, now: Instant)
    ensures
        ({
            let (after, actions) = c.step(event, now);
            &&& actions.len() == 0 ==> after == c
            &&& actions.len() > 0 ==> awaits(after.phase, actions.last())
            &&& may_happen(c.phase, event) ==> actions.len() > 0
            &&& event matches EventView::SendFailed(e) ==> c.phase != Phase::Closed ==> actions
                == seq![ActionView::Finish(Err(e))]
            &&& after.phase == Phase::Closed ==> forall|i: int|
                0 <= i < actions.len() ==> !((#[trigger] actions[i]) is Send)
            &&& after.settings == c.settings
        }),
{
}

/// A closed connection stays closed, and nothing is done on it.
pub proof fn law_closed_is_final(c: ConnectionView, events: Seq<(EventView, Instant)>)
    requires
        c.phase == Phase::Closed,
    ensures
        run(c, events) == (c, Seq::<ActionView>::empty()),
    decreases events.len(),
{
    if events.len() > 0 {
        law_closed_is_final(c, events.drop_last());
        assert(run(c, events).1 =~= Seq::<ActionView>::empty());
    }
}

/// A client that does not open with a handshake gets no answer.
pub proof fn law_first_message_is_a_handshake(
    settings: SettingsView,
    msg_type: u8,
    payload: Seq<u8>,
    now: Instant,
)
    requires
        msg_type != MSG_HANDSHAKE,
    ensures
        ConnectionView::opened(settings).step(EventView::Message { msg_type, payload }, now).1
            == seq![ActionView::Finish(Err(ErrorView::Protocol("expected handshake"@)))],
{
}

/// A client over its rate is told so and turned away, and its handshake never
/// reaches the service. If it cannot be told, the connection ends with the reason
/// for that.
pub proof fn law_refused_client_is_told(c: ConnectionView, e: ErrorView, now: Instant)
    requires
        c.phase == Phase::CheckingRate,
    ensures
        c.step(EventView::RateChecked(false), now).0.step(EventView::SendFailed(e), now) == (
            c.at(Phase::Closed),
            seq![ActionView::Finish(Err(e))],
        ),
        c.step(EventView::RateChecked(false), now) == (
            c.at(Phase::Refusing),
            seq![
                error_reply("rate limit exceeded"@),
                ActionView::Finish(Err(ErrorView::ResourceExhausted("rate limit exceeded"@))),
            ],
        ),
{
}

/// Whether the action hands something to the service.
pub open spec fn reaches_service(action: ActionView) -> bool {
    action is Greet || action is Handle
}

/// Nothing reaches the service before the rate limiter has let the client in.
pub proof fn law_service_is_shielded(settings: SettingsView, events: Seq<(EventView, Instant)>)
    requires
        forall|i: int|
            0 <= i < events.len() ==> (#[trigger] events[i]).0 != EventView::RateChecked(true),
    ensures
        ({
            let (c, done) = run(ConnectionView::opened(settings), events);
            &&& c.phase == Phase::Opening || c.phase == Phase::DecodingHandshake || c.phase
                == Phase::CheckingRate || c.phase == Phase::Refusing || c.phase == Phase::Closed
            &&& forall|i: int| 0 <= i < done.len() ==> !reaches_service(#[trigger] done[i])
        }),
    decreases events.len(),
{
    if events.len() > 0 {
        assert forall|i: int| 0 <= i < events.drop_last().len() implies (
        #[trigger] events.drop_last()[i]).0 != EventView::RateChecked(true) by {
            assert(events[i].0 != EventView::RateChecked(true));
        }
        law_service_is_shielded(settings, events.drop_last());
        let (before, done) = run(ConnectionView::opened(settings), events.drop_last());
        let last = events[events.len() - 1];
        assert(last.0 != EventView::RateChecked(true));
        let (after, more) = before.step(last.0, last.1);
        assert forall|i: int| 0 <= i < more.len() implies !reaches_service(#[trigger] more[i]) by {}
        let all = done + more;
        assert forall|i: int| 0 <= i < all.len() implies !reaches_service(#[trigger] all[i]) by {
            if i < done.len() {
                assert(all[i] == done[i]);
            } else {
                assert(all[i] == more[i - done.len()]);
            }
        }
    }
}

/// How many of the actions count a request as started, less those that count
/// one as ended.
pub open spec fn open_counts(actions: Seq<ActionView>) -> int
    decreases actions.len(),
{
    if actions.len() == 0 {
        0
    } else {
        open_counts(actions.drop_last()) + if actions.last() is CountStart {
            1int
        } else if actions.last() is CountEnd {
            -1int
        } else {
            0int
        }
    }
}

proof fn lemma_open_counts_add(a: Seq<ActionView>, b: Seq<ActionView>)
    ensures
        open_counts(a + b) == open_counts(a) + open_counts(b),
    decreases b.len(),
{
    if b.len() == 0 {
        assert(a + b =~= a);
    } else {
        assert((a + b).drop_last() =~= a + b.drop_last());
        lemma_open_counts_add(a, b.drop_last());
    }
}

/// Whether a request is on its way that was counted as started.
pub open spec fn in_flight(c: ConnectionView) -> int {
    if c.settings.has_metrics && (c.phase is DecodingRequest || c.phase is Handling) {
        1
    } else {
        0
    }
}

proof fn lemma_step_counts(c: ConnectionView, event: EventView, now: Instant)
    requires
        !(event is SendFailed),
    ensures
        open_counts(c.step(event, now).1) == in_flight(c.step(event, now).0) - in_flight(c),
{
    reveal_with_fuel(open_counts, 6);
    let (after, actions) = c.step(event, now);
    let n = actions.len();
    if n >= 1 {
        assert(actions.drop_last().len() == n - 1);
    }
    if n >= 2 {
        assert(actions.drop_last().drop_last().len() == n - 2);
    }
    if n >= 3 {
        assert(actions.drop_last().drop_last().drop_last().len() == n - 3);
    }
    if n >= 4 {
        assert(actions.drop_last().drop_last().drop_last().drop_last().len() == n - 4);
    }
}

/// Every request that is counted as started is counted as ended just once, by
/// the time the connection waits for the next message, as long as messages can
/// be sent.
pub proof fn law_requests_are_counted_once(settings: SettingsView, events: Seq<(EventView, Instant)>)
    requires
        forall|i: int| 0 <= i < events.len() ==> !((#[trigger] events[i]).0 is SendFailed),
    ensures
        ({
            let (c, done) = run(ConnectionView::opened(settings), events);
            open_counts(done) == in_flight(c)
        }),
    decreases events.len(),
{
    if events.len() > 0 {
        assert forall|i: int| 0 <= i < events.drop_last().len() implies !((
        #[trigger] events.drop_last()[i]).0 is SendFailed) by {
            assert(!(events[i].0 is SendFailed));
        }
        law_requests_are_counted_once(settings, events.drop_last());
        let (before, done) = run(ConnectionView::opened(settings), events.drop_last());
        let last = events[events.len() - 1];
        assert(!(last.0 is SendFailed));
        lemma_step_counts(before, last.0, last.1);
        lemma_open_counts_add(done, before.step(last.0, last.1).1);
    }
}

/// A request whose service, method and identifier are there and take no more than
/// 256, 256 and 128 bytes goes to the service as it came, whatever else it holds.
/// The service's response goes to the client as it was given: one message, after
/// which the connection waits for the next. The request is counted and reported
/// where that is wanted, with the time that it took.
pub proof fn law_request_is_answered(
    c: ConnectionView,
    payload: Seq<u8>,
    request: RequestView,
    response: ResponseView,
    t1: Instant,
    t2: Instant,
    t3: Instant,
)
    requires
        c.phase == Phase::Idle,
        payload.len() <= c.settings.max_request_size,
        request.service_name.len() > 0 && encode_utf8(request.service_name).len() <= 256,
        request.method.len() > 0 && encode_utf8(request.method).len() <= 256,
        request.request_id.len() > 0 && encode_utf8(request.request_id).len() <= 128,
    ensures
        ({
            let (c1, a1) = c.step(EventView::Message { msg_type: MSG_REQUEST, payload }, t1);
            let (c2, a2) = c1.step(EventView::RequestDecoded(Ok(request)), t2);
            let (c3, a3) = c2.step(EventView::Handled(response), t3);
            let took = if t3.nanos >= t1.nanos {
                (t3.nanos - t1.nanos) as nat
            } else {
                0
            };
            let none = Seq::<ActionView>::empty();
            &&& a1 == (if c.settings.has_metrics {
                seq![ActionView::CountStart]
            } else {
                none
            }) + (if c.settings.has_webhook {
                seq![
                    ActionView::NotifyReceived {
                        request_id: c.client_id,
                        service_name: c.settings.service_name,
                        method: "16"@,
                    },
                ]
            } else {
                none
            }) + seq![ActionView::DecodeRequest(payload)]
            &&& a2 == seq![ActionView::Handle(request)]
            &&& a3 == seq![
                ActionView::Send { msg_type: MSG_RESPONSE, body: BodyView::Response(response) },
            ] + (if c.settings.has_metrics {
                seq![
                    ActionView::CountEnd {
                        latency: took,
                        success: response.status == "success"@,
                        is_timeout: false,
                    },
                ]
            } else {
                none
            }) + (if c.settings.has_webhook {
                seq![
                    ActionView::NotifySent {
                        request_id: response.request_id,
                        service_name: c.settings.service_name,
                        status: response.status,
                        duration_ms: (took / 1_000_000) as u64,
                    },
                ]
            } else {
                none
            }) + seq![ActionView::Read { timeout: c.settings.request_timeout }]
            &&& a3.first() == (ActionView::Send {
                msg_type: MSG_RESPONSE,
                body: BodyView::Response(response),
            })
            &&& forall|i: int| 0 <= i < a1.len() ==> !((#[trigger] a1[i]) is Send)
            &&& forall|i: int| 1 <= i < a3.len() ==> !((#[trigger] a3[i]) is Send)
            &&& c3 == c
        }),
{
    reveal_strlit("16");
    reveal_with_fuel(text::decimal, 3);
    assert(text::decimal(16) =~= "16"@);
}

/// A request is handed to the service just when its service, method and identifier
/// are there and take no more than 256, 256 and 128 bytes. Any other is answered
/// with an error and never reaches the service; the connection goes on.
pub proof fn law_only_well_formed_requests_reach_the_service(
    c: ConnectionView,
    started: Instant,
    request: RequestView,
    now: Instant,
)
    requires
        c.phase == (Phase::DecodingRequest { started }),
    ensures
        ({
            let (after, actions) = c.step(EventView::RequestDecoded(Ok(request)), now);
            let well_formed = {
                &&& request.service_name.len() > 0 && encode_utf8(request.service_name).len()
                    <= 256
                &&& request.method.len() > 0 && encode_utf8(request.method).len() <= 256
                &&& request.request_id.len() > 0 && encode_utf8(request.request_id).len() <= 128
            };
            let took = if now.nanos >= started.nanos {
                (now.nanos - started.nanos) as nat
            } else {
                0
            };
            let told = seq![
                ActionView::Send {
                    msg_type: MSG_ERROR,
                    body: BodyView::Json(
                        Json::Object(
                            seq![("error"@, Json::String("invalid request format"@))],
                        ),
                    ),
                },
                ActionView::Read { timeout: c.settings.request_timeout },
            ];
            if well_formed {
                &&& actions == seq![ActionView::Handle(request)]
                &&& after == (ConnectionView { phase: Phase::Handling { started }, ..c })
            } else {
                &&& actions == if c.settings.has_metrics {
                    seq![
                        ActionView::CountEnd { latency: took, success: false, is_timeout: false },
                    ] + told
                } else {
                    told
                }
                &&& after == (ConnectionView { phase: Phase::Idle, ..c })
            }
        }),
{
    let (after, actions) = c.step(EventView::RequestDecoded(Ok(request)), now);
    if !(actions.len() > 0 && actions[0] is Handle) && !c.settings.has_metrics {
        assert(actions =~= seq![
            ActionView::Send {
                msg_type: MSG_ERROR,
                body: BodyView::Json(
                    Json::Object(seq![("error"@, Json::String("invalid request format"@))]),
                ),
            },
            ActionView::Read { timeout: c.settings.request_timeout },
        ]);
    }
}

/// A request that cannot be decoded, or that lacks a service, a method or an
/// identifier or has one of more than 256, 256 or 128 bytes, is answered with an
/// error and never reaches the service; the connection goes on.
pub proof fn law_invalid_request_is_rejected(
    c: ConnectionView,
    started: Instant,
    decoded: Result<RequestView, Seq<char>>,
    now: Instant,
)
    requires
        c.phase == (Phase::DecodingRequest { started }),
        decoded matches Ok(request) ==> {
            ||| request.service_name.len() == 0 || encode_utf8(request.service_name).len() > 256
            ||| request.method.len() == 0 || encode_utf8(request.method).len() > 256
            ||| request.request_id.len() == 0 || encode_utf8(request.request_id).len() > 128
        },
    ensures
        ({
            let (after, actions) = c.step(EventView::RequestDecoded(decoded), now);
            &&& after == c.at(Phase::Idle)
            &&& actions.len() == if c.settings.has_metrics {
                3nat
            } else {
                2nat
            }
            &&& actions[actions.len() - 2] == (ActionView::Send {
                msg_type: MSG_ERROR,
                body: BodyView::Json(
                    Json::Object(
                        seq![
                            (
                                "error"@,
                                Json::String(
                                    match decoded {
                                        Ok(_) => "invalid request format"@,
                                        Err(e) => "invalid request: "@ + e,
                                    },
                                ),
                            ),
                        ],
                    ),
                ),
            })
            &&& actions.last() == (ActionView::Read { timeout: c.settings.request_timeout })
            &&& c.settings.has_metrics ==> actions[0] is CountEnd && !actions[0]->success
                && !actions[0]->is_timeout
            &&& actions.contains(
                error_reply(
                    match decoded {
                        Ok(_) => "invalid request format"@,
                        Err(e) => "invalid request: "@ + e,
                    },
                ),
            )
            &&& forall|i: int| 0 <= i < actions.len() ==> !reaches_service(#[trigger] actions[i])
        }),
{
    let (after, actions) = c.step(EventView::RequestDecoded(decoded), now);
    let at = actions.len() - 2;
    assert(actions[at] == error_reply(
        match decoded {
            Ok(_) => "invalid request format"@,
            Err(e) => "invalid request: "@ + e,
        },
    ));
}

/// A message that is too large is answered with an error, whatever its type, and
/// nothing else comes of it.
pub proof fn law_oversized_message_is_rejected(
    c: ConnectionView,
    msg_type: u8,
    payload: Seq<u8>,
    now: Instant,
)
    requires
        c.phase == Phase::Idle,
        payload.len() > c.settings.max_request_size,
    ensures
        c.step(EventView::Message { msg_type, payload }, now) == (
            c,
            seq![
                error_reply(
                    "payload too large: "@ + excess(payload.len(), c.settings.max_request_size),
                ),
                c.read(),
            ],
        ),
{
}

/// A ping is answered with a pong.
pub proof fn law_ping_is_answered(c: ConnectionView, payload: Seq<u8>, now: Instant)
    requires
        c.phase == Phase::Idle,
        payload.len() <= c.settings.max_request_size,
    ensures
        c.step(EventView::Message { msg_type: MSG_PING, payload }, now) == (
            c,
            seq![ActionView::Send { msg_type: MSG_PONG, body: BodyView::Empty }, c.read()],
        ),
{
}

/// How many connections are open after arrivals (`true`) and departures
/// (`false`) in this order.
pub open spec fn occupancy(moves: Seq<bool>, max_connections: usize) -> usize
    decreases moves.len(),
{
    if moves.len() == 0 {
        0
    } else {
        let before = occupancy(moves.drop_last(), max_connections);
        if moves.last() {
            entered(before, max_connections)
        } else if before > 0 {
            (before - 1) as usize
        } else {
            before
        }
    }
}

/// However connections come and go, there are never more than are allowed.
pub proof fn law_gate_bounds_connections(moves: Seq<bool>, max_connections: usize)
    ensures
        occupancy(moves, max_connections) <= max_connections,
    decreases moves.len(),
{
    if moves.len() > 0 {
        law_gate_bounds_connections(moves.drop_last(), max_connections);
    }
}

/// A connection begins with a handshake. It is decoded, reported where that is
/// wanted, and its client's rate is asked about. If the client is within its rate,
/// the very handshake goes to the service, and the service's answer goes to the
/// client as it was given; then the connection waits for messages.
pub proof fn law_handshake_is_answered(
    settings: SettingsView,
    payload: Seq<u8>,
    handshake: HandshakeRequestView,
    answer: HandshakeResponseView,
    now: Instant,
)
    requires
        payload.len() <= settings.max_request_size,
    ensures
        ({
            let c = ConnectionView::opened(settings);
            let (c1, a1) = c.step(EventView::Message { msg_type: MSG_HANDSHAKE, payload }, now);
            let (c2, a2) = c1.step(EventView::HandshakeDecoded(Ok(handshake)), now);
            let (c3, a3) = c2.step(EventView::RateChecked(true), now);
            let (c4, a4) = c3.step(EventView::Greeted(answer), now);
            let ask = seq![ActionView::CheckRate { client_id: handshake.client_id }];
            &&& c.phase == Phase::Opening
            &&& a1 == seq![ActionView::DecodeHandshake(payload)]
            &&& a2 == if settings.has_webhook {
                seq![
                    ActionView::NotifyReceived {
                        request_id: handshake.client_id,
                        service_name: settings.service_name,
                        method: "handshake"@,
                    },
                ] + ask
            } else {
                ask
            }
            &&& a3 == seq![ActionView::Greet(handshake)]
            &&& a4 == seq![
                ActionView::Send {
                    msg_type: MSG_HANDSHAKE_ACK,
                    body: BodyView::Handshake(answer),
                },
                ActionView::Read { timeout: settings.request_timeout },
            ]
            &&& c4 == (ConnectionView {
                settings,
                handshake: None,
                client_id: handshake.client_id,
                phase: Phase::Idle,
            })
        }),
{
    let c = ConnectionView::opened(settings);
    let a2 = c.step(EventView::Message { msg_type: MSG_HANDSHAKE, payload }, now).0.step(
        EventView::HandshakeDecoded(Ok(handshake)),
        now,
    ).1;
    if !settings.has_webhook {
        assert(a2 =~= seq![ActionView::CheckRate { client_id: handshake.client_id }]);
    }
}

/// A connection that does not get as far as the service ends with the reason: the
/// first message cannot be read, is no handshake, is too large or cannot be
/// decoded, or the client is over its rate, which it is told.
pub proof fn law_failed_opening_is_told(
    c: ConnectionView,
    e: ErrorView,
    why: Seq<char>,
    msg_type: u8,
    payload: Seq<u8>,
    now: Instant,
)
    ensures
        ({
            let closed = ConnectionView { phase: Phase::Closed, ..c };
            &&& c.phase == Phase::Opening ==> c.step(EventView::ReadFailed(e), now) == (
                closed,
                seq![ActionView::Finish(Err(e))],
            )
            &&& c.phase == Phase::Opening && msg_type != MSG_HANDSHAKE ==> c.step(
                EventView::Message { msg_type, payload },
                now,
            ) == (
                closed,
                seq![ActionView::Finish(Err(ErrorView::Protocol("expected handshake"@)))],
            )
            &&& c.phase == Phase::Opening && msg_type == MSG_HANDSHAKE && payload.len()
                > c.settings.max_request_size ==> c.step(
                EventView::Message { msg_type, payload },
                now,
            ) == (
                closed,
                seq![
                    ActionView::Finish(
                        Err(
                            ErrorView::InvalidMessage(
                                "handshake payload too large: "@ + (text::decimal(payload.len())
                                    + " > "@ + text::decimal(
                                    c.settings.max_request_size as nat,
                                )),
                            ),
                        ),
                    ),
                ],
            )
            &&& c.phase == Phase::DecodingHandshake ==> c.step(
                EventView::HandshakeDecoded(Err(why)),
                now,
            ) == (closed, seq![ActionView::Finish(Err(ErrorView::Encoding(why)))])
            &&& c.phase == Phase::CheckingRate ==> c.step(EventView::RateChecked(false), now).1
                == seq![
                ActionView::Send {
                    msg_type: MSG_ERROR,
                    body: BodyView::Json(
                        Json::Object(seq![("error"@, Json::String("rate limit exceeded"@))]),
                    ),
                },
                ActionView::Finish(Err(ErrorView::ResourceExhausted("rate limit exceeded"@))),
            ]
        }),
{
}

/// An idle connection answers a ping with a pong and a question for the schema with
/// that of its service, ends in peace when the client closes it, falls silent or
/// cannot be read, answers what is too large with an error, and passes over
/// anything else that is not a request, as over what is switched off.
pub proof fn law_idle_connection_answers(
    c: ConnectionView,
    msg_type: u8,
    payload: Seq<u8>,
    e: ErrorView,
    now: Instant,
)
    requires
        c.phase == Phase::Idle,
    ensures
        ({
            let next = ActionView::Read { timeout: c.settings.request_timeout };
            let closed = ConnectionView { phase: Phase::Closed, ..c };
            let at_peace = (closed, seq![ActionView::Finish(Ok(()))]);
            let got = c.step(EventView::Message { msg_type, payload }, now);
            &&& c.step(EventView::TimedOut, now) == at_peace
            &&& c.step(EventView::ReadFailed(e), now) == at_peace
            &&& if payload.len() > c.settings.max_request_size {
                got == (
                    c,
                    seq![
                        ActionView::Send {
                            msg_type: MSG_ERROR,
                            body: BodyView::Json(
                                Json::Object(
                                    seq![
                                        (
                                            "error"@,
                                            Json::String(
                                                "payload too large: "@ + (text::decimal(
                                                    payload.len(),
                                                ) + " > "@ + text::decimal(
                                                    c.settings.max_request_size as nat,
                                                )),
                                            ),
                                        ),
                                    ],
                                ),
                            ),
                        },
                        next,
                    ],
                )
            } else if msg_type == MSG_CLOSE {
                got == at_peace
            } else if msg_type == MSG_PING {
                got == (
                    c,
                    seq![ActionView::Send { msg_type: MSG_PONG, body: BodyView::Empty }, next],
                )
            } else if msg_type == MSG_SCHEMA_REQUEST && c.settings.enable_schema_introspection {
                &&& got.0 == c
                &&& got.1.len() == 2 && got.1[1] == next
                &&& got.1[0] is Send && got.1[0]->Send_msg_type == MSG_SCHEMA_RESPONSE
                &&& got.1[0]->body is Schema
                &&& got.1[0]->body->Schema_0.service_name == c.settings.service_name
                &&& got.1[0]->body->Schema_0.version == "1.0"@
            } else if msg_type == MSG_STREAM_REQUEST && c.settings.enable_streaming {
                got == (
                    ConnectionView { phase: Phase::DecodingStream, ..c },
                    seq![ActionView::DecodeRequest(payload)],
                )
            } else {
                msg_type != MSG_REQUEST ==> got == (c, seq![next])
            }
        }),
{
}

/// A streaming request is opened with the mode that it asks for and goes to the
/// service as it came. The stream ends with the service's response, in the same
/// mode, and the connection waits for the next message.
pub proof fn law_stream_request_is_answered(
    c: ConnectionView,
    request: RequestView,
    response: ResponseView,
    why: Seq<char>,
    now: Instant,
)
    requires
        c.phase == Phase::DecodingStream,
    ensures
        ({
            let (c1, a1) = c.step(EventView::RequestDecoded(Ok(request)), now);
            let (c2, a2) = c1.step(EventView::Handled(response), now);
            let start = a1[0]->body->Json_0;
            let end = a2[0]->body->Json_0;
            &&& a1.len() == 2 && a1[0] is Send && a1[0]->Send_msg_type == MSG_STREAM_START
            &&& a1[0]->body is Json
            &&& a1[1] == ActionView::Handle(request)
            &&& start.field("request_id"@) == Some(Json::String(request.request_id))
            &&& start.field("status"@) == Some(Json::String("streaming"@))
            &&& start.field("mode"@) is Some
            &&& a2.len() == 2 && a2[0] is Send && a2[0]->Send_msg_type == MSG_STREAM_END
            &&& a2[0]->body is Json
            &&& a2[1] == (ActionView::Read { timeout: c.settings.request_timeout })
            &&& end.field("request_id"@) == Some(Json::String(response.request_id))
            &&& end.field("mode"@) == start.field("mode"@)
            &&& end.field("status"@) == Some(Json::String(response.status))
            &&& end.field("payload"@) == Some(response.payload)
            &&& c2 == (ConnectionView { phase: Phase::Idle, ..c })
            &&& c.step(EventView::RequestDecoded(Err(why)), now) == (
                ConnectionView { phase: Phase::Closed, ..c },
                seq![ActionView::Finish(Err(ErrorView::Encoding(why)))],
            )
        }),
{
    let (c1, a1) = c.step(EventView::RequestDecoded(Ok(request)), now);
    let (c2, a2) = c1.step(EventView::Handled(response), now);
    let start = a1[0]->body->Json_0->Object_0;
    let end = a2[0]->body->Json_0->Object_0;
    reveal_strlit("request_id");
    reveal_strlit("mode");
    reveal_strlit("status");
    reveal_strlit("payload");
    assert("request_id"@[0] == 'r');
    assert("mode"@[0] == 'm');
    assert("status"@[0] == 's');
    assert("payload"@[0] == 'p');
    json::law_member_is_found(start, 0, ""@, Json::Null);
    json::law_member_is_found(start, 1, ""@, Json::Null);
    json::law_member_is_found(start, 2, ""@, Json::Null);
    json::law_member_is_found(end, 0, ""@, Json::Null);
    json::law_member_is_found(end, 1, ""@, Json::Null);
    json::law_member_is_found(end, 2, ""@, Json::Null);
    json::law_member_is_found(end, 3, ""@, Json::Null);
}

/// The mode of a stream is the one that the member `stream_mode` of the request's
/// payload names, and whole results if it names none.
pub proof fn law_stream_mode_is_the_one_named(
    c: ConnectionView,
    request: RequestView,
    name: Seq<char>,
    now: Instant,
)
    requires
        c.phase == Phase::DecodingStream,
    ensures
        ({
            let start = c.step(EventView::RequestDecoded(Ok(request)), now).1[0]->body->Json_0;
            let named = request.payload.field("stream_mode"@);
            let known = name == "messages"@ || name == "values"@ || name == "updates"@ || name
                == "result"@;
            &&& named == Some(Json::String(name)) && known ==> start.field("mode"@) == Some(
                Json::String(name),
            )
            &&& named == Some(Json::String(name)) && !known ==> start.field("mode"@) == Some(
                Json::String("result"@),
            )
            &&& (named is None || !(named->0 is String)) ==> start.field("mode"@) == Some(
                Json::String("result"@),
            )
        }),
{
    let start = c.step(EventView::RequestDecoded(Ok(request)), now).1[0]->body->Json_0->Object_0;
    reveal_strlit("request_id");
    reveal_strlit("mode");
    assert("request_id"@[0] != "mode"@[0]);
    json::law_member_is_found(start, 1, ""@, Json::Null);
    streaming::law_mode_names(StreamMode::Result, name);
}

/// Whatever a connection is not waiting for changes nothing.
pub proof fn law_connection_heeds_only_what_it_waits_for(
    c: ConnectionView,
    event: EventView,
    now: Instant,
)
    requires
        !may_happen(c.phase, event),
    ensures
        c.step(event, now) == (c, Seq::<ActionView>::empty()),
{
}

/// A connection is let in just when fewer than allowed are open, and then counts
/// as one more.
pub proof fn law_gate_counts_who_is_let_in(active: usize, max_connections: usize)
    ensures
        active < max_connections ==> entered(active, max_connections) == active + 1,
        active >= max_connections ==> entered(active, max_connections) == active,
{
}

/// A new connection knows its settings and nothing of its client.
pub proof fn law_new_connection_knows_nobody(settings: SettingsView)
    ensures
        ({
            let c = ConnectionView::opened(settings);
            &&& c.settings == settings
            &&& c.handshake is None
            &&& c.client_id.len() == 0
            &&& c.phase == Phase::Opening
        }),
{
    reveal_strlit("");
}

/// What happens to a connection, what is done on it and what it sends are the same as
/// their models.
pub proof fn law_models_keep_everything(event: Event, action: Action, body: Body)
    ensures
        match event {
            Event::Message { msg_type, payload } => event@ == EventView::Message {
                msg_type,
                payload: payload@,
            },
            Event::ReadFailed(e) => event@ == EventView::ReadFailed(e@),
            Event::TimedOut => event@ == EventView::TimedOut,
            Event::HandshakeDecoded(r) => event@ == EventView::HandshakeDecoded(
                match r {
                    Ok(q) => Ok(q@),
                    Err(e) => Err(e@),
                },
            ),
            Event::RateChecked(allowed) => event@ == EventView::RateChecked(allowed),
            Event::Greeted(r) => event@ == EventView::Greeted(r@),
            Event::RequestDecoded(r) => event@ == EventView::RequestDecoded(
                match r {
                    Ok(q) => Ok(q@),
                    Err(e) => Err(e@),
                },
            ),
            Event::Handled(r) => event@ == EventView::Handled(r@),
            Event::SendFailed(e) => event@ == EventView::SendFailed(e@),
        },
        match action {
            Action::ReadFirst => action@ == ActionView::ReadFirst,
            Action::Read { timeout } => action@ == ActionView::Read { timeout: timeout@ },
            Action::DecodeHandshake(payload) => action@ == ActionView::DecodeHandshake(payload@),
            Action::CheckRate { client_id } => action@ == ActionView::CheckRate { client_id: client_id@ },
            Action::Greet(request) => action@ == ActionView::Greet(request@),
            Action::DecodeRequest(payload) => action@ == ActionView::DecodeRequest(payload@),
            Action::Handle(request) => action@ == ActionView::Handle(request@),
            Action::NotifyReceived { request_id, service_name, method } => {
                action@ == ActionView::NotifyReceived {
                    request_id: request_id@,
                    service_name: service_name@,
                    method: method@,
                }
            },
            Action::NotifySent { request_id, service_name, status, duration_ms } => {
                action@ == ActionView::NotifySent {
                    request_id: request_id@,
                    service_name: service_name@,
                    status: status@,
                    duration_ms,
                }
            },
            Action::CountStart => action@ == ActionView::CountStart,
            Action::CountEnd { latency, success, is_timeout } => action@ == ActionView::CountEnd {
                latency: latency@,
                success,
                is_timeout,
            },
            Action::Send { msg_type, body } => action@ == ActionView::Send { msg_type, body: body@ },
            Action::Finish(r) => action@ == ActionView::Finish(
                match r {
                    Ok(()) => Ok(()),
                    Err(e) => Err(e@),
                },
            ),
        },
        match body {
            Body::Empty => body@ == BodyView::Empty,
            Body::Json(v) => body@ == BodyView::Json(v@),
            Body::Handshake(r) => body@ == BodyView::Handshake(r@),
            Body::Response(r) => body@ == BodyView::Response(r@),
            Body::Schema(s) => body@ == BodyView::Schema(s@),
        },
{
}

/// What a server that was told nothing goes by.
pub proof fn law_server_has_defaults()
    ensures
        default_config().request_timeout == 30 * 1_000_000_000,
        default_config().idle_timeout == 5 * 60 * 1_000_000_000,
        default_config().max_request_size == 16 * 1024 * 1024,
        default_config().max_connections == 10 * 1000,
        default_config().webhook_url is None,
        default_config().enable_streaming,
        default_config().enable_schema_introspection,
        default_config().rate_limit == (RateLimitConfig { max_requests: 1000, window_secs: 60 }),
{
}

/// The settings of a server and their model are the same.
pub proof fn law_settings_model_keeps_everything(c: ServerConfig)
    ensures
        c@.request_timeout == c.request_timeout@,
        c@.idle_timeout == c.idle_timeout@,
        c@.max_request_size == c.max_request_size,
        c@.max_connections == c.max_connections,
        c.webhook_url matches Some(url) ==> c@.webhook_url == Some(url@),
        c.webhook_url is None ==> c@.webhook_url is None,
        c@.enable_streaming == c.enable_streaming,
        c@.enable_schema_introspection == c.enable_schema_introspection,
        c@.rate_limit == c.rate_limit,
{
}

/// A request passes just when its service, method and identifier are there and take no
/// more than 256, 256 and 128 bytes, whatever its topic, correlation and payload are.
pub proof fn law_validation_looks_at_three_fields(request: ServiceRequest, valid: bool)
    requires
        call_ensures(UdsServer::validate_request, (&request,), valid),
    ensures
        valid <==> {
            &&& request.service_name@.len() > 0
            &&& encode_utf8(request.service_name@).len() <= 256
            &&& request.method@.len() > 0
            &&& encode_utf8(request.method@).len() <= 256
            &&& request.request_id@.len() > 0
            &&& encode_utf8(request.request_id@).len() <= 128
        },
{
}

/// A connection goes by the settings of its server and counts where the server does.
pub proof fn law_connection_takes_the_settings(
    server: UdsServer,
    config: ServerConfig,
    service_name: &str,
    c: Connection,
)
    requires
        call_ensures(UdsServer::connection, (&server, &config, service_name), c),
    ensures
        c@.settings.service_name == service_name@,
        c@.settings.request_timeout == config.request_timeout@,
        c@.settings.max_request_size == config.max_request_size,
        c@.settings.enable_streaming == config.enable_streaming,
        c@.settings.enable_schema_introspection == config.enable_schema_introspection,
        c@.settings.has_webhook == config.webhook_url is Some,
        c@.settings.has_metrics == server@.collects_metrics,
        c@.phase == Phase::Opening,
{
}

/// A connection hands the request that was decoded to the service, if it is well formed,
/// and the response of the service to the client.
pub proof fn law_decoded_request_is_handed_to_the_service(
    c: &mut Connection,
    request: ServiceRequest,
    started: Instant,
    t2: Instant,
    asked: Vec<Action>,
    then: &mut Connection,
    response: ServiceResponse,
    t3: Instant,
    answered: Vec<Action>,
)
    requires
        call_ensures(Connection::step, (c, Event::RequestDecoded(Ok(request)), t2), asked),
        call_ensures(Connection::step, (then, Event::Handled(response), t3), answered),
        *old(then) == *final(c),
        old(c)@.phase == (Phase::DecodingRequest { started }),
        request.service_name@.len() > 0 && encode_utf8(request.service_name@).len() <= 256,
        request.method@.len() > 0 && encode_utf8(request.method@).len() <= 256,
        request.request_id@.len() > 0 && encode_utf8(request.request_id@).len() <= 128,
    ensures
        asked@.len() == 1,
        asked@[0] matches Action::Handle(handed) && handed@ == request@,
        answered@.len() >= 2,
        answered@[0] matches Action::Send {
            msg_type: 0x11,
            body: Body::Response(sent),
        } && sent@ == response@,
        answered@.last() is Read,
        final(then)@.phase == Phase::Idle,
        final(then)@.settings == old(c)@.settings,
{
    actions::law_views_keep_the_order(asked@, 0);
    actions::law_views_keep_the_order(answered@, 0);
    actions::law_views_keep_the_order(answered@, answered@.len() - 1);
}

/// A server lets a connection in just when fewer than allowed are open, and counts who
/// comes and goes.
pub proof fn law_gate_counts(
    gate: &mut ConnectionGate,
    max_connections: usize,
    entered: bool,
    leaving: &mut ConnectionGate,
    open: usize,
    shown: ConnectionGate,
)
    requires
        call_ensures(ConnectionGate::try_enter, (gate, max_connections), entered),
        call_ensures(ConnectionGate::leave, (leaving,), ()),
        call_ensures(UdsServer::active_connections, (&shown,), open),
    ensures
        entered <==> old(gate)@ < max_connections,
        final(gate)@ == old(gate)@ + if entered {
            1int
        } else {
            0int
        },
        final(leaving)@ == old(leaving)@ - 1,
        open == shown@,
{
}

/// The limiter that a server's connections share allows what its settings say, in a
/// window of so many seconds.
pub proof fn law_limiter_follows_the_settings(config: ServerConfig, limiter: RateLimiter)
    requires
        call_ensures(ServerConfig::rate_limiter, (&config,), limiter),
    ensures
        limiter@.max_requests == config.rate_limit.max_requests,
        limiter@.window == config.rate_limit.window_secs * 1_000_000_000,
        forall|client: Seq<char>| limiter@.of(client).len() == 0,
{
}

/// Each setting of a server is set by itself, and a server that is given none goes by
/// the defaults and its own webhook.
pub proof fn law_settings_are_set_one_by_one(
    config: ServerConfig,
    timeout: Duration,
    url: &str,
    on: bool,
    max: usize,
    secs: u64,
    a: ServerConfig,
    b: ServerConfig,
    c: ServerConfig,
    d: ServerConfig,
    e: ServerConfig,
    f: ServerConfig,
    server: UdsServer,
    g: ServerConfig,
)
    requires
        call_ensures(ServerConfig::with_request_timeout, (config, timeout), a),
        call_ensures(ServerConfig::with_webhook, (config, url), b),
        call_ensures(ServerConfig::with_streaming, (config, on), c),
        call_ensures(ServerConfig::with_schema_introspection, (config, on), d),
        call_ensures(ServerConfig::with_max_connections, (config, max), e),
        call_ensures(ServerConfig::with_rate_limit, (config, max, secs), f),
        call_ensures(UdsServer::config, (&server,), g),
    ensures
        a@ == (ServerConfigView { request_timeout: timeout@, ..config@ }),
        b@ == (ServerConfigView { webhook_url: Some(url@), ..config@ }),
        c@ == (ServerConfigView { enable_streaming: on, ..config@ }),
        d@ == (ServerConfigView { enable_schema_introspection: on, ..config@ }),
        e@ == (ServerConfigView { max_connections: max, ..config@ }),
        f@.rate_limit.max_requests == max && f@.rate_limit.window_secs == secs,
        f@.request_timeout == config@.request_timeout && f@.webhook_url == config@.webhook_url,
        g@.webhook_url == server@.webhook_url,
        g@.request_timeout == 30 * 1_000_000_000 && g@.max_connections == 10000,
{
}

/// A server is at its path, tells the webhook that it is given, counts its requests when
/// it is told to, and runs with settings that name that webhook.
pub proof fn law_server_takes_its_settings(
    path: &str,
    url: &str,
    fresh: UdsServer,
    hooked: UdsServer,
    counting: UdsServer,
    config: ServerConfig,
)
    requires
        call_ensures(UdsServer::new, (path,), fresh),
        call_ensures(UdsServer::with_webhook, (fresh, url), hooked),
        call_ensures(UdsServer::with_metrics, (hooked,), counting),
        call_ensures(UdsServer::config, (&counting,), config),
    ensures
        fresh@.path == path@ && fresh@.webhook_url is None && !fresh@.collects_metrics,
        hooked@.path == path@ && hooked@.webhook_url == Some(url@) && !hooked@.collects_metrics,
        counting@.path == path@ && counting@.webhook_url == Some(url@),
        counting@.collects_metrics,
        config@.webhook_url == Some(url@),
{
}

} // verus!
