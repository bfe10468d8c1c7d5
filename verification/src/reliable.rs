//! A client that watches over its connection, counts its calls and reconnects.

use crate::actions;
use crate::actions::{both, just, nothing};
use crate::client;
use crate::error::{ErrorView, ProtocolError};
use crate::json;
use crate::json::Value;
use crate::metrics;
use crate::metrics::Rate;
use crate::protocol::{RequestView, ResponseView, ServiceRequest, ServiceResponse};
use crate::text;
use crate::time;
use crate::time::{Clock, Duration, Instant};
use crate::wire::{MSG_ERROR, MSG_RESPONSE};
use vstd::prelude::*;

verus! {

#[derive(Debug, Clone, Copy, PartialEq, Eq, Structural)]
pub enum ConnectionState {
    Disconnected,
    Connecting,
    Connected,
    Reconnecting,
    Failed,
}

impl Default for ConnectionState {
    fn default() -> (r: ConnectionState)
        ensures
            r == ConnectionState::Disconnected,
    {
        ConnectionState::Disconnected
    }
}

#[derive(Debug, Clone, Copy, PartialEq, Eq, Structural)]
pub struct ConnectionConfig {
    pub connect_timeout: Duration,
    pub request_timeout: Duration,
    pub idle_timeout: Duration,
    pub heartbeat_interval: Duration,
    pub max_reconnect_attempts: u32,
    pub reconnect_delay: Duration,
}

/// The mathematical model of a [`ConnectionConfig`]; times are in nanoseconds.
pub struct ConfigView {
    pub connect_timeout: nat,
    pub request_timeout: nat,
    pub idle_timeout: nat,
    pub heartbeat_interval: nat,
    pub max_reconnect_attempts: u32,
    pub reconnect_delay: nat,
}

impl View for ConnectionConfig {
    type V = ConfigView;

    open spec fn view(&self) -> ConfigView {
        ConfigView {
            connect_timeout: self.connect_timeout@,
            request_timeout: self.request_timeout@,
            idle_timeout: self.idle_timeout@,
            heartbeat_interval: self.heartbeat_interval@,
            max_reconnect_attempts: self.max_reconnect_attempts,
            reconnect_delay: self.reconnect_delay@,
        }
    }
}

/// The settings that a client has unless it is told otherwise.
pub open spec fn default_config() -> ConfigView {
    ConfigView {
        connect_timeout: 5_000_000_000,
        request_timeout: 30_000_000_000,
        idle_timeout: 300_000_000_000,
        heartbeat_interval: 30_000_000_000,
        max_reconnect_attempts: 5,
        reconnect_delay: 1_000_000_000,
    }
}

impl Default for ConnectionConfig {
    fn default() -> (r: ConnectionConfig)
        ensures
            r@ == default_config(),
    {
        ConnectionConfig {
            connect_timeout: Duration::from_secs(5),
            request_timeout: Duration::from_secs(30),
            idle_timeout: Duration::from_secs(300),
            heartbeat_interval: Duration::from_secs(30),
            max_reconnect_attempts: 5,
            reconnect_delay: Duration::from_secs(1),
        }
    }
}

impl ConnectionConfig {
    pub fn with_connect_timeout(self, timeout: Duration) -> (r: ConnectionConfig)
        ensures
            r@ == (ConfigView { connect_timeout: timeout@, ..self@ }),
    {
        ConnectionConfig { connect_timeout: timeout, ..self }
    }

    pub fn with_request_timeout(self, timeout: Duration) -> (r: ConnectionConfig)
        ensures
            r@ == (ConfigView { request_timeout: timeout@, ..self@ }),
    {
        ConnectionConfig { request_timeout: timeout, ..self }
    }

    pub fn with_idle_timeout(self, timeout: Duration) -> (r: ConnectionConfig)
        ensures
            r@ == (ConfigView { idle_timeout: timeout@, ..self@ }),
    {
        ConnectionConfig { idle_timeout: timeout, ..self }
    }

    pub fn with_heartbeat_interval(self, interval: Duration) -> (r: ConnectionConfig)
        ensures
            r@ == (ConfigView { heartbeat_interval: interval@, ..self@ }),
    {
        ConnectionConfig { heartbeat_interval: interval, ..self }
    }

    pub fn with_max_reconnect_attempts(self, attempts: u32) -> (r: ConnectionConfig)
        ensures
            r@ == (ConfigView { max_reconnect_attempts: attempts, ..self@ }),
    {
        ConnectionConfig { max_reconnect_attempts: attempts, ..self }
    }

    pub fn with_reconnect_delay(self, delay: Duration) -> (r: ConnectionConfig)
        ensures
            r@ == (ConfigView { reconnect_delay: delay@, ..self@ }),
    {
        ConnectionConfig { reconnect_delay: delay, ..self }
    }

    /// Settings with more patience.
    pub fn production() -> (r: ConnectionConfig)
        ensures
            r@ == (ConfigView {
                connect_timeout: 10_000_000_000,
                request_timeout: 60_000_000_000,
                idle_timeout: 600_000_000_000,
                heartbeat_interval: 30_000_000_000,
                max_reconnect_attempts: 10,
                reconnect_delay: 2_000_000_000,
            }),
    {
        ConnectionConfig {
            connect_timeout: Duration::from_secs(10),
            request_timeout: Duration::from_secs(60),
            idle_timeout: Duration::from_secs(600),
            heartbeat_interval: Duration::from_secs(30),
            max_reconnect_attempts: 10,
            reconnect_delay: Duration::from_secs(2),
        }
    }
}

/// Counters of a client. Times are in seconds since 1970.
#[derive(Debug, Clone, Copy, PartialEq, Eq, Structural)]
pub struct ConnectionStats {
    pub total_requests: u64,
    pub successful_requests: u64,
    pub failed_requests: u64,
    pub reconnection_attempts: u64,
    pub reconnection_successes: u64,
    pub last_connected_at: u64,
    pub last_request_at: u64,
}

/// A part of a whole, or all of it if there is nothing yet.
pub open spec fn share(part: u64, whole: u64) -> Rate {
    if whole == 0 {
        Rate { part: 1, whole: 1 }
    } else {
        Rate { part, whole }
    }
}

impl ConnectionStats {
    pub open spec fn fresh() -> ConnectionStats {
        ConnectionStats {
            total_requests: 0,
            successful_requests: 0,
            failed_requests: 0,
            reconnection_attempts: 0,
            reconnection_successes: 0,
            last_connected_at: 0,
            last_request_at: 0,
        }
    }

    pub open spec fn requested(self, success: bool, secs: u64) -> ConnectionStats {
        ConnectionStats {
            total_requests: metrics::plus(self.total_requests, 1),
            successful_requests: if success {
                metrics::plus(self.successful_requests, 1)
            } else {
                self.successful_requests
            },
            failed_requests: if success {
                self.failed_requests
            } else {
                metrics::plus(self.failed_requests, 1)
            },
            last_request_at: secs,
            ..self
        }
    }

    pub open spec fn reconnected(self, success: bool, secs: u64) -> ConnectionStats {
        ConnectionStats {
            reconnection_attempts: metrics::plus(self.reconnection_attempts, 1),
            reconnection_successes: if success {
                metrics::plus(self.reconnection_successes, 1)
            } else {
                self.reconnection_successes
            },
            last_connected_at: if success {
                secs
            } else {
                self.last_connected_at
            },
            ..self
        }
    }

    pub fn new() -> (r: ConnectionStats)
        ensures
            r == ConnectionStats::fresh(),
    {
        ConnectionStats {
            total_requests: 0,
            successful_requests: 0,
            failed_requests: 0,
            reconnection_attempts: 0,
            reconnection_successes: 0,
            last_connected_at: 0,
            last_request_at: 0,
        }
    }

    /// Counts a request that ended now.
    pub fn record_request(&mut self, success: bool)
        ensures
            exists|secs: u64|
                time::may_be_seconds(secs) && *final(self) == #[trigger] old(self).requested(
                    success,
                    secs,
                ),
    {
        let secs: u64 = time::unix_seconds();
        self.record_request_at(success, secs);
    }

    /// Counts a request that ended at the given second.
    pub fn record_request_at(&mut self, success: bool, secs: u64)
        ensures
            *final(self) == old(self).requested(success, secs),
    {
        self.total_requests = metrics::counted(self.total_requests, 1);
        if success {
            self.successful_requests = metrics::counted(self.successful_requests, 1);
        } else {
            self.failed_requests = metrics::counted(self.failed_requests, 1);
        }
        self.last_request_at = secs;
    }

    /// Counts an attempt to connect that ended now.
    pub fn record_reconnect(&mut self, success: bool)
        ensures
            exists|secs: u64|
                time::may_be_seconds(secs) && *final(self) == #[trigger] old(self).reconnected(
                    success,
                    secs,
                ),
    {
        let secs: u64 = time::unix_seconds();
        self.record_reconnect_at(success, secs);
    }

    /// Counts an attempt to connect that ended at the given second.
    pub fn record_reconnect_at(&mut self, success: bool, secs: u64)
        ensures
            *final(self) == old(self).reconnected(success, secs),
    {
        self.reconnection_attempts = metrics::counted(self.reconnection_attempts, 1);
        if success {
            self.reconnection_successes = metrics::counted(self.reconnection_successes, 1);
            self.last_connected_at = secs;
        }
    }

    /// The requests that succeeded, out of all.
    pub fn success_rate(&self) -> (r: Rate)
        ensures
            r == share(self.successful_requests, self.total_requests),
    {
        if self.total_requests == 0 {
            Rate { part: 1, whole: 1 }
        } else {
            Rate { part: self.successful_requests, whole: self.total_requests }
        }
    }

    /// The attempts to connect that succeeded, out of all.
    pub fn reconnection_rate(&self) -> (r: Rate)
        ensures
            r == share(self.reconnection_successes, self.reconnection_attempts),
    {
        if self.reconnection_attempts == 0 {
            Rate { part: 1, whole: 1 }
        } else {
            Rate { part: self.reconnection_successes, whole: self.reconnection_attempts }
        }
    }
}

impl Default for ConnectionStats {
    fn default() -> (r: ConnectionStats)
        ensures
            r == ConnectionStats::fresh(),
    {
        ConnectionStats::new()
    }
}

/// Every request that was counted succeeded or failed, as long as no counter
/// has wrapped around.
pub proof fn law_requests_add_up(s: ConnectionStats, success: bool, secs: u64)
    requires
        s.successful_requests + s.failed_requests == s.total_requests,
        s.total_requests < u64::MAX,
    ensures
        s.requested(success, secs).successful_requests + s.requested(success, secs).failed_requests
            == s.requested(success, secs).total_requests,
        s.reconnected(success, secs).total_requests == s.total_requests,
{
}

/// What to do for a client.
#[derive(Debug)]
pub enum Action {
    /// Open a connection within this time.
    Dial { timeout: Duration },
    /// Keep the connection that was opened.
    KeepStream,
    /// Close the connection that is kept.
    DropStream,
    SendRequest(ServiceRequest),
    SendPing,
    /// Read a message within this time.
    Read { timeout: Duration },
    DecodeResponse(Vec<u8>),
    Sleep { span: Duration },
    /// Nothing more to do; a response if one was asked for.
    Finish(Result<Option<ServiceResponse>, ProtocolError>),
}

/// The mathematical model of an [`Action`].
pub enum ActionView {
    Dial { timeout: nat },
    KeepStream,
    DropStream,
    SendRequest(RequestView),
    SendPing,
    Read { timeout: nat },
    DecodeResponse(Seq<u8>),
    Sleep { span: nat },
    Finish(Result<Option<ResponseView>, ErrorView>),
}

impl View for Action {
    type V = ActionView;

    open spec fn view(&self) -> ActionView {
        match *self {
            Action::Dial { timeout } => ActionView::Dial { timeout: timeout@ },
            Action::KeepStream => ActionView::KeepStream,
            Action::DropStream => ActionView::DropStream,
            Action::SendRequest(q) => ActionView::SendRequest(q@),
            Action::SendPing => ActionView::SendPing,
            Action::Read { timeout } => ActionView::Read { timeout: timeout@ },
            Action::DecodeResponse(p) => ActionView::DecodeResponse(p@),
            Action::Sleep { span } => ActionView::Sleep { span: span@ },
            Action::Finish(r) => ActionView::Finish(
                match r {
                    Ok(Some(v)) => Ok(Some(v@)),
                    Ok(None) => Ok(None),
                    Err(e) => Err(e@),
                },
            ),
        }
    }
}

/// What happened to a client.
#[derive(Debug)]
pub enum Event {
    Dialed,
    /// The connection could not be opened, and why.
    DialFailed(String),
    /// What was waited for did not come in time.
    TimedOut,
    /// The message went out.
    Sent,
    /// The message could not be sent. The actions after it were not performed.
    SendFailed(ProtocolError),
    Message { msg_type: u8, payload: Vec<u8> },
    ReadFailed(ProtocolError),
    ResponseDecoded(Result<ServiceResponse, String>),
    /// The pause is over.
    Slept,
}

/// The mathematical model of an [`Event`].
pub enum EventView {
    Dialed,
    DialFailed(Seq<char>),
    TimedOut,
    Sent,
    SendFailed(ErrorView),
    Message { msg_type: u8, payload: Seq<u8> },
    ReadFailed(ErrorView),
    ResponseDecoded(Result<ResponseView, Seq<char>>),
    Slept,
}

impl View for Event {
    type V = EventView;

    open spec fn view(&self) -> EventView {
        match *self {
            Event::Dialed => EventView::Dialed,
            Event::DialFailed(why) => EventView::DialFailed(why@),
            Event::TimedOut => EventView::TimedOut,
            Event::Sent => EventView::Sent,
            Event::SendFailed(e) => EventView::SendFailed(e@),
            Event::Message { msg_type, payload } => EventView::Message {
                msg_type,
                payload: payload@,
            },
            Event::ReadFailed(e) => EventView::ReadFailed(e@),
            Event::ResponseDecoded(r) => EventView::ResponseDecoded(
                match r {
                    Ok(v) => Ok(v@),
                    Err(e) => Err(e@),
                },
            ),
            Event::Slept => EventView::Slept,
        }
    }
}

/// Where a client stands.
#[derive(Debug, Clone, Copy, PartialEq, Eq, Structural)]
pub enum Phase {
    /// Nothing is being done.
    Ready,
    /// Waiting for the connection.
    Dialing,
    /// Waiting for the connection, for the `attempt`-th time, counted from 0.
    Redialing { attempt: u32 },
    /// Waiting after the `attempt`-th failure.
    Pausing { attempt: u32 },
    /// Waiting for the ping to go out.
    Pinging,
    /// Waiting for a reply to the request.
    AwaitingReply,
    DecodingResponse,
}

/// A client that watches over its connection.
#[derive(Debug)]
pub struct ReliableUdsClient {
    path: String,
    config: ConnectionConfig,
    state: ConnectionState,
    has_stream: bool,
    stats: ConnectionStats,
    connected_at: Option<Instant>,
    last_request_at: Option<Instant>,
    pending: Option<ServiceRequest>,
    phase: Phase,
    clock: Clock,
}

/// The mathematical model of a [`ReliableUdsClient`].
pub struct ClientView {
    pub path: Seq<char>,
    pub config: ConfigView,
    pub state: ConnectionState,
    /// Whether a connection is kept.
    pub has_stream: bool,
    pub stats: ConnectionStats,
    pub connected_at: Option<Instant>,
    pub last_request_at: Option<Instant>,
    /// The request that is to be sent once there is a connection.
    pub pending: Option<RequestView>,
    pub phase: Phase,
    pub clock: Clock,
}

impl View for ReliableUdsClient {
    type V = ClientView;

    closed spec fn view(&self) -> ClientView {
        ClientView {
            path: self.path@,
            config: self.config@,
            state: self.state,
            has_stream: self.has_stream,
            stats: self.stats,
            connected_at: self.connected_at,
            last_request_at: self.last_request_at,
            pending: match self.pending {
                Some(q) => Some(q@),
                None => None,
            },
            phase: self.phase,
            clock: self.clock,
        }
    }
}

/// The longest pause between two attempts to reconnect, in nanoseconds.
pub open spec fn longest_pause() -> nat {
    30_000_000_000
}

/// The error that a server tells of, by the message that it gives.
pub open spec fn server_error(message: Option<Seq<char>>) -> ErrorView {
    match message {
        Some(m) => ErrorView::Server(m),
        None => ErrorView::Server("Unknown error"@),
    }
}

/// The error that a server tells of, by the message that it gives.
pub fn error_from_server(message: Option<String>) -> (r: ProtocolError)
    ensures
        r@ == server_error(crate::protocol::opt_text(message)),
{
    match message {
        Some(m) => ProtocolError::Server(m),
        None => ProtocolError::Server("Unknown error".to_string()),
    }
}

impl ClientView {
    pub open spec fn fresh(path: Seq<char>, config: ConfigView, clock: Clock) -> ClientView {
        ClientView {
            path,
            config,
            state: ConnectionState::Disconnected,
            has_stream: false,
            stats: ConnectionStats::fresh(),
            connected_at: None,
            last_request_at: None,
            pending: None,
            phase: Phase::Ready,
            clock,
        }
    }

    pub open spec fn at(self, phase: Phase) -> ClientView {
        ClientView { phase, ..self }
    }

    pub open spec fn dial(self) -> ActionView {
        ActionView::Dial { timeout: self.config.connect_timeout }
    }

    pub open spec fn done(self, result: Result<Option<ResponseView>, ErrorView>) -> (
        ClientView,
        Seq<ActionView>,
    ) {
        (self.at(Phase::Ready), seq![ActionView::Finish(result)])
    }

    /// The connection is given up because of what the server said.
    pub open spec fn broken_off(self, secs: u64, e: ErrorView) -> (ClientView, Seq<ActionView>) {
        (
            ClientView {
                stats: self.stats.requested(false, secs),
                has_stream: false,
                state: ConnectionState::Disconnected,
                phase: Phase::Ready,
                ..self
            },
            seq![ActionView::DropStream, ActionView::Finish(Err(e))],
        )
    }

    /// Makes sure that there is a connection, and then sends the request if
    /// there is one. A connection that is being opened counts as one.
    pub open spec fn connect_for(self, pending: Option<RequestView>) -> (
        ClientView,
        Seq<ActionView>,
    ) {
        let set = ClientView { pending, ..self };
        if self.state == ConnectionState::Connected || self.state == ConnectionState::Connecting {
            set.go_on()
        } else {
            (
                ClientView { state: ConnectionState::Connecting, phase: Phase::Dialing, ..set },
                seq![self.dial()],
            )
        }
    }

    /// Sends the request that is pending.
    pub open spec fn go_on(self) -> (ClientView, Seq<ActionView>) {
        match self.pending {
            None => self.done(Ok(None)),
            Some(request) => if self.has_stream {
                (
                    ClientView { pending: None, phase: Phase::AwaitingReply, ..self },
                    seq![
                        ActionView::SendRequest(request),
                        ActionView::Read { timeout: self.config.request_timeout },
                    ],
                )
            } else {
                (ClientView {
                    pending: None,
                    state: ConnectionState::Disconnected,
                    ..self
                }).done(Err(ErrorView::ConnectionClosed))
            },
        }
    }

    /// The connection is open.
    pub open spec fn connected(self, now: Instant, secs: u64) -> ClientView {
        ClientView {
            has_stream: true,
            state: ConnectionState::Connected,
            connected_at: Some(now),
            stats: self.stats.reconnected(true, secs),
            ..self
        }
    }

    pub open spec fn on_dialed(self, now: Instant, secs: u64) -> (ClientView, Seq<ActionView>) {
        let (after, actions) = self.connected(now, secs).go_on();
        (after, seq![ActionView::KeepStream] + actions)
    }

    pub open spec fn on_dial_failed(self, secs: u64, e: ErrorView) -> (
        ClientView,
        Seq<ActionView>,
    ) {
        (ClientView {
            state: ConnectionState::Failed,
            stats: self.stats.reconnected(false, secs),
            pending: None,
            ..self
        }).done(Err(e))
    }

    /// Begins to reconnect, if any attempt is left, or gives up.
    pub open spec fn redial(self, attempt: u32, secs: u64) -> (ClientView, Seq<ActionView>) {
        if attempt < self.config.max_reconnect_attempts {
            (
                ClientView {
                    state: ConnectionState::Reconnecting,
                    has_stream: false,
                    phase: Phase::Redialing { attempt },
                    ..self
                },
                seq![ActionView::DropStream, self.dial()],
            )
        } else {
            (ClientView {
                state: ConnectionState::Failed,
                stats: self.stats.reconnected(false, secs),
                ..self
            }).done(
                Err(
                    ErrorView::ConnectionFailed(
                        "Failed to reconnect after "@ + text::decimal(
                            self.config.max_reconnect_attempts as nat,
                        ) + " attempts"@,
                    ),
                ),
            )
        }
    }

    /// The pause after the `attempt`-th failure: longer every time, up to half a
    /// minute.
    pub open spec fn pause(self, attempt: u32) -> nat {
        vstd::math::min(self.config.reconnect_delay * (attempt + 1), longest_pause() as int) as nat
    }

    pub open spec fn on_redial_failed(self, attempt: u32) -> (ClientView, Seq<ActionView>) {
        (
            self.at(Phase::Pausing { attempt }),
            seq![ActionView::Sleep { span: self.pause(attempt) }],
        )
    }

    /// An error that the server tells of is counted, and ends the connection; one
    /// that cannot be read does not.
    pub open spec fn on_error(self, told: Result<Option<Seq<char>>, Seq<char>>, secs: u64) -> (
        ClientView,
        Seq<ActionView>,
    ) {
        match told {
            Ok(message) => self.broken_off(secs, server_error(message)),
            Err(e) => self.done(Err(ErrorView::Encoding(e))),
        }
    }

    pub open spec fn on_reply(self, msg_type: u8, payload: Seq<u8>, secs: u64) -> (
        ClientView,
        Seq<ActionView>,
    ) {
        if msg_type == MSG_ERROR {
            self.on_error(json::string_member(payload, "message"@), secs)
        } else if msg_type != MSG_RESPONSE {
            self.broken_off(
                secs,
                ErrorView::Protocol("Unexpected message type: "@ + text::decimal(msg_type as nat)),
            )
        } else {
            (self.at(Phase::DecodingResponse), seq![ActionView::DecodeResponse(payload)])
        }
    }

    pub open spec fn on_response(
        self,
        decoded: Result<ResponseView, Seq<char>>,
        now: Instant,
        secs: u64,
    ) -> (ClientView, Seq<ActionView>) {
        match decoded {
            Ok(response) => (ClientView {
                stats: self.stats.requested(true, secs),
                last_request_at: Some(now),
                ..self
            }).done(Ok(Some(response))),
            Err(e) => self.done(Err(ErrorView::Encoding(e))),
        }
    }

    /// Asks for a ping.
    pub open spec fn ping(self) -> (ClientView, Seq<ActionView>) {
        if self.state == ConnectionState::Connected && self.has_stream {
            (self.at(Phase::Pinging), seq![ActionView::SendPing])
        } else {
            self.done(Err(ErrorView::ConnectionClosed))
        }
    }

    pub open spec fn disconnected(self) -> ClientView {
        ClientView {
            has_stream: false,
            state: ConnectionState::Disconnected,
            connected_at: None,
            phase: Phase::Ready,
            ..self
        }
    }

    /// Whether the connection has been idle for too long.
    pub open spec fn idle_too_long(self, now: Instant) -> bool {
        match self.last_request_at {
            Some(last) => time::elapsed_nanos(now, last) > self.config.idle_timeout,
            None => false,
        }
    }

    /// The client after an event at the time `now`, which is `secs` seconds
    /// after 1970 began, and what to do. An event that the client is not waiting
    /// for changes nothing.
    pub open spec fn step(self, event: EventView, now: Instant, secs: u64) -> (
        ClientView,
        Seq<ActionView>,
    ) {
        match (self.phase, event) {
            (Phase::Dialing, EventView::Dialed) => self.on_dialed(now, secs),
            (Phase::Dialing, EventView::DialFailed(why)) => self.on_dial_failed(
                secs,
                ErrorView::ConnectionFailed(why),
            ),
            (Phase::Dialing, EventView::TimedOut) => self.on_dial_failed(secs, ErrorView::Timeout),
            (Phase::Redialing { .. }, EventView::Dialed) => (
                self.connected(now, secs).at(Phase::Ready),
                seq![ActionView::KeepStream, ActionView::Finish(Ok(None))],
            ),
            (Phase::Redialing { attempt }, EventView::DialFailed(_)) => self.on_redial_failed(
                attempt,
            ),
            (Phase::Redialing { attempt }, EventView::TimedOut) => self.on_redial_failed(attempt),
            (Phase::Pausing { attempt }, EventView::Slept) => self.redial(
                (attempt + 1) as u32,
                secs,
            ),
            (Phase::Pinging, EventView::Sent) => self.done(Ok(None)),
            (Phase::Pinging, EventView::SendFailed(e)) => self.done(Err(e)),
            (Phase::AwaitingReply, EventView::SendFailed(e)) => self.done(Err(e)),
            (Phase::AwaitingReply, EventView::ReadFailed(e)) => self.done(Err(e)),
            (Phase::AwaitingReply, EventView::TimedOut) => (ClientView {
                stats: self.stats.requested(false, secs),
                ..self
            }).done(Err(ErrorView::Timeout)),
            (Phase::AwaitingReply, EventView::Message { msg_type, payload }) => self.on_reply(
                msg_type,
                payload,
                secs,
            ),
            (Phase::DecodingResponse, EventView::ResponseDecoded(decoded)) => self.on_response(
                decoded,
                now,
                secs,
            ),
            _ => (self, Seq::empty()),
        }
    }
}

impl ReliableUdsClient {
    #[verifier::type_invariant]
    spec fn inv(self) -> bool {
        match self.phase {
            Phase::Redialing { attempt } => attempt < self.config.max_reconnect_attempts,
            Phase::Pausing { attempt } => attempt < self.config.max_reconnect_attempts,
            _ => true,
        }
    }

    pub fn new(path: &str) -> (r: ReliableUdsClient)
        ensures
            r@ == ClientView::fresh(path@, default_config(), r@.clock),
    {
        ReliableUdsClient::with_config(path, ConnectionConfig::default())
    }

    pub fn with_config(path: &str, config: ConnectionConfig) -> (r: ReliableUdsClient)
        ensures
            r@ == ClientView::fresh(path@, config@, r@.clock),
    {
        ReliableUdsClient {
            path: path.to_string(),
            config,
            state: ConnectionState::Disconnected,
            has_stream: false,
            stats: ConnectionStats::new(),
            connected_at: None,
            last_request_at: None,
            pending: None,
            phase: Phase::Ready,
            clock: Clock::new(),
        }
    }

    pub fn path(&self) -> (r: &str)
        ensures
            r@ == self@.path,
    {
        self.path.as_str()
    }

    pub fn state(&self) -> (r: ConnectionState)
        ensures
            r == self@.state,
    {
        self.state
    }

    pub fn stats(&self) -> (r: &ConnectionStats)
        ensures
            *r == self@.stats,
    {
        &self.stats
    }

    pub fn phase(&self) -> (r: Phase)
        ensures
            r == self@.phase,
    {
        self.phase
    }

    /// The current time on the client's clock, by which [`step`](Self::step)
    /// goes.
    pub fn now(&self) -> (r: Instant)
        ensures
            self@.clock.shows(r),
    {
        self.clock.now()
    }

    pub fn is_connected(&self) -> (r: bool)
        ensures
            r == (self@.state == ConnectionState::Connected),
    {
        self.state == ConnectionState::Connected
    }

    /// Whether another caller is opening the connection, so that it is worth
    /// waiting a little.
    pub fn is_connecting(&self) -> (r: bool)
        ensures
            r == (self@.state == ConnectionState::Connecting),
    {
        self.state == ConnectionState::Connecting
    }

    /// Whether the connection has been idle for too long.
    pub fn needs_reconnect(&self) -> (r: bool)
        ensures
            exists|now: Instant| self@.clock.shows(now) && r == #[trigger] self@.idle_too_long(now),
    {
        let now = self.clock.now();
        self.needs_reconnect_at(now)
    }

    pub fn needs_reconnect_at(&self, now: Instant) -> (r: bool)
        ensures
            r == self@.idle_too_long(now),
    {
        match self.last_request_at {
            Some(last) => now.beyond(last, self.config.idle_timeout),
            None => false,
        }
    }

    fn done(&mut self, result: Result<Option<ServiceResponse>, ProtocolError>) -> (r: Vec<Action>)
        ensures
            (final(self)@, actions::views(r@)) == old(self)@.done(
                match result {
                    Ok(Some(v)) => Ok(Some(v@)),
                    Ok(None) => Ok(None),
                    Err(e) => Err(e@),
                },
            ),
    {
        self.phase = Phase::Ready;
        just(Action::Finish(result))
    }

    fn broken_off(&mut self, secs: u64, e: ProtocolError) -> (r: Vec<Action>)
        ensures
            (final(self)@, actions::views(r@)) == old(self)@.broken_off(secs, e@),
    {
        self.phase = Phase::Ready;
        let mut stats = self.stats;
        stats.record_request_at(false, secs);
        self.stats = stats;
        self.has_stream = false;
        self.state = ConnectionState::Disconnected;
        both(Action::DropStream, Action::Finish(Err(e)))
    }

    fn go_on(&mut self) -> (r: Vec<Action>)
        ensures
            (final(self)@, actions::views(r@)) == old(self)@.go_on(),
    {
        self.phase = Phase::Ready;
        let mut pending: Option<ServiceRequest> = None;
        std::mem::swap(&mut pending, &mut self.pending);
        match pending {
            None => self.done(Ok(None)),
            Some(request) => {
                if self.has_stream {
                    self.phase = Phase::AwaitingReply;
                    both(
                        Action::SendRequest(request),
                        Action::Read { timeout: self.config.request_timeout },
                    )
                } else {
                    self.state = ConnectionState::Disconnected;
                    self.done(Err(ProtocolError::ConnectionClosed))
                }
            },
        }
    }

    fn connect_for(&mut self, pending: Option<ServiceRequest>) -> (r: Vec<Action>)
        ensures
            (final(self)@, actions::views(r@)) == old(self)@.connect_for(
                match pending {
                    Some(q) => Some(q@),
                    None => None,
                },
            ),
    {
        self.phase = Phase::Ready;
        self.pending = pending;
        if self.state == ConnectionState::Connected || self.state == ConnectionState::Connecting {
            return self.go_on();
        }
        self.state = ConnectionState::Connecting;
        self.phase = Phase::Dialing;
        just(Action::Dial { timeout: self.config.connect_timeout })
    }

    /// Sets out to connect, and says what to do. A client that is connected, or
    /// is being connected, has nothing to do.
    pub fn connect(&mut self) -> (r: Vec<Action>)
        ensures
            final(self)@ == old(self)@.connect_for(None).0,
            actions::views(r@) == old(self)@.connect_for(None).1,
    {
        self.connect_for(None)
    }

    /// Sets out to connect a client that is not connected.
    pub fn ensure_connected(&mut self) -> (r: Vec<Action>)
        ensures
            final(self)@ == old(self)@.connect_for(None).0,
            actions::views(r@) == old(self)@.connect_for(None).1,
    {
        self.connect_for(None)
    }

    /// Gives up the connection.
    pub fn disconnect(&mut self) -> (r: Action)
        ensures
            final(self)@ == old(self)@.disconnected(),
            r@ == ActionView::DropStream,
    {
        self.phase = Phase::Ready;
        self.has_stream = false;
        self.state = ConnectionState::Disconnected;
        self.connected_at = None;
        Action::DropStream
    }

    /// Sets out to send a request.
    pub fn begin_call(&mut self, request: ServiceRequest) -> (r: Vec<Action>)
        ensures
            final(self)@ == old(self)@.connect_for(Some(request@)).0,
            actions::views(r@) == old(self)@.connect_for(Some(request@)).1,
    {
        self.connect_for(Some(request))
    }

    /// Sets out to call a method of a service.
    pub fn call(&mut self, service: &str, method: &str, payload: Value) -> (r: Vec<Action>)
        ensures
            exists|q: RequestView|
                #[trigger] client::is_new_request(q, service@, method@, payload@) && (
                    final(self)@,
                    actions::views(r@),
                ) == old(self)@.connect_for(Some(q)),
    {
        let request = ServiceRequest::new(service, method, payload);
        assert(client::is_new_request(request@, service@, method@, payload@));
        self.begin_call(request)
    }

    /// Sets out to ping the server.
    pub fn ping(&mut self) -> (r: Vec<Action>)
        ensures
            final(self)@ == old(self)@.ping().0,
            actions::views(r@) == old(self)@.ping().1,
    {
        if self.state == ConnectionState::Connected && self.has_stream {
            self.phase = Phase::Pinging;
            just(Action::SendPing)
        } else {
            self.done(Err(ProtocolError::ConnectionClosed))
        }
    }

    /// Sets out to reconnect, at the given second.
    pub fn reconnect(&mut self, secs: u64) -> (r: Vec<Action>)
        ensures
            final(self)@ == old(self)@.redial(0, secs).0,
            actions::views(r@) == old(self)@.redial(0, secs).1,
    {
        self.redial(0, secs)
    }

    fn redial(&mut self, attempt: u32, secs: u64) -> (r: Vec<Action>)
        ensures
            (final(self)@, actions::views(r@)) == old(self)@.redial(attempt, secs),
    {
        self.phase = Phase::Ready;
        if attempt < self.config.max_reconnect_attempts {
            self.state = ConnectionState::Reconnecting;
            self.has_stream = false;
            self.phase = Phase::Redialing { attempt };
            both(Action::DropStream, Action::Dial { timeout: self.config.connect_timeout })
        } else {
            self.state = ConnectionState::Failed;
            let mut stats = self.stats;
            stats.record_reconnect_at(false, secs);
            self.stats = stats;
            let message = text::join_number(
                "Failed to reconnect after ",
                self.config.max_reconnect_attempts as u64,
                " attempts",
            );
            self.done(Err(ProtocolError::ConnectionFailed(message)))
        }
    }

    fn set_connected(&mut self, now: Instant, secs: u64)
        ensures
            final(self)@ == old(self)@.connected(now, secs),
    {
        proof {
            use_type_invariant(&*self);
        }
        self.has_stream = true;
        self.state = ConnectionState::Connected;
        self.connected_at = Some(now);
        let mut stats = self.stats;
        stats.record_reconnect_at(true, secs);
        self.stats = stats;
    }

    fn on_dial_failed(&mut self, secs: u64, e: ProtocolError) -> (r: Vec<Action>)
        ensures
            (final(self)@, actions::views(r@)) == old(self)@.on_dial_failed(secs, e@),
    {
        self.phase = Phase::Ready;
        self.state = ConnectionState::Failed;
        let mut stats = self.stats;
        stats.record_reconnect_at(false, secs);
        self.stats = stats;
        self.pending = None;
        self.done(Err(e))
    }

    fn on_redial_failed(&mut self, attempt: u32) -> (r: Vec<Action>)
        requires
            attempt < old(self)@.config.max_reconnect_attempts,
        ensures
            (final(self)@, actions::views(r@)) == old(self)@.on_redial_failed(attempt),
    {
        self.phase = Phase::Pausing { attempt };
        let span = self.config.reconnect_delay.times_capped(attempt + 1, Duration::from_secs(30));
        just(Action::Sleep { span })
    }

    /// Takes note of an error that the server tells of, as it was read.
    pub fn on_error(&mut self, told: Result<Option<String>, String>, secs: u64) -> (r: Vec<Action>)
        ensures
            final(self)@ == old(self)@.on_error(json::opt_text_result(told), secs).0,
            actions::views(r@) == old(self)@.on_error(json::opt_text_result(told), secs).1,
    {
        match told {
            Ok(message) => {
                let e = error_from_server(message);
                self.broken_off(secs, e)
            },
            Err(e) => self.done(Err(ProtocolError::Encoding(e))),
        }
    }

    fn on_reply(&mut self, msg_type: u8, payload: Vec<u8>, secs: u64) -> (r: Vec<Action>)
        ensures
            (final(self)@, actions::views(r@)) == old(self)@.on_reply(msg_type, payload@, secs),
    {
        if msg_type == MSG_ERROR {
            let told = json::find_string(payload.as_slice(), "message");
            self.on_error(told, secs)
        } else if msg_type != MSG_RESPONSE {
            let number = text::decimal_text(msg_type as u64);
            self.broken_off(
                secs,
                ProtocolError::Protocol(text::join("Unexpected message type: ", number.as_str())),
            )
        } else {
            self.phase = Phase::DecodingResponse;
            just(Action::DecodeResponse(payload))
        }
    }

    fn on_response(&mut self, decoded: Result<ServiceResponse, String>, now: Instant, secs: u64) -> (r:
        Vec<Action>)
        ensures
            (final(self)@, actions::views(r@)) == old(self)@.on_response(
                match decoded {
                    Ok(v) => Ok(v@),
                    Err(e) => Err(e@),
                },
                now,
                secs,
            ),
    {
        self.phase = Phase::Ready;
        match decoded {
            Ok(response) => {
                let mut stats = self.stats;
                stats.record_request_at(true, secs);
                self.stats = stats;
                self.last_request_at = Some(now);
                self.done(Ok(Some(response)))
            },
            Err(e) => self.done(Err(ProtocolError::Encoding(e))),
        }
    }

    /// Takes note of an event at the time `now`, which is `secs` seconds after
    /// 1970 began, and says what to do: the actions are performed in order, up to
    /// the first message that cannot be sent.
    pub fn step(&mut self, event: Event, now: Instant, secs: u64) -> (r: Vec<Action>)
        ensures
            final(self)@ == old(self)@.step(event@, now, secs).0,
            actions::views(r@) == old(self)@.step(event@, now, secs).1,
    {
        proof {
            use_type_invariant(&*self);
        }
        match (self.phase, event) {
            (Phase::Dialing, Event::Dialed) => {
                self.set_connected(now, secs);
                let mut rest = self.go_on();
                let ghost more = actions::views(rest@);
                let mut actions = just(Action::KeepStream);
                actions.append(&mut rest);
                assert(actions::views(actions@) =~= seq![ActionView::KeepStream] + more);
                actions
            },
            (Phase::Dialing, Event::DialFailed(why)) => self.on_dial_failed(
                secs,
                ProtocolError::ConnectionFailed(why),
            ),
            (Phase::Dialing, Event::TimedOut) => self.on_dial_failed(secs, ProtocolError::Timeout),
            (Phase::Redialing { .. }, Event::Dialed) => {
                self.set_connected(now, secs);
                self.phase = Phase::Ready;
                both(Action::KeepStream, Action::Finish(Ok(None)))
            },
            (Phase::Redialing { attempt }, Event::DialFailed(_)) => self.on_redial_failed(attempt),
            (Phase::Redialing { attempt }, Event::TimedOut) => self.on_redial_failed(attempt),
            (Phase::Pausing { attempt }, Event::Slept) => self.redial(attempt + 1, secs),
            (Phase::Pinging, Event::Sent) => self.done(Ok(None)),
            (Phase::Pinging, Event::SendFailed(e)) => self.done(Err(e)),
            (Phase::AwaitingReply, Event::SendFailed(e)) => self.done(Err(e)),
            (Phase::AwaitingReply, Event::ReadFailed(e)) => self.done(Err(e)),
            (Phase::AwaitingReply, Event::TimedOut) => {
                let mut stats = self.stats;
                stats.record_request_at(false, secs);
                self.stats = stats;
                self.done(Err(ProtocolError::Timeout))
            },
            (Phase::AwaitingReply, Event::Message { msg_type, payload }) => self.on_reply(
                msg_type,
                payload,
                secs,
            ),
            (Phase::DecodingResponse, Event::ResponseDecoded(decoded)) => self.on_response(
                decoded,
                now,
                secs,
            ),
            _ => nothing(),
        }
    }
}

impl ClientView {
    /// What every client keeps: it has a connection just when it is connected.
    pub open spec fn consistent(self) -> bool {
        &&& self.has_stream == (self.state == ConnectionState::Connected)
        &&& self.phase is Dialing ==> self.state == ConnectionState::Connecting
        &&& self.phase is Redialing ==> self.state == ConnectionState::Reconnecting
        &&& self.phase is Pausing ==> self.state == ConnectionState::Reconnecting
    }
}

/// Whatever happens, a client has a connection just when it says that it is
/// connected. (A client that is allowed no attempt to reconnect gives up without
/// closing its connection.)
pub proof fn law_state_tells_of_the_connection(
    c: ClientView,
    pending: Option<RequestView>,
    event: EventView,
    now: Instant,
    secs: u64,
)
    requires
        c.consistent(),
    ensures
        ClientView::fresh(c.path, c.config, c.clock).consistent(),
        c.connect_for(pending).0.consistent(),
        c.ping().0.consistent(),
        c.config.max_reconnect_attempts > 0 ==> c.redial(0, secs).0.consistent(),
        c.disconnected().consistent(),
        c.step(event, now, secs).0.consistent(),
{
}

/// The pauses between attempts to reconnect grow, but never beyond half a
/// minute.
pub proof fn law_pauses_grow(c: ClientView, a: u32, b: u32)
    requires
        a <= b,
    ensures
        c.pause(a) <= c.pause(b) <= longest_pause(),
{
    assert(c.config.reconnect_delay * (a + 1) <= c.config.reconnect_delay * (b + 1))
        by (nonlinear_arith)
        requires
            a <= b,
            c.config.reconnect_delay >= 0,
    ;
    assert(c.config.reconnect_delay * (a + 1) >= 0) by (nonlinear_arith)
        requires
            c.config.reconnect_delay >= 0,
    ;
}

/// The client after `n` attempts to reconnect that failed, each with its pause.
pub open spec fn after_attempts(c: ClientView, n: nat, now: Instant, secs: u64) -> ClientView
    decreases n,
{
    if n == 0 {
        c.redial(0, secs).0
    } else {
        after_attempts(c, (n - 1) as nat, now, secs).step(EventView::TimedOut, now, secs).0.step(
            EventView::Slept,
            now,
            secs,
        ).0
    }
}

/// A client tries to reconnect as often as it is allowed to, and then gives up
/// with an error.
pub proof fn law_reconnects_as_often_as_allowed(c: ClientView, n: nat, now: Instant, secs: u64)
    requires
        n <= c.config.max_reconnect_attempts,
    ensures
        n < c.config.max_reconnect_attempts ==> after_attempts(c, n, now, secs).phase
            == (Phase::Redialing { attempt: n as u32 }),
        n == c.config.max_reconnect_attempts ==> after_attempts(c, n, now, secs).state
            == ConnectionState::Failed && after_attempts(c, n, now, secs).phase == Phase::Ready,
        after_attempts(c, n, now, secs).config == c.config,
    decreases n,
{
    if n > 0 {
        law_reconnects_as_often_as_allowed(c, (n - 1) as nat, now, secs);
    }
}

/// A reply that is no response is counted as a failure and ends the connection,
/// so that the next call opens a new one.
pub proof fn law_unexpected_reply_breaks_off(
    c: ClientView,
    msg_type: u8,
    payload: Seq<u8>,
    now: Instant,
    secs: u64,
    request: RequestView,
)
    requires
        c.phase == Phase::AwaitingReply,
        msg_type != MSG_RESPONSE,
        msg_type != MSG_ERROR,
    ensures
        ({
            let after = c.step(EventView::Message { msg_type, payload }, now, secs).0;
            &&& after.stats == c.stats.requested(false, secs)
            &&& after.state == ConnectionState::Disconnected
            &&& after.connect_for(Some(request)).1 == seq![c.dial()]
        }),
{
}

/// An error that the server tells of is counted as a failure and ends the
/// connection; the caller gets the server's message.
pub proof fn law_server_error_is_told(c: ClientView, message: Option<Seq<char>>, secs: u64)
    ensures
        c.on_error(Ok(message), secs).1 == seq![
            ActionView::DropStream,
            ActionView::Finish(Err(server_error(message))),
        ],
        c.on_error(Ok(message), secs).0.stats == c.stats.requested(false, secs),
        c.on_error(Ok(message), secs).0.state == ConnectionState::Disconnected,
{
}

/// A response is handed over as it was decoded, and counted as a success.
pub proof fn law_response_is_handed_over(
    c: ClientView,
    response: ResponseView,
    now: Instant,
    secs: u64,
)
    requires
        c.phase == Phase::DecodingResponse,
    ensures
        ({
            let (after, actions) = c.step(EventView::ResponseDecoded(Ok(response)), now, secs);
            &&& actions == seq![ActionView::Finish(Ok(Some(response)))]
            &&& after.stats == c.stats.requested(true, secs)
            &&& after.last_request_at == Some(now)
            &&& after.state == c.state
        }),
{
}

/// A connected client sends a call on the connection that it has.
pub proof fn law_connection_is_reused(c: ClientView, request: RequestView)
    requires
        c.consistent(),
        c.state == ConnectionState::Connected,
    ensures
        c.connect_for(Some(request)).1 == seq![
            ActionView::SendRequest(request),
            ActionView::Read { timeout: c.config.request_timeout },
        ],
{
}

/// The first call of a client that is not connected connects, sends its very
/// request, and ends with the response of the server, whatever that is. The
/// connection is kept, and the call and the connection are counted once.
pub proof fn law_first_call_connects_and_is_answered(
    c: ClientView,
    request: RequestView,
    answered: Seq<u8>,
    response: ResponseView,
    now: Instant,
    later: Instant,
    secs: u64,
    later_secs: u64,
)
    requires
        c.state != ConnectionState::Connected,
        c.state != ConnectionState::Connecting,
        c.stats.total_requests < u64::MAX,
        c.stats.successful_requests < u64::MAX,
        c.stats.reconnection_attempts < u64::MAX,
        c.stats.reconnection_successes < u64::MAX,
    ensures
        ({
            let (c1, a1) = c.connect_for(Some(request));
            let (c2, a2) = c1.step(EventView::Dialed, now, secs);
            let (c3, a3) = c2.step(
                EventView::Message { msg_type: MSG_RESPONSE, payload: answered },
                later,
                later_secs,
            );
            let (c4, a4) = c3.step(EventView::ResponseDecoded(Ok(response)), later, later_secs);
            &&& a1 == seq![ActionView::Dial { timeout: c.config.connect_timeout }]
            &&& c1.state == ConnectionState::Connecting
            &&& a2 == seq![
                ActionView::KeepStream,
                ActionView::SendRequest(request),
                ActionView::Read { timeout: c.config.request_timeout },
            ]
            &&& c2.phase == Phase::AwaitingReply
            &&& c2.state == ConnectionState::Connected
            &&& c2.connected_at == Some(now)
            &&& a3 == seq![ActionView::DecodeResponse(answered)]
            &&& a4 == seq![ActionView::Finish(Ok(Some(response)))]
            &&& c4 == (ClientView {
                state: ConnectionState::Connected,
                has_stream: true,
                connected_at: Some(now),
                last_request_at: Some(later),
                pending: None,
                phase: Phase::Ready,
                stats: ConnectionStats {
                    total_requests: (c.stats.total_requests + 1) as u64,
                    successful_requests: (c.stats.successful_requests + 1) as u64,
                    reconnection_attempts: (c.stats.reconnection_attempts + 1) as u64,
                    reconnection_successes: (c.stats.reconnection_successes + 1) as u64,
                    last_connected_at: secs,
                    last_request_at: later_secs,
                    ..c.stats
                },
                ..c
            })
        }),
{
    let (c2, a2) = c.connect_for(Some(request)).0.step(EventView::Dialed, now, secs);
    assert(a2 =~= seq![
        ActionView::KeepStream,
        ActionView::SendRequest(request),
        ActionView::Read { timeout: c.config.request_timeout },
    ]);
}

/// A client that has a connection sends its request on it at once, and ends the
/// call with the response of the server. The connection stays as it is, and the
/// call is counted as a success.
pub proof fn law_later_call_is_answered(
    c: ClientView,
    request: RequestView,
    answered: Seq<u8>,
    response: ResponseView,
    now: Instant,
    secs: u64,
)
    requires
        c.state == ConnectionState::Connected,
        c.has_stream,
        c.stats.total_requests < u64::MAX,
        c.stats.successful_requests < u64::MAX,
    ensures
        ({
            let (c1, a1) = c.connect_for(Some(request));
            let (c2, a2) = c1.step(
                EventView::Message { msg_type: MSG_RESPONSE, payload: answered },
                now,
                secs,
            );
            let (c3, a3) = c2.step(EventView::ResponseDecoded(Ok(response)), now, secs);
            &&& a1 == seq![
                ActionView::SendRequest(request),
                ActionView::Read { timeout: c.config.request_timeout },
            ]
            &&& a2 == seq![ActionView::DecodeResponse(answered)]
            &&& a3 == seq![ActionView::Finish(Ok(Some(response)))]
            &&& c3 == (ClientView {
                last_request_at: Some(now),
                pending: None,
                phase: Phase::Ready,
                stats: ConnectionStats {
                    total_requests: (c.stats.total_requests + 1) as u64,
                    successful_requests: (c.stats.successful_requests + 1) as u64,
                    last_request_at: secs,
                    ..c.stats
                },
                ..c
            })
        }),
{
}

/// A call whose connection cannot be opened ends with the reason, or with a
/// timeout. The request is not kept, the attempt is counted as failed, and the
/// next call tries to connect again.
pub proof fn law_call_without_a_connection_fails(
    c: ClientView,
    pending: Option<RequestView>,
    why: Seq<char>,
    now: Instant,
    secs: u64,
    next: RequestView,
)
    requires
        c.state != ConnectionState::Connected,
        c.state != ConnectionState::Connecting,
        c.stats.reconnection_attempts < u64::MAX,
    ensures
        ({
            let dialing = c.connect_for(pending).0;
            let (c1, a1) = dialing.step(EventView::DialFailed(why), now, secs);
            let (c2, a2) = dialing.step(EventView::TimedOut, now, secs);
            &&& a1 == seq![ActionView::Finish(Err(ErrorView::ConnectionFailed(why)))]
            &&& a2 == seq![ActionView::Finish(Err(ErrorView::Timeout))]
            &&& c1 == c2
            &&& c1 == (ClientView {
                state: ConnectionState::Failed,
                pending: None,
                phase: Phase::Ready,
                stats: ConnectionStats {
                    reconnection_attempts: (c.stats.reconnection_attempts + 1) as u64,
                    ..c.stats
                },
                ..c
            })
            &&& c1.connect_for(Some(next)).1 == seq![
                ActionView::Dial { timeout: c.config.connect_timeout },
            ]
        }),
{
}

/// A call that was sent and is not answered in time is counted as failed and ends
/// with a timeout; one that cannot be sent, or whose reply cannot be read or
/// decoded, ends with that error and is not counted. The connection is kept.
pub proof fn law_unanswered_call_fails(
    c: ClientView,
    e: ErrorView,
    why: Seq<char>,
    now: Instant,
    secs: u64,
)
    requires
        c.phase == Phase::AwaitingReply,
        c.stats.total_requests < u64::MAX,
        c.stats.failed_requests < u64::MAX,
    ensures
        c.step(EventView::TimedOut, now, secs) == (
            ClientView {
                phase: Phase::Ready,
                stats: ConnectionStats {
                    total_requests: (c.stats.total_requests + 1) as u64,
                    failed_requests: (c.stats.failed_requests + 1) as u64,
                    last_request_at: secs,
                    ..c.stats
                },
                ..c
            },
            seq![ActionView::Finish(Err(ErrorView::Timeout))],
        ),
        c.step(EventView::SendFailed(e), now, secs) == (
            ClientView { phase: Phase::Ready, ..c },
            seq![ActionView::Finish(Err(e))],
        ),
        c.step(EventView::ReadFailed(e), now, secs) == (
            ClientView { phase: Phase::Ready, ..c },
            seq![ActionView::Finish(Err(e))],
        ),
        (ClientView { phase: Phase::DecodingResponse, ..c }).step(
            EventView::ResponseDecoded(Err(why)),
            now,
            secs,
        ) == (
            ClientView { phase: Phase::Ready, ..c },
            seq![ActionView::Finish(Err(ErrorView::Encoding(why)))],
        ),
{
}

/// A reply that tells of an error, or is of another type than a response, ends the
/// call with that error, is counted as a failure and closes the connection; the
/// next call opens a new one. An error that cannot be read ends the call alone.
pub proof fn law_bad_reply_ends_the_connection(
    c: ClientView,
    msg_type: u8,
    payload: Seq<u8>,
    now: Instant,
    secs: u64,
    next: RequestView,
)
    requires
        c.phase == Phase::AwaitingReply,
        msg_type != MSG_RESPONSE,
        c.stats.total_requests < u64::MAX,
        c.stats.failed_requests < u64::MAX,
    ensures
        ({
            let told = json::string_member(payload, "message"@);
            let unreadable = msg_type == MSG_ERROR && told is Err;
            let e = if msg_type != MSG_ERROR {
                ErrorView::Protocol("Unexpected message type: "@ + text::decimal(msg_type as nat))
            } else if told is Err {
                ErrorView::Encoding(told->Err_0)
            } else {
                ErrorView::Server(
                    match told->Ok_0 {
                        Some(message) => message,
                        None => "Unknown error"@,
                    },
                )
            };
            let (after, actions) = c.step(EventView::Message { msg_type, payload }, now, secs);
            if unreadable {
                &&& actions == seq![ActionView::Finish(Err(e))]
                &&& after == (ClientView { phase: Phase::Ready, ..c })
            } else {
                &&& actions == seq![ActionView::DropStream, ActionView::Finish(Err(e))]
                &&& after == (ClientView {
                    state: ConnectionState::Disconnected,
                    has_stream: false,
                    phase: Phase::Ready,
                    stats: ConnectionStats {
                        total_requests: (c.stats.total_requests + 1) as u64,
                        failed_requests: (c.stats.failed_requests + 1) as u64,
                        last_request_at: secs,
                        ..c.stats
                    },
                    ..c
                })
                &&& after.connect_for(Some(next)).1 == seq![
                    ActionView::Dial { timeout: c.config.connect_timeout },
                ]
            }
        }),
{
}

/// A client that is connected, or is being connected by another caller, does not
/// connect again. A call that finds a connection being opened but none kept fails
/// with a closed connection, so that the next one connects.
pub proof fn law_connecting_twice_is_connecting_once(c: ClientView, request: RequestView)
    requires
        c.state == ConnectionState::Connected || c.state == ConnectionState::Connecting,
    ensures
        c.connect_for(None) == (
            ClientView { pending: None, phase: Phase::Ready, ..c },
            seq![ActionView::Finish(Ok(None))],
        ),
        !c.has_stream ==> c.connect_for(Some(request)) == (
            ClientView {
                pending: None,
                phase: Phase::Ready,
                state: ConnectionState::Disconnected,
                ..c
            },
            seq![ActionView::Finish(Err(ErrorView::ConnectionClosed))],
        ),
{
}

/// Connecting without a call ends as soon as the connection is open.
pub proof fn law_connecting_opens_a_connection(c: ClientView, now: Instant, secs: u64)
    requires
        c.state != ConnectionState::Connected,
        c.state != ConnectionState::Connecting,
        c.stats.reconnection_attempts < u64::MAX,
        c.stats.reconnection_successes < u64::MAX,
    ensures
        ({
            let (c1, a1) = c.connect_for(None);
            let (c2, a2) = c1.step(EventView::Dialed, now, secs);
            &&& a1 == seq![ActionView::Dial { timeout: c.config.connect_timeout }]
            &&& a2 == seq![ActionView::KeepStream, ActionView::Finish(Ok(None))]
            &&& c2 == (ClientView {
                state: ConnectionState::Connected,
                has_stream: true,
                connected_at: Some(now),
                pending: None,
                phase: Phase::Ready,
                stats: ConnectionStats {
                    reconnection_attempts: (c.stats.reconnection_attempts + 1) as u64,
                    reconnection_successes: (c.stats.reconnection_successes + 1) as u64,
                    last_connected_at: secs,
                    ..c.stats
                },
                ..c
            })
        }),
{
    let a2 = c.connect_for(None).0.step(EventView::Dialed, now, secs).1;
    assert(a2 =~= seq![ActionView::KeepStream, ActionView::Finish(Ok(None))]);
}

/// A connection that was given up is closed, and the next call opens a new one.
/// What was counted stays.
pub proof fn law_disconnected_client_connects_again(c: ClientView, request: RequestView)
    ensures
        c.disconnected() == (ClientView {
            state: ConnectionState::Disconnected,
            has_stream: false,
            connected_at: None,
            phase: Phase::Ready,
            ..c
        }),
        c.disconnected().connect_for(Some(request)).1 == seq![
            ActionView::Dial { timeout: c.config.connect_timeout },
        ],
{
}

/// A ping goes out on the connection that is kept, and ends once it went out, or
/// with the reason why it did not. Without a connection it fails at once.
pub proof fn law_ping_goes_out(c: ClientView, e: ErrorView, now: Instant, secs: u64)
    ensures
        ({
            let (c1, a1) = c.ping();
            if c.state == ConnectionState::Connected && c.has_stream {
                &&& a1 == seq![ActionView::SendPing]
                &&& c1.step(EventView::Sent, now, secs) == (
                    ClientView { phase: Phase::Ready, ..c },
                    seq![ActionView::Finish(Ok(None))],
                )
                &&& c1.step(EventView::SendFailed(e), now, secs) == (
                    ClientView { phase: Phase::Ready, ..c },
                    seq![ActionView::Finish(Err(e))],
                )
            } else {
                &&& a1 == seq![ActionView::Finish(Err(ErrorView::ConnectionClosed))]
                &&& c1 == (ClientView { phase: Phase::Ready, ..c })
            }
        }),
{
}

/// Reconnecting closes the connection that was kept and opens another. The
/// attempt that succeeds ends it; after one that fails the client pauses, once
/// over its delay for every attempt so far but no longer than half a minute, and
/// tries again as long as attempts are left.
pub proof fn law_reconnecting_takes_turns(
    c: ClientView,
    attempt: u32,
    why: Seq<char>,
    now: Instant,
    secs: u64,
)
    requires
        attempt < c.config.max_reconnect_attempts,
        c.stats.reconnection_attempts < u64::MAX,
        c.stats.reconnection_successes < u64::MAX,
    ensures
        ({
            let (c1, a1) = c.redial(attempt, secs);
            let (done, last) = c1.step(EventView::Dialed, now, secs);
            let (c2, a2) = c1.step(EventView::DialFailed(why), now, secs);
            let (c3, a3) = c2.step(EventView::Slept, now, secs);
            let span = c.config.reconnect_delay * (attempt + 1);
            &&& a1 == seq![
                ActionView::DropStream,
                ActionView::Dial { timeout: c.config.connect_timeout },
            ]
            &&& c1.state == ConnectionState::Reconnecting
            &&& !c1.has_stream
            &&& last == seq![ActionView::KeepStream, ActionView::Finish(Ok(None))]
            &&& done == (ClientView {
                state: ConnectionState::Connected,
                has_stream: true,
                connected_at: Some(now),
                phase: Phase::Ready,
                stats: ConnectionStats {
                    reconnection_attempts: (c.stats.reconnection_attempts + 1) as u64,
                    reconnection_successes: (c.stats.reconnection_successes + 1) as u64,
                    last_connected_at: secs,
                    ..c.stats
                },
                ..c
            })
            &&& c1.step(EventView::TimedOut, now, secs) == (c2, a2)
            &&& span <= 30_000_000_000 ==> a2 == seq![ActionView::Sleep { span: span as nat }]
            &&& span > 30_000_000_000 ==> a2 == seq![ActionView::Sleep { span: 30_000_000_000 }]
            &&& c2.stats == c.stats
            &&& attempt + 1 < c.config.max_reconnect_attempts ==> a3 == seq![
                ActionView::DropStream,
                ActionView::Dial { timeout: c.config.connect_timeout },
            ] && c3.stats == c.stats
            &&& attempt + 1 == c.config.max_reconnect_attempts ==> {
                &&& a3 == seq![
                    ActionView::Finish(
                        Err(
                            ErrorView::ConnectionFailed(
                                "Failed to reconnect after "@ + text::decimal(
                                    c.config.max_reconnect_attempts as nat,
                                ) + " attempts"@,
                            ),
                        ),
                    ),
                ]
                &&& c3 == (ClientView {
                    state: ConnectionState::Failed,
                    has_stream: false,
                    phase: Phase::Ready,
                    stats: ConnectionStats {
                        reconnection_attempts: (c.stats.reconnection_attempts + 1) as u64,
                        ..c.stats
                    },
                    ..c
                })
            }
        }),
{
    assert(c.config.reconnect_delay * (attempt + 1) >= 0) by (nonlinear_arith)
        requires
            c.config.reconnect_delay >= 0,
    ;
}

/// A client has been idle for too long once more than the idle time lies between
/// its last response and now; one that was never answered has not.
pub proof fn law_idle_time_runs_from_the_last_response(c: ClientView, now: Instant)
    ensures
        c.last_request_at is None ==> !c.idle_too_long(now),
        c.last_request_at matches Some(last) ==> (c.idle_too_long(now) <==> now.nanos - last.nanos
            > c.config.idle_timeout),
{
}

/// Nothing but what a client waits for does anything to it, and nothing that
/// happens changes where it connects to or its settings.
pub proof fn law_client_heeds_only_what_it_waits_for(
    c: ClientView,
    pending: Option<RequestView>,
    event: EventView,
    now: Instant,
    secs: u64,
)
    ensures
        c.phase is Ready ==> c.step(event, now, secs) == (c, Seq::<ActionView>::empty()),
        c.phase is Dialing && !(event is Dialed || event is DialFailed || event is TimedOut)
            ==> c.step(event, now, secs) == (c, Seq::<ActionView>::empty()),
        c.phase is AwaitingReply && !(event is SendFailed || event is ReadFailed
            || event is TimedOut || event is Message) ==> c.step(event, now, secs) == (
            c,
            Seq::<ActionView>::empty(),
        ),
        c.phase is DecodingResponse && !(event is ResponseDecoded) ==> c.step(event, now, secs)
            == (c, Seq::<ActionView>::empty()),
        c.phase is Pinging && !(event is Sent || event is SendFailed) ==> c.step(event, now, secs)
            == (c, Seq::<ActionView>::empty()),
        c.phase is Pausing && !(event is Slept) ==> c.step(event, now, secs) == (
            c,
            Seq::<ActionView>::empty(),
        ),
        ({
            let after = c.step(event, now, secs).0;
            after.path == c.path && after.config == c.config && after.clock == c.clock
        }),
        ({
            let after = c.connect_for(pending).0;
            after.path == c.path && after.config == c.config && after.clock == c.clock
                && after.stats == c.stats
        }),
{
}

/// The rates are the parts that succeeded of all that were counted, and whole as
/// long as nothing was.
pub proof fn law_rates_are_of_what_was_counted(part: u64, whole: u64)
    ensures
        whole > 0 ==> share(part, whole) == (Rate { part, whole }),
        whole == 0 ==> share(part, whole).part == share(part, whole).whole > 0,
{
}

/// A new client is not connected, has counted nothing, and goes by its settings.
pub proof fn law_new_client_has_done_nothing(path: Seq<char>, config: ConfigView, clock: Clock)
    ensures
        ({
            let c = ClientView::fresh(path, config, clock);
            &&& c.path == path && c.config == config && c.clock == clock
            &&& c.state == ConnectionState::Disconnected && !c.has_stream
            &&& c.phase == Phase::Ready && c.pending is None
            &&& c.connected_at is None && c.last_request_at is None
            &&& c.stats.total_requests == 0 && c.stats.successful_requests == 0
            &&& c.stats.failed_requests == 0 && c.stats.reconnection_attempts == 0
            &&& c.stats.reconnection_successes == 0
            &&& c.stats.last_connected_at == 0 && c.stats.last_request_at == 0
        }),
{
}

/// What happens to a client and what is done for it are the same as their models.
pub proof fn law_models_keep_everything(event: Event, action: Action)
    ensures
        match event {
            Event::Dialed => event@ == EventView::Dialed,
            Event::DialFailed(why) => event@ == EventView::DialFailed(why@),
            Event::TimedOut => event@ == EventView::TimedOut,
            Event::Sent => event@ == EventView::Sent,
            Event::SendFailed(e) => event@ == EventView::SendFailed(e@),
            Event::Message { msg_type, payload } => event@ == EventView::Message {
                msg_type,
                payload: payload@,
            },
            Event::ReadFailed(e) => event@ == EventView::ReadFailed(e@),
            Event::ResponseDecoded(r) => event@ == EventView::ResponseDecoded(
                match r {
                    Ok(v) => Ok(v@),
                    Err(e) => Err(e@),
                },
            ),
            Event::Slept => event@ == EventView::Slept,
        },
        match action {
            Action::Dial { timeout } => action@ == ActionView::Dial { timeout: timeout@ },
            Action::KeepStream => action@ == ActionView::KeepStream,
            Action::DropStream => action@ == ActionView::DropStream,
            Action::SendRequest(q) => action@ == ActionView::SendRequest(q@),
            Action::SendPing => action@ == ActionView::SendPing,
            Action::Read { timeout } => action@ == ActionView::Read { timeout: timeout@ },
            Action::DecodeResponse(p) => action@ == ActionView::DecodeResponse(p@),
            Action::Sleep { span } => action@ == ActionView::Sleep { span: span@ },
            Action::Finish(r) => action@ == ActionView::Finish(
                match r {
                    Ok(Some(v)) => Ok(Some(v@)),
                    Ok(None) => Ok(None),
                    Err(e) => Err(e@),
                },
            ),
        },
{
}

/// What a client that was told nothing goes by.
pub proof fn law_client_has_defaults()
    ensures
        default_config().connect_timeout == 5 * 1_000_000_000,
        default_config().request_timeout == 30 * 1_000_000_000,
        default_config().idle_timeout == 5 * 60 * 1_000_000_000,
        default_config().heartbeat_interval == 30 * 1_000_000_000,
        default_config().max_reconnect_attempts == 5,
        default_config().reconnect_delay == 1_000_000_000,
{
}

/// The call that a client is asked for is the one that it sends: once it has dialed, it
/// keeps the connection, sends the very request, and waits for the reply as long as its
/// settings say. Then it waits for nothing but that.
pub proof fn law_begun_call_is_sent_once_dialed(
    asked: &mut ReliableUdsClient,
    request: ServiceRequest,
    first: Vec<Action>,
    dialed: &mut ReliableUdsClient,
    now: Instant,
    secs: u64,
    second: Vec<Action>,
)
    requires
        call_ensures(ReliableUdsClient::begin_call, (asked, request), first),
        call_ensures(ReliableUdsClient::step, (dialed, Event::Dialed, now, secs), second),
        *old(dialed) == *final(asked),
        old(asked)@.state == ConnectionState::Disconnected || old(asked)@.state
            == ConnectionState::Failed || old(asked)@.state == ConnectionState::Reconnecting,
    ensures
        first@.len() == 1,
        first@[0] matches Action::Dial { timeout } && timeout@ == old(
            asked,
        )@.config.connect_timeout,
        second@.len() == 3,
        second@[0] is KeepStream,
        second@[1] matches Action::SendRequest(sent) && sent@ == request@,
        second@[2] matches Action::Read { timeout } && timeout@ == old(
            asked,
        )@.config.request_timeout,
        final(dialed)@.state == ConnectionState::Connected,
        final(dialed)@.has_stream,
        final(dialed)@.phase == Phase::AwaitingReply,
{
    actions::law_views_keep_the_order(first@, 0);
    actions::law_views_keep_the_order(second@, 0);
    actions::law_views_keep_the_order(second@, 1);
    actions::law_views_keep_the_order(second@, 2);
    let made = seq![ActionView::KeepStream] + seq![
        ActionView::SendRequest(request@),
        ActionView::Read { timeout: old(asked)@.config.request_timeout },
    ];
    assert(made[0] == ActionView::KeepStream);
    assert(made[1] == ActionView::SendRequest(request@));
}

/// The response that is decoded for a call is the one that the caller gets, and a reply
/// of any other type never ends a call with success.
pub proof fn law_decoded_response_is_handed_to_the_caller(
    c: &mut ReliableUdsClient,
    response: ServiceResponse,
    now: Instant,
    secs: u64,
    actions: Vec<Action>,
)
    requires
        call_ensures(
            ReliableUdsClient::step,
            (c, Event::ResponseDecoded(Ok(response)), now, secs),
            actions,
        ),
        old(c)@.phase == Phase::DecodingResponse,
    ensures
        actions@.len() == 1,
        actions@[0] matches Action::Finish(Ok(Some(given))) && given@ == response@,
        final(c)@.state == old(c)@.state,
        final(c)@.has_stream == old(c)@.has_stream,
        final(c)@.last_request_at == Some(now),
        final(c)@.stats.last_request_at == secs,
        old(c)@.stats.successful_requests < u64::MAX
            ==> final(c)@.stats.successful_requests == old(c)@.stats.successful_requests + 1,
        final(c)@.stats.failed_requests == old(c)@.stats.failed_requests,
{
    actions::law_views_keep_the_order(actions@, 0);
}

/// A client tells whether it is connected, what it counted, and whether it has been idle
/// for longer than its settings allow.
pub proof fn law_client_tells_how_it_stands(
    c: ReliableUdsClient,
    connected: bool,
    state: ConnectionState,
    now: Instant,
    idle: bool,
)
    requires
        call_ensures(ReliableUdsClient::is_connected, (&c,), connected),
        call_ensures(ReliableUdsClient::state, (&c,), state),
        call_ensures(ReliableUdsClient::needs_reconnect_at, (&c, now), idle),
    ensures
        connected <==> state == ConnectionState::Connected,
        state == c@.state,
        idle <==> c@.last_request_at is Some && now.nanos - c@.last_request_at->0.nanos
            > c@.config.idle_timeout,
{
}

/// A new client goes by the settings that it is given, and has none of its own.
pub proof fn law_new_client_takes_its_settings(
    path: &str,
    config: ConnectionConfig,
    c: ReliableUdsClient,
    plain: ReliableUdsClient,
)
    requires
        call_ensures(ReliableUdsClient::with_config, (path, config), c),
        call_ensures(ReliableUdsClient::new, (path,), plain),
    ensures
        c@.path == path@,
        c@.config.connect_timeout == config.connect_timeout@,
        c@.config.request_timeout == config.request_timeout@,
        c@.config.idle_timeout == config.idle_timeout@,
        c@.config.heartbeat_interval == config.heartbeat_interval@,
        c@.config.max_reconnect_attempts == config.max_reconnect_attempts,
        c@.config.reconnect_delay == config.reconnect_delay@,
        c@.state == ConnectionState::Disconnected,
        !c@.has_stream,
        plain@.path == path@,
        plain@.config.request_timeout == 30 * 1_000_000_000,
        plain@.config.max_reconnect_attempts == 5,
{
}

/// Each setting is set by itself.
pub proof fn law_settings_are_set_one_by_one(
    config: ConnectionConfig,
    span: Duration,
    attempts: u32,
    a: ConnectionConfig,
    b: ConnectionConfig,
    c: ConnectionConfig,
    d: ConnectionConfig,
    e: ConnectionConfig,
    f: ConnectionConfig,
)
    requires
        call_ensures(ConnectionConfig::with_connect_timeout, (config, span), a),
        call_ensures(ConnectionConfig::with_request_timeout, (config, span), b),
        call_ensures(ConnectionConfig::with_idle_timeout, (config, span), c),
        call_ensures(ConnectionConfig::with_heartbeat_interval, (config, span), d),
        call_ensures(ConnectionConfig::with_max_reconnect_attempts, (config, attempts), e),
        call_ensures(ConnectionConfig::with_reconnect_delay, (config, span), f),
    ensures
        a@.connect_timeout == span@ && a@.request_timeout == config.request_timeout@
            && a@.idle_timeout == config.idle_timeout@ && a@.max_reconnect_attempts
            == config.max_reconnect_attempts && a@.reconnect_delay == config.reconnect_delay@,
        b@.request_timeout == span@ && b@.connect_timeout == config.connect_timeout@
            && b@.idle_timeout == config.idle_timeout@ && b@.max_reconnect_attempts
            == config.max_reconnect_attempts && b@.reconnect_delay == config.reconnect_delay@,
        c@.idle_timeout == span@ && c@.connect_timeout == config.connect_timeout@
            && c@.request_timeout == config.request_timeout@,
        d@.heartbeat_interval == span@ && d@.connect_timeout == config.connect_timeout@
            && d@.request_timeout == config.request_timeout@,
        e@.max_reconnect_attempts == attempts && e@.request_timeout == config.request_timeout@,
        f@.reconnect_delay == span@ && f@.request_timeout == config.request_timeout@,
{
}

} // verus!
