//! The client: what it says to a server, and what it makes of the replies.

pub use crate::reliable::{
    ConnectionConfig, ConnectionState, ConnectionStats, ReliableUdsClient,
};

use crate::actions;
use crate::actions::{both, just, nothing};
use crate::error::{ErrorView, ProtocolError};
use crate::ids;
use crate::json;
use crate::json::{Json, Value};
use crate::protocol;
use crate::protocol::{
    HandshakeRequest, HandshakeRequestView, HandshakeResponse, HandshakeResponseView, RequestView,
    ResponseView, ServiceRequest, ServiceResponse,
};
use crate::schema::{SchemaView, ServiceSchema};
use crate::streaming;
use crate::streaming::{
    MessageView, StreamMessage, StreamMode, StreamResponse, StreamResponseView,
};
use crate::text;
use crate::time::Duration;
use crate::wire::{
    MSG_ERROR, MSG_HANDSHAKE, MSG_HANDSHAKE_ACK, MSG_REQUEST, MSG_RESPONSE, MSG_SCHEMA_REQUEST,
    MSG_SCHEMA_RESPONSE, MSG_STREAM_CHUNK, MSG_STREAM_END, MSG_STREAM_REQUEST, MSG_STREAM_START,
};
use vstd::prelude::*;

verus! {

/// What a client is asked to do once it has a connection.
#[derive(Debug)]
pub enum Goal {
    /// Nothing more.
    Connect,
    Call(ServiceRequest),
    Stream(ServiceRequest),
    Schema,
}

/// The mathematical model of a [`Goal`].
pub enum GoalView {
    Connect,
    Call(RequestView),
    Stream(RequestView),
    Schema,
}

impl View for Goal {
    type V = GoalView;

    open spec fn view(&self) -> GoalView {
        match *self {
            Goal::Connect => GoalView::Connect,
            Goal::Call(q) => GoalView::Call(q@),
            Goal::Stream(q) => GoalView::Stream(q@),
            Goal::Schema => GoalView::Schema,
        }
    }
}

/// What a goal was reached with.
#[derive(Debug)]
pub enum Answer {
    Connected,
    Response(ServiceResponse),
    Messages(Vec<StreamMessage>),
    Schema(ServiceSchema),
}

/// The mathematical model of an [`Answer`].
pub enum AnswerView {
    Connected,
    Response(ResponseView),
    Messages(Seq<MessageView>),
    Schema(SchemaView),
}

impl View for Answer {
    type V = AnswerView;

    open spec fn view(&self) -> AnswerView {
        match *self {
            Answer::Connected => AnswerView::Connected,
            Answer::Response(r) => AnswerView::Response(r@),
            Answer::Messages(m) => AnswerView::Messages(streaming::message_views(m@)),
            Answer::Schema(s) => AnswerView::Schema(s@),
        }
    }
}

/// What a message to the server carries.
#[derive(Debug)]
pub enum Outgoing {
    Empty,
    Handshake(HandshakeRequest),
    Request(ServiceRequest),
}

/// The mathematical model of [`Outgoing`].
pub enum OutgoingView {
    Empty,
    Handshake(HandshakeRequestView),
    Request(RequestView),
}

impl View for Outgoing {
    type V = OutgoingView;

    open spec fn view(&self) -> OutgoingView {
        match *self {
            Outgoing::Empty => OutgoingView::Empty,
            Outgoing::Handshake(q) => OutgoingView::Handshake(q@),
            Outgoing::Request(q) => OutgoingView::Request(q@),
        }
    }
}

/// What to do for a client.
#[derive(Debug)]
pub enum Action {
    /// Open a connection within this time.
    Dial { timeout: Duration },
    /// Send a message on the connection that was opened last.
    Send { msg_type: u8, body: Outgoing },
    /// Read a message within this time.
    Read { timeout: Duration },
    DecodeHandshake(Vec<u8>),
    DecodeResponse(Vec<u8>),
    DecodeSchema(Vec<u8>),
    DecodeChunk(Vec<u8>),
    DecodeStreamEnd(Vec<u8>),
    /// Keep the connection that was opened for later.
    KeepStream,
    /// Close the connection that was kept.
    DropStream,
    Finish(Result<Answer, ProtocolError>),
}

/// The mathematical model of an [`Action`].
pub enum ActionView {
    Dial { timeout: nat },
    Send { msg_type: u8, body: OutgoingView },
    Read { timeout: nat },
    DecodeHandshake(Seq<u8>),
    DecodeResponse(Seq<u8>),
    DecodeSchema(Seq<u8>),
    DecodeChunk(Seq<u8>),
    DecodeStreamEnd(Seq<u8>),
    KeepStream,
    DropStream,
    Finish(Result<AnswerView, ErrorView>),
}

impl View for Action {
    type V = ActionView;

    open spec fn view(&self) -> ActionView {
        match *self {
            Action::Dial { timeout } => ActionView::Dial { timeout: timeout@ },
            Action::Send { msg_type, body } => ActionView::Send { msg_type, body: body@ },
            Action::Read { timeout } => ActionView::Read { timeout: timeout@ },
            Action::DecodeHandshake(p) => ActionView::DecodeHandshake(p@),
            Action::DecodeResponse(p) => ActionView::DecodeResponse(p@),
            Action::DecodeSchema(p) => ActionView::DecodeSchema(p@),
            Action::DecodeChunk(p) => ActionView::DecodeChunk(p@),
            Action::DecodeStreamEnd(p) => ActionView::DecodeStreamEnd(p@),
            Action::KeepStream => ActionView::KeepStream,
            Action::DropStream => ActionView::DropStream,
            Action::Finish(r) => ActionView::Finish(
                match r {
                    Ok(a) => Ok(a@),
                    Err(e) => Err(e@),
                },
            ),
        }
    }
}

/// What happened to a client.
#[derive(Debug)]
pub enum Event {
    /// The connection is open.
    Dialed,
    /// The connection could not be opened.
    DialFailed(ProtocolError),
    /// What was waited for did not come in time.
    TimedOut,
    Message { msg_type: u8, payload: Vec<u8> },
    ReadFailed(ProtocolError),
    /// A message could not be sent. The actions after it were not performed.
    SendFailed(ProtocolError),
    HandshakeDecoded(Result<HandshakeResponse, String>),
    ResponseDecoded(Result<ServiceResponse, String>),
    SchemaDecoded(Result<ServiceSchema, String>),
    ChunkDecoded(Result<StreamMessage, String>),
    StreamEndDecoded(Result<StreamResponse, String>),
}

/// The mathematical model of an [`Event`].
pub enum EventView {
    Dialed,
    DialFailed(ErrorView),
    TimedOut,
    Message { msg_type: u8, payload: Seq<u8> },
    ReadFailed(ErrorView),
    SendFailed(ErrorView),
    HandshakeDecoded(Result<HandshakeResponseView, Seq<char>>),
    ResponseDecoded(Result<ResponseView, Seq<char>>),
    SchemaDecoded(Result<SchemaView, Seq<char>>),
    ChunkDecoded(Result<MessageView, Seq<char>>),
    StreamEndDecoded(Result<StreamResponseView, Seq<char>>),
}

impl View for Event {
    type V = EventView;

    open spec fn view(&self) -> EventView {
        match *self {
            Event::Dialed => EventView::Dialed,
            Event::DialFailed(e) => EventView::DialFailed(e@),
            Event::TimedOut => EventView::TimedOut,
            Event::Message { msg_type, payload } => EventView::Message {
                msg_type,
                payload: payload@,
            },
            Event::ReadFailed(e) => EventView::ReadFailed(e@),
            Event::SendFailed(e) => EventView::SendFailed(e@),
            Event::HandshakeDecoded(r) => EventView::HandshakeDecoded(
                match r {
                    Ok(v) => Ok(v@),
                    Err(e) => Err(e@),
                },
            ),
            Event::ResponseDecoded(r) => EventView::ResponseDecoded(
                match r {
                    Ok(v) => Ok(v@),
                    Err(e) => Err(e@),
                },
            ),
            Event::SchemaDecoded(r) => EventView::SchemaDecoded(
                match r {
                    Ok(v) => Ok(v@),
                    Err(e) => Err(e@),
                },
            ),
            Event::ChunkDecoded(r) => EventView::ChunkDecoded(
                match r {
                    Ok(v) => Ok(v@),
                    Err(e) => Err(e@),
                },
            ),
            Event::StreamEndDecoded(r) => EventView::StreamEndDecoded(
                match r {
                    Ok(v) => Ok(v@),
                    Err(e) => Err(e@),
                },
            ),
        }
    }
}

/// Where a client stands.
#[derive(Debug, Clone, Copy, PartialEq, Eq, Structural)]
pub enum Phase {
    /// Nothing is being done.
    Ready,
    /// Waiting for the connection.
    Dialing,
    /// Waiting for the answer to the handshake.
    AwaitingAck,
    DecodingAck,
    /// Waiting for a reply to the call.
    AwaitingReply,
    DecodingReply,
}

/// A client on a Unix domain socket.
#[derive(Debug)]
pub struct UdsClient {
    path: String,
    connected: bool,
    session_id: Option<String>,
    has_stream: bool,
    connect_timeout: Duration,
    request_timeout: Duration,
    goal: Goal,
    collected: Vec<StreamMessage>,
    phase: Phase,
}

/// The mathematical model of a [`UdsClient`].
pub struct ClientView {
    pub path: Seq<char>,
    pub connected: bool,
    pub session_id: Option<Seq<char>>,
    /// Whether a connection is kept.
    pub has_stream: bool,
    /// In nanoseconds.
    pub connect_timeout: nat,
    /// In nanoseconds.
    pub request_timeout: nat,
    pub goal: GoalView,
    /// The pieces of the stream that came so far.
    pub collected: Seq<MessageView>,
    pub phase: Phase,
}

impl View for UdsClient {
    type V = ClientView;

    closed spec fn view(&self) -> ClientView {
        ClientView {
            path: self.path@,
            connected: self.connected,
            session_id: protocol::opt_text(self.session_id),
            has_stream: self.has_stream,
            connect_timeout: self.connect_timeout@,
            request_timeout: self.request_timeout@,
            goal: self.goal@,
            collected: streaming::message_views(self.collected@),
            phase: self.phase,
        }
    }
}

/// The handshake that a client opens every connection with.
pub open spec fn opening() -> HandshakeRequestView {
    HandshakeRequestView {
        client_id: "protocol-client"@,
        service_name: "client"@,
        capabilities: seq!["json"@],
    }
}

/// The error that a server tells of in the middle of a stream, as it was read.
pub open spec fn told_error(told: Result<Seq<char>, Seq<char>>) -> ErrorView {
    match told {
        Ok(shown) => ErrorView::Protocol(shown),
        Err(e) => ErrorView::Encoding(e),
    }
}

/// The error that a server tells of in the middle of a stream, as it was read.
pub fn error_told(told: Result<String, String>) -> (r: ProtocolError)
    ensures
        r@ == told_error(json::text_result(told)),
{
    match told {
        Ok(shown) => ProtocolError::Protocol(shown),
        Err(e) => ProtocolError::Encoding(e),
    }
}

/// The request with its stream mode written into the payload.
pub open spec fn with_mode(payload: Json, mode: StreamMode) -> Json {
    payload.with("stream_mode"@, Json::String(mode.label()))
}

/// A new request, whatever its random identifiers are.
pub open spec fn is_new_request(
    request: RequestView,
    service: Seq<char>,
    method: Seq<char>,
    payload: Json,
) -> bool {
    &&& request.service_name == service
    &&& request.method == method
    &&& request.payload == payload
    &&& request.topic is None
    &&& ids::is_random_id(request.request_id)
    &&& ids::is_random_id(request.correlation_id)
}

impl ClientView {
    /// A client that has done nothing yet.
    pub open spec fn fresh(path: Seq<char>) -> ClientView {
        ClientView {
            path,
            connected: false,
            session_id: None,
            has_stream: false,
            connect_timeout: 5_000_000_000,
            request_timeout: 30_000_000_000,
            goal: GoalView::Connect,
            collected: Seq::empty(),
            phase: Phase::Ready,
        }
    }

    pub open spec fn at(self, phase: Phase) -> ClientView {
        ClientView { phase, ..self }
    }

    pub open spec fn read(self) -> ActionView {
        ActionView::Read { timeout: self.request_timeout }
    }

    /// Sets out for a goal: a client without a connection opens one first.
    pub open spec fn begin(self, goal: GoalView) -> (ClientView, Seq<ActionView>) {
        let set = ClientView { goal, collected: Seq::empty(), ..self };
        if goal is Connect || !self.has_stream {
            (set.at(Phase::Dialing), seq![ActionView::Dial { timeout: self.connect_timeout }])
        } else {
            set.ask()
        }
    }

    /// Asks the server for what the goal needs.
    pub open spec fn ask(self) -> (ClientView, Seq<ActionView>) {
        match self.goal {
            GoalView::Connect => self.reached(AnswerView::Connected),
            GoalView::Call(request) => (
                self.at(Phase::AwaitingReply),
                seq![
                    ActionView::Send {
                        msg_type: MSG_REQUEST,
                        body: OutgoingView::Request(request),
                    },
                    self.read(),
                ],
            ),
            GoalView::Stream(request) => (
                self.at(Phase::AwaitingReply),
                seq![
                    ActionView::Send {
                        msg_type: MSG_STREAM_REQUEST,
                        body: OutgoingView::Request(request),
                    },
                    self.read(),
                ],
            ),
            GoalView::Schema => (
                self.at(Phase::AwaitingReply),
                seq![
                    ActionView::Send { msg_type: MSG_SCHEMA_REQUEST, body: OutgoingView::Empty },
                    self.read(),
                ],
            ),
        }
    }

    /// The goal was reached.
    pub open spec fn reached(self, answer: AnswerView) -> (ClientView, Seq<ActionView>) {
        (self.at(Phase::Ready), seq![ActionView::Finish(Ok(answer))])
    }

    /// No connection could be opened. One that was kept stays.
    pub open spec fn unconnected(self, e: ErrorView) -> (ClientView, Seq<ActionView>) {
        (self.at(Phase::Ready), seq![ActionView::Finish(Err(e))])
    }

    /// The call failed: its connection is given up.
    pub open spec fn failed(self, e: ErrorView) -> (ClientView, Seq<ActionView>) {
        (
            ClientView { connected: false, has_stream: false, phase: Phase::Ready, ..self },
            seq![ActionView::DropStream, ActionView::Finish(Err(e))],
        )
    }

    pub open spec fn on_dialed(self) -> (ClientView, Seq<ActionView>) {
        (
            self.at(Phase::AwaitingAck),
            seq![
                ActionView::Send {
                    msg_type: MSG_HANDSHAKE,
                    body: OutgoingView::Handshake(opening()),
                },
                self.read(),
            ],
        )
    }

    pub open spec fn on_ack(self, msg_type: u8, payload: Seq<u8>) -> (ClientView, Seq<ActionView>) {
        if msg_type != MSG_HANDSHAKE_ACK {
            self.unconnected(ErrorView::Protocol("invalid handshake response"@))
        } else {
            (self.at(Phase::DecodingAck), seq![ActionView::DecodeHandshake(payload)])
        }
    }

    pub open spec fn on_ack_decoded(self, decoded: Result<HandshakeResponseView, Seq<char>>) -> (
        ClientView,
        Seq<ActionView>,
    ) {
        match decoded {
            Ok(response) => if response.success {
                let connected = ClientView {
                    session_id: Some(response.session_id),
                    connected: true,
                    has_stream: true,
                    ..self
                };
                let (after, actions) = connected.ask();
                (after, seq![ActionView::KeepStream] + actions)
            } else {
                self.unconnected(ErrorView::Protocol("handshake rejected"@))
            },
            Err(e) => self.unconnected(ErrorView::Encoding(e)),
        }
    }

    pub open spec fn on_reply(self, msg_type: u8, payload: Seq<u8>) -> (
        ClientView,
        Seq<ActionView>,
    ) {
        match self.goal {
            GoalView::Connect => (self, Seq::empty()),
            GoalView::Call(_) => if msg_type != MSG_RESPONSE {
                self.failed(ErrorView::Protocol("invalid response type"@))
            } else {
                (self.at(Phase::DecodingReply), seq![ActionView::DecodeResponse(payload)])
            },
            GoalView::Schema => if msg_type != MSG_SCHEMA_RESPONSE {
                self.failed(ErrorView::Protocol("expected schema response"@))
            } else {
                (self.at(Phase::DecodingReply), seq![ActionView::DecodeSchema(payload)])
            },
            GoalView::Stream(_) => if msg_type == MSG_STREAM_START {
                (self, seq![self.read()])
            } else if msg_type == MSG_STREAM_CHUNK {
                (self.at(Phase::DecodingReply), seq![ActionView::DecodeChunk(payload)])
            } else if msg_type == MSG_STREAM_END {
                (self.at(Phase::DecodingReply), seq![ActionView::DecodeStreamEnd(payload)])
            } else if msg_type == MSG_ERROR {
                self.failed(told_error(json::shown(payload)))
            } else {
                self.failed(
                    ErrorView::Protocol(
                        "unexpected message type: "@ + text::decimal(msg_type as nat),
                    ),
                )
            },
        }
    }

    pub open spec fn on_chunk(self, decoded: Result<MessageView, Seq<char>>) -> (
        ClientView,
        Seq<ActionView>,
    ) {
        match decoded {
            Ok(message) => (
                ClientView {
                    collected: self.collected.push(message),
                    phase: Phase::AwaitingReply,
                    ..self
                },
                seq![self.read()],
            ),
            Err(e) => self.failed(ErrorView::Encoding(e)),
        }
    }

    /// A stream whose end tells of an error failed, whatever came before.
    pub open spec fn on_stream_end(self, decoded: Result<StreamResponseView, Seq<char>>) -> (
        ClientView,
        Seq<ActionView>,
    ) {
        match decoded {
            Ok(end) => if text::begins_with(end.status, "error"@) {
                self.failed(ErrorView::Protocol(end.status))
            } else {
                (ClientView { collected: Seq::empty(), ..self }).reached(
                    AnswerView::Messages(self.collected),
                )
            },
            Err(e) => self.failed(ErrorView::Encoding(e)),
        }
    }

    /// The client after an event, and what to do. An event that the client is
    /// not waiting for changes nothing.
    pub open spec fn step(self, event: EventView) -> (ClientView, Seq<ActionView>) {
        match (self.phase, event) {
            (Phase::Dialing, EventView::Dialed) => self.on_dialed(),
            (Phase::Dialing, EventView::DialFailed(e)) => self.unconnected(e),
            (Phase::Dialing, EventView::TimedOut) => self.unconnected(ErrorView::Timeout),
            (Phase::AwaitingAck, EventView::Message { msg_type, payload }) => self.on_ack(
                msg_type,
                payload,
            ),
            (Phase::AwaitingAck, EventView::ReadFailed(e)) => self.unconnected(e),
            (Phase::AwaitingAck, EventView::SendFailed(e)) => self.unconnected(e),
            (Phase::AwaitingAck, EventView::TimedOut) => self.unconnected(ErrorView::Timeout),
            (Phase::DecodingAck, EventView::HandshakeDecoded(decoded)) => self.on_ack_decoded(
                decoded,
            ),
            (Phase::AwaitingReply, EventView::Message { msg_type, payload }) => self.on_reply(
                msg_type,
                payload,
            ),
            (Phase::AwaitingReply, EventView::ReadFailed(e)) => self.failed(e),
            (Phase::AwaitingReply, EventView::SendFailed(e)) => self.failed(e),
            (Phase::AwaitingReply, EventView::TimedOut) => self.failed(ErrorView::Timeout),
            (Phase::DecodingReply, EventView::ResponseDecoded(Ok(r))) => self.reached(
                AnswerView::Response(r),
            ),
            (Phase::DecodingReply, EventView::ResponseDecoded(Err(e))) => self.failed(
                ErrorView::Encoding(e),
            ),
            (Phase::DecodingReply, EventView::SchemaDecoded(Ok(s))) => self.reached(
                AnswerView::Schema(s),
            ),
            (Phase::DecodingReply, EventView::SchemaDecoded(Err(e))) => self.failed(
                ErrorView::Encoding(e),
            ),
            (Phase::DecodingReply, EventView::ChunkDecoded(decoded)) => self.on_chunk(decoded),
            (Phase::DecodingReply, EventView::StreamEndDecoded(decoded)) => self.on_stream_end(
                decoded,
            ),
            _ => (self, Seq::empty()),
        }
    }
}

impl Clone for Goal {
    fn clone(&self) -> (r: Goal)
        ensures
            r@ == self@,
    {
        match self {
            Goal::Connect => Goal::Connect,
            Goal::Call(q) => Goal::Call(q.clone()),
            Goal::Stream(q) => Goal::Stream(q.clone()),
            Goal::Schema => Goal::Schema,
        }
    }
}

impl UdsClient {
    pub fn new(path: &str) -> (r: UdsClient)
        ensures
            r@ == ClientView::fresh(path@),
    {
        let collected: Vec<StreamMessage> = Vec::new();
        assert(streaming::message_views(collected@) =~= Seq::empty());
        UdsClient {
            path: path.to_string(),
            connected: false,
            session_id: None,
            has_stream: false,
            connect_timeout: Duration::from_secs(5),
            request_timeout: Duration::from_secs(30),
            goal: Goal::Connect,
            collected,
            phase: Phase::Ready,
        }
    }

    pub fn with_connect_timeout(self, timeout: Duration) -> (r: UdsClient)
        ensures
            r@ == (ClientView { connect_timeout: timeout@, ..self@ }),
    {
        UdsClient { connect_timeout: timeout, ..self }
    }

    pub fn with_request_timeout(self, timeout: Duration) -> (r: UdsClient)
        ensures
            r@ == (ClientView { request_timeout: timeout@, ..self@ }),
    {
        UdsClient { request_timeout: timeout, ..self }
    }

    pub fn is_connected(&self) -> (r: bool)
        ensures
            r == self@.connected,
    {
        self.connected
    }

    pub fn path(&self) -> (r: &str)
        ensures
            r@ == self@.path,
    {
        self.path.as_str()
    }

    /// The session that the server gave the client.
    pub fn session_id(&self) -> (r: &Option<String>)
        ensures
            protocol::opt_text(*r) == self@.session_id,
    {
        &self.session_id
    }

    /// Where the client stands.
    pub fn phase(&self) -> (r: Phase)
        ensures
            r == self@.phase,
    {
        self.phase
    }

    fn read(&self) -> (r: Action)
        ensures
            r@ == self@.read(),
    {
        Action::Read { timeout: self.request_timeout }
    }

    fn reached(&mut self, answer: Answer) -> (r: Vec<Action>)
        ensures
            (final(self)@, actions::views(r@)) == old(self)@.reached(answer@),
    {
        self.phase = Phase::Ready;
        just(Action::Finish(Ok(answer)))
    }

    fn unconnected(&mut self, e: ProtocolError) -> (r: Vec<Action>)
        ensures
            (final(self)@, actions::views(r@)) == old(self)@.unconnected(e@),
    {
        self.phase = Phase::Ready;
        just(Action::Finish(Err(e)))
    }

    fn failed(&mut self, e: ProtocolError) -> (r: Vec<Action>)
        ensures
            (final(self)@, actions::views(r@)) == old(self)@.failed(e@),
    {
        self.connected = false;
        self.has_stream = false;
        self.phase = Phase::Ready;
        both(Action::DropStream, Action::Finish(Err(e)))
    }

    fn ask(&mut self) -> (r: Vec<Action>)
        ensures
            (final(self)@, actions::views(r@)) == old(self)@.ask(),
    {
        let goal = self.goal.clone();
        match goal {
            Goal::Connect => self.reached(Answer::Connected),
            Goal::Call(request) => {
                self.phase = Phase::AwaitingReply;
                both(
                    Action::Send { msg_type: MSG_REQUEST, body: Outgoing::Request(request) },
                    self.read(),
                )
            },
            Goal::Stream(request) => {
                self.phase = Phase::AwaitingReply;
                both(
                    Action::Send {
                        msg_type: MSG_STREAM_REQUEST,
                        body: Outgoing::Request(request),
                    },
                    self.read(),
                )
            },
            Goal::Schema => {
                self.phase = Phase::AwaitingReply;
                both(
                    Action::Send { msg_type: MSG_SCHEMA_REQUEST, body: Outgoing::Empty },
                    self.read(),
                )
            },
        }
    }

    /// Sets out for a goal, and says what to do. What was under way before is
    /// forgotten.
    pub fn begin(&mut self, goal: Goal) -> (r: Vec<Action>)
        ensures
            final(self)@ == old(self)@.begin(goal@).0,
            actions::views(r@) == old(self)@.begin(goal@).1,
    {
        let only_connect = match &goal {
            Goal::Connect => true,
            _ => false,
        };
        self.goal = goal;
        self.collected = Vec::new();
        assert(self@.collected =~= Seq::empty());
        if only_connect || !self.has_stream {
            self.phase = Phase::Dialing;
            just(Action::Dial { timeout: self.connect_timeout })
        } else {
            self.ask()
        }
    }

    /// Sets out to open a connection.
    pub fn connect(&mut self) -> (r: Vec<Action>)
        ensures
            final(self)@ == old(self)@.begin(GoalView::Connect).0,
            actions::views(r@) == old(self)@.begin(GoalView::Connect).1,
    {
        self.begin(Goal::Connect)
    }

    /// Sets out to call a method of a service.
    pub fn call(&mut self, service: &str, method: &str, payload: Value) -> (r: Vec<Action>)
        ensures
            exists|q: RequestView|
                #[trigger] is_new_request(q, service@, method@, payload@) && (
                    final(self)@,
                    actions::views(r@),
                ) == old(self)@.begin(GoalView::Call(q)),
    {
        let request = ServiceRequest::new(service, method, payload);
        assert(is_new_request(request@, service@, method@, payload@));
        self.begin(Goal::Call(request))
    }

    /// Sets out to call a method of a service and to collect the pieces of its
    /// response. The mode is written into the payload, which has to be an object
    /// or null.
    pub fn call_streaming(
        &mut self,
        service: &str,
        method: &str,
        payload: Value,
        mode: StreamMode,
    ) -> (r: Vec<Action>)
        requires
            payload@.accepts_members(),
        ensures
            exists|q: RequestView|
                #[trigger] is_new_request(q, service@, method@, with_mode(payload@, mode)) && (
                    final(self)@,
                    actions::views(r@),
                ) == old(self)@.begin(GoalView::Stream(q)),
    {
        let payload = payload.with("stream_mode", Value::text(mode.as_str()));
        let request = ServiceRequest::new(service, method, payload);
        assert(is_new_request(request@, service@, method@, payload@));
        self.begin(Goal::Stream(request))
    }

    /// Sets out to ask the service for its schema.
    pub fn get_schema(&mut self) -> (r: Vec<Action>)
        ensures
            final(self)@ == old(self)@.begin(GoalView::Schema).0,
            actions::views(r@) == old(self)@.begin(GoalView::Schema).1,
    {
        self.begin(Goal::Schema)
    }

    /// Gives up the connection and the session.
    pub fn close(&mut self) -> (r: Action)
        ensures
            final(self)@ == (ClientView {
                connected: false,
                session_id: None,
                has_stream: false,
                phase: Phase::Ready,
                ..old(self)@
            }),
            r@ == ActionView::DropStream,
    {
        self.connected = false;
        self.session_id = None;
        self.has_stream = false;
        self.phase = Phase::Ready;
        Action::DropStream
    }

    fn on_ack(&mut self, msg_type: u8, payload: Vec<u8>) -> (r: Vec<Action>)
        ensures
            (final(self)@, actions::views(r@)) == old(self)@.on_ack(msg_type, payload@),
    {
        if msg_type != MSG_HANDSHAKE_ACK {
            return self.unconnected(
                ProtocolError::Protocol("invalid handshake response".to_string()),
            );
        }
        self.phase = Phase::DecodingAck;
        just(Action::DecodeHandshake(payload))
    }

    fn on_ack_decoded(&mut self, decoded: Result<HandshakeResponse, String>) -> (r: Vec<Action>)
        ensures
            (final(self)@, actions::views(r@)) == old(self)@.on_ack_decoded(
                match decoded {
                    Ok(v) => Ok(v@),
                    Err(e) => Err(e@),
                },
            ),
    {
        match decoded {
            Ok(response) => {
                if !response.success {
                    return self.unconnected(
                        ProtocolError::Protocol("handshake rejected".to_string()),
                    );
                }
                self.session_id = Some(response.session_id);
                self.connected = true;
                self.has_stream = true;
                let mut rest = self.ask();
                let ghost asked = actions::views(rest@);
                let mut actions: Vec<Action> = Vec::new();
                actions.push(Action::KeepStream);
                actions.append(&mut rest);
                assert(actions::views(actions@) =~= seq![ActionView::KeepStream] + asked);
                actions
            },
            Err(e) => self.unconnected(ProtocolError::Encoding(e)),
        }
    }

    fn on_reply(&mut self, msg_type: u8, payload: Vec<u8>) -> (r: Vec<Action>)
        ensures
            (final(self)@, actions::views(r@)) == old(self)@.on_reply(msg_type, payload@),
    {
        match &self.goal {
            Goal::Connect => nothing(),
            Goal::Call(_) => {
                if msg_type != MSG_RESPONSE {
                    return self.failed(
                        ProtocolError::Protocol("invalid response type".to_string()),
                    );
                }
                self.phase = Phase::DecodingReply;
                just(Action::DecodeResponse(payload))
            },
            Goal::Schema => {
                if msg_type != MSG_SCHEMA_RESPONSE {
                    return self.failed(
                        ProtocolError::Protocol("expected schema response".to_string()),
                    );
                }
                self.phase = Phase::DecodingReply;
                just(Action::DecodeSchema(payload))
            },
            Goal::Stream(_) => {
                if msg_type == MSG_STREAM_START {
                    just(self.read())
                } else if msg_type == MSG_STREAM_CHUNK {
                    self.phase = Phase::DecodingReply;
                    just(Action::DecodeChunk(payload))
                } else if msg_type == MSG_STREAM_END {
                    self.phase = Phase::DecodingReply;
                    just(Action::DecodeStreamEnd(payload))
                } else if msg_type == MSG_ERROR {
                    let told = json::show_bytes(payload.as_slice());
                    self.failed(error_told(told))
                } else {
                    let number = text::decimal_text(msg_type as u64);
                    self.failed(
                        ProtocolError::Protocol(
                            text::join("unexpected message type: ", number.as_str()),
                        ),
                    )
                }
            },
        }
    }

    fn on_chunk(&mut self, decoded: Result<StreamMessage, String>) -> (r: Vec<Action>)
        ensures
            (final(self)@, actions::views(r@)) == old(self)@.on_chunk(
                match decoded {
                    Ok(v) => Ok(v@),
                    Err(e) => Err(e@),
                },
            ),
    {
        match decoded {
            Ok(message) => {
                self.collected.push(message);
                assert(self@.collected =~= old(self)@.collected.push(message@));
                self.phase = Phase::AwaitingReply;
                just(self.read())
            },
            Err(e) => self.failed(ProtocolError::Encoding(e)),
        }
    }

    fn on_stream_end(&mut self, decoded: Result<StreamResponse, String>) -> (r: Vec<Action>)
        ensures
            (final(self)@, actions::views(r@)) == old(self)@.on_stream_end(
                match decoded {
                    Ok(v) => Ok(v@),
                    Err(e) => Err(e@),
                },
            ),
    {
        match decoded {
            Ok(end) => {
                if text::starts_with(end.status.as_str(), "error") {
                    self.failed(ProtocolError::Protocol(end.status))
                } else {
                    let mut collected: Vec<StreamMessage> = Vec::new();
                    std::mem::swap(&mut collected, &mut self.collected);
                    assert(self@.collected =~= Seq::empty());
                    self.reached(Answer::Messages(collected))
                }
            },
            Err(e) => self.failed(ProtocolError::Encoding(e)),
        }
    }

    /// Takes note of an event, and says what to do: the actions are performed in
    /// order, up to the first message that cannot be sent.
    pub fn step(&mut self, event: Event) -> (r: Vec<Action>)
        ensures
            final(self)@ == old(self)@.step(event@).0,
            actions::views(r@) == old(self)@.step(event@).1,
    {
        match (self.phase, event) {
            (Phase::Dialing, Event::Dialed) => {
                self.phase = Phase::AwaitingAck;
                let request = HandshakeRequest::from_client("protocol-client", "client");
                both(
                    Action::Send { msg_type: MSG_HANDSHAKE, body: Outgoing::Handshake(request) },
                    self.read(),
                )
            },
            (Phase::Dialing, Event::DialFailed(e)) => self.unconnected(e),
            (Phase::Dialing, Event::TimedOut) => self.unconnected(ProtocolError::Timeout),
            (Phase::AwaitingAck, Event::Message { msg_type, payload }) => self.on_ack(
                msg_type,
                payload,
            ),
            (Phase::AwaitingAck, Event::ReadFailed(e)) => self.unconnected(e),
            (Phase::AwaitingAck, Event::SendFailed(e)) => self.unconnected(e),
            (Phase::AwaitingAck, Event::TimedOut) => self.unconnected(ProtocolError::Timeout),
            (Phase::DecodingAck, Event::HandshakeDecoded(decoded)) => self.on_ack_decoded(decoded),
            (Phase::AwaitingReply, Event::Message { msg_type, payload }) => self.on_reply(
                msg_type,
                payload,
            ),
            (Phase::AwaitingReply, Event::ReadFailed(e)) => self.failed(e),
            (Phase::AwaitingReply, Event::SendFailed(e)) => self.failed(e),
            (Phase::AwaitingReply, Event::TimedOut) => self.failed(ProtocolError::Timeout),
            (Phase::DecodingReply, Event::ResponseDecoded(decoded)) => match decoded {
                Ok(response) => self.reached(Answer::Response(response)),
                Err(e) => self.failed(ProtocolError::Encoding(e)),
            },
            (Phase::DecodingReply, Event::SchemaDecoded(decoded)) => match decoded {
                Ok(schema) => self.reached(Answer::Schema(schema)),
                Err(e) => self.failed(ProtocolError::Encoding(e)),
            },
            (Phase::DecodingReply, Event::ChunkDecoded(decoded)) => self.on_chunk(decoded),
            (Phase::DecodingReply, Event::StreamEndDecoded(decoded)) => self.on_stream_end(decoded),
            _ => nothing(),
        }
    }
}

/// A client counts as connected just when it keeps a connection, whatever
/// happens to it.
pub proof fn law_connected_while_a_connection_is_kept(c: ClientView, goal: GoalView, event: EventView)
    requires
        c.connected == c.has_stream,
    ensures
        c.begin(goal).0.connected == c.begin(goal).0.has_stream,
        c.step(event).0.connected == c.step(event).0.has_stream,
        ClientView::fresh(c.path).connected == ClientView::fresh(c.path).has_stream,
{
}

/// The action whose outcome a client waits for in a phase.
pub open spec fn awaits(phase: Phase, action: ActionView) -> bool {
    match phase {
        Phase::Ready => action is Finish,
        Phase::Dialing => action is Dial,
        Phase::AwaitingAck => action is Read,
        Phase::DecodingAck => action is DecodeHandshake,
        Phase::AwaitingReply => action is Read,
        Phase::DecodingReply => action is DecodeResponse || action is DecodeSchema
            || action is DecodeChunk || action is DecodeStreamEnd,
    }
}

/// A client that has something to do ends with the one action whose outcome it
/// then waits for, or with its answer. It never stalls.
pub proof fn law_never_stalls(c: ClientView, goal: GoalView, event: EventView)
    ensures
        awaits(c.begin(goal).0.phase, c.begin(goal).1.last()),
        c.begin(goal).1.len() > 0,
        c.step(event).1.len() > 0 ==> awaits(c.step(event).0.phase, c.step(event).1.last()),
        c.step(event).1.len() == 0 ==> c.step(event).0 == c,
{
}

/// After a call that failed, the next one opens a new connection.
pub proof fn law_failed_call_reconnects(c: ClientView, event: EventView, e: ErrorView, goal: GoalView)
    requires
        c.phase == Phase::AwaitingReply || c.phase == Phase::DecodingReply,
        c.step(event).1.contains(ActionView::Finish(Err(e))),
    ensures
        c.step(event).1.first() == ActionView::DropStream,
        c.step(event).0.begin(goal).1 == seq![ActionView::Dial { timeout: c.connect_timeout }],
{
}

/// A client that keeps a connection calls without opening another.
pub proof fn law_connection_is_reused(c: ClientView, request: RequestView)
    requires
        c.has_stream,
    ensures
        c.begin(GoalView::Call(request)).1 == seq![
            ActionView::Send { msg_type: MSG_REQUEST, body: OutgoingView::Request(request) },
            c.read(),
        ],
{
}

/// The client after pieces of a stream came in.
pub open spec fn after_chunks(c: ClientView, messages: Seq<MessageView>) -> ClientView
    decreases messages.len(),
{
    if messages.len() == 0 {
        c
    } else {
        after_chunks(c, messages.drop_last()).at(Phase::DecodingReply).step(
            EventView::ChunkDecoded(Ok(messages.last())),
        ).0
    }
}

/// The pieces of a stream are handed over all together, in the order in which
/// they came.
pub proof fn law_stream_is_collected_in_order(
    c: ClientView,
    messages: Seq<MessageView>,
    end: StreamResponseView,
)
    requires
        c.phase == Phase::AwaitingReply,
        c.collected.len() == 0,
        !text::begins_with(end.status, "error"@),
    ensures
        after_chunks(c, messages).at(Phase::DecodingReply).step(
            EventView::StreamEndDecoded(Ok(end)),
        ).1 == seq![ActionView::Finish(Ok(AnswerView::Messages(messages)))],
{
    lemma_chunks_collected(c, messages);
    assert(c.collected + messages =~= messages);
}

proof fn lemma_chunks_collected(c: ClientView, messages: Seq<MessageView>)
    requires
        c.phase == Phase::AwaitingReply,
    ensures
        after_chunks(c, messages) == (ClientView { collected: c.collected + messages, ..c }),
    decreases messages.len(),
{
    if messages.len() == 0 {
        assert(c.collected + messages =~= c.collected);
    } else {
        lemma_chunks_collected(c, messages.drop_last());
        assert((c.collected + messages.drop_last()).push(messages.last()) =~= c.collected
            + messages);
    }
}

/// A client is connected only to a server that accepted its handshake.
pub proof fn law_rejected_handshake_keeps_nothing(
    c: ClientView,
    response: HandshakeResponseView,
)
    requires
        c.phase == Phase::DecodingAck,
        !response.success,
    ensures
        c.step(EventView::HandshakeDecoded(Ok(response))) == (
            c.at(Phase::Ready),
            seq![ActionView::Finish(Err(ErrorView::Protocol("handshake rejected"@)))],
        ),
{
}

/// A client without a connection opens one for every goal: it dials, says who it
/// is, and once the server has accepted it asks for what the goal needs, with the
/// very request that it was given.
pub proof fn law_goal_opens_a_connection(
    c: ClientView,
    goal: GoalView,
    answered: Seq<u8>,
    response: HandshakeResponseView,
)
    requires
        !c.has_stream,
        response.success,
    ensures
        ({
            let (c1, a1) = c.begin(goal);
            let (c2, a2) = c1.step(EventView::Dialed);
            let (c3, a3) = c2.step(
                EventView::Message { msg_type: MSG_HANDSHAKE_ACK, payload: answered },
            );
            let (c4, a4) = c3.step(EventView::HandshakeDecoded(Ok(response)));
            let next = ActionView::Read { timeout: c.request_timeout };
            &&& a1 == seq![ActionView::Dial { timeout: c.connect_timeout }]
            &&& a2 == seq![
                ActionView::Send {
                    msg_type: MSG_HANDSHAKE,
                    body: OutgoingView::Handshake(
                        HandshakeRequestView {
                            client_id: "protocol-client"@,
                            service_name: "client"@,
                            capabilities: seq!["json"@],
                        },
                    ),
                },
                next,
            ]
            &&& a3 == seq![ActionView::DecodeHandshake(answered)]
            &&& a4 == match goal {
                GoalView::Connect => seq![
                    ActionView::KeepStream,
                    ActionView::Finish(Ok(AnswerView::Connected)),
                ],
                GoalView::Call(request) => seq![
                    ActionView::KeepStream,
                    ActionView::Send {
                        msg_type: MSG_REQUEST,
                        body: OutgoingView::Request(request),
                    },
                    next,
                ],
                GoalView::Stream(request) => seq![
                    ActionView::KeepStream,
                    ActionView::Send {
                        msg_type: MSG_STREAM_REQUEST,
                        body: OutgoingView::Request(request),
                    },
                    next,
                ],
                GoalView::Schema => seq![
                    ActionView::KeepStream,
                    ActionView::Send { msg_type: MSG_SCHEMA_REQUEST, body: OutgoingView::Empty },
                    next,
                ],
            }
            &&& c4 == (ClientView {
                connected: true,
                has_stream: true,
                session_id: Some(response.session_id),
                goal,
                collected: Seq::empty(),
                phase: if goal is Connect {
                    Phase::Ready
                } else {
                    Phase::AwaitingReply
                },
                ..c
            })
        }),
{
    let a4 = c.begin(goal).0.step(EventView::Dialed).0.step(
        EventView::Message { msg_type: MSG_HANDSHAKE_ACK, payload: answered },
    ).0.step(EventView::HandshakeDecoded(Ok(response))).1;
    let next = ActionView::Read { timeout: c.request_timeout };
    match goal {
        GoalView::Connect => {
            assert(a4 =~= seq![
                ActionView::KeepStream,
                ActionView::Finish(Ok(AnswerView::Connected)),
            ]);
        },
        GoalView::Call(request) => {
            assert(a4 =~= seq![
                ActionView::KeepStream,
                ActionView::Send { msg_type: MSG_REQUEST, body: OutgoingView::Request(request) },
                next,
            ]);
        },
        GoalView::Stream(request) => {
            assert(a4 =~= seq![
                ActionView::KeepStream,
                ActionView::Send {
                    msg_type: MSG_STREAM_REQUEST,
                    body: OutgoingView::Request(request),
                },
                next,
            ]);
        },
        GoalView::Schema => {
            assert(a4 =~= seq![
                ActionView::KeepStream,
                ActionView::Send { msg_type: MSG_SCHEMA_REQUEST, body: OutgoingView::Empty },
                next,
            ]);
        },
    }
}

/// A client that keeps a connection asks on it at once. The answer to a call is
/// the response that came, the answer to a question for the schema is the schema
/// that came; both leave the connection as it is.
pub proof fn law_answers_are_what_came(
    c: ClientView,
    request: RequestView,
    answered: Seq<u8>,
    response: ResponseView,
    schema: SchemaView,
)
    requires
        c.has_stream,
    ensures
        ({
            let (c1, a1) = c.begin(GoalView::Call(request));
            let (c2, a2) = c1.step(
                EventView::Message { msg_type: MSG_RESPONSE, payload: answered },
            );
            let (c3, a3) = c2.step(EventView::ResponseDecoded(Ok(response)));
            &&& a1 == seq![
                ActionView::Send { msg_type: MSG_REQUEST, body: OutgoingView::Request(request) },
                ActionView::Read { timeout: c.request_timeout },
            ]
            &&& a2 == seq![ActionView::DecodeResponse(answered)]
            &&& a3 == seq![ActionView::Finish(Ok(AnswerView::Response(response)))]
            &&& c3 == (ClientView {
                goal: GoalView::Call(request),
                collected: Seq::empty(),
                phase: Phase::Ready,
                ..c
            })
        }),
        ({
            let (c1, a1) = c.begin(GoalView::Schema);
            let (c2, a2) = c1.step(
                EventView::Message { msg_type: MSG_SCHEMA_RESPONSE, payload: answered },
            );
            let (c3, a3) = c2.step(EventView::SchemaDecoded(Ok(schema)));
            &&& a1 == seq![
                ActionView::Send { msg_type: MSG_SCHEMA_REQUEST, body: OutgoingView::Empty },
                ActionView::Read { timeout: c.request_timeout },
            ]
            &&& a2 == seq![ActionView::DecodeSchema(answered)]
            &&& a3 == seq![ActionView::Finish(Ok(AnswerView::Schema(schema)))]
            &&& c3 == (ClientView {
                goal: GoalView::Schema,
                collected: Seq::empty(),
                phase: Phase::Ready,
                ..c
            })
        }),
{
}

/// A streaming call goes out as such, begins with nothing collected, waits on
/// after the opening and after every piece, and takes up every piece that came
/// after those before it.
pub proof fn law_stream_is_taken_up_piece_by_piece(
    c: ClientView,
    request: RequestView,
    payload: Seq<u8>,
    message: MessageView,
)
    requires
        c.has_stream,
    ensures
        ({
            let (c1, a1) = c.begin(GoalView::Stream(request));
            let next = ActionView::Read { timeout: c.request_timeout };
            &&& a1 == seq![
                ActionView::Send {
                    msg_type: MSG_STREAM_REQUEST,
                    body: OutgoingView::Request(request),
                },
                next,
            ]
            &&& c1.phase == Phase::AwaitingReply
            &&& c1.collected.len() == 0
            &&& c1.has_stream
        }),
        c.goal is Stream && c.phase == Phase::AwaitingReply ==> {
            let next = ActionView::Read { timeout: c.request_timeout };
            let (c2, a2) = c.step(EventView::Message { msg_type: MSG_STREAM_CHUNK, payload });
            let (c3, a3) = c2.step(EventView::ChunkDecoded(Ok(message)));
            &&& c.step(EventView::Message { msg_type: MSG_STREAM_START, payload }) == (
                c,
                seq![next],
            )
            &&& a2 == seq![ActionView::DecodeChunk(payload)]
            &&& a3 == seq![next]
            &&& c3 == (ClientView { collected: c.collected.push(message), ..c })
            &&& c.step(EventView::Message { msg_type: MSG_STREAM_END, payload }) == (
                ClientView { phase: Phase::DecodingReply, ..c },
                seq![ActionView::DecodeStreamEnd(payload)],
            )
        },
{
}

/// A stream gives back what was collected unless its end tells of an error, which
/// fails the call with that status.
pub proof fn law_stream_ends_by_its_status(c: ClientView, end: StreamResponseView, e: Seq<char>)
    requires
        c.phase == Phase::DecodingReply,
    ensures
        (exists|rest: Seq<char>| end.status == #[trigger] ("error"@ + rest)) ==> c.step(
            EventView::StreamEndDecoded(Ok(end)),
        ) == (
            ClientView { connected: false, has_stream: false, phase: Phase::Ready, ..c },
            seq![
                ActionView::DropStream,
                ActionView::Finish(Err(ErrorView::Protocol(end.status))),
            ],
        ),
        (forall|rest: Seq<char>| end.status != #[trigger] ("error"@ + rest)) ==> c.step(
            EventView::StreamEndDecoded(Ok(end)),
        ) == (
            ClientView { collected: Seq::empty(), phase: Phase::Ready, ..c },
            seq![ActionView::Finish(Ok(AnswerView::Messages(c.collected)))],
        ),
{
    text::law_begins_with_a_prefix(end.status, "error"@);
}

/// A client that cannot open a connection ends with the reason, or with a timeout,
/// and is as connected as it was before.
pub proof fn law_unopened_connection_is_told(
    c: ClientView,
    e: ErrorView,
    why: Seq<char>,
    msg_type: u8,
    payload: Seq<u8>,
    response: HandshakeResponseView,
)
    ensures
        ({
            let ready = ClientView { phase: Phase::Ready, ..c };
            let dialing = ClientView { phase: Phase::Dialing, ..c };
            let awaiting = ClientView { phase: Phase::AwaitingAck, ..c };
            let decoding = ClientView { phase: Phase::DecodingAck, ..c };
            let reason = seq![ActionView::Finish(Err(e))];
            let timeout = seq![ActionView::Finish(Err(ErrorView::Timeout))];
            &&& dialing.step(EventView::DialFailed(e)) == (ready, reason)
            &&& dialing.step(EventView::TimedOut) == (ready, timeout)
            &&& awaiting.step(EventView::SendFailed(e)) == (ready, reason)
            &&& awaiting.step(EventView::ReadFailed(e)) == (ready, reason)
            &&& awaiting.step(EventView::TimedOut) == (ready, timeout)
            &&& msg_type != MSG_HANDSHAKE_ACK ==> awaiting.step(
                EventView::Message { msg_type, payload },
            ) == (
                ready,
                seq![
                    ActionView::Finish(
                        Err(ErrorView::Protocol("invalid handshake response"@)),
                    ),
                ],
            )
            &&& decoding.step(EventView::HandshakeDecoded(Err(why))) == (
                ready,
                seq![ActionView::Finish(Err(ErrorView::Encoding(why)))],
            )
            &&& !response.success ==> decoding.step(EventView::HandshakeDecoded(Ok(response)))
                == (
                ready,
                seq![ActionView::Finish(Err(ErrorView::Protocol("handshake rejected"@)))],
            )
        }),
{
}

/// A call that fails once it has a connection, for whatever reason, ends with that
/// reason, and the connection is closed and not kept.
pub proof fn law_failed_call_is_told(
    c: ClientView,
    e: ErrorView,
    why: Seq<char>,
    msg_type: u8,
    payload: Seq<u8>,
)
    ensures
        ({
            let ready = ClientView {
                phase: Phase::Ready,
                connected: false,
                has_stream: false,
                ..c
            };
            let awaiting = ClientView { phase: Phase::AwaitingReply, ..c };
            let decoding = ClientView { phase: Phase::DecodingReply, ..c };
            let undecodable = seq![
                ActionView::DropStream,
                ActionView::Finish(Err(ErrorView::Encoding(why))),
            ];
            &&& awaiting.step(EventView::SendFailed(e)) == (
                ready,
                seq![ActionView::DropStream, ActionView::Finish(Err(e))],
            )
            &&& awaiting.step(EventView::ReadFailed(e)) == (
                ready,
                seq![ActionView::DropStream, ActionView::Finish(Err(e))],
            )
            &&& awaiting.step(EventView::TimedOut) == (
                ready,
                seq![ActionView::DropStream, ActionView::Finish(Err(ErrorView::Timeout))],
            )
            &&& decoding.step(EventView::ResponseDecoded(Err(why))) == (ready, undecodable)
            &&& decoding.step(EventView::SchemaDecoded(Err(why))) == (ready, undecodable)
            &&& decoding.step(EventView::ChunkDecoded(Err(why))) == (ready, undecodable)
            &&& decoding.step(EventView::StreamEndDecoded(Err(why))) == (ready, undecodable)
            &&& c.goal is Call && msg_type != MSG_RESPONSE ==> awaiting.step(
                EventView::Message { msg_type, payload },
            ) == (
                ready,
                seq![
                    ActionView::DropStream,
                    ActionView::Finish(Err(ErrorView::Protocol("invalid response type"@))),
                ],
            )
            &&& c.goal is Schema && msg_type != MSG_SCHEMA_RESPONSE ==> awaiting.step(
                EventView::Message { msg_type, payload },
            ) == (
                ready,
                seq![
                    ActionView::DropStream,
                    ActionView::Finish(Err(ErrorView::Protocol("expected schema response"@))),
                ],
            )
            &&& c.goal is Stream && msg_type == MSG_ERROR ==> awaiting.step(
                EventView::Message { msg_type, payload },
            ) == (
                ready,
                seq![
                    ActionView::DropStream,
                    ActionView::Finish(
                        Err(
                            match json::shown(payload) {
                                Ok(shown) => ErrorView::Protocol(shown),
                                Err(unread) => ErrorView::Encoding(unread),
                            },
                        ),
                    ),
                ],
            )
            &&& c.goal is Stream && msg_type != MSG_ERROR && msg_type != MSG_STREAM_START
                && msg_type != MSG_STREAM_CHUNK && msg_type != MSG_STREAM_END ==> awaiting.step(
                EventView::Message { msg_type, payload },
            ) == (
                ready,
                seq![
                    ActionView::DropStream,
                    ActionView::Finish(
                        Err(
                            ErrorView::Protocol(
                                "unexpected message type: "@ + text::decimal(msg_type as nat),
                            ),
                        ),
                    ),
                ],
            )
        }),
{
}

/// A client that waits for nothing does nothing, and nothing that happens changes
/// where it connects to, how long it waits, or what it was asked for.
pub proof fn law_client_heeds_only_what_it_waits_for(c: ClientView, event: EventView)
    ensures
        c.phase is Ready ==> c.step(event) == (c, Seq::<ActionView>::empty()),
        ({
            let after = c.step(event).0;
            &&& after.path == c.path
            &&& after.connect_timeout == c.connect_timeout
            &&& after.request_timeout == c.request_timeout
            &&& after.goal == c.goal
            &&& after.session_id != c.session_id ==> event is HandshakeDecoded
        }),
{
}

/// The payload of a streaming call names its mode, and is otherwise as it was.
pub proof fn law_mode_is_written_into_the_payload(payload: Json, mode: StreamMode, other: Seq<char>)
    requires
        payload is Null || payload is Object,
        other != "stream_mode"@,
    ensures
        with_mode(payload, mode).field("stream_mode"@) == Some(Json::String(mode.label())),
        with_mode(payload, mode).field(other) == payload.field(other),
{
    json::law_set_then_get(payload, "stream_mode"@, Json::String(mode.label()));
    if payload is Object {
        json::law_set_keeps_the_others(
            payload->Object_0,
            "stream_mode"@,
            Json::String(mode.label()),
            other,
        );
    } else {
        json::law_set_keeps_the_others(
            Seq::empty(),
            "stream_mode"@,
            Json::String(mode.label()),
            other,
        );
    }
}

/// A new request is for the service, the method and the payload that were asked
/// for, carries no topic, and is told from others by random identifiers.
pub proof fn law_new_request_is_what_was_asked_for(
    request: RequestView,
    service: Seq<char>,
    method: Seq<char>,
    payload: Json,
)
    ensures
        is_new_request(request, service, method, payload) <==> request == (RequestView {
            request_id: request.request_id,
            correlation_id: request.correlation_id,
            service_name: service,
            method,
            payload,
            topic: None,
        }) && ids::is_random_id(request.request_id) && ids::is_random_id(request.correlation_id),
{
}

/// A new client is not connected, has no session, and waits for five seconds for a
/// connection and for thirty for a reply.
pub proof fn law_new_client_has_done_nothing(path: Seq<char>)
    ensures
        ({
            let c = ClientView::fresh(path);
            &&& c.path == path
            &&& !c.connected && !c.has_stream && c.session_id is None
            &&& c.phase == Phase::Ready && c.collected.len() == 0
            &&& c.connect_timeout == 5 * 1_000_000_000
            &&& c.request_timeout == 30 * 1_000_000_000
        }),
{
}

/// What happens to a client, what is done for it, and what it is asked and answered
/// are the same as their models.
pub proof fn law_models_keep_everything(event: Event, action: Action, goal: Goal, answer: Answer, outgoing: Outgoing)
    ensures
        match event {
            Event::Dialed => event@ == EventView::Dialed,
            Event::DialFailed(e) => event@ == EventView::DialFailed(e@),
            Event::TimedOut => event@ == EventView::TimedOut,
            Event::Message { msg_type, payload } => event@ == EventView::Message {
                msg_type,
                payload: payload@,
            },
            Event::ReadFailed(e) => event@ == EventView::ReadFailed(e@),
            Event::SendFailed(e) => event@ == EventView::SendFailed(e@),
            Event::HandshakeDecoded(r) => event@ == EventView::HandshakeDecoded(
                match r {
                    Ok(v) => Ok(v@),
                    Err(e) => Err(e@),
                },
            ),
            Event::ResponseDecoded(r) => event@ == EventView::ResponseDecoded(
                match r {
                    Ok(v) => Ok(v@),
                    Err(e) => Err(e@),
                },
            ),
            Event::SchemaDecoded(r) => event@ == EventView::SchemaDecoded(
                match r {
                    Ok(v) => Ok(v@),
                    Err(e) => Err(e@),
                },
            ),
            Event::ChunkDecoded(r) => event@ == EventView::ChunkDecoded(
                match r {
                    Ok(v) => Ok(v@),
                    Err(e) => Err(e@),
                },
            ),
            Event::StreamEndDecoded(r) => event@ == EventView::StreamEndDecoded(
                match r {
                    Ok(v) => Ok(v@),
                    Err(e) => Err(e@),
                },
            ),
        },
        match action {
            Action::Dial { timeout } => action@ == ActionView::Dial { timeout: timeout@ },
            Action::Send { msg_type, body } => action@ == ActionView::Send { msg_type, body: body@ },
            Action::Read { timeout } => action@ == ActionView::Read { timeout: timeout@ },
            Action::DecodeHandshake(p) => action@ == ActionView::DecodeHandshake(p@),
            Action::DecodeResponse(p) => action@ == ActionView::DecodeResponse(p@),
            Action::DecodeSchema(p) => action@ == ActionView::DecodeSchema(p@),
            Action::DecodeChunk(p) => action@ == ActionView::DecodeChunk(p@),
            Action::DecodeStreamEnd(p) => action@ == ActionView::DecodeStreamEnd(p@),
            Action::KeepStream => action@ == ActionView::KeepStream,
            Action::DropStream => action@ == ActionView::DropStream,
            Action::Finish(r) => action@ == ActionView::Finish(
                match r {
                    Ok(a) => Ok(a@),
                    Err(e) => Err(e@),
                },
            ),
        },
        match goal {
            Goal::Connect => goal@ == GoalView::Connect,
            Goal::Call(q) => goal@ == GoalView::Call(q@),
            Goal::Stream(q) => goal@ == GoalView::Stream(q@),
            Goal::Schema => goal@ == GoalView::Schema,
        },
        match answer {
            Answer::Connected => answer@ == AnswerView::Connected,
            Answer::Response(r) => answer@ == AnswerView::Response(r@),
            Answer::Messages(m) => answer@ == AnswerView::Messages(streaming::message_views(m@)),
            Answer::Schema(s) => answer@ == AnswerView::Schema(s@),
        },
        match outgoing {
            Outgoing::Empty => outgoing@ == OutgoingView::Empty,
            Outgoing::Handshake(q) => outgoing@ == OutgoingView::Handshake(q@),
            Outgoing::Request(q) => outgoing@ == OutgoingView::Request(q@),
        },
{
}

/// A call goes out for the service, the method and the payload that were asked for: at
/// once on a connection that is kept, and after dialing otherwise.
pub proof fn law_call_asks_for_what_was_asked(
    c: &mut UdsClient,
    service: &str,
    method: &str,
    payload: Value,
    first: Vec<Action>,
)
    requires
        call_ensures(UdsClient::call, (c, service, method, payload), first),
    ensures
        old(c)@.has_stream ==> {
            &&& first@.len() == 2
            &&& first@[0] matches Action::Send { msg_type: 0x10, body: Outgoing::Request(q) }
            &&& q.service_name@ == service@ && q.method@ == method@ && q.payload@ == payload@
            &&& q.topic is None
            &&& first@[1] matches Action::Read { timeout } && timeout@ == old(c)@.request_timeout
        },
        !old(c)@.has_stream ==> {
            &&& first@.len() == 1
            &&& first@[0] matches Action::Dial { timeout } && timeout@ == old(c)@.connect_timeout
            &&& final(c)@.goal matches GoalView::Call(q) && q.service_name == service@ && q.method
                == method@ && q.payload == payload@
        },
{
    actions::law_views_keep_the_order(first@, 0);
    actions::law_views_keep_the_order(first@, 1);
}

/// A streaming call goes out for the service and the method that were asked for, and its
/// payload names the mode.
pub proof fn law_streaming_call_names_its_mode(
    c: &mut UdsClient,
    service: &str,
    method: &str,
    payload: Value,
    mode: StreamMode,
    first: Vec<Action>,
)
    requires
        call_ensures(UdsClient::call_streaming, (c, service, method, payload, mode), first),
        payload@ is Null || payload@ is Object,
        old(c)@.has_stream,
    ensures
        first@.len() == 2,
        first@[0] matches Action::Send { msg_type: 0x12, body: Outgoing::Request(q) }
            && q.service_name@ == service@ && q.method@ == method@ && q.payload@.field(
            "stream_mode"@,
        ) == Some(Json::String(mode.label())),
        final(c)@.collected.len() == 0,
        final(c)@.phase == Phase::AwaitingReply,
{
    actions::law_views_keep_the_order(first@, 0);
    reveal_strlit("");
    reveal_strlit("stream_mode");
    assert(""@.len() != "stream_mode"@.len());
    law_mode_is_written_into_the_payload(payload@, mode, ""@);
}

/// A response that was decoded is the answer, and the pieces of a stream that were
/// collected are, unless its end tells of an error.
pub proof fn law_decoded_answers_are_handed_over(
    a: &mut UdsClient,
    response: ServiceResponse,
    first: Vec<Action>,
    b: &mut UdsClient,
    end: StreamResponse,
    second: Vec<Action>,
)
    requires
        call_ensures(UdsClient::step, (a, Event::ResponseDecoded(Ok(response))), first),
        call_ensures(UdsClient::step, (b, Event::StreamEndDecoded(Ok(end))), second),
        old(a)@.phase == Phase::DecodingReply,
        old(b)@.phase == Phase::DecodingReply,
        forall|rest: Seq<char>| end.status@ != #[trigger] ("error"@ + rest),
    ensures
        first@.len() == 1,
        first@[0] matches Action::Finish(Ok(Answer::Response(given))) && given@ == response@,
        final(a)@.has_stream == old(a)@.has_stream,
        second@.len() == 1,
        second@[0] matches Action::Finish(Ok(Answer::Messages(given)))
            && streaming::message_views(given@) == old(b)@.collected,
        final(b)@.has_stream == old(b)@.has_stream,
{
    actions::law_views_keep_the_order(first@, 0);
    actions::law_views_keep_the_order(second@, 0);
    text::law_begins_with_a_prefix(end.status@, "error"@);
}

/// A client that is closed gives up its connection and its session.
pub proof fn law_closing_gives_up_the_connection(c: &mut UdsClient, action: Action)
    requires
        call_ensures(UdsClient::close, (c,), action),
    ensures
        action is DropStream,
        !final(c)@.connected,
        !final(c)@.has_stream,
        final(c)@.session_id is None,
        final(c)@.phase == Phase::Ready,
        final(c)@.path == old(c)@.path,
        final(c)@.request_timeout == old(c)@.request_timeout,
{
}

/// A client tells whether it is connected and in which session, and waits as long as it
/// is told.
pub proof fn law_client_tells_how_it_stands(
    c: UdsClient,
    connected: bool,
    timeout: Duration,
    a: UdsClient,
    b: UdsClient,
)
    requires
        call_ensures(UdsClient::is_connected, (&c,), connected),
        call_ensures(UdsClient::with_connect_timeout, (c, timeout), a),
        call_ensures(UdsClient::with_request_timeout, (c, timeout), b),
    ensures
        connected == c@.connected,
        a@.connect_timeout == timeout@ && a@.request_timeout == c@.request_timeout && a@.path
            == c@.path,
        b@.request_timeout == timeout@ && b@.connect_timeout == c@.connect_timeout && b@.path
            == c@.path,
{
}

} // verus!
