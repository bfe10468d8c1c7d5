//! The server and the client on TCP, which do without timeouts.

use crate::actions;
use crate::actions::{both, just, nothing};
use crate::client;
use crate::error::{ErrorView, ProtocolError};
use crate::json::Value;
use crate::protocol;
use crate::protocol::{
    HandshakeRequest, HandshakeRequestView, HandshakeResponse, HandshakeResponseView, RequestView,
    ResponseView, ServiceRequest, ServiceResponse,
};
use crate::server;
use crate::server::{Action, ActionView, Body, BodyView, Event, EventView};
use crate::wire::{
    MSG_CLOSE, MSG_HANDSHAKE, MSG_HANDSHAKE_ACK, MSG_PING, MSG_PONG, MSG_REQUEST, MSG_RESPONSE,
};
use vstd::prelude::*;

verus! {

#[derive(Debug)]
pub struct TcpServer {
    addr: String,
}

impl View for TcpServer {
    type V = Seq<char>;

    /// The address that the server listens on.
    closed spec fn view(&self) -> Seq<char> {
        self.addr@
    }
}

impl TcpServer {
    pub fn new(addr: &str) -> (r: TcpServer)
        ensures
            r@ == addr@,
    {
        TcpServer { addr: addr.to_string() }
    }

    pub fn addr(&self) -> (r: &str)
        ensures
            r@ == self@,
    {
        self.addr.as_str()
    }
}

/// Where a connection stands.
#[derive(Debug, Clone, Copy, PartialEq, Eq, Structural)]
pub enum ServerPhase {
    /// Waiting for the first message.
    Opening,
    DecodingHandshake,
    /// Waiting for the service's answer to the handshake.
    Greeting,
    /// Waiting for a message.
    Idle,
    DecodingRequest,
    /// Waiting for the service's response.
    Handling,
    Closed,
}

/// A connection of a server, from the handshake on.
#[derive(Debug)]
pub struct TcpConnection {
    phase: ServerPhase,
}

impl View for TcpConnection {
    type V = ServerPhase;

    closed spec fn view(&self) -> ServerPhase {
        self.phase
    }
}

/// Closes a connection with a result.
pub open spec fn finished(result: Result<(), ErrorView>) -> (ServerPhase, Seq<ActionView>) {
    (ServerPhase::Closed, seq![ActionView::Finish(result)])
}

/// What comes of a message on a connection that waits for one.
pub open spec fn on_message(msg_type: u8, payload: Seq<u8>) -> (ServerPhase, Seq<ActionView>) {
    if msg_type == MSG_REQUEST {
        (ServerPhase::DecodingRequest, seq![ActionView::DecodeRequest(payload)])
    } else if msg_type == MSG_PING {
        (
            ServerPhase::Idle,
            seq![
                ActionView::Send { msg_type: MSG_PONG, body: BodyView::Empty },
                ActionView::ReadFirst,
            ],
        )
    } else if msg_type == MSG_CLOSE {
        finished(Ok(()))
    } else {
        (ServerPhase::Idle, seq![ActionView::ReadFirst])
    }
}

/// A connection after an event, and what to do. An event that the connection is
/// not waiting for changes nothing.
pub open spec fn server_step(phase: ServerPhase, event: EventView) -> (
    ServerPhase,
    Seq<ActionView>,
) {
    match (phase, event) {
        (ServerPhase::Closed, _) => (phase, Seq::empty()),
        (_, EventView::SendFailed(e)) => finished(Err(e)),
        (ServerPhase::Opening, EventView::Message { msg_type, payload }) => if msg_type
            != MSG_HANDSHAKE {
            finished(Err(ErrorView::Protocol("expected handshake"@)))
        } else {
            (ServerPhase::DecodingHandshake, seq![ActionView::DecodeHandshake(payload)])
        },
        (ServerPhase::Opening, EventView::ReadFailed(e)) => finished(Err(e)),
        (ServerPhase::DecodingHandshake, EventView::HandshakeDecoded(Ok(request))) => (
            ServerPhase::Greeting,
            seq![ActionView::Greet(request)],
        ),
        (ServerPhase::DecodingHandshake, EventView::HandshakeDecoded(Err(e))) => finished(
            Err(ErrorView::Encoding(e)),
        ),
        (ServerPhase::Greeting, EventView::Greeted(response)) => (
            ServerPhase::Idle,
            seq![
                ActionView::Send {
                    msg_type: MSG_HANDSHAKE_ACK,
                    body: BodyView::Handshake(response),
                },
                ActionView::ReadFirst,
            ],
        ),
        (ServerPhase::Idle, EventView::Message { msg_type, payload }) => on_message(
            msg_type,
            payload,
        ),
        (ServerPhase::Idle, EventView::ReadFailed(e)) => if e is ConnectionClosed {
            finished(Ok(()))
        } else {
            (phase, seq![ActionView::ReadFirst])
        },
        (ServerPhase::DecodingRequest, EventView::RequestDecoded(Ok(request))) => (
            ServerPhase::Handling,
            seq![ActionView::Handle(request)],
        ),
        (ServerPhase::DecodingRequest, EventView::RequestDecoded(Err(e))) => finished(
            Err(ErrorView::Encoding(e)),
        ),
        (ServerPhase::Handling, EventView::Handled(response)) => (
            ServerPhase::Idle,
            seq![
                ActionView::Send { msg_type: MSG_RESPONSE, body: BodyView::Response(response) },
                ActionView::ReadFirst,
            ],
        ),
        _ => (phase, Seq::empty()),
    }
}

impl TcpConnection {
    /// A connection that was just accepted. The first thing to do is to read a
    /// message.
    pub fn new() -> (r: TcpConnection)
        ensures
            r@ == ServerPhase::Opening,
    {
        TcpConnection { phase: ServerPhase::Opening }
    }

    pub fn phase(&self) -> (r: ServerPhase)
        ensures
            r == self@,
    {
        self.phase
    }

    fn finish(&mut self, result: Result<(), ProtocolError>) -> (r: Vec<Action>)
        ensures
            (final(self)@, actions::views(r@)) == finished(
                match result {
                    Ok(()) => Ok(()),
                    Err(e) => Err(e@),
                },
            ),
    {
        self.phase = ServerPhase::Closed;
        just(Action::Finish(result))
    }

    fn on_message(&mut self, msg_type: u8, payload: Vec<u8>) -> (r: Vec<Action>)
        ensures
            (final(self)@, actions::views(r@)) == on_message(msg_type, payload@),
    {
        self.phase = ServerPhase::Idle;
        if msg_type == MSG_REQUEST {
            self.phase = ServerPhase::DecodingRequest;
            just(Action::DecodeRequest(payload))
        } else if msg_type == MSG_PING {
            both(
                Action::Send { msg_type: MSG_PONG, body: Body::Empty },
                Action::ReadFirst,
            )
        } else if msg_type == MSG_CLOSE {
            self.finish(Ok(()))
        } else {
            just(Action::ReadFirst)
        }
    }

    /// Takes note of an event, and says what to do: the actions are performed in
    /// order, up to the first message that cannot be sent.
    pub fn step(&mut self, event: Event) -> (r: Vec<Action>)
        ensures
            final(self)@ == server_step(old(self)@, event@).0,
            actions::views(r@) == server_step(old(self)@, event@).1,
    {
        match (self.phase, event) {
            (ServerPhase::Closed, _) => nothing(),
            (_, Event::SendFailed(e)) => self.finish(Err(e)),
            (ServerPhase::Opening, Event::Message { msg_type, payload }) => {
                if msg_type != MSG_HANDSHAKE {
                    return self.finish(
                        Err(ProtocolError::Protocol("expected handshake".to_string())),
                    );
                }
                self.phase = ServerPhase::DecodingHandshake;
                just(Action::DecodeHandshake(payload))
            },
            (ServerPhase::Opening, Event::ReadFailed(e)) => self.finish(Err(e)),
            (ServerPhase::DecodingHandshake, Event::HandshakeDecoded(decoded)) => match decoded {
                Ok(request) => {
                    self.phase = ServerPhase::Greeting;
                    just(Action::Greet(request))
                },
                Err(e) => self.finish(Err(ProtocolError::Encoding(e))),
            },
            (ServerPhase::Greeting, Event::Greeted(response)) => {
                self.phase = ServerPhase::Idle;
                both(
                    Action::Send { msg_type: MSG_HANDSHAKE_ACK, body: Body::Handshake(response) },
                    Action::ReadFirst,
                )
            },
            (ServerPhase::Idle, Event::Message { msg_type, payload }) => self.on_message(
                msg_type,
                payload,
            ),
            (ServerPhase::Idle, Event::ReadFailed(e)) => match e {
                ProtocolError::ConnectionClosed => self.finish(Ok(())),
                _ => just(Action::ReadFirst),
            },
            (ServerPhase::DecodingRequest, Event::RequestDecoded(decoded)) => match decoded {
                Ok(request) => {
                    self.phase = ServerPhase::Handling;
                    just(Action::Handle(request))
                },
                Err(e) => self.finish(Err(ProtocolError::Encoding(e))),
            },
            (ServerPhase::Handling, Event::Handled(response)) => {
                self.phase = ServerPhase::Idle;
                both(
                    Action::Send { msg_type: MSG_RESPONSE, body: Body::Response(response) },
                    Action::ReadFirst,
                )
            },
            _ => nothing(),
        }
    }
}

/// A request that was decoded goes to the service as it is, and the service's
/// response to the client as it was given.
pub proof fn law_request_is_answered(request: RequestView, response: ResponseView)
    ensures
        server_step(ServerPhase::DecodingRequest, EventView::RequestDecoded(Ok(request))).1
            == seq![ActionView::Handle(request)],
        server_step(ServerPhase::Handling, EventView::Handled(response)) == (
            ServerPhase::Idle,
            seq![
                ActionView::Send { msg_type: MSG_RESPONSE, body: BodyView::Response(response) },
                ActionView::ReadFirst,
            ],
        ),
{
}

/// Nothing is done on a connection that was closed, and it stays closed.
pub proof fn law_closed_is_final(event: EventView)
    ensures
        server_step(ServerPhase::Closed, event) == (
            ServerPhase::Closed,
            Seq::<ActionView>::empty(),
        ),
{
}

/// A connection begins with a handshake or ends.
pub proof fn law_first_message_is_a_handshake(msg_type: u8, payload: Seq<u8>)
    requires
        msg_type != MSG_HANDSHAKE,
    ensures
        server_step(ServerPhase::Opening, EventView::Message { msg_type, payload }) == finished(
            Err(ErrorView::Protocol("expected handshake"@)),
        ),
{
}

/// What to do for a client.
#[derive(Debug)]
pub enum ClientAction {
    /// Open a connection.
    Dial,
    /// Send a handshake on the connection that was opened last.
    SendHandshake(HandshakeRequest),
    SendRequest(ServiceRequest),
    Read,
    DecodeHandshake(Vec<u8>),
    DecodeResponse(Vec<u8>),
    /// Keep the connection that was opened last for later.
    KeepStream,
    /// Close the connection that was kept.
    DropStream,
    /// Nothing more to do; a response if one was asked for.
    Finish(Result<Option<ServiceResponse>, ProtocolError>),
}

/// The mathematical model of a [`ClientAction`].
pub enum ClientActionView {
    Dial,
    SendHandshake(HandshakeRequestView),
    SendRequest(RequestView),
    Read,
    DecodeHandshake(Seq<u8>),
    DecodeResponse(Seq<u8>),
    KeepStream,
    DropStream,
    Finish(Result<Option<ResponseView>, ErrorView>),
}

impl View for ClientAction {
    type V = ClientActionView;

    open spec fn view(&self) -> ClientActionView {
        match *self {
            ClientAction::Dial => ClientActionView::Dial,
            ClientAction::SendHandshake(q) => ClientActionView::SendHandshake(q@),
            ClientAction::SendRequest(q) => ClientActionView::SendRequest(q@),
            ClientAction::Read => ClientActionView::Read,
            ClientAction::DecodeHandshake(p) => ClientActionView::DecodeHandshake(p@),
            ClientAction::DecodeResponse(p) => ClientActionView::DecodeResponse(p@),
            ClientAction::KeepStream => ClientActionView::KeepStream,
            ClientAction::DropStream => ClientActionView::DropStream,
            ClientAction::Finish(r) => ClientActionView::Finish(
                match r {
                    Ok(Some(v)) => Ok(Some(v@)),
                    Ok(None) => Ok(None),
                    Err(e) => Err(e@),
                },
            ),
        }
    }
}

/// What happened to a client.
#[derive(Debug)]
pub enum ClientEvent {
    Dialed,
    DialFailed(ProtocolError),
    Message { msg_type: u8, payload: Vec<u8> },
    ReadFailed(ProtocolError),
    /// A message could not be sent. The actions after it were not performed.
    SendFailed(ProtocolError),
    HandshakeDecoded(Result<HandshakeResponse, String>),
    ResponseDecoded(Result<ServiceResponse, String>),
}

/// The mathematical model of a [`ClientEvent`].
pub enum ClientEventView {
    Dialed,
    DialFailed(ErrorView),
    Message { msg_type: u8, payload: Seq<u8> },
    ReadFailed(ErrorView),
    SendFailed(ErrorView),
    HandshakeDecoded(Result<HandshakeResponseView, Seq<char>>),
    ResponseDecoded(Result<ResponseView, Seq<char>>),
}

impl View for ClientEvent {
    type V = ClientEventView;

    open spec fn view(&self) -> ClientEventView {
        match *self {
            ClientEvent::Dialed => ClientEventView::Dialed,
            ClientEvent::DialFailed(e) => ClientEventView::DialFailed(e@),
            ClientEvent::Message { msg_type, payload } => ClientEventView::Message {
                msg_type,
                payload: payload@,
            },
            ClientEvent::ReadFailed(e) => ClientEventView::ReadFailed(e@),
            ClientEvent::SendFailed(e) => ClientEventView::SendFailed(e@),
            ClientEvent::HandshakeDecoded(r) => ClientEventView::HandshakeDecoded(
                match r {
                    Ok(v) => Ok(v@),
                    Err(e) => Err(e@),
                },
            ),
            ClientEvent::ResponseDecoded(r) => ClientEventView::ResponseDecoded(
                match r {
                    Ok(v) => Ok(v@),
                    Err(e) => Err(e@),
                },
            ),
        }
    }
}

/// Where a client stands.
#[derive(Debug, Clone, Copy, PartialEq, Eq, Structural)]
pub enum ClientPhase {
    /// Nothing is being done.
    Ready,
    /// Waiting for the connection on which the handshake is made.
    Dialing,
    AwaitingAck,
    DecodingAck,
    /// Waiting for the connection on which calls are made.
    Redialing,
    /// Waiting for whatever the server says to the handshake of a call.
    AwaitingGreeting,
    AwaitingReply,
    DecodingReply,
}

/// A client on TCP. It makes a handshake on one connection, and its calls on
/// another.
#[derive(Debug)]
pub struct TcpClient {
    addr: String,
    connected: bool,
    session_id: Option<String>,
    has_stream: bool,
    pending: Option<ServiceRequest>,
    phase: ClientPhase,
}

/// The mathematical model of a [`TcpClient`].
pub struct TcpClientView {
    pub addr: Seq<char>,
    pub connected: bool,
    pub session_id: Option<Seq<char>>,
    /// Whether a connection for calls is kept.
    pub has_stream: bool,
    /// The request that is to be sent.
    pub pending: Option<RequestView>,
    pub phase: ClientPhase,
}

impl View for TcpClient {
    type V = TcpClientView;

    closed spec fn view(&self) -> TcpClientView {
        TcpClientView {
            addr: self.addr@,
            connected: self.connected,
            session_id: protocol::opt_text(self.session_id),
            has_stream: self.has_stream,
            pending: match self.pending {
                Some(q) => Some(q@),
                None => None,
            },
            phase: self.phase,
        }
    }
}

/// The handshake that a client makes for a service.
pub open spec fn handshake_for(service_name: Seq<char>) -> HandshakeRequestView {
    HandshakeRequestView {
        client_id: "protocol-tcp-client"@,
        service_name,
        capabilities: seq!["json"@],
    }
}

impl TcpClientView {
    pub open spec fn fresh(addr: Seq<char>) -> TcpClientView {
        TcpClientView {
            addr,
            connected: false,
            session_id: None,
            has_stream: false,
            pending: None,
            phase: ClientPhase::Ready,
        }
    }

    pub open spec fn at(self, phase: ClientPhase) -> TcpClientView {
        TcpClientView { phase, ..self }
    }

    pub open spec fn done(self, result: Result<Option<ResponseView>, ErrorView>) -> (
        TcpClientView,
        Seq<ClientActionView>,
    ) {
        (
            TcpClientView { pending: None, phase: ClientPhase::Ready, ..self },
            seq![ClientActionView::Finish(result)],
        )
    }

    /// Sets out to connect.
    pub open spec fn connect(self) -> (TcpClientView, Seq<ClientActionView>) {
        (
            TcpClientView { pending: None, phase: ClientPhase::Dialing, ..self },
            seq![ClientActionView::Dial],
        )
    }

    /// Sets out to send a request: a client that is not connected connects first.
    pub open spec fn call(self, request: RequestView) -> (TcpClientView, Seq<ClientActionView>) {
        let set = TcpClientView { pending: Some(request), ..self };
        if self.connected {
            set.go_on()
        } else {
            (set.at(ClientPhase::Dialing), seq![ClientActionView::Dial])
        }
    }

    /// Begins a call with a handshake for its service.
    pub open spec fn go_on(self) -> (TcpClientView, Seq<ClientActionView>) {
        match self.pending {
            None => self.done(Ok(None)),
            Some(request) => if self.has_stream {
                (
                    self.at(ClientPhase::AwaitingGreeting),
                    seq![
                        ClientActionView::SendHandshake(handshake_for(request.service_name)),
                        ClientActionView::Read,
                    ],
                )
            } else {
                self.done(Err(ErrorView::ConnectionClosed))
            },
        }
    }

    pub open spec fn on_ack_decoded(self, decoded: Result<HandshakeResponseView, Seq<char>>) -> (
        TcpClientView,
        Seq<ClientActionView>,
    ) {
        match decoded {
            Ok(response) => if response.success {
                (
                    TcpClientView {
                        session_id: Some(response.session_id),
                        connected: true,
                        phase: ClientPhase::Redialing,
                        ..self
                    },
                    seq![ClientActionView::Dial],
                )
            } else {
                self.done(Err(ErrorView::Protocol("handshake rejected"@)))
            },
            Err(e) => self.done(Err(ErrorView::Encoding(e))),
        }
    }

    pub open spec fn on_redialed(self) -> (TcpClientView, Seq<ClientActionView>) {
        let (after, actions) = (TcpClientView { has_stream: true, ..self }).go_on();
        (after, seq![ClientActionView::KeepStream] + actions)
    }

    /// Whatever the server said to the handshake of a call, the request follows.
    pub open spec fn on_greeting(self) -> (TcpClientView, Seq<ClientActionView>) {
        match self.pending {
            Some(request) => (
                TcpClientView { pending: None, phase: ClientPhase::AwaitingReply, ..self },
                seq![ClientActionView::SendRequest(request), ClientActionView::Read],
            ),
            None => self.done(Ok(None)),
        }
    }

    pub open spec fn on_reply(self, msg_type: u8, payload: Seq<u8>) -> (
        TcpClientView,
        Seq<ClientActionView>,
    ) {
        if msg_type != MSG_RESPONSE {
            (TcpClientView { connected: false, ..self }).done(
                Err(ErrorView::Protocol("invalid response type"@)),
            )
        } else {
            (self.at(ClientPhase::DecodingReply), seq![ClientActionView::DecodeResponse(payload)])
        }
    }

    /// The client after an event, and what to do. An event that the client is not
    /// waiting for changes nothing.
    pub open spec fn step(self, event: ClientEventView) -> (TcpClientView, Seq<ClientActionView>) {
        match (self.phase, event) {
            (ClientPhase::Ready, _) => (self, Seq::empty()),
            (ClientPhase::Dialing, ClientEventView::Dialed) => (
                self.at(ClientPhase::AwaitingAck),
                seq![
                    ClientActionView::SendHandshake(handshake_for("client"@)),
                    ClientActionView::Read,
                ],
            ),
            (ClientPhase::Redialing, ClientEventView::Dialed) => self.on_redialed(),
            (_, ClientEventView::DialFailed(e)) => self.done(Err(e)),
            (_, ClientEventView::ReadFailed(e)) => self.done(Err(e)),
            (_, ClientEventView::SendFailed(e)) => self.done(Err(e)),
            (ClientPhase::AwaitingAck, ClientEventView::Message { msg_type, payload }) => {
                if msg_type != MSG_HANDSHAKE_ACK {
                    self.done(Err(ErrorView::Protocol("invalid handshake response"@)))
                } else {
                    (
                        self.at(ClientPhase::DecodingAck),
                        seq![ClientActionView::DecodeHandshake(payload)],
                    )
                }
            },
            (ClientPhase::DecodingAck, ClientEventView::HandshakeDecoded(decoded)) => {
                self.on_ack_decoded(decoded)
            },
            (ClientPhase::AwaitingGreeting, ClientEventView::Message { .. }) => self.on_greeting(),
            (ClientPhase::AwaitingReply, ClientEventView::Message { msg_type, payload }) => {
                self.on_reply(msg_type, payload)
            },
            (ClientPhase::DecodingReply, ClientEventView::ResponseDecoded(Ok(response))) => {
                self.done(Ok(Some(response)))
            },
            (ClientPhase::DecodingReply, ClientEventView::ResponseDecoded(Err(e))) => self.done(
                Err(ErrorView::Encoding(e)),
            ),
            _ => (self, Seq::empty()),
        }
    }
}

impl TcpClient {
    pub fn new(addr: &str) -> (r: TcpClient)
        ensures
            r@ == TcpClientView::fresh(addr@),
    {
        TcpClient {
            addr: addr.to_string(),
            connected: false,
            session_id: None,
            has_stream: false,
            pending: None,
            phase: ClientPhase::Ready,
        }
    }

    pub fn addr(&self) -> (r: &str)
        ensures
            r@ == self@.addr,
    {
        self.addr.as_str()
    }

    pub fn is_connected(&self) -> (r: bool)
        ensures
            r == self@.connected,
    {
        self.connected
    }

    pub fn phase(&self) -> (r: ClientPhase)
        ensures
            r == self@.phase,
    {
        self.phase
    }

    fn done(&mut self, result: Result<Option<ServiceResponse>, ProtocolError>) -> (r: Vec<
        ClientAction,
    >)
        ensures
            (final(self)@, actions::views(r@)) == old(self)@.done(
                match result {
                    Ok(Some(v)) => Ok(Some(v@)),
                    Ok(None) => Ok(None),
                    Err(e) => Err(e@),
                },
            ),
    {
        self.pending = None;
        self.phase = ClientPhase::Ready;
        just(ClientAction::Finish(result))
    }

    fn go_on(&mut self) -> (r: Vec<ClientAction>)
        ensures
            (final(self)@, actions::views(r@)) == old(self)@.go_on(),
    {
        let service_name = match &self.pending {
            None => {
                return self.done(Ok(None));
            },
            Some(request) => request.service_name.clone(),
        };
        if self.has_stream {
            self.phase = ClientPhase::AwaitingGreeting;
            both(
                ClientAction::SendHandshake(
                    HandshakeRequest::from_client("protocol-tcp-client", service_name.as_str()),
                ),
                ClientAction::Read,
            )
        } else {
            self.done(Err(ProtocolError::ConnectionClosed))
        }
    }

    /// Sets out to connect, and says what to do.
    pub fn connect(&mut self) -> (r: Vec<ClientAction>)
        ensures
            final(self)@ == old(self)@.connect().0,
            actions::views(r@) == old(self)@.connect().1,
    {
        self.pending = None;
        self.phase = ClientPhase::Dialing;
        just(ClientAction::Dial)
    }

    /// Sets out to send a request, and says what to do.
    pub fn begin_call(&mut self, request: ServiceRequest) -> (r: Vec<ClientAction>)
        ensures
            final(self)@ == old(self)@.call(request@).0,
            actions::views(r@) == old(self)@.call(request@).1,
    {
        self.pending = Some(request);
        if self.connected {
            self.go_on()
        } else {
            self.phase = ClientPhase::Dialing;
            just(ClientAction::Dial)
        }
    }

    /// Sets out to call a method of a service.
    pub fn call(&mut self, service: &str, method: &str, payload: Value) -> (r: Vec<ClientAction>)
        ensures
            exists|q: RequestView|
                #[trigger] client::is_new_request(q, service@, method@, payload@) && (
                    final(self)@,
                    actions::views(r@),
                ) == old(self)@.call(q),
    {
        let request = ServiceRequest::new(service, method, payload);
        assert(client::is_new_request(request@, service@, method@, payload@));
        self.begin_call(request)
    }

    /// Gives up the connection and the session.
    pub fn close(&mut self) -> (r: ClientAction)
        ensures
            final(self)@ == (TcpClientView {
                connected: false,
                session_id: None,
                has_stream: false,
                phase: ClientPhase::Ready,
                ..old(self)@
            }),
            r@ == ClientActionView::DropStream,
    {
        self.connected = false;
        self.session_id = None;
        self.has_stream = false;
        self.phase = ClientPhase::Ready;
        ClientAction::DropStream
    }

    fn on_ack_decoded(&mut self, decoded: Result<HandshakeResponse, String>) -> (r: Vec<
        ClientAction,
    >)
        ensures
            (final(self)@, actions::views(r@)) == old(self)@.on_ack_decoded(
                match decoded {
                    Ok(v) => Ok(v@),
                    Err(e) => Err(e@),
                },
            ),
    {
        match decoded {
            Ok(response) => {
                if !response.success {
                    return self.done(
                        Err(ProtocolError::Protocol("handshake rejected".to_string())),
                    );
                }
                self.session_id = Some(response.session_id);
                self.connected = true;
                self.phase = ClientPhase::Redialing;
                just(ClientAction::Dial)
            },
            Err(e) => self.done(Err(ProtocolError::Encoding(e))),
        }
    }

    fn on_greeting(&mut self) -> (r: Vec<ClientAction>)
        ensures
            (final(self)@, actions::views(r@)) == old(self)@.on_greeting(),
    {
        match self.pending.take() {
            Some(request) => {
                self.phase = ClientPhase::AwaitingReply;
                both(ClientAction::SendRequest(request), ClientAction::Read)
            },
            None => self.done(Ok(None)),
        }
    }

    fn on_reply(&mut self, msg_type: u8, payload: Vec<u8>) -> (r: Vec<ClientAction>)
        ensures
            (final(self)@, actions::views(r@)) == old(self)@.on_reply(msg_type, payload@),
    {
        if msg_type != MSG_RESPONSE {
            self.connected = false;
            return self.done(Err(ProtocolError::Protocol("invalid response type".to_string())));
        }
        self.phase = ClientPhase::DecodingReply;
        just(ClientAction::DecodeResponse(payload))
    }

    /// Takes note of an event, and says what to do: the actions are performed in
    /// order, up to the first message that cannot be sent.
    pub fn step(&mut self, event: ClientEvent) -> (r: Vec<ClientAction>)
        ensures
            final(self)@ == old(self)@.step(event@).0,
            actions::views(r@) == old(self)@.step(event@).1,
    {
        match (self.phase, event) {
            (ClientPhase::Ready, _) => nothing(),
            (ClientPhase::Dialing, ClientEvent::Dialed) => {
                self.phase = ClientPhase::AwaitingAck;
                both(
                    ClientAction::SendHandshake(
                        HandshakeRequest::from_client("protocol-tcp-client", "client"),
                    ),
                    ClientAction::Read,
                )
            },
            (ClientPhase::Redialing, ClientEvent::Dialed) => {
                self.has_stream = true;
                let mut rest = self.go_on();
                let ghost more = actions::views(rest@);
                let mut actions = just(ClientAction::KeepStream);
                actions.append(&mut rest);
                assert(actions::views(actions@) =~= seq![ClientActionView::KeepStream] + more);
                actions
            },
            (_, ClientEvent::DialFailed(e)) => self.done(Err(e)),
            (_, ClientEvent::ReadFailed(e)) => self.done(Err(e)),
            (_, ClientEvent::SendFailed(e)) => self.done(Err(e)),
            (ClientPhase::AwaitingAck, ClientEvent::Message { msg_type, payload }) => {
                if msg_type != MSG_HANDSHAKE_ACK {
                    return self.done(
                        Err(ProtocolError::Protocol("invalid handshake response".to_string())),
                    );
                }
                self.phase = ClientPhase::DecodingAck;
                just(ClientAction::DecodeHandshake(payload))
            },
            (ClientPhase::DecodingAck, ClientEvent::HandshakeDecoded(decoded)) => {
                self.on_ack_decoded(decoded)
            },
            (ClientPhase::AwaitingGreeting, ClientEvent::Message { .. }) => self.on_greeting(),
            (ClientPhase::AwaitingReply, ClientEvent::Message { msg_type, payload }) => {
                self.on_reply(msg_type, payload)
            },
            (ClientPhase::DecodingReply, ClientEvent::ResponseDecoded(decoded)) => match decoded {
                Ok(response) => self.done(Ok(Some(response))),
                Err(e) => self.done(Err(ProtocolError::Encoding(e))),
            },
            _ => nothing(),
        }
    }
}

/// A call of a connected client makes a handshake for its service, sends the
/// request and hands over the response.
pub proof fn law_call_runs_through(
    c: TcpClientView,
    request: RequestView,
    greeting_type: u8,
    greeting: Seq<u8>,
    payload: Seq<u8>,
    response: ResponseView,
)
    requires
        c.connected,
        c.has_stream,
    ensures
        ({
            let (c1, a1) = c.call(request);
            let (c2, a2) = c1.step(
                ClientEventView::Message { msg_type: greeting_type, payload: greeting },
            );
            let (c3, a3) = c2.step(ClientEventView::Message { msg_type: MSG_RESPONSE, payload });
            let (c4, a4) = c3.step(ClientEventView::ResponseDecoded(Ok(response)));
            &&& a1 == seq![
                ClientActionView::SendHandshake(handshake_for(request.service_name)),
                ClientActionView::Read,
            ]
            &&& a2 == seq![ClientActionView::SendRequest(request), ClientActionView::Read]
            &&& a3 == seq![ClientActionView::DecodeResponse(payload)]
            &&& a4 == seq![ClientActionView::Finish(Ok(Some(response)))]
            &&& c4.connected
        }),
{
}

/// After a reply of the wrong type the next call connects anew.
pub proof fn law_wrong_reply_reconnects(
    c: TcpClientView,
    msg_type: u8,
    payload: Seq<u8>,
    request: RequestView,
)
    requires
        c.phase == ClientPhase::AwaitingReply,
        msg_type != MSG_RESPONSE,
    ensures
        c.step(ClientEventView::Message { msg_type, payload }).0.call(request).1 == seq![
            ClientActionView::Dial,
        ],
{
}

/// A connection of a server begins with a handshake, which goes to the service as it
/// came; the service's answer goes to the client as it was given. A connection that
/// does not get so far ends with the reason.
pub proof fn law_handshake_is_answered(
    payload: Seq<u8>,
    msg_type: u8,
    handshake: HandshakeRequestView,
    answer: HandshakeResponseView,
    e: ErrorView,
    why: Seq<char>,
)
    ensures
        ({
            let (s1, a1) = server_step(
                ServerPhase::Opening,
                EventView::Message { msg_type: MSG_HANDSHAKE, payload },
            );
            let (s2, a2) = server_step(s1, EventView::HandshakeDecoded(Ok(handshake)));
            let (s3, a3) = server_step(s2, EventView::Greeted(answer));
            &&& a1 == seq![ActionView::DecodeHandshake(payload)]
            &&& a2 == seq![ActionView::Greet(handshake)]
            &&& a3 == seq![
                ActionView::Send {
                    msg_type: MSG_HANDSHAKE_ACK,
                    body: BodyView::Handshake(answer),
                },
                ActionView::ReadFirst,
            ]
            &&& s3 == ServerPhase::Idle
            &&& server_step(s1, EventView::HandshakeDecoded(Err(why))) == (
                ServerPhase::Closed,
                seq![ActionView::Finish(Err(ErrorView::Encoding(why)))],
            )
        }),
        server_step(ServerPhase::Opening, EventView::ReadFailed(e)) == (
            ServerPhase::Closed,
            seq![ActionView::Finish(Err(e))],
        ),
        msg_type != MSG_HANDSHAKE ==> server_step(
            ServerPhase::Opening,
            EventView::Message { msg_type, payload },
        ) == (
            ServerPhase::Closed,
            seq![ActionView::Finish(Err(ErrorView::Protocol("expected handshake"@)))],
        ),
{
}

/// A request goes to the service as it came, and the response of the service to the
/// client as it was given; then the connection waits for the next message. A request
/// that cannot be decoded ends it.
pub proof fn law_call_is_served(
    payload: Seq<u8>,
    request: RequestView,
    response: ResponseView,
    why: Seq<char>,
)
    ensures
        ({
            let (s1, a1) = server_step(
                ServerPhase::Idle,
                EventView::Message { msg_type: MSG_REQUEST, payload },
            );
            let (s2, a2) = server_step(s1, EventView::RequestDecoded(Ok(request)));
            let (s3, a3) = server_step(s2, EventView::Handled(response));
            &&& a1 == seq![ActionView::DecodeRequest(payload)]
            &&& a2 == seq![ActionView::Handle(request)]
            &&& a3 == seq![
                ActionView::Send { msg_type: MSG_RESPONSE, body: BodyView::Response(response) },
                ActionView::ReadFirst,
            ]
            &&& s3 == ServerPhase::Idle
            &&& server_step(s1, EventView::RequestDecoded(Err(why))) == (
                ServerPhase::Closed,
                seq![ActionView::Finish(Err(ErrorView::Encoding(why)))],
            )
        }),
{
}

/// An idle connection answers a ping with a pong, ends in peace when the client closes
/// it or is gone, reads on after any other failure to read, and passes over messages
/// of other types. What cannot be sent ends any connection with that error.
pub proof fn law_idle_connection_answers(
    phase: ServerPhase,
    msg_type: u8,
    payload: Seq<u8>,
    e: ErrorView,
)
    ensures
        ({
            let got = server_step(ServerPhase::Idle, EventView::Message { msg_type, payload });
            if msg_type == MSG_PING {
                got == (
                    ServerPhase::Idle,
                    seq![
                        ActionView::Send { msg_type: MSG_PONG, body: BodyView::Empty },
                        ActionView::ReadFirst,
                    ],
                )
            } else if msg_type == MSG_CLOSE {
                got == (ServerPhase::Closed, seq![ActionView::Finish(Ok(()))])
            } else {
                msg_type != MSG_REQUEST ==> got == (ServerPhase::Idle, seq![ActionView::ReadFirst])
            }
        }),
        server_step(ServerPhase::Idle, EventView::ReadFailed(ErrorView::ConnectionClosed)) == (
            ServerPhase::Closed,
            seq![ActionView::Finish(Ok(()))],
        ),
        e != ErrorView::ConnectionClosed ==> server_step(
            ServerPhase::Idle,
            EventView::ReadFailed(e),
        ) == (ServerPhase::Idle, seq![ActionView::ReadFirst]),
        phase != ServerPhase::Closed ==> server_step(phase, EventView::SendFailed(e)) == (
            ServerPhase::Closed,
            seq![ActionView::Finish(Err(e))],
        ),
{
}

/// Whatever a connection is not waiting for changes nothing.
pub proof fn law_connection_heeds_only_what_it_waits_for(phase: ServerPhase, event: EventView)
    requires
        !(event is SendFailed),
        phase == ServerPhase::Opening ==> !(event is Message || event is ReadFailed),
        phase == ServerPhase::DecodingHandshake ==> !(event is HandshakeDecoded),
        phase == ServerPhase::Greeting ==> !(event is Greeted),
        phase == ServerPhase::Idle ==> !(event is Message || event is ReadFailed),
        phase == ServerPhase::DecodingRequest ==> !(event is RequestDecoded),
        phase == ServerPhase::Handling ==> !(event is Handled),
    ensures
        server_step(phase, event) == (phase, Seq::<ActionView>::empty()),
{
}

/// The first call of a client makes a handshake on one connection and, once the server
/// has accepted it, opens another, on which it makes a handshake for its service,
/// sends its very request, and ends with the response of the server.
pub proof fn law_first_call_connects_and_is_answered(
    c: TcpClientView,
    request: RequestView,
    answered: Seq<u8>,
    welcome: HandshakeResponseView,
    greeting: Seq<u8>,
    greeting_type: u8,
    payload: Seq<u8>,
    response: ResponseView,
)
    requires
        !c.connected,
        welcome.success,
    ensures
        ({
            let (c1, a1) = c.call(request);
            let (c2, a2) = c1.step(ClientEventView::Dialed);
            let (c3, a3) = c2.step(
                ClientEventView::Message { msg_type: MSG_HANDSHAKE_ACK, payload: answered },
            );
            let (c4, a4) = c3.step(ClientEventView::HandshakeDecoded(Ok(welcome)));
            let (c5, a5) = c4.step(ClientEventView::Dialed);
            let (c6, a6) = c5.step(
                ClientEventView::Message { msg_type: greeting_type, payload: greeting },
            );
            let (c7, a7) = c6.step(ClientEventView::Message { msg_type: MSG_RESPONSE, payload });
            let (c8, a8) = c7.step(ClientEventView::ResponseDecoded(Ok(response)));
            &&& a1 == seq![ClientActionView::Dial]
            &&& a2 == seq![
                ClientActionView::SendHandshake(
                    HandshakeRequestView {
                        client_id: "protocol-tcp-client"@,
                        service_name: "client"@,
                        capabilities: seq!["json"@],
                    },
                ),
                ClientActionView::Read,
            ]
            &&& a3 == seq![ClientActionView::DecodeHandshake(answered)]
            &&& a4 == seq![ClientActionView::Dial]
            &&& a5 == seq![
                ClientActionView::KeepStream,
                ClientActionView::SendHandshake(
                    HandshakeRequestView {
                        client_id: "protocol-tcp-client"@,
                        service_name: request.service_name,
                        capabilities: seq!["json"@],
                    },
                ),
                ClientActionView::Read,
            ]
            &&& a6 == seq![ClientActionView::SendRequest(request), ClientActionView::Read]
            &&& a7 == seq![ClientActionView::DecodeResponse(payload)]
            &&& a8 == seq![ClientActionView::Finish(Ok(Some(response)))]
            &&& c8 == (TcpClientView {
                connected: true,
                has_stream: true,
                session_id: Some(welcome.session_id),
                pending: None,
                phase: ClientPhase::Ready,
                ..c
            })
        }),
{
    let c5 = c.call(request).0.step(ClientEventView::Dialed).0.step(
        ClientEventView::Message { msg_type: MSG_HANDSHAKE_ACK, payload: answered },
    ).0.step(ClientEventView::HandshakeDecoded(Ok(welcome))).0.step(ClientEventView::Dialed);
    assert(c5.1 =~= seq![
        ClientActionView::KeepStream,
        ClientActionView::SendHandshake(
            HandshakeRequestView {
                client_id: "protocol-tcp-client"@,
                service_name: request.service_name,
                capabilities: seq!["json"@],
            },
        ),
        ClientActionView::Read,
    ]);
}

/// A client that only connects makes its handshake, keeps the second connection and is
/// done.
pub proof fn law_connecting_opens_a_connection(
    c: TcpClientView,
    answered: Seq<u8>,
    welcome: HandshakeResponseView,
)
    requires
        welcome.success,
    ensures
        ({
            let (c1, a1) = c.connect();
            let (c2, a2) = c1.step(ClientEventView::Dialed);
            let (c3, a3) = c2.step(
                ClientEventView::Message { msg_type: MSG_HANDSHAKE_ACK, payload: answered },
            );
            let (c4, a4) = c3.step(ClientEventView::HandshakeDecoded(Ok(welcome)));
            let (c5, a5) = c4.step(ClientEventView::Dialed);
            &&& a1 == seq![ClientActionView::Dial]
            &&& a4 == seq![ClientActionView::Dial]
            &&& a5 == seq![ClientActionView::KeepStream, ClientActionView::Finish(Ok(None))]
            &&& c5 == (TcpClientView {
                connected: true,
                has_stream: true,
                session_id: Some(welcome.session_id),
                pending: None,
                phase: ClientPhase::Ready,
                ..c
            })
        }),
{
    let c5 = c.connect().0.step(ClientEventView::Dialed).0.step(
        ClientEventView::Message { msg_type: MSG_HANDSHAKE_ACK, payload: answered },
    ).0.step(ClientEventView::HandshakeDecoded(Ok(welcome))).0.step(ClientEventView::Dialed);
    assert(c5.1 =~= seq![ClientActionView::KeepStream, ClientActionView::Finish(Ok(None))]);
}

/// What goes wrong ends what a client is doing with the reason, and the request that
/// was to be sent is forgotten. A reply that is no response also leaves the client
/// unconnected.
pub proof fn law_failure_is_told(
    c: TcpClientView,
    e: ErrorView,
    why: Seq<char>,
    msg_type: u8,
    payload: Seq<u8>,
    welcome: HandshakeResponseView,
    request: RequestView,
)
    ensures
        ({
            let ready = TcpClientView { pending: None, phase: ClientPhase::Ready, ..c };
            let reason = seq![ClientActionView::Finish(Err(e))];
            &&& c.phase != ClientPhase::Ready ==> c.step(ClientEventView::DialFailed(e)) == (
                ready,
                reason,
            ) && c.step(ClientEventView::ReadFailed(e)) == (ready, reason) && c.step(
                ClientEventView::SendFailed(e),
            ) == (ready, reason)
            &&& c.phase == ClientPhase::AwaitingAck && msg_type != MSG_HANDSHAKE_ACK ==> c.step(
                ClientEventView::Message { msg_type, payload },
            ) == (
                ready,
                seq![
                    ClientActionView::Finish(
                        Err(ErrorView::Protocol("invalid handshake response"@)),
                    ),
                ],
            )
            &&& c.phase == ClientPhase::DecodingAck ==> c.step(
                ClientEventView::HandshakeDecoded(Err(why)),
            ) == (ready, seq![ClientActionView::Finish(Err(ErrorView::Encoding(why)))])
            &&& c.phase == ClientPhase::DecodingAck && !welcome.success ==> c.step(
                ClientEventView::HandshakeDecoded(Ok(welcome)),
            ) == (
                ready,
                seq![ClientActionView::Finish(Err(ErrorView::Protocol("handshake rejected"@)))],
            )
            &&& c.phase == ClientPhase::DecodingReply ==> c.step(
                ClientEventView::ResponseDecoded(Err(why)),
            ) == (ready, seq![ClientActionView::Finish(Err(ErrorView::Encoding(why)))])
            &&& c.phase == ClientPhase::AwaitingReply && msg_type != MSG_RESPONSE ==> c.step(
                ClientEventView::Message { msg_type, payload },
            ) == (
                TcpClientView { connected: false, ..ready },
                seq![
                    ClientActionView::Finish(Err(ErrorView::Protocol("invalid response type"@))),
                ],
            )
            &&& c.phase == ClientPhase::Ready ==> c.step(
                ClientEventView::Message { msg_type, payload },
            ) == (c, Seq::<ClientActionView>::empty())
            &&& c.connected && !c.has_stream ==> c.call(request) == (
                ready,
                seq![ClientActionView::Finish(Err(ErrorView::ConnectionClosed))],
            )
        }),
{
}

/// A new client is not connected and has no session.
pub proof fn law_new_client_has_done_nothing(addr: Seq<char>)
    ensures
        TcpClientView::fresh(addr) == (TcpClientView {
            addr,
            connected: false,
            session_id: None,
            has_stream: false,
            pending: None,
            phase: ClientPhase::Ready,
        }),
{
}

/// What happens to a client and what is done for it are the same as their models.
pub proof fn law_models_keep_everything(event: ClientEvent, action: ClientAction)
    ensures
        match event {
            ClientEvent::Dialed => event@ == ClientEventView::Dialed,
            ClientEvent::DialFailed(e) => event@ == ClientEventView::DialFailed(e@),
            ClientEvent::Message { msg_type, payload } => event@ == ClientEventView::Message {
                msg_type,
                payload: payload@,
            },
            ClientEvent::ReadFailed(e) => event@ == ClientEventView::ReadFailed(e@),
            ClientEvent::SendFailed(e) => event@ == ClientEventView::SendFailed(e@),
            ClientEvent::HandshakeDecoded(r) => event@ == ClientEventView::HandshakeDecoded(
                match r {
                    Ok(v) => Ok(v@),
                    Err(e) => Err(e@),
                },
            ),
            ClientEvent::ResponseDecoded(r) => event@ == ClientEventView::ResponseDecoded(
                match r {
                    Ok(v) => Ok(v@),
                    Err(e) => Err(e@),
                },
            ),
        },
        match action {
            ClientAction::Dial => action@ == ClientActionView::Dial,
            ClientAction::SendHandshake(q) => action@ == ClientActionView::SendHandshake(q@),
            ClientAction::SendRequest(q) => action@ == ClientActionView::SendRequest(q@),
            ClientAction::Read => action@ == ClientActionView::Read,
            ClientAction::DecodeHandshake(p) => action@ == ClientActionView::DecodeHandshake(p@),
            ClientAction::DecodeResponse(p) => action@ == ClientActionView::DecodeResponse(p@),
            ClientAction::KeepStream => action@ == ClientActionView::KeepStream,
            ClientAction::DropStream => action@ == ClientActionView::DropStream,
            ClientAction::Finish(r) => action@ == ClientActionView::Finish(
                match r {
                    Ok(Some(v)) => Ok(Some(v@)),
                    Ok(None) => Ok(None),
                    Err(e) => Err(e@),
                },
            ),
        },
{
}

/// A call goes out for the service, the method and the payload that were asked for: a
/// client that is not connected dials first, one that is makes a handshake for the
/// service.
pub proof fn law_call_asks_for_what_was_asked(
    c: &mut TcpClient,
    service: &str,
    method: &str,
    payload: Value,
    first: Vec<ClientAction>,
    closing: &mut TcpClient,
    last: ClientAction,
)
    requires
        call_ensures(TcpClient::call, (c, service, method, payload), first),
        call_ensures(TcpClient::close, (closing,), last),
    ensures
        !old(c)@.connected ==> first@.len() == 1 && first@[0] is Dial,
        old(c)@.connected && old(c)@.has_stream ==> {
            &&& first@.len() == 2
            &&& first@[0] matches ClientAction::SendHandshake(hello)
            &&& hello.service_name@ == service@
            &&& first@[1] is Read
        },
        !old(c)@.connected || old(c)@.has_stream ==> {
            &&& final(c)@.pending matches Some(q)
            &&& q.service_name == service@ && q.method == method@ && q.payload == payload@
        },
        last is DropStream,
        !final(closing)@.connected && !final(closing)@.has_stream,
        final(closing)@.session_id is None,
{
    actions::law_views_keep_the_order(first@, 0);
    actions::law_views_keep_the_order(first@, 1);
}

/// A decoded request is handed to the service, and its response to the client.
pub proof fn law_decoded_request_is_handed_to_the_service(
    c: &mut TcpConnection,
    request: ServiceRequest,
    first: Vec<Action>,
    d: &mut TcpConnection,
    response: ServiceResponse,
    second: Vec<Action>,
)
    requires
        call_ensures(TcpConnection::step, (c, Event::RequestDecoded(Ok(request))), first),
        call_ensures(TcpConnection::step, (d, Event::Handled(response)), second),
        old(c)@ == ServerPhase::DecodingRequest,
        old(d)@ == ServerPhase::Handling,
    ensures
        first@.len() == 1,
        first@[0] matches Action::Handle(handed) && handed@ == request@,
        second@.len() == 2,
        second@[0] matches Action::Send { msg_type: 0x11, body: Body::Response(sent) } && sent@
            == response@,
        second@[1] is ReadFirst,
        final(d)@ == ServerPhase::Idle,
{
    actions::law_views_keep_the_order(first@, 0);
    actions::law_views_keep_the_order(second@, 0);
    actions::law_views_keep_the_order(second@, 1);
}

} // verus!
