//! Responses that come in pieces.

use crate::handler::ServiceHandler;
use crate::json;
use crate::json::{Json, Value};
use crate::protocol::{RequestView, ResponseView, ServiceRequest, ServiceResponse};
use crate::text;
use vstd::prelude::*;

verus! {

#[derive(Debug, Clone, Copy, PartialEq, Eq, Structural)]
pub enum StreamMode {
    Messages,
    Values,
    Updates,
    Result,
}

impl Default for StreamMode {
    fn default() -> (r: StreamMode)
        ensures
            r == StreamMode::Messages,
    {
        StreamMode::Messages
    }
}

impl StreamMode {
    /// The name of the mode.
    pub open spec fn label(self) -> Seq<char> {
        match self {
            StreamMode::Messages => "messages"@,
            StreamMode::Values => "values"@,
            StreamMode::Updates => "updates"@,
            StreamMode::Result => "result"@,
        }
    }

    pub fn as_str(&self) -> (r: &'static str)
        ensures
            r@ == self.label(),
    {
        match self {
            StreamMode::Messages => "messages",
            StreamMode::Values => "values",
            StreamMode::Updates => "updates",
            StreamMode::Result => "result",
        }
    }

    /// The mode with the given name.
    pub fn from_str(s: &str) -> (r: Option<StreamMode>)
        ensures
            r == mode_named(s@),
    {
        proof {
            lemma_labels_differ();
        }
        if text::str_eq(s, "messages") {
            Some(StreamMode::Messages)
        } else if text::str_eq(s, "values") {
            Some(StreamMode::Values)
        } else if text::str_eq(s, "updates") {
            Some(StreamMode::Updates)
        } else if text::str_eq(s, "result") {
            Some(StreamMode::Result)
        } else {
            None
        }
    }
}

/// The mode with the given name.
pub open spec fn mode_named(name: Seq<char>) -> Option<StreamMode> {
    if name == "messages"@ {
        Some(StreamMode::Messages)
    } else if name == "values"@ {
        Some(StreamMode::Values)
    } else if name == "updates"@ {
        Some(StreamMode::Updates)
    } else if name == "result"@ {
        Some(StreamMode::Result)
    } else {
        None
    }
}

proof fn lemma_labels_differ()
    ensures
        "messages"@ != "values"@,
        "messages"@ != "updates"@,
        "messages"@ != "result"@,
        "values"@ != "updates"@,
        "values"@ != "result"@,
        "updates"@ != "result"@,
{
    reveal_strlit("messages");
    reveal_strlit("values");
    reveal_strlit("updates");
    reveal_strlit("result");
    assert("messages"@[0] == 'm');
    assert("values"@[0] == 'v');
    assert("updates"@[0] == 'u');
    assert("result"@[0] == 'r');
}

/// A mode is found again under its name, and a name stands for no other mode.
pub proof fn law_mode_names(mode: StreamMode, name: Seq<char>)
    ensures
        mode_named(mode.label()) == Some(mode),
        mode_named(name) matches Some(found) ==> found.label() == name,
{
    lemma_labels_differ();
}

#[derive(Debug)]
pub struct StreamMessage {
    pub request_id: String,
    pub chunk_index: u64,
    pub content: Value,
    pub metadata: Option<Value>,
}

/// The mathematical model of a [`StreamMessage`].
pub struct MessageView {
    pub request_id: Seq<char>,
    pub chunk_index: u64,
    pub content: Json,
    pub metadata: Option<Json>,
}

impl View for StreamMessage {
    type V = MessageView;

    open spec fn view(&self) -> MessageView {
        MessageView {
            request_id: self.request_id@,
            chunk_index: self.chunk_index,
            content: self.content@,
            metadata: json::opt_model(self.metadata),
        }
    }
}

impl Clone for StreamMessage {
    fn clone(&self) -> (r: StreamMessage)
        ensures
            r@ == self@,
    {
        StreamMessage {
            request_id: self.request_id.clone(),
            chunk_index: self.chunk_index,
            content: self.content.clone(),
            metadata: json::copy_opt(&self.metadata),
        }
    }
}

/// A piece of a response, without metadata.
pub open spec fn piece(request_id: Seq<char>, chunk_index: u64, content: Json) -> MessageView {
    MessageView { request_id, chunk_index, content, metadata: None }
}

impl StreamMessage {
    pub fn new(request_id: &str, chunk_index: u64, content: Value) -> (r: StreamMessage)
        ensures
            r@ == piece(request_id@, chunk_index, content@),
    {
        StreamMessage { request_id: request_id.to_string(), chunk_index, content, metadata: None }
    }

    pub fn with_metadata(self, metadata: Value) -> (r: StreamMessage)
        ensures
            r@ == (MessageView { metadata: Some(metadata@), ..self@ }),
    {
        StreamMessage { metadata: Some(metadata), ..self }
    }
}

#[derive(Debug)]
pub struct StreamResponse {
    pub request_id: String,
    pub mode: String,
    pub status: String,
    pub final_payload: Option<Value>,
}

/// The mathematical model of a [`StreamResponse`].
pub struct StreamResponseView {
    pub request_id: Seq<char>,
    pub mode: Seq<char>,
    pub status: Seq<char>,
    pub final_payload: Option<Json>,
}

impl View for StreamResponse {
    type V = StreamResponseView;

    open spec fn view(&self) -> StreamResponseView {
        StreamResponseView {
            request_id: self.request_id@,
            mode: self.mode@,
            status: self.status@,
            final_payload: json::opt_model(self.final_payload),
        }
    }
}

impl Clone for StreamResponse {
    fn clone(&self) -> (r: StreamResponse)
        ensures
            r@ == self@,
    {
        StreamResponse {
            request_id: self.request_id.clone(),
            mode: self.mode.clone(),
            status: self.status.clone(),
            final_payload: json::copy_opt(&self.final_payload),
        }
    }
}

impl StreamResponse {
    pub fn started(request_id: &str, mode: &str) -> (r: StreamResponse)
        ensures
            r@ == (StreamResponseView {
                request_id: request_id@,
                mode: mode@,
                status: "streaming"@,
                final_payload: None,
            }),
    {
        StreamResponse {
            request_id: request_id.to_string(),
            mode: mode.to_string(),
            status: "streaming".to_string(),
            final_payload: None,
        }
    }

    pub fn completed(request_id: &str, payload: Value) -> (r: StreamResponse)
        ensures
            r@ == (StreamResponseView {
                request_id: request_id@,
                mode: "result"@,
                status: "completed"@,
                final_payload: Some(payload@),
            }),
    {
        StreamResponse {
            request_id: request_id.to_string(),
            mode: "result".to_string(),
            status: "completed".to_string(),
            final_payload: Some(payload),
        }
    }

    pub fn error(request_id: &str, error: &str) -> (r: StreamResponse)
        ensures
            r@ == (StreamResponseView {
                request_id: request_id@,
                mode: "result"@,
                status: "error: "@ + error@,
                final_payload: None,
            }),
    {
        StreamResponse {
            request_id: request_id.to_string(),
            mode: "result".to_string(),
            status: text::join("error: ", error),
            final_payload: None,
        }
    }
}

/// `{"status": status}`
pub open spec fn status_json(status: Seq<char>) -> Json {
    json::object1("status"@, Json::String(status))
}

/// `{"status": "completed", "payload": payload}`
pub open spec fn completed_json(payload: Json) -> Json {
    json::object2("status"@, Json::String("completed"@), "payload"@, payload)
}

/// The pieces that a response is streamed in.
pub open spec fn streamed(response: ResponseView, mode: StreamMode) -> Seq<MessageView> {
    let id = response.request_id;
    match mode {
        StreamMode::Messages => seq![piece(id, 0, response.payload)],
        StreamMode::Values => seq![
            piece(id, 0, status_json("processing"@)),
            piece(id, 1, response.payload),
        ],
        StreamMode::Updates => seq![
            piece(
                id,
                0,
                json::object2("type"@, Json::String("update"@), "data"@, response.payload),
            ),
        ],
        StreamMode::Result => seq![
            piece(id, 0, status_json("started"@)),
            piece(id, 1, status_json("processing"@)),
            piece(id, 2, completed_json(response.payload)),
        ],
    }
}

/// The single piece that a response is passed on in.
pub open spec fn passed_on(response: ResponseView, mode: StreamMode) -> Seq<MessageView> {
    seq![
        piece(
            response.request_id,
            0,
            if mode == StreamMode::Result {
                completed_json(response.payload)
            } else {
                response.payload
            },
        ),
    ]
}

pub open spec fn message_views(messages: Seq<StreamMessage>) -> Seq<MessageView> {
    messages.map_values(|m: StreamMessage| m@)
}

/// Cuts a response into the pieces that it is streamed in.
pub fn stream_response(response: ServiceResponse, mode: StreamMode) -> (r: Vec<StreamMessage>)
    ensures
        message_views(r@) == streamed(response@, mode),
{
    let id = response.request_id.as_str();
    let mut pieces: Vec<StreamMessage> = Vec::new();
    match mode {
        StreamMode::Messages => {
            pieces.push(StreamMessage::new(id, 0, response.payload));
        },
        StreamMode::Values => {
            pieces.push(
                StreamMessage::new(id, 0, Value::object1("status", Value::text("processing"))),
            );
            pieces.push(StreamMessage::new(id, 1, response.payload));
        },
        StreamMode::Updates => {
            pieces.push(
                StreamMessage::new(
                    id,
                    0,
                    Value::object2("type", Value::text("update"), "data", response.payload),
                ),
            );
        },
        StreamMode::Result => {
            pieces.push(
                StreamMessage::new(id, 0, Value::object1("status", Value::text("started"))),
            );
            pieces.push(
                StreamMessage::new(id, 1, Value::object1("status", Value::text("processing"))),
            );
            pieces.push(
                StreamMessage::new(
                    id,
                    2,
                    Value::object2(
                        "status",
                        Value::text("completed"),
                        "payload",
                        response.payload,
                    ),
                ),
            );
        },
    }
    assert(message_views(pieces@) =~= streamed(response@, mode));
    pieces
}

/// Passes a response on in a single piece.
pub fn pass_on_response(response: ServiceResponse, mode: StreamMode) -> (r: Vec<StreamMessage>)
    ensures
        message_views(r@) == passed_on(response@, mode),
{
    let content = match mode {
        StreamMode::Result => Value::object2(
            "status",
            Value::text("completed"),
            "payload",
            response.payload,
        ),
        _ => response.payload,
    };
    let mut pieces: Vec<StreamMessage> = Vec::new();
    pieces.push(StreamMessage::new(response.request_id.as_str(), 0, content));
    assert(message_views(pieces@) =~= passed_on(response@, mode));
    pieces
}

/// The pieces of a stream are numbered from 0 on, all carry the identifier of
/// the response, and the last of them holds its payload.
pub proof fn law_streams_are_numbered(response: ResponseView, mode: StreamMode, i: int)
    ensures
        ({
            let s = streamed(response, mode);
            &&& s.len() >= 1
            &&& 0 <= i < s.len() ==> s[i].chunk_index == i && s[i].request_id
                == response.request_id
            &&& (s.last().content == response.payload || s.last().content.field("payload"@)
                == Some(response.payload) || s.last().content.field("data"@) == Some(
                response.payload,
            ))
        }),
{
    let s = streamed(response, mode);
    reveal_strlit("status");
    reveal_strlit("payload");
    reveal_strlit("type");
    reveal_strlit("data");
    assert("status"@[0] != "payload"@[0]);
    assert("type"@[0] != "data"@[0]);
    match mode {
        StreamMode::Updates => {
            let members = s.last().content->Object_0;
            assert(json::is_first_member(members, "data"@, 1));
        },
        StreamMode::Result => {
            let members = s.last().content->Object_0;
            assert(json::is_first_member(members, "payload"@, 1));
        },
        _ => {},
    }
}

/// A service whose responses come in pieces. Its users implement it.
pub trait StreamingHandler: Send + Sync {
    /// The name of the service. It does not change.
    open spec fn name(&self) -> Seq<char> {
        arbitrary()
    }

    /// Whether the service may answer the request in this way; in any way unless
    /// it says otherwise.
    open spec fn may_respond(&self, request: RequestView, response: ResponseView) -> bool {
        true
    }

    fn service_name(&self) -> (r: &str)
        ensures
            r@ == self.name(),
    ;

    fn supported_stream_modes(&self) -> (r: Vec<StreamMode>)
        ensures
            true,
        default_ensures
            r@ == seq![StreamMode::Result],
    {
        let mut modes: Vec<StreamMode> = Vec::new();
        modes.push(StreamMode::Result);
        assert(modes@ =~= seq![StreamMode::Result]);
        modes
    }

    fn supports_streaming(&self) -> (r: bool)
        ensures
            true,
        default_ensures
            r,
    {
        true
    }

    fn handle(&self, request: ServiceRequest) -> (r: ServiceResponse)
        ensures
            self.may_respond(request@, r@),
    ;

    fn handle_streaming(&self, request: ServiceRequest, mode: StreamMode) -> (r: Vec<StreamMessage>)
        ensures
            true,
        default_ensures
            exists|response: ResponseView|
                #[trigger] self.may_respond(request@, response) && message_views(r@) == streamed(
                    response,
                    mode,
                ),
    {
        let response = self.handle(request);
        stream_response(response, mode)
    }
}

/// Passes the responses of a service on in a single piece.
#[derive(Debug)]
pub struct DefaultStreamingHandler<H> {
    handler: H,
}

impl<H: ServiceHandler> DefaultStreamingHandler<H> {
    pub closed spec fn inner(&self) -> H {
        self.handler
    }

    pub fn new(handler: H) -> (r: DefaultStreamingHandler<H>)
        ensures
            r.inner() == handler,
    {
        DefaultStreamingHandler { handler }
    }
}

impl<H: ServiceHandler> StreamingHandler for DefaultStreamingHandler<H> {
    open spec fn name(&self) -> Seq<char> {
        self.inner().name()
    }

    open spec fn may_respond(&self, request: RequestView, response: ResponseView) -> bool {
        self.inner().may_respond(request, response)
    }

    fn service_name(&self) -> (r: &str) {
        self.handler.service_name()
    }

    fn handle(&self, request: ServiceRequest) -> (r: ServiceResponse) {
        self.handler.handle(request)
    }

    fn handle_streaming(&self, request: ServiceRequest, mode: StreamMode) -> (r: Vec<StreamMessage>)
        ensures
            exists|response: ResponseView|
                #[trigger] self.may_respond(request@, response) && message_views(r@) == passed_on(
                    response,
                    mode,
                ),
    {
        let response = self.handler.handle(request);
        assert(self.may_respond(request@, response@));
        pass_on_response(response, mode)
    }
}

/// The names of the modes, as messages carry them.
pub proof fn law_modes_go_by_their_names(mode: StreamMode)
    ensures
        mode.label() == match mode {
            StreamMode::Messages => "messages"@,
            StreamMode::Values => "values"@,
            StreamMode::Updates => "updates"@,
            StreamMode::Result => "result"@,
        },
        mode_named("messages"@) == Some(StreamMode::Messages),
        mode_named("values"@) == Some(StreamMode::Values),
        mode_named("updates"@) == Some(StreamMode::Updates),
        mode_named("result"@) == Some(StreamMode::Result),
{
    lemma_labels_differ();
}

/// A response is passed on in one piece, the first of its stream, which carries its
/// identifier and holds its payload whatever the mode is: beside the status
/// `completed` for whole results, and by itself otherwise.
pub proof fn law_passed_on_piece_holds_the_payload(response: ResponseView, mode: StreamMode)
    ensures
        ({
            let pieces = passed_on(response, mode);
            let content = pieces[0].content;
            &&& pieces.len() == 1
            &&& pieces[0].request_id == response.request_id
            &&& pieces[0].chunk_index == 0
            &&& pieces[0].metadata is None
            &&& mode == StreamMode::Result ==> {
                &&& content.field("status"@) == Some(Json::String("completed"@))
                &&& content.field("payload"@) == Some(response.payload)
                &&& content is Object && content->Object_0.len() == 2
            }
            &&& mode != StreamMode::Result ==> content == response.payload
        }),
{
    reveal_strlit("status");
    reveal_strlit("payload");
    assert("status"@[0] != "payload"@[0]);
    if mode == StreamMode::Result {
        let members = passed_on(response, mode)[0].content->Object_0;
        json::law_member_is_found(members, 0, ""@, Json::Null);
        json::law_member_is_found(members, 1, ""@, Json::Null);
    }
}

/// What a response is streamed in: its payload alone as a message; after a word
/// that it is being worked on as a value; as the data of an update; and for a whole
/// result after two words on how far it has come, with the status `completed`.
pub proof fn law_streamed_pieces_hold_the_payload(response: ResponseView, mode: StreamMode, i: int)
    ensures
        ({
            let pieces = streamed(response, mode);
            let status = |word: Seq<char>| Json::Object(seq![("status"@, Json::String(word))]);
            let last = pieces.last().content;
            &&& 0 <= i < pieces.len() ==> pieces[i].request_id == response.request_id
                && pieces[i].chunk_index == i && pieces[i].metadata is None
            &&& match mode {
                StreamMode::Messages => pieces.len() == 1 && last == response.payload,
                StreamMode::Values => pieces.len() == 2 && pieces[0].content == status(
                    "processing"@,
                ) && last == response.payload,
                StreamMode::Updates => {
                    &&& pieces.len() == 1
                    &&& last.field("type"@) == Some(Json::String("update"@))
                    &&& last.field("data"@) == Some(response.payload)
                    &&& last is Object && last->Object_0.len() == 2
                },
                StreamMode::Result => {
                    &&& pieces.len() == 3
                    &&& pieces[0].content == status("started"@)
                    &&& pieces[1].content == status("processing"@)
                    &&& last.field("status"@) == Some(Json::String("completed"@))
                    &&& last.field("payload"@) == Some(response.payload)
                    &&& last is Object && last->Object_0.len() == 2
                },
            }
        }),
{
    reveal_strlit("status");
    reveal_strlit("payload");
    reveal_strlit("type");
    reveal_strlit("data");
    assert("status"@[0] != "payload"@[0]);
    assert("type"@[0] != "data"@[0]);
    let last = streamed(response, mode).last().content;
    if mode == StreamMode::Updates || mode == StreamMode::Result {
        json::law_member_is_found(last->Object_0, 0, ""@, Json::Null);
        json::law_member_is_found(last->Object_0, 1, ""@, Json::Null);
    }
}

/// A message and its model hold the same.
pub proof fn law_message_model_keeps_everything(m: StreamMessage, r: StreamResponse)
    ensures
        m@.request_id == m.request_id@,
        m@.chunk_index == m.chunk_index,
        m@.content == m.content@,
        m.metadata matches Some(v) ==> m@.metadata == Some(v@),
        m.metadata is None ==> m@.metadata is None,
        r@.request_id == r.request_id@,
        r@.mode == r.mode@,
        r@.status == r.status@,
        r.final_payload matches Some(v) ==> r@.final_payload == Some(v@),
        r.final_payload is None ==> r@.final_payload is None,
{
}

/// A response is passed on as one piece that carries its identifier and its payload:
/// beside the status `completed` for whole results, and by itself otherwise.
pub proof fn law_passing_on_keeps_the_payload(
    response: ServiceResponse,
    mode: StreamMode,
    pieces: Vec<StreamMessage>,
)
    requires
        call_ensures(pass_on_response, (response, mode), pieces),
    ensures
        pieces@.len() == 1,
        pieces@[0].request_id@ == response.request_id@,
        pieces@[0].chunk_index == 0,
        mode == StreamMode::Result ==> pieces@[0].content@.field("payload"@) == Some(
            response.payload@,
        ) && pieces@[0].content@.field("status"@) == Some(Json::String("completed"@)),
        mode != StreamMode::Result ==> pieces@[0].content@ == response.payload@,
{
    law_passed_on_piece_holds_the_payload(response@, mode);
    assert(message_views(pieces@)[0] == pieces@[0]@);
}

/// A response is cut into pieces that are numbered from 0 on and carry its identifier;
/// the last of them holds its payload.
pub proof fn law_cutting_keeps_the_payload(
    response: ServiceResponse,
    mode: StreamMode,
    pieces: Vec<StreamMessage>,
    i: int,
)
    requires
        call_ensures(stream_response, (response, mode), pieces),
    ensures
        pieces@.len() == match mode {
            StreamMode::Messages => 1nat,
            StreamMode::Values => 2nat,
            StreamMode::Updates => 1nat,
            StreamMode::Result => 3nat,
        },
        0 <= i < pieces@.len() ==> pieces@[i].chunk_index == i && pieces@[i].request_id@
            == response.request_id@,
        mode == StreamMode::Messages || mode == StreamMode::Values ==> pieces@.last().content@
            == response.payload@,
        mode == StreamMode::Updates ==> pieces@.last().content@.field("data"@) == Some(
            response.payload@,
        ),
        mode == StreamMode::Result ==> pieces@.last().content@.field("payload"@) == Some(
            response.payload@,
        ),
{
    law_streamed_pieces_hold_the_payload(response@, mode, i);
    if 0 <= i < pieces@.len() {
        assert(message_views(pieces@)[i] == pieces@[i]@);
    }
    assert(message_views(pieces@)[pieces@.len() - 1] == pieces@[pieces@.len() - 1]@);
}

/// A mode is found under its name, and under no other.
pub proof fn law_modes_are_found_by_name(
    mode: StreamMode,
    label: &'static str,
    name: &str,
    found: Option<StreamMode>,
)
    requires
        call_ensures(StreamMode::as_str, (&mode,), label),
        call_ensures(StreamMode::from_str, (name,), found),
    ensures
        found == Some(mode) <==> name@ == label@,
        label@ == match mode {
            StreamMode::Messages => "messages"@,
            StreamMode::Values => "values"@,
            StreamMode::Updates => "updates"@,
            StreamMode::Result => "result"@,
        },
{
    lemma_labels_differ();
}

/// A stream is opened in its mode, completed with the payload, or ended with an error.
pub proof fn law_stream_responses_tell_how_it_went(
    request_id: &str,
    mode: &str,
    payload: Value,
    error: &str,
    a: StreamResponse,
    b: StreamResponse,
    c: StreamResponse,
)
    requires
        call_ensures(StreamResponse::started, (request_id, mode), a),
        call_ensures(StreamResponse::completed, (request_id, payload), b),
        call_ensures(StreamResponse::error, (request_id, error), c),
    ensures
        a.request_id@ == request_id@ && b.request_id@ == request_id@ && c.request_id@
            == request_id@,
        a.mode@ == mode@ && b.mode@ == "result"@ && c.mode@ == "result"@,
        a.status@ == "streaming"@ && b.status@ == "completed"@ && c.status@ == "error: "@ + error@,
        a.final_payload is None && c.final_payload is None,
        b.final_payload matches Some(v) && v@ == payload@,
{
}

/// A piece carries what it is made of, and metadata is added to it alone.
pub proof fn law_pieces_carry_what_they_are_made_of(
    request_id: &str,
    chunk_index: u64,
    content: Value,
    metadata: Value,
    a: StreamMessage,
    b: StreamMessage,
)
    requires
        call_ensures(StreamMessage::new, (request_id, chunk_index, content), a),
        call_ensures(StreamMessage::with_metadata, (a, metadata), b),
    ensures
        a.request_id@ == request_id@ && a.chunk_index == chunk_index && a.content@ == content@
            && a.metadata is None,
        b.request_id@ == a.request_id@ && b.chunk_index == a.chunk_index && b.content@
            == a.content@,
        b.metadata matches Some(v) && v@ == metadata@,
{
}

} // verus!
