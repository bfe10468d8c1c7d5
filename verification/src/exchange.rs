//! What holds between a client and the connection that serves it.
//!
//! A message goes from one side to the other as bytes. What the bytes decode to
//! is taken to be what the other side sent.

use crate::client;
use crate::client::ClientView;
use crate::error::ErrorView;
use crate::json;
use crate::json::Json;
use crate::protocol::{HandshakeResponseView, RequestView, ResponseView};
use crate::schema;
use crate::server;
use crate::server::ConnectionView;
use crate::streaming::{StreamMode, StreamResponseView};
use crate::text;
use crate::time::Instant;
use crate::wire::{
    MSG_ERROR, MSG_HANDSHAKE, MSG_HANDSHAKE_ACK, MSG_REQUEST, MSG_RESPONSE, MSG_SCHEMA_REQUEST,
    MSG_SCHEMA_RESPONSE, MSG_STREAM_END, MSG_STREAM_REQUEST, MSG_STREAM_START,
};
use vstd::prelude::*;
use vstd::utf8::encode_utf8;

verus! {

/// A client that dials a server opens with a handshake. The server asks whether
/// the client is within its rate, and hands the handshake to the service. The
/// client is connected once the service accepted, under the session that the
/// service gave it.
pub proof fn law_handshake_connects(
    c: ClientView,
    settings: server::SettingsView,
    asked: Seq<u8>,
    response: HandshakeResponseView,
    answered: Seq<u8>,
    now: Instant,
)
    requires
        c.phase == client::Phase::Dialing,
        c.goal is Connect,
        asked.len() <= settings.max_request_size,
        response.success,
    ensures
        ({
            let (c, sent) = c.step(client::EventView::Dialed);
            let s = ConnectionView::opened(settings);
            let (s, first) = s.step(
                server::EventView::Message { msg_type: MSG_HANDSHAKE, payload: asked },
                now,
            );
            let (s, second) = s.step(
                server::EventView::HandshakeDecoded(Ok(client::opening())),
                now,
            );
            let (s, third) = s.step(server::EventView::RateChecked(true), now);
            let (s, fourth) = s.step(server::EventView::Greeted(response), now);
            let (c, fifth) = c.step(
                client::EventView::Message { msg_type: MSG_HANDSHAKE_ACK, payload: answered },
            );
            let (c, sixth) = c.step(client::EventView::HandshakeDecoded(Ok(response)));
            &&& sent.first() == (client::ActionView::Send {
                msg_type: MSG_HANDSHAKE,
                body: client::OutgoingView::Handshake(client::opening()),
            })
            &&& first == seq![server::ActionView::DecodeHandshake(asked)]
            &&& second.last() == (server::ActionView::CheckRate {
                client_id: client::opening().client_id,
            })
            &&& third == seq![server::ActionView::Greet(client::opening())]
            &&& fourth.first() == (server::ActionView::Send {
                msg_type: MSG_HANDSHAKE_ACK,
                body: server::BodyView::Handshake(response),
            })
            &&& s.phase == server::Phase::Idle
            &&& fifth == seq![client::ActionView::DecodeHandshake(answered)]
            &&& sixth == seq![
                client::ActionView::KeepStream,
                client::ActionView::Finish(Ok(client::AnswerView::Connected)),
            ]
            &&& c.connected
            &&& c.session_id == Some(response.session_id)
        }),
{
    let settled = client::ActionView::Finish(Ok(client::AnswerView::Connected));
    assert(seq![client::ActionView::KeepStream] + seq![settled] =~= seq![
        client::ActionView::KeepStream,
        settled,
    ]);
}

/// A client over its rate is told, and is left without a connection.
pub proof fn law_refused_client_learns_of_it(
    c: ClientView,
    s: ConnectionView,
    told: Seq<u8>,
    now: Instant,
)
    requires
        c.phase == client::Phase::AwaitingAck,
        s.phase == server::Phase::CheckingRate,
    ensures
        s.step(server::EventView::RateChecked(false), now).1.first() == server::error_reply(
            "rate limit exceeded"@,
        ),
        c.step(client::EventView::Message { msg_type: MSG_ERROR, payload: told }) == (
            c.at(client::Phase::Ready),
            seq![
                client::ActionView::Finish(
                    Err(ErrorView::Protocol("invalid handshake response"@)),
                ),
            ],
        ),
{
}

/// A call on a connection gives back what the service responded: the request
/// goes out as it was made, reaches the service as it went out, and the response
/// comes back as the service gave it. Then both sides are ready for the next
/// call.
pub proof fn law_call_is_answered_by_the_service(
    c: ClientView,
    s: ConnectionView,
    request: RequestView,
    asked: Seq<u8>,
    response: ResponseView,
    answered: Seq<u8>,
    times: (Instant, Instant, Instant),
)
    requires
        c.has_stream,
        s.phase == server::Phase::Idle,
        request.service_name.len() > 0 && encode_utf8(request.service_name).len() <= 256,
        request.method.len() > 0 && encode_utf8(request.method).len() <= 256,
        request.request_id.len() > 0 && encode_utf8(request.request_id).len() <= 128,
        asked.len() <= s.settings.max_request_size,
    ensures
        ({
            let (c1, sent) = c.begin(client::GoalView::Call(request));
            let (s1, first) = s.step(
                server::EventView::Message { msg_type: MSG_REQUEST, payload: asked },
                times.0,
            );
            let (s2, second) = s1.step(server::EventView::RequestDecoded(Ok(request)), times.1);
            let (s3, third) = s2.step(server::EventView::Handled(response), times.2);
            let (c2, fourth) = c1.step(
                client::EventView::Message { msg_type: MSG_RESPONSE, payload: answered },
            );
            let (c3, fifth) = c2.step(client::EventView::ResponseDecoded(Ok(response)));
            &&& sent.first() == (client::ActionView::Send {
                msg_type: MSG_REQUEST,
                body: client::OutgoingView::Request(request),
            })
            &&& first.last() == server::ActionView::DecodeRequest(asked)
            &&& second == seq![server::ActionView::Handle(request)]
            &&& third.first() == (server::ActionView::Send {
                msg_type: MSG_RESPONSE,
                body: server::BodyView::Response(response),
            })
            &&& s3 == s
            &&& fourth == seq![client::ActionView::DecodeResponse(answered)]
            &&& fifth == seq![
                client::ActionView::Finish(Ok(client::AnswerView::Response(response))),
            ]
            &&& c3.has_stream
            &&& c3.phase == client::Phase::Ready
        }),
{
}

/// A request that the server finds invalid never reaches the service: the client
/// is told of an error, fails its call and gives up the connection, while the
/// server stays ready.
pub proof fn law_invalid_call_fails(
    c: ClientView,
    s: ConnectionView,
    request: RequestView,
    asked: Seq<u8>,
    told: Seq<u8>,
    times: (Instant, Instant),
)
    requires
        c.has_stream,
        s.phase == server::Phase::Idle,
        request.service_name.len() == 0 || encode_utf8(request.service_name).len() > 256
            || request.method.len() == 0 || encode_utf8(request.method).len() > 256
            || request.request_id.len() == 0 || encode_utf8(request.request_id).len() > 128,
        asked.len() <= s.settings.max_request_size,
    ensures
        ({
            let (c1, sent) = c.begin(client::GoalView::Call(request));
            let (s1, first) = s.step(
                server::EventView::Message { msg_type: MSG_REQUEST, payload: asked },
                times.0,
            );
            let (s2, second) = s1.step(server::EventView::RequestDecoded(Ok(request)), times.1);
            let (c2, third) = c1.step(
                client::EventView::Message { msg_type: MSG_ERROR, payload: told },
            );
            &&& second.contains(server::error_reply("invalid request format"@))
            &&& forall|i: int|
                0 <= i < second.len() ==> !server::reaches_service(#[trigger] second[i])
            &&& s2 == s
            &&& third == seq![
                client::ActionView::DropStream,
                client::ActionView::Finish(Err(ErrorView::Protocol("invalid response type"@))),
            ]
            &&& !c2.connected
            &&& !c2.has_stream
        }),
{
    let (s1, first) = s.step(
        server::EventView::Message { msg_type: MSG_REQUEST, payload: asked },
        times.0,
    );
    let second = s1.step(server::EventView::RequestDecoded(Ok(request)), times.1).1;
    let n = s1.count_end(times.0, times.1, false).len() as int;
    assert(second[n] == server::error_reply("invalid request format"@));
}

/// A client that asks for the schema gets the one that tells the name of the
/// service.
pub proof fn law_schema_is_handed_over(
    c: ClientView,
    s: ConnectionView,
    answered: Seq<u8>,
    now: Instant,
)
    requires
        c.has_stream,
        s.phase == server::Phase::Idle,
        s.settings.enable_schema_introspection,
    ensures
        ({
            let told = schema::plain_schema(s.settings.service_name, "1.0"@);
            let (c1, sent) = c.begin(client::GoalView::Schema);
            let (s1, first) = s.step(
                server::EventView::Message { msg_type: MSG_SCHEMA_REQUEST, payload: Seq::empty() },
                now,
            );
            let (c2, second) = c1.step(
                client::EventView::Message { msg_type: MSG_SCHEMA_RESPONSE, payload: answered },
            );
            let (c3, third) = c2.step(client::EventView::SchemaDecoded(Ok(told)));
            &&& sent.first() == (client::ActionView::Send {
                msg_type: MSG_SCHEMA_REQUEST,
                body: client::OutgoingView::Empty,
            })
            &&& first.first() == (server::ActionView::Send {
                msg_type: MSG_SCHEMA_RESPONSE,
                body: server::BodyView::Schema(told),
            })
            &&& s1 == s
            &&& second == seq![client::ActionView::DecodeSchema(answered)]
            &&& third == seq![client::ActionView::Finish(Ok(client::AnswerView::Schema(told)))]
            &&& c3.has_stream
        }),
{
}

/// The end of a stream that a JSON value stands for: an object that names the
/// request, the mode and the status. A final payload may be there or not.
pub open spec fn read_as_stream_end(value: Json) -> Option<StreamResponseView> {
    match (value.field("request_id"@), value.field("mode"@), value.field("status"@)) {
        (Some(Json::String(request_id)), Some(Json::String(mode)), Some(Json::String(status))) => {
            Some(
                StreamResponseView {
                    request_id,
                    mode,
                    status,
                    final_payload: value.field("final_payload"@),
                },
            )
        },
        _ => None,
    }
}

/// The end that a server sends reads as the end of the stream of that response,
/// in the mode that was asked for.
pub proof fn law_stream_end_is_understood(response: ResponseView, mode: StreamMode)
    ensures
        read_as_stream_end(server::stream_end_json(response, mode)) == Some(
            StreamResponseView {
                request_id: response.request_id,
                mode: mode.label(),
                status: response.status,
                final_payload: None,
            },
        ),
{
    let members = server::stream_end_json(response, mode)->Object_0;
    reveal_strlit("request_id");
    reveal_strlit("mode");
    reveal_strlit("status");
    reveal_strlit("payload");
    reveal_strlit("final_payload");
    assert("payload"@[0] != "request_id"@[0]);
    assert("mode"@.len() != "status"@.len());
    assert(json::is_first_member(members, "request_id"@, 0));
    assert(json::is_first_member(members, "mode"@, 1));
    assert(json::is_first_member(members, "status"@, 2));
    assert forall|i: int| !json::is_first_member(members, "final_payload"@, i) by {}
}

/// A streaming call on a connection succeeds where the service does: the request
/// goes out with its mode, reaches the service, and the stream is opened and
/// ended. The client gets the pieces that came in between, of which the server
/// sends none, and keeps its connection; the server is ready for the next call.
pub proof fn law_stream_runs_through(
    c: ClientView,
    s: ConnectionView,
    request: RequestView,
    asked: Seq<u8>,
    response: ResponseView,
    opened: Seq<u8>,
    ended: Seq<u8>,
    now: Instant,
)
    requires
        c.has_stream,
        s.phase == server::Phase::Idle,
        s.settings.enable_streaming,
        asked.len() <= s.settings.max_request_size,
        !text::begins_with(response.status, "error"@),
    ensures
        ({
            let mode = server::requested_mode(request.payload);
            let end = server::stream_end_json(response, mode);
            let (c1, sent) = c.begin(client::GoalView::Stream(request));
            let (s1, first) = s.step(
                server::EventView::Message { msg_type: MSG_STREAM_REQUEST, payload: asked },
                now,
            );
            let (s2, second) = s1.step(server::EventView::RequestDecoded(Ok(request)), now);
            let (s3, third) = s2.step(server::EventView::Handled(response), now);
            let (c2, fourth) = c1.step(
                client::EventView::Message { msg_type: MSG_STREAM_START, payload: opened },
            );
            let (c3, fifth) = c2.step(
                client::EventView::Message { msg_type: MSG_STREAM_END, payload: ended },
            );
            let (c4, sixth) = c3.step(
                client::EventView::StreamEndDecoded(Ok(read_as_stream_end(end)->0)),
            );
            &&& sent.first() == (client::ActionView::Send {
                msg_type: MSG_STREAM_REQUEST,
                body: client::OutgoingView::Request(request),
            })
            &&& first == seq![server::ActionView::DecodeRequest(asked)]
            &&& second == seq![
                server::ActionView::Send {
                    msg_type: MSG_STREAM_START,
                    body: server::BodyView::Json(server::stream_start_json(request)),
                },
                server::ActionView::Handle(request),
            ]
            &&& third.first() == (server::ActionView::Send {
                msg_type: MSG_STREAM_END,
                body: server::BodyView::Json(end),
            })
            &&& s3 == s
            &&& fourth == seq![c1.read()]
            &&& fifth == seq![client::ActionView::DecodeStreamEnd(ended)]
            &&& read_as_stream_end(end) is Some
            &&& sixth == seq![
                client::ActionView::Finish(Ok(client::AnswerView::Messages(Seq::empty()))),
            ]
            &&& c4.has_stream
            &&& c4.connected == c.connected
            &&& c4.phase == client::Phase::Ready
        }),
{
    law_stream_end_is_understood(response, server::requested_mode(request.payload));
}

} // verus!
