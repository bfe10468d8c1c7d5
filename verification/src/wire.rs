//! The framing of messages on a byte stream:
//! `[4 bytes: length][1 byte: type][1 byte: version][N bytes: payload]`, where
//! the length counts the type, the version and the payload, big-endian.

use crate::error::{ErrorView, ProtocolError, Result};
use crate::text;
use vstd::prelude::*;

verus! {

pub const MSG_HANDSHAKE: u8 = 0x01;

pub const MSG_HANDSHAKE_ACK: u8 = 0x02;

pub const MSG_REQUEST: u8 = 0x10;

pub const MSG_RESPONSE: u8 = 0x11;

pub const MSG_STREAM_REQUEST: u8 = 0x12;

pub const MSG_STREAM_START: u8 = 0x13;

pub const MSG_STREAM_CHUNK: u8 = 0x14;

pub const MSG_STREAM_END: u8 = 0x15;

pub const MSG_ERROR: u8 = 0x1F;

pub const MSG_PING: u8 = 0x40;

pub const MSG_PONG: u8 = 0x41;

pub const MSG_CLOSE: u8 = 0x50;

pub const MSG_SCHEMA_REQUEST: u8 = 0x60;

pub const MSG_SCHEMA_RESPONSE: u8 = 0x61;

/// The largest length a frame may declare: 16 MiB.
pub const MAX_MESSAGE_SIZE: usize = 16_777_216;

/// The version byte of every frame that is written.
pub const WIRE_VERSION: u8 = 1;

/// A number as four bytes, the most significant first.
pub open spec fn be_bytes(n: nat) -> Seq<u8> {
    seq![
        (n / 16_777_216) as u8,
        (n / 65_536 % 256) as u8,
        (n / 256 % 256) as u8,
        (n % 256) as u8,
    ]
}

/// The number that the first four bytes stand for, the most significant first.
pub open spec fn be_value(bytes: Seq<u8>) -> nat {
    (bytes[0] * 16_777_216 + bytes[1] * 65_536 + bytes[2] * 256 + bytes[3]) as nat
}

/// The bytes of a message on the wire.
pub open spec fn frame(msg_type: u8, payload: Seq<u8>) -> Seq<u8> {
    be_bytes(payload.len() + 2) + seq![msg_type, WIRE_VERSION] + payload
}

/// Whether a frame can hold a payload of this length.
pub open spec fn fits(payload_len: nat) -> bool {
    payload_len + 2 <= MAX_MESSAGE_SIZE
}

/// Whether a frame may declare this length.
pub open spec fn valid_length(declared: nat) -> bool {
    2 <= declared <= MAX_MESSAGE_SIZE
}

/// The first six bytes of a frame for a payload of `payload_len` bytes: its
/// length, type and version.
pub fn frame_header(msg_type: u8, payload_len: usize) -> (r: Result<Vec<u8>>)
    ensures
        match r {
            Ok(header) => fits(payload_len as nat) && header@ == be_bytes(
                (payload_len + 2) as nat,
            ) + seq![msg_type, WIRE_VERSION],
            Err(e) => !fits(payload_len as nat) && e@ == ErrorView::InvalidMessage(
                "message too large"@,
            ),
        },
{
    if payload_len > MAX_MESSAGE_SIZE - 2 {
        return Err(ProtocolError::InvalidMessage("message too large".to_string()));
    }
    let len: usize = payload_len + 2;
    let mut header: Vec<u8> = Vec::new();
    header.push((len / 16_777_216) as u8);
    header.push((len / 65_536 % 256) as u8);
    header.push((len / 256 % 256) as u8);
    header.push((len % 256) as u8);
    header.push(msg_type);
    header.push(WIRE_VERSION);
    assert(header@ =~= be_bytes(len as nat) + seq![msg_type, WIRE_VERSION]);
    Ok(header)
}

/// Appends a message to what is to be sent. A message that is too large leaves
/// it unchanged.
pub fn write_message(w: &mut Vec<u8>, msg_type: u8, payload: &[u8]) -> (r: Result<()>)
    ensures
        match r {
            Ok(()) => fits(payload@.len()) && final(w)@ == old(w)@ + frame(msg_type, payload@),
            Err(e) => !fits(payload@.len()) && final(w)@ == old(w)@ && e@
                == ErrorView::InvalidMessage("message too large"@),
        },
{
    let header = match frame_header(msg_type, payload.len()) {
        Ok(header) => header,
        Err(e) => return Err(e),
    };
    w.extend_from_slice(header.as_slice());
    w.extend_from_slice(payload);
    assert(w@ =~= old(w)@ + frame(msg_type, payload@));
    Ok(())
}

/// The length of the payload that follows, from the four bytes that open a
/// frame.
pub fn payload_length(len_buf: [u8; 4]) -> (r: Result<usize>)
    ensures
        match r {
            Ok(n) => valid_length(be_value(len_buf@)) && n == be_value(len_buf@) - 2,
            Err(e) => !valid_length(be_value(len_buf@)) && e@
                == invalid_length(be_value(len_buf@)),
        },
{
    let len: u64 = len_buf[0] as u64 * 16_777_216 + len_buf[1] as u64 * 65_536 + len_buf[2] as u64
        * 256 + len_buf[3] as u64;
    if len < 2 || len > MAX_MESSAGE_SIZE as u64 {
        return Err(
            ProtocolError::InvalidMessage(
                text::join("invalid length: ", text::decimal_text(len).as_str()),
            ),
        );
    }
    Ok((len - 2) as usize)
}

/// What a byte stream holds at its front.
#[derive(Debug)]
pub enum ReadOutcome {
    /// A whole message, and the number of bytes that it took.
    Message { msg_type: u8, payload: Vec<u8>, consumed: usize },
    /// Not enough bytes yet.
    Incomplete,
    /// A length that no frame may declare.
    Malformed(ProtocolError),
}

/// The mathematical model of a [`ReadOutcome`].
pub enum Front {
    Message { msg_type: u8, payload: Seq<u8>, consumed: nat },
    Incomplete,
    Malformed(ErrorView),
}

impl View for ReadOutcome {
    type V = Front;

    open spec fn view(&self) -> Front {
        match *self {
            ReadOutcome::Message { msg_type, payload, consumed } => Front::Message {
                msg_type,
                payload: payload@,
                consumed: consumed as nat,
            },
            ReadOutcome::Incomplete => Front::Incomplete,
            ReadOutcome::Malformed(e) => Front::Malformed(e@),
        }
    }
}

/// The error for a length that no frame may declare.
pub open spec fn invalid_length(declared: nat) -> ErrorView {
    ErrorView::InvalidMessage("invalid length: "@ + text::decimal(declared))
}

/// What stands at the front of a byte stream.
pub open spec fn front(input: Seq<u8>) -> Front {
    if input.len() < 4 {
        Front::Incomplete
    } else if !valid_length(be_value(input)) {
        Front::Malformed(invalid_length(be_value(input)))
    } else if input.len() < 4 + be_value(input) {
        Front::Incomplete
    } else {
        Front::Message {
            msg_type: input[4],
            payload: input.subrange(6, (4 + be_value(input)) as int),
            consumed: 4 + be_value(input),
        }
    }
}

/// Reads the message at the front of `input`.
pub fn read_message(input: &[u8]) -> (r: ReadOutcome)
    ensures
        r@ == front(input@),
{
    if input.len() < 4 {
        return ReadOutcome::Incomplete;
    }
    let len_buf: [u8; 4] = [input[0], input[1], input[2], input[3]];
    assert(be_value(len_buf@) == be_value(input@));
    let payload_len = match payload_length(len_buf) {
        Ok(n) => n,
        Err(e) => return ReadOutcome::Malformed(e),
    };
    if input.len() - 4 < payload_len + 2 {
        return ReadOutcome::Incomplete;
    }
    let consumed: usize = payload_len + 6;
    let mut payload: Vec<u8> = Vec::new();
    let mut i: usize = 6;
    while i < consumed
        invariant
            6 <= i <= consumed <= input@.len(),
            payload@ == input@.subrange(6, i as int),
        decreases consumed - i,
    {
        payload.push(input[i]);
        assert(input@.subrange(6, i + 1) =~= input@.subrange(6, i as int).push(input@[i as int]));
        i = i + 1;
    }
    ReadOutcome::Message { msg_type: input[4], payload, consumed }
}

/// Messages one after another on the wire.
pub open spec fn frames(messages: Seq<(u8, Seq<u8>)>) -> Seq<u8>
    decreases messages.len(),
{
    if messages.len() == 0 {
        Seq::empty()
    } else {
        frame(messages[0].0, messages[0].1) + frames(messages.drop_first())
    }
}

/// The messages that a byte stream holds, up to the first place where none can
/// be read.
pub open spec fn read_all(input: Seq<u8>) -> Seq<(u8, Seq<u8>)>
    decreases input.len(),
{
    match front(input) {
        Front::Message { msg_type, payload, consumed } => seq![(msg_type, payload)] + read_all(
            input.skip(consumed as int),
        ),
        _ => Seq::empty(),
    }
}

/// Four bytes hold every length that a frame can have.
proof fn lemma_be_roundtrip(n: nat)
    requires
        n < 0x1_0000_0000,
    ensures
        be_value(be_bytes(n)) == n,
{
    let b = be_bytes(n);
    assert(b[0] == n / 16_777_216);
    assert(b[1] == n / 65_536 % 256);
    assert(b[2] == n / 256 % 256);
    assert(b[3] == n % 256);
}

/// A message that was written is read back as it was, whatever follows it.
pub proof fn law_read_gives_back_what_was_written(msg_type: u8, payload: Seq<u8>, rest: Seq<u8>)
    requires
        fits(payload.len()),
    ensures
        front(frame(msg_type, payload) + rest) == (Front::Message {
            msg_type,
            payload,
            consumed: frame(msg_type, payload).len(),
        }),
{
    let input = frame(msg_type, payload) + rest;
    lemma_be_roundtrip(payload.len() + 2);
    assert(input.subrange(0, 4) =~= be_bytes(payload.len() + 2));
    assert(be_value(input) == be_value(input.subrange(0, 4)));
    assert(input.subrange(6, (4 + be_value(input)) as int) =~= payload);
}

/// A frame that has not arrived in full is never taken for a message, nor for
/// a malformed one.
pub proof fn law_partial_frame_waits(msg_type: u8, payload: Seq<u8>, n: int)
    requires
        fits(payload.len()),
        0 <= n < frame(msg_type, payload).len(),
    ensures
        front(frame(msg_type, payload).subrange(0, n)) == Front::Incomplete,
{
    let part = frame(msg_type, payload).subrange(0, n);
    if n >= 4 {
        lemma_be_roundtrip(payload.len() + 2);
        assert(part.subrange(0, 4) =~= be_bytes(payload.len() + 2));
        assert(be_value(part) == be_value(part.subrange(0, 4)));
    }
}

/// Messages written one after another are read back in the same order, and no
/// others.
pub proof fn law_stream_of_messages(messages: Seq<(u8, Seq<u8>)>)
    requires
        forall|i: int| 0 <= i < messages.len() ==> fits((#[trigger] messages[i]).1.len()),
    ensures
        read_all(frames(messages)) == messages,
    decreases messages.len(),
{
    if messages.len() == 0 {
        assert(read_all(frames(messages)) =~= messages);
    } else {
        let tail = messages.drop_first();
        let (t, p) = messages[0];
        assert(fits(messages[0].1.len()));
        assert forall|i: int| 0 <= i < tail.len() implies fits((#[trigger] tail[i]).1.len()) by {
            assert(fits(messages[i + 1].1.len()));
        }
        law_stream_of_messages(tail);
        law_read_gives_back_what_was_written(t, p, frames(tail));
        assert(frames(messages).skip(frame(t, p).len() as int) =~= frames(tail));
        assert(read_all(frames(messages)) =~= messages);
    }
}

/// No message that is read is larger than one that can be written.
pub proof fn law_read_messages_fit(input: Seq<u8>)
    ensures
        front(input) matches Front::Message { payload, .. } ==> fits(payload.len()),
{
}

/// A frame tells in its first four bytes, the most significant first, how many
/// bytes follow; then come the type of the message, the version of the format, and
/// the payload as it is.
pub proof fn law_frame_has_its_parts_in_place(msg_type: u8, payload: Seq<u8>, i: int)
    requires
        payload.len() + 2 <= 16 * 1024 * 1024,
    ensures
        ({
            let f = frame(msg_type, payload);
            &&& f.len() == payload.len() + 6
            &&& f[0] * (256 * 256 * 256) + f[1] * (256 * 256) + f[2] * 256 + f[3] == f.len() - 4
            &&& f[4] == msg_type
            &&& f[5] == 1
            &&& 0 <= i < payload.len() ==> f[6 + i] == payload[i]
        }),
{
    let n = payload.len() + 2;
    lemma_be_roundtrip(n);
    let f = frame(msg_type, payload);
    assert(f.subrange(0, 4) =~= be_bytes(n));
    assert(f[0] == be_bytes(n)[0] && f[1] == be_bytes(n)[1] && f[2] == be_bytes(n)[2] && f[3]
        == be_bytes(n)[3]);
}

/// A message can be written just when it takes no more than sixteen mebibytes with
/// its type and version, and a frame that declares fewer than two bytes, or more
/// than that, is malformed, however many bytes there are.
pub proof fn law_frames_are_bounded(payload_len: nat, input: Seq<u8>)
    ensures
        fits(payload_len) <==> payload_len + 2 <= 16 * 1024 * 1024,
        input.len() >= 4 ==> ({
            let declared = input[0] * (256 * 256 * 256) + input[1] * (256 * 256) + input[2] * 256
                + input[3];
            if declared < 2 || declared > 16 * 1024 * 1024 {
                front(input) == Front::Malformed(
                    ErrorView::InvalidMessage("invalid length: "@ + text::decimal(declared as nat)),
                )
            } else if input.len() < 4 + declared {
                front(input) == Front::Incomplete
            } else {
                &&& front(input) matches Front::Message { msg_type, payload, consumed }
                &&& msg_type == input[4]
                &&& consumed == 4 + declared
                &&& payload.len() == declared - 2
                &&& forall|i: int| 0 <= i < payload.len() ==> #[trigger] payload[i] == input[6 + i]
            }
        }),
        input.len() < 4 ==> front(input) == Front::Incomplete,
{
}

/// The types of messages, as both sides write them.
pub proof fn law_message_types_are_told_apart()
    ensures
        seq![
            MSG_HANDSHAKE,
            MSG_HANDSHAKE_ACK,
            MSG_REQUEST,
            MSG_RESPONSE,
            MSG_STREAM_REQUEST,
            MSG_STREAM_START,
            MSG_STREAM_CHUNK,
            MSG_STREAM_END,
            MSG_ERROR,
            MSG_PING,
            MSG_PONG,
            MSG_CLOSE,
            MSG_SCHEMA_REQUEST,
            MSG_SCHEMA_RESPONSE,
        ] == seq![
            0x01u8,
            0x02,
            0x10,
            0x11,
            0x12,
            0x13,
            0x14,
            0x15,
            0x1F,
            0x40,
            0x41,
            0x50,
            0x60,
            0x61,
        ],
{
}

/// What was written on an empty stream is read back, unless it was too large to be
/// written, and then nothing was.
pub proof fn law_written_message_is_read(
    w: &mut Vec<u8>,
    msg_type: u8,
    payload: &[u8],
    written: Result<()>,
    input: &[u8],
    outcome: ReadOutcome,
)
    requires
        call_ensures(write_message, (w, msg_type, payload), written),
        old(w)@.len() == 0,
        input@ == final(w)@,
        call_ensures(read_message, (input,), outcome),
    ensures
        written is Ok <==> payload@.len() + 2 <= 16 * 1024 * 1024,
        written is Ok ==> (outcome matches ReadOutcome::Message {
            msg_type: read_type,
            payload: read,
            consumed,
        } && read_type == msg_type && read@ == payload@ && consumed == input@.len()),
        written is Err ==> outcome is Incomplete,
{
    if written is Ok {
        assert(input@ =~= frame(msg_type, payload@) + Seq::<u8>::empty());
        law_read_gives_back_what_was_written(msg_type, payload@, Seq::empty());
        assert(frame(msg_type, payload@).len() == input@.len());
    }
}

/// A frame opens with the length of the rest, its type and its version.
pub proof fn law_header_opens_the_frame(msg_type: u8, payload_len: usize, header: Result<Vec<u8>>)
    requires
        call_ensures(frame_header, (msg_type, payload_len), header),
    ensures
        header is Ok <==> payload_len + 2 <= 16 * 1024 * 1024,
        header matches Ok(h) ==> {
            &&& h@.len() == 6
            &&& h@[0] * 16_777_216 + h@[1] * 65_536 + h@[2] * 256 + h@[3] == payload_len + 2
            &&& h@[4] == msg_type
            &&& h@[5] == 1
        },
        header matches Err(e) ==> e@ == ErrorView::InvalidMessage("message too large"@),
{
}

} // verus!
