//! The errors of the framework.

use crate::text;
use vstd::prelude::*;

verus! {

#[derive(Debug)]
pub enum ProtocolError {
    ConnectionFailed(String),
    ConnectionClosed,
    Timeout,
    InvalidMessage(String),
    NotFound(String),
    Protocol(String),
    Encoding(String),
    ResourceExhausted(String),
    Server(String),
}

/// The mathematical model of a [`ProtocolError`].
pub enum ErrorView {
    ConnectionFailed(Seq<char>),
    ConnectionClosed,
    Timeout,
    InvalidMessage(Seq<char>),
    NotFound(Seq<char>),
    Protocol(Seq<char>),
    Encoding(Seq<char>),
    ResourceExhausted(Seq<char>),
    Server(Seq<char>),
}

pub type Result<T> = std::result::Result<T, ProtocolError>;

impl View for ProtocolError {
    type V = ErrorView;

    open spec fn view(&self) -> ErrorView {
        match *self {
            ProtocolError::ConnectionFailed(s) => ErrorView::ConnectionFailed(s@),
            ProtocolError::ConnectionClosed => ErrorView::ConnectionClosed,
            ProtocolError::Timeout => ErrorView::Timeout,
            ProtocolError::InvalidMessage(s) => ErrorView::InvalidMessage(s@),
            ProtocolError::NotFound(s) => ErrorView::NotFound(s@),
            ProtocolError::Protocol(s) => ErrorView::Protocol(s@),
            ProtocolError::Encoding(s) => ErrorView::Encoding(s@),
            ProtocolError::ResourceExhausted(s) => ErrorView::ResourceExhausted(s@),
            ProtocolError::Server(s) => ErrorView::Server(s@),
        }
    }
}

impl ErrorView {
    /// The message that is shown for the error.
    pub open spec fn message(self) -> Seq<char> {
        match self {
            ErrorView::ConnectionFailed(s) => "Connection failed: "@ + s,
            ErrorView::ConnectionClosed => "Connection closed"@,
            ErrorView::Timeout => "Request timeout"@,
            ErrorView::InvalidMessage(s) => "Invalid message: "@ + s,
            ErrorView::NotFound(s) => "Service not found: "@ + s,
            ErrorView::Protocol(s) => "Protocol error: "@ + s,
            ErrorView::Encoding(s) => "Encoding error: "@ + s,
            ErrorView::ResourceExhausted(s) => "Resource exhausted: "@ + s,
            ErrorView::Server(s) => "Server error: "@ + s,
        }
    }

    /// Whether the error says that the connection is gone.
    pub open spec fn is_connection_loss(self) -> bool {
        self is ConnectionClosed || self is ConnectionFailed
    }
}

impl ProtocolError {
    /// The message that is shown for the error.
    pub fn to_string(&self) -> (r: String)
        ensures
            r@ == self@.message(),
    {
        match self {
            ProtocolError::ConnectionFailed(s) => text::join("Connection failed: ", s.as_str()),
            ProtocolError::ConnectionClosed => "Connection closed".to_string(),
            ProtocolError::Timeout => "Request timeout".to_string(),
            ProtocolError::InvalidMessage(s) => text::join("Invalid message: ", s.as_str()),
            ProtocolError::NotFound(s) => text::join("Service not found: ", s.as_str()),
            ProtocolError::Protocol(s) => text::join("Protocol error: ", s.as_str()),
            ProtocolError::Encoding(s) => text::join("Encoding error: ", s.as_str()),
            ProtocolError::ResourceExhausted(s) => text::join("Resource exhausted: ", s.as_str()),
            ProtocolError::Server(s) => text::join("Server error: ", s.as_str()),
        }
    }

    /// Whether the error says that the connection is gone.
    pub fn is_connection_loss(&self) -> (r: bool)
        ensures
            r == self@.is_connection_loss(),
    {
        match self {
            ProtocolError::ConnectionClosed => true,
            ProtocolError::ConnectionFailed(_) => true,
            _ => false,
        }
    }
}

#[verifier::external_type_specification]
#[verifier::external_body]
pub struct ExIoError(std::io::Error);

#[verifier::external_type_specification]
#[verifier::external_body]
pub struct ExJsonError(serde_json::Error);

/// Whether an error of the operating system may read so. It is a relation and
/// picks no text: the text of such an error is the system's own.
pub uninterp spec fn io_error_may_read(e: std::io::Error, text: Seq<char>) -> bool;

/// Calls `to_string` on a `std::io::Error`: it gives a text that this error may
/// read as. Which one is up to the system.
#[verifier::external_body]
pub(crate) fn io_error_text(e: &std::io::Error) -> (r: String)
    ensures
        io_error_may_read(*e, r@),
{
    e.to_string()
}

/// Whether an error of `serde_json` may read so. It is a relation and picks no
/// text: the error may wrap one of the operating system.
pub uninterp spec fn json_error_may_read(e: serde_json::Error, text: Seq<char>) -> bool;

/// Calls `to_string` on a `serde_json::Error`: it gives a text that this error
/// may read as.
#[verifier::external_body]
fn json_error_text(e: &serde_json::Error) -> (r: String)
    ensures
        json_error_may_read(*e, r@),
{
    e.to_string()
}

impl From<std::io::Error> for ProtocolError {
    fn from(e: std::io::Error) -> (r: ProtocolError)
        ensures
            exists|text: Seq<char>| #[trigger]
                io_error_may_read(e, text) && r@ == ErrorView::ConnectionFailed(text),
    {
        let text = io_error_text(&e);
        assert(io_error_may_read(e, text@));
        ProtocolError::ConnectionFailed(text)
    }
}

impl vstd::std_specs::convert::FromSpecImpl<std::io::Error> for ProtocolError {
    open spec fn obeys_from_spec() -> bool {
        false
    }

    open spec fn from_spec(e: std::io::Error) -> ProtocolError {
        arbitrary()
    }
}

impl From<serde_json::Error> for ProtocolError {
    fn from(e: serde_json::Error) -> (r: ProtocolError)
        ensures
            exists|text: Seq<char>| #[trigger]
                json_error_may_read(e, text) && r@ == ErrorView::Encoding(text),
    {
        let text = json_error_text(&e);
        assert(json_error_may_read(e, text@));
        ProtocolError::Encoding(text)
    }
}

impl vstd::std_specs::convert::FromSpecImpl<serde_json::Error> for ProtocolError {
    open spec fn obeys_from_spec() -> bool {
        false
    }

    open spec fn from_spec(e: serde_json::Error) -> ProtocolError {
        arbitrary()
    }
}

/// A connection that was closed or could not be opened is lost; no other error says
/// so.
pub proof fn law_lost_connections_are_told_apart(e: ErrorView)
    ensures
        e.is_connection_loss() <==> match e {
            ErrorView::ConnectionClosed => true,
            ErrorView::ConnectionFailed(_) => true,
            ErrorView::Timeout => false,
            ErrorView::InvalidMessage(_) => false,
            ErrorView::NotFound(_) => false,
            ErrorView::Protocol(_) => false,
            ErrorView::Encoding(_) => false,
            ErrorView::ResourceExhausted(_) => false,
            ErrorView::Server(_) => false,
        },
{
}

/// The message of an error tells its kind, and then what is known of it.
pub proof fn law_message_tells_the_kind(why: Seq<char>)
    ensures
        ErrorView::ConnectionFailed(why).message() == "Connection failed: "@ + why,
        ErrorView::ConnectionClosed.message() == "Connection closed"@,
        ErrorView::Timeout.message() == "Request timeout"@,
        ErrorView::InvalidMessage(why).message() == "Invalid message: "@ + why,
        ErrorView::NotFound(why).message() == "Service not found: "@ + why,
        ErrorView::Protocol(why).message() == "Protocol error: "@ + why,
        ErrorView::Encoding(why).message() == "Encoding error: "@ + why,
        ErrorView::ResourceExhausted(why).message() == "Resource exhausted: "@ + why,
        ErrorView::Server(why).message() == "Server error: "@ + why,
{
}

/// An error and its model are of one kind and hold the same text.
pub proof fn law_error_model_keeps_everything(e: ProtocolError)
    ensures
        match e {
            ProtocolError::ConnectionFailed(s) => e@ == ErrorView::ConnectionFailed(s@),
            ProtocolError::ConnectionClosed => e@ == ErrorView::ConnectionClosed,
            ProtocolError::Timeout => e@ == ErrorView::Timeout,
            ProtocolError::InvalidMessage(s) => e@ == ErrorView::InvalidMessage(s@),
            ProtocolError::NotFound(s) => e@ == ErrorView::NotFound(s@),
            ProtocolError::Protocol(s) => e@ == ErrorView::Protocol(s@),
            ProtocolError::Encoding(s) => e@ == ErrorView::Encoding(s@),
            ProtocolError::ResourceExhausted(s) => e@ == ErrorView::ResourceExhausted(s@),
            ProtocolError::Server(s) => e@ == ErrorView::Server(s@),
        },
{
}

} // verus!
