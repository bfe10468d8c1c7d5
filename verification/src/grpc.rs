//! Services over gRPC: settings, and what requests and responses look like on
//! the wire.

use crate::error::{ErrorView, ProtocolError};
use crate::json::Value;
use crate::protocol;
use crate::protocol::{RequestView, ResponseView, ServiceRequest, ServiceResponse};
use crate::text;
use crate::time::Duration;
use vstd::prelude::*;

verus! {

pub const MAX_MESSAGE_SIZE: usize = 4_194_304;

pub const HTTP2_KEEPALIVE_INTERVAL_SECS: u64 = 10;

pub const HTTP2_KEEPALIVE_TIMEOUT_SECS: u64 = 20;

pub const TCP_KEEPALIVE_SECS: u64 = 60;

pub const INITIAL_CONNECTION_WINDOW_SIZE: u32 = 1_048_576;

pub const INITIAL_STREAM_WINDOW_SIZE: u32 = 524_288;

pub const MAX_CONCURRENT_STREAMS: u32 = 200;

#[derive(Debug, Clone, Copy, PartialEq, Eq, Structural)]
pub struct GrpcServerConfig {
    pub max_message_size: usize,
    pub http2_keepalive_interval_secs: u64,
    pub http2_keepalive_timeout_secs: u64,
    pub tcp_keepalive_secs: u64,
    pub tcp_nodelay: bool,
    pub initial_connection_window_size: u32,
    pub initial_stream_window_size: u32,
    pub max_concurrent_streams: u32,
}

impl Default for GrpcServerConfig {
    fn default() -> (r: GrpcServerConfig)
        ensures
            r == (GrpcServerConfig {
                max_message_size: 4_194_304,
                http2_keepalive_interval_secs: 10,
                http2_keepalive_timeout_secs: 20,
                tcp_keepalive_secs: 60,
                tcp_nodelay: true,
                initial_connection_window_size: 1_048_576,
                initial_stream_window_size: 524_288,
                max_concurrent_streams: 200,
            }),
    {
        GrpcServerConfig {
            max_message_size: MAX_MESSAGE_SIZE,
            http2_keepalive_interval_secs: HTTP2_KEEPALIVE_INTERVAL_SECS,
            http2_keepalive_timeout_secs: HTTP2_KEEPALIVE_TIMEOUT_SECS,
            tcp_keepalive_secs: TCP_KEEPALIVE_SECS,
            tcp_nodelay: true,
            initial_connection_window_size: INITIAL_CONNECTION_WINDOW_SIZE,
            initial_stream_window_size: INITIAL_STREAM_WINDOW_SIZE,
            max_concurrent_streams: MAX_CONCURRENT_STREAMS,
        }
    }
}

impl GrpcServerConfig {
    pub fn http2_keepalive_interval(&self) -> (r: Duration)
        ensures
            r@ == self.http2_keepalive_interval_secs * 1_000_000_000,
    {
        Duration::from_secs(self.http2_keepalive_interval_secs)
    }

    pub fn http2_keepalive_timeout(&self) -> (r: Duration)
        ensures
            r@ == self.http2_keepalive_timeout_secs * 1_000_000_000,
    {
        Duration::from_secs(self.http2_keepalive_timeout_secs)
    }

    pub fn tcp_keepalive(&self) -> (r: Duration)
        ensures
            r@ == self.tcp_keepalive_secs * 1_000_000_000,
    {
        Duration::from_secs(self.tcp_keepalive_secs)
    }
}

#[derive(Debug)]
pub struct GrpcTlsConfig {
    pub enabled: bool,
    pub cert_path: Option<String>,
    pub key_path: Option<String>,
}

/// The mathematical model of a [`GrpcTlsConfig`].
pub struct TlsView {
    pub enabled: bool,
    pub cert_path: Option<Seq<char>>,
    pub key_path: Option<Seq<char>>,
}

impl View for GrpcTlsConfig {
    type V = TlsView;

    open spec fn view(&self) -> TlsView {
        TlsView {
            enabled: self.enabled,
            cert_path: protocol::opt_text(self.cert_path),
            key_path: protocol::opt_text(self.key_path),
        }
    }
}

impl Clone for GrpcTlsConfig {
    fn clone(&self) -> (r: GrpcTlsConfig)
        ensures
            r@ == self@,
    {
        GrpcTlsConfig {
            enabled: self.enabled,
            cert_path: protocol::copy_opt(&self.cert_path),
            key_path: protocol::copy_opt(&self.key_path),
        }
    }
}

/// Whether the value of a switch means that it is on.
pub open spec fn switched_on(value: Option<Seq<char>>) -> bool {
    match value {
        Some(v) => v == "true"@ || v == "1"@ || v == "yes"@,
        None => false,
    }
}

impl TlsView {
    /// What is wrong with the settings, if anything is: with TLS a certificate
    /// and a key are needed.
    pub open spec fn fault(self) -> Option<ErrorView> {
        if !self.enabled {
            None
        } else if self.cert_path is None {
            Some(
                ErrorView::InvalidMessage(
                    "GRPC_TLS_CERT_PATH is required when GRPC_TLS_ENABLED=true"@,
                ),
            )
        } else if self.key_path is None {
            Some(
                ErrorView::InvalidMessage(
                    "GRPC_TLS_KEY_PATH is required when GRPC_TLS_ENABLED=true"@,
                ),
            )
        } else {
            None
        }
    }
}

impl GrpcTlsConfig {
    /// The settings that the values of the variables `GRPC_TLS_ENABLED`,
    /// `GRPC_TLS_CERT_PATH` and `GRPC_TLS_KEY_PATH` stand for.
    pub fn from_vars(
        enabled: Option<String>,
        cert_path: Option<String>,
        key_path: Option<String>,
    ) -> (r: GrpcTlsConfig)
        ensures
            r@ == (TlsView {
                enabled: switched_on(protocol::opt_text(enabled)),
                cert_path: protocol::opt_text(cert_path),
                key_path: protocol::opt_text(key_path),
            }),
    {
        let enabled = match &enabled {
            Some(v) => text::str_eq(v.as_str(), "true") || text::str_eq(v.as_str(), "1")
                || text::str_eq(v.as_str(), "yes"),
            None => false,
        };
        GrpcTlsConfig { enabled, cert_path, key_path }
    }

    pub fn validate(&self) -> (r: Result<(), ProtocolError>)
        ensures
            match r {
                Ok(()) => self@.fault() is None,
                Err(e) => self@.fault() == Some(e@),
            },
    {
        if self.enabled {
            if self.cert_path.is_none() {
                return Err(
                    ProtocolError::InvalidMessage(
                        "GRPC_TLS_CERT_PATH is required when GRPC_TLS_ENABLED=true".to_string(),
                    ),
                );
            }
            if self.key_path.is_none() {
                return Err(
                    ProtocolError::InvalidMessage(
                        "GRPC_TLS_KEY_PATH is required when GRPC_TLS_ENABLED=true".to_string(),
                    ),
                );
            }
        }
        Ok(())
    }
}

/// Whether a server can be started: its address has to be one, and then its TLS
/// settings have to be sound.
pub fn check_startup(addr: Result<(), String>, tls: &GrpcTlsConfig) -> (r: Result<
    (),
    ProtocolError,
>)
    ensures
        match addr {
            Err(why) => r is Err && r->Err_0@ == ErrorView::InvalidMessage(why@),
            Ok(()) => match r {
                Ok(()) => tls@.fault() is None,
                Err(e) => tls@.fault() == Some(e@),
            },
        },
{
    match addr {
        Err(why) => Err(ProtocolError::InvalidMessage(why)),
        Ok(()) => tls.validate(),
    }
}

/// The address of a server as a client names it.
pub fn endpoint(addr: &str) -> (r: String)
    ensures
        r@ == "http://"@ + addr@,
{
    text::join("http://", addr)
}

/// A request on the wire. Its payload is JSON in bytes.
#[derive(Debug)]
pub struct GrpcRequest {
    pub request_id: String,
    pub correlation_id: String,
    pub service_name: String,
    pub method: String,
    pub payload: Vec<u8>,
    pub topic: Option<String>,
    pub timestamp: i64,
}

/// The mathematical model of a [`GrpcRequest`].
pub struct GrpcRequestView {
    pub request_id: Seq<char>,
    pub correlation_id: Seq<char>,
    pub service_name: Seq<char>,
    pub method: Seq<char>,
    pub payload: Seq<u8>,
    pub topic: Option<Seq<char>>,
    pub timestamp: i64,
}

impl View for GrpcRequest {
    type V = GrpcRequestView;

    open spec fn view(&self) -> GrpcRequestView {
        GrpcRequestView {
            request_id: self.request_id@,
            correlation_id: self.correlation_id@,
            service_name: self.service_name@,
            method: self.method@,
            payload: self.payload@,
            topic: protocol::opt_text(self.topic),
            timestamp: self.timestamp,
        }
    }
}

/// A response on the wire. Its payload is JSON in bytes.
#[derive(Debug)]
pub struct GrpcResponse {
    pub request_id: String,
    pub correlation_id: String,
    pub status: String,
    pub payload: Vec<u8>,
    pub error: Option<String>,
    pub error_code: Option<String>,
    pub timestamp: i64,
}

/// The mathematical model of a [`GrpcResponse`].
pub struct GrpcResponseView {
    pub request_id: Seq<char>,
    pub correlation_id: Seq<char>,
    pub status: Seq<char>,
    pub payload: Seq<u8>,
    pub error: Option<Seq<char>>,
    pub error_code: Option<Seq<char>>,
    pub timestamp: i64,
}

impl View for GrpcResponse {
    type V = GrpcResponseView;

    open spec fn view(&self) -> GrpcResponseView {
        GrpcResponseView {
            request_id: self.request_id@,
            correlation_id: self.correlation_id@,
            status: self.status@,
            payload: self.payload@,
            error: protocol::opt_text(self.error),
            error_code: protocol::opt_text(self.error_code),
            timestamp: self.timestamp,
        }
    }
}

/// The request that came in, once its payload was read.
pub open spec fn incoming(
    request: GrpcRequestView,
    payload: crate::json::Json,
) -> RequestView {
    RequestView {
        request_id: request.request_id,
        correlation_id: request.correlation_id,
        service_name: request.service_name,
        method: request.method,
        payload,
        topic: request.topic,
    }
}

/// The request that goes out, once its payload was written.
pub open spec fn outgoing(
    request: RequestView,
    payload: Seq<u8>,
    timestamp: i64,
) -> GrpcRequestView {
    GrpcRequestView {
        request_id: request.request_id,
        correlation_id: request.correlation_id,
        service_name: request.service_name,
        method: request.method,
        payload,
        topic: request.topic,
        timestamp,
    }
}

/// The response that goes out, once its payload was written.
pub open spec fn reply(response: ResponseView, payload: Seq<u8>, timestamp: i64) -> GrpcResponseView {
    GrpcResponseView {
        request_id: response.request_id,
        correlation_id: response.correlation_id,
        status: response.status,
        payload,
        error: response.error,
        error_code: None,
        timestamp,
    }
}

/// The response that came in, once its payload was read.
pub open spec fn replied(response: GrpcResponseView, payload: crate::json::Json) -> ResponseView {
    ResponseView {
        request_id: response.request_id,
        correlation_id: response.correlation_id,
        status: response.status,
        payload,
        error: response.error,
    }
}

/// What the caller is told when the payload of a request is not JSON.
pub fn invalid_payload_message(why: &str) -> (r: String)
    ensures
        r@ == "invalid payload: "@ + why@,
{
    text::join("invalid payload: ", why)
}

/// What the caller is told when the payload of a response cannot be written.
pub fn serialization_message(why: &str) -> (r: String)
    ensures
        r@ == "serialization error: "@ + why@,
{
    text::join("serialization error: ", why)
}

/// The request that came in, once its payload was read.
pub fn internal_request(request: GrpcRequest, payload: Value) -> (r: ServiceRequest)
    ensures
        r@ == incoming(request@, payload@),
{
    ServiceRequest {
        request_id: request.request_id,
        correlation_id: request.correlation_id,
        service_name: request.service_name,
        method: request.method,
        payload,
        topic: request.topic,
    }
}

/// The request that goes out, once its payload was written.
pub fn grpc_request(request: ServiceRequest, payload: Vec<u8>, timestamp: i64) -> (r: GrpcRequest)
    ensures
        r@ == outgoing(request@, payload@, timestamp),
{
    GrpcRequest {
        request_id: request.request_id,
        correlation_id: request.correlation_id,
        service_name: request.service_name,
        method: request.method,
        payload,
        topic: request.topic,
        timestamp,
    }
}

/// The response that goes out, once its payload was written.
pub fn grpc_response(response: ServiceResponse, payload: Vec<u8>, timestamp: i64) -> (r:
    GrpcResponse)
    ensures
        r@ == reply(response@, payload@, timestamp),
{
    GrpcResponse {
        request_id: response.request_id,
        correlation_id: response.correlation_id,
        status: response.status,
        payload,
        error: response.error,
        error_code: None,
        timestamp,
    }
}

/// The response that came in, once its payload was read.
pub fn internal_response(response: GrpcResponse, payload: Value) -> (r: ServiceResponse)
    ensures
        r@ == replied(response@, payload@),
{
    ServiceResponse {
        request_id: response.request_id,
        correlation_id: response.correlation_id,
        status: response.status,
        payload,
        error: response.error,
    }
}

/// A request and a response come through as they were sent, as long as their
/// payloads are read as they were written.
pub proof fn law_messages_come_through(
    request: RequestView,
    response: ResponseView,
    bytes: Seq<u8>,
    timestamp: i64,
)
    ensures
        incoming(outgoing(request, bytes, timestamp), request.payload) == request,
        replied(reply(response, bytes, timestamp), response.payload) == response,
{
}

/// A request and a response carry the same on the wire as in memory, each part under
/// its own name, with the payload in bytes and the time of sending beside it.
pub proof fn law_wire_keeps_every_part(
    request: RequestView,
    response: ResponseView,
    bytes: Seq<u8>,
    timestamp: i64,
)
    ensures
        ({
            let q = outgoing(request, bytes, timestamp);
            &&& q.request_id == request.request_id && q.correlation_id == request.correlation_id
            &&& q.service_name == request.service_name && q.method == request.method
            &&& q.topic == request.topic && q.payload == bytes && q.timestamp == timestamp
        }),
        ({
            let r = reply(response, bytes, timestamp);
            &&& r.request_id == response.request_id && r.correlation_id == response.correlation_id
            &&& r.status == response.status && r.error == response.error
            &&& r.error_code is None && r.payload == bytes && r.timestamp == timestamp
        }),
{
}

/// TLS is on for the words `true`, `1` and `yes`, and off otherwise. With it a
/// certificate and a key are needed; what is missing is told, the certificate first.
pub proof fn law_tls_needs_certificate_and_key(t: TlsView, value: Seq<char>)
    ensures
        switched_on(Some(value)) <==> value == "true"@ || value == "1"@ || value == "yes"@,
        !switched_on(None),
        t.fault() is None <==> !t.enabled || (t.cert_path is Some && t.key_path is Some),
        t.enabled && t.cert_path is None ==> t.fault() == Some(
            ErrorView::InvalidMessage(
                "GRPC_TLS_CERT_PATH is required when GRPC_TLS_ENABLED=true"@,
            ),
        ),
        t.enabled && t.cert_path is Some && t.key_path is None ==> t.fault() == Some(
            ErrorView::InvalidMessage(
                "GRPC_TLS_KEY_PATH is required when GRPC_TLS_ENABLED=true"@,
            ),
        ),
{
}

/// TLS is on when its variable says so, and the paths are those of the variables.
pub proof fn law_settings_are_those_of_the_variables(
    enabled: Option<String>,
    cert_path: Option<String>,
    key_path: Option<String>,
    tls: GrpcTlsConfig,
)
    requires
        call_ensures(GrpcTlsConfig::from_vars, (enabled, cert_path, key_path), tls),
    ensures
        tls.enabled <==> (enabled matches Some(v) && (v@ == "true"@ || v@ == "1"@ || v@
            == "yes"@)),
        protocol::opt_text(tls.cert_path) == protocol::opt_text(cert_path),
        protocol::opt_text(tls.key_path) == protocol::opt_text(key_path),
{
}

/// A server starts with an address that is one, and, with TLS, a certificate and a key;
/// otherwise it is told what is wrong.
pub proof fn law_server_starts_when_all_is_there(
    addr: Result<(), String>,
    tls: GrpcTlsConfig,
    started: Result<(), ProtocolError>,
)
    requires
        call_ensures(check_startup, (addr, &tls), started),
    ensures
        started is Ok <==> addr is Ok && (tls.enabled ==> tls.cert_path is Some && tls.key_path
            is Some),
        (addr matches Err(why) ==> started matches Err(e) && e@ == ErrorView::InvalidMessage(
            why@,
        )),
        addr is Ok && tls.enabled && tls.cert_path is None ==> (started matches Err(e) && e@
            == ErrorView::InvalidMessage(
            "GRPC_TLS_CERT_PATH is required when GRPC_TLS_ENABLED=true"@,
        )),
        addr is Ok && tls.enabled && tls.cert_path is Some && tls.key_path is None ==> (started
            matches Err(e) && e@ == ErrorView::InvalidMessage(
            "GRPC_TLS_KEY_PATH is required when GRPC_TLS_ENABLED=true"@,
        )),
{
}

/// A request goes out and comes in, and a response too, with every part in its place.
pub proof fn law_messages_keep_their_parts(
    q: ServiceRequest,
    bytes: Vec<u8>,
    timestamp: i64,
    out: GrpcRequest,
    payload: Value,
    back: ServiceRequest,
    p: ServiceResponse,
    out_p: GrpcResponse,
    back_p: ServiceResponse,
)
    requires
        call_ensures(grpc_request, (q, bytes, timestamp), out),
        call_ensures(internal_request, (out, payload), back),
        call_ensures(grpc_response, (p, bytes, timestamp), out_p),
        call_ensures(internal_response, (out_p, payload), back_p),
    ensures
        out.payload@ == bytes@ && out.timestamp == timestamp,
        out_p.payload@ == bytes@ && out_p.timestamp == timestamp && out_p.error_code is None,
        back@ == (RequestView { payload: payload@, ..q@ }),
        back_p@ == (ResponseView { payload: payload@, ..p@ }),
        out.request_id@ == q.request_id@ && out.service_name@ == q.service_name@ && out.method@
            == q.method@,
        out_p.request_id@ == p.request_id@ && out_p.status@ == p.status@,
{
}

/// The keepalive spans are the seconds of the settings, and a server is named by its
/// address.
pub proof fn law_spans_are_those_of_the_settings(
    c: GrpcServerConfig,
    a: Duration,
    b: Duration,
    t: Duration,
    addr: &str,
    named: String,
)
    requires
        call_ensures(GrpcServerConfig::http2_keepalive_interval, (&c,), a),
        call_ensures(GrpcServerConfig::http2_keepalive_timeout, (&c,), b),
        call_ensures(GrpcServerConfig::tcp_keepalive, (&c,), t),
        call_ensures(endpoint, (addr,), named),
    ensures
        a.secs() == c.http2_keepalive_interval_secs && a@ % 1_000_000_000 == 0,
        b.secs() == c.http2_keepalive_timeout_secs && b@ % 1_000_000_000 == 0,
        t.secs() == c.tcp_keepalive_secs && t@ % 1_000_000_000 == 0,
        named@ == "http://"@ + addr@,
{
}

/// TLS settings are sound just when TLS is off or has both a certificate and a key; what
/// cannot be read or written is told with its reason.
pub proof fn law_faults_are_told(
    tls: GrpcTlsConfig,
    sound: Result<(), ProtocolError>,
    why: &str,
    unread: String,
    unwritten: String,
)
    requires
        call_ensures(GrpcTlsConfig::validate, (&tls,), sound),
        call_ensures(invalid_payload_message, (why,), unread),
        call_ensures(serialization_message, (why,), unwritten),
    ensures
        sound is Ok <==> (tls.enabled ==> tls.cert_path is Some && tls.key_path is Some),
        unread@ == "invalid payload: "@ + why@,
        unwritten@ == "serialization error: "@ + why@,
{
}

} // verus!
