//! The messages that clients and services exchange.

use crate::ids;
use crate::json::{Json, Value};
use vstd::prelude::*;

verus! {

#[derive(Debug)]
pub struct HandshakeRequest {
    pub client_id: String,
    pub service_name: String,
    pub capabilities: Vec<String>,
}

#[derive(Debug)]
pub struct HandshakeResponse {
    pub server_id: String,
    pub session_id: String,
    pub success: bool,
    pub encoding: String,
}

#[derive(Debug)]
pub struct ServiceRequest {
    pub request_id: String,
    pub correlation_id: String,
    pub service_name: String,
    pub method: String,
    pub payload: Value,
    pub topic: Option<String>,
}

#[derive(Debug)]
pub struct ServiceResponse {
    pub request_id: String,
    pub correlation_id: String,
    pub status: String,
    pub payload: Value,
    pub error: Option<String>,
}

/// The text in an optional string.
pub open spec fn opt_text(o: Option<String>) -> Option<Seq<char>> {
    match o {
        Some(s) => Some(s@),
        None => None,
    }
}

/// The texts in a list of strings.
pub open spec fn texts(v: Seq<String>) -> Seq<Seq<char>> {
    v.map_values(|s: String| s@)
}

/// The mathematical model of a [`HandshakeRequest`].
pub struct HandshakeRequestView {
    pub client_id: Seq<char>,
    pub service_name: Seq<char>,
    pub capabilities: Seq<Seq<char>>,
}

/// The mathematical model of a [`HandshakeResponse`].
pub struct HandshakeResponseView {
    pub server_id: Seq<char>,
    pub session_id: Seq<char>,
    pub success: bool,
    pub encoding: Seq<char>,
}

/// The mathematical model of a [`ServiceRequest`].
pub struct RequestView {
    pub request_id: Seq<char>,
    pub correlation_id: Seq<char>,
    pub service_name: Seq<char>,
    pub method: Seq<char>,
    pub payload: Json,
    pub topic: Option<Seq<char>>,
}

/// The mathematical model of a [`ServiceResponse`].
pub struct ResponseView {
    pub request_id: Seq<char>,
    pub correlation_id: Seq<char>,
    pub status: Seq<char>,
    pub payload: Json,
    pub error: Option<Seq<char>>,
}

impl View for HandshakeRequest {
    type V = HandshakeRequestView;

    open spec fn view(&self) -> HandshakeRequestView {
        HandshakeRequestView {
            client_id: self.client_id@,
            service_name: self.service_name@,
            capabilities: texts(self.capabilities@),
        }
    }
}

impl View for HandshakeResponse {
    type V = HandshakeResponseView;

    open spec fn view(&self) -> HandshakeResponseView {
        HandshakeResponseView {
            server_id: self.server_id@,
            session_id: self.session_id@,
            success: self.success,
            encoding: self.encoding@,
        }
    }
}

impl View for ServiceRequest {
    type V = RequestView;

    open spec fn view(&self) -> RequestView {
        RequestView {
            request_id: self.request_id@,
            correlation_id: self.correlation_id@,
            service_name: self.service_name@,
            method: self.method@,
            payload: self.payload@,
            topic: opt_text(self.topic),
        }
    }
}

impl View for ServiceResponse {
    type V = ResponseView;

    open spec fn view(&self) -> ResponseView {
        ResponseView {
            request_id: self.request_id@,
            correlation_id: self.correlation_id@,
            status: self.status@,
            payload: self.payload@,
            error: opt_text(self.error),
        }
    }
}

/// A copy of an optional string.
pub fn copy_opt(o: &Option<String>) -> (r: Option<String>)
    ensures
        opt_text(r) == opt_text(*o),
{
    match o {
        Some(s) => Some(s.clone()),
        None => None,
    }
}

/// A copy of a list of strings.
pub fn copy_texts(v: &Vec<String>) -> (r: Vec<String>)
    ensures
        texts(r@) == texts(v@),
{
    let mut copy: Vec<String> = Vec::new();
    let mut i: usize = 0;
    while i < v.len()
        invariant
            i <= v@.len(),
            copy@.len() == i,
            forall|j: int| 0 <= j < i ==> (#[trigger] copy@[j])@ == v@[j]@,
        decreases v.len() - i,
    {
        copy.push(v[i].clone());
        i = i + 1;
    }
    assert(texts(copy@) =~= texts(v@));
    copy
}

/// A list of one string.
pub fn one_text(s: &str) -> (r: Vec<String>)
    ensures
        texts(r@) == seq![s@],
{
    let mut v: Vec<String> = Vec::new();
    v.push(s.to_string());
    assert(texts(v@) =~= seq![s@]);
    v
}

impl Clone for HandshakeRequest {
    fn clone(&self) -> (r: HandshakeRequest)
        ensures
            r@ == self@,
    {
        HandshakeRequest {
            client_id: self.client_id.clone(),
            service_name: self.service_name.clone(),
            capabilities: copy_texts(&self.capabilities),
        }
    }
}

impl Clone for HandshakeResponse {
    fn clone(&self) -> (r: HandshakeResponse)
        ensures
            r@ == self@,
    {
        HandshakeResponse {
            server_id: self.server_id.clone(),
            session_id: self.session_id.clone(),
            success: self.success,
            encoding: self.encoding.clone(),
        }
    }
}

impl Clone for ServiceRequest {
    fn clone(&self) -> (r: ServiceRequest)
        ensures
            r@ == self@,
    {
        ServiceRequest {
            request_id: self.request_id.clone(),
            correlation_id: self.correlation_id.clone(),
            service_name: self.service_name.clone(),
            method: self.method.clone(),
            payload: self.payload.clone(),
            topic: copy_opt(&self.topic),
        }
    }
}

impl Clone for ServiceResponse {
    fn clone(&self) -> (r: ServiceResponse)
        ensures
            r@ == self@,
    {
        ServiceResponse {
            request_id: self.request_id.clone(),
            correlation_id: self.correlation_id.clone(),
            status: self.status.clone(),
            payload: self.payload.clone(),
            error: copy_opt(&self.error),
        }
    }
}

impl HandshakeRequest {
    /// The handshake that a client opens a connection with.
    pub fn from_client(client_id: &str, service_name: &str) -> (r: HandshakeRequest)
        ensures
            r@ == (HandshakeRequestView {
                client_id: client_id@,
                service_name: service_name@,
                capabilities: seq!["json"@],
            }),
    {
        HandshakeRequest {
            client_id: client_id.to_string(),
            service_name: service_name.to_string(),
            capabilities: one_text("json"),
        }
    }
}

impl ServiceRequest {
    /// A request with new random identifiers.
    pub fn new(service: &str, method: &str, payload: Value) -> (r: ServiceRequest)
        ensures
            r.service_name@ == service@,
            r.method@ == method@,
            r.payload@ == payload@,
            r.topic is None,
            ids::is_random_id(r.request_id@),
            ids::is_random_id(r.correlation_id@),
    {
        ServiceRequest::with_ids(ids::random_uuid(), ids::random_uuid(), service, method, payload)
    }

    /// A request with the given identifiers.
    pub fn with_ids(
        request_id: String,
        correlation_id: String,
        service: &str,
        method: &str,
        payload: Value,
    ) -> (r: ServiceRequest)
        ensures
            r@ == (RequestView {
                request_id: request_id@,
                correlation_id: correlation_id@,
                service_name: service@,
                method: method@,
                payload: payload@,
                topic: None,
            }),
    {
        ServiceRequest {
            request_id,
            correlation_id,
            service_name: service.to_string(),
            method: method.to_string(),
            payload,
            topic: None,
        }
    }

    pub fn with_topic(self, topic: &str) -> (r: ServiceRequest)
        ensures
            r@ == (RequestView { topic: Some(topic@), ..self@ }),
    {
        ServiceRequest { topic: Some(topic.to_string()), ..self }
    }
}

/// The response to a request that succeeded.
pub open spec fn success_response(request: RequestView, payload: Json) -> ResponseView {
    ResponseView {
        request_id: request.request_id,
        correlation_id: request.correlation_id,
        status: "success"@,
        payload,
        error: None,
    }
}

/// The response to a request that failed.
pub open spec fn error_response(request: RequestView, err: Seq<char>) -> ResponseView {
    ResponseView {
        request_id: request.request_id,
        correlation_id: request.correlation_id,
        status: "error"@,
        payload: Json::Null,
        error: Some(err),
    }
}

impl ServiceResponse {
    pub fn success(request: &ServiceRequest, payload: Value) -> (r: ServiceResponse)
        ensures
            r@ == success_response(request@, payload@),
    {
        ServiceResponse {
            request_id: request.request_id.clone(),
            correlation_id: request.correlation_id.clone(),
            status: "success".to_string(),
            payload,
            error: None,
        }
    }

    pub fn error(request: &ServiceRequest, err: &str) -> (r: ServiceResponse)
        ensures
            r@ == error_response(request@, err@),
    {
        ServiceResponse {
            request_id: request.request_id.clone(),
            correlation_id: request.correlation_id.clone(),
            status: "error".to_string(),
            payload: Value::Null,
            error: Some(err.to_string()),
        }
    }
}

/// A response carries the identifiers of the request that it answers, whether
/// the request succeeded or failed, and tells the two apart.
pub proof fn law_response_identifies_its_request(request: RequestView, payload: Json, err: Seq<char>)
    ensures
        success_response(request, payload).request_id == request.request_id,
        success_response(request, payload).correlation_id == request.correlation_id,
        error_response(request, err).request_id == request.request_id,
        error_response(request, err).correlation_id == request.correlation_id,
        success_response(request, payload).status != error_response(request, err).status,
{
    reveal_strlit("success");
    reveal_strlit("error");
    assert("success"@.len() != "error"@.len());
}

/// A response to a request that succeeded has the status `success`, the payload and
/// no error; one to a request that failed has the status `error`, no payload and
/// the error.
pub proof fn law_response_tells_what_came_of_it(request: RequestView, payload: Json, err: Seq<char>)
    ensures
        success_response(request, payload).status == "success"@,
        success_response(request, payload).payload == payload,
        success_response(request, payload).error is None,
        error_response(request, err).status == "error"@,
        error_response(request, err).payload == Json::Null,
        error_response(request, err).error == Some(err),
{
}

/// A request, a response and the handshakes hold the same as their models.
pub proof fn law_models_keep_everything(
    q: ServiceRequest,
    r: ServiceResponse,
    hello: HandshakeRequest,
    welcome: HandshakeResponse,
)
    ensures
        q@.request_id == q.request_id@,
        q@.correlation_id == q.correlation_id@,
        q@.service_name == q.service_name@,
        q@.method == q.method@,
        q@.payload == q.payload@,
        q.topic matches Some(t) ==> q@.topic == Some(t@),
        q.topic is None ==> q@.topic is None,
        r@.request_id == r.request_id@,
        r@.correlation_id == r.correlation_id@,
        r@.status == r.status@,
        r@.payload == r.payload@,
        r.error matches Some(e) ==> r@.error == Some(e@),
        r.error is None ==> r@.error is None,
        hello@.client_id == hello.client_id@,
        hello@.service_name == hello.service_name@,
        hello@.capabilities.len() == hello.capabilities@.len(),
        forall|i: int|
            0 <= i < hello.capabilities@.len() ==> #[trigger] hello@.capabilities[i]
                == hello.capabilities@[i]@,
        welcome@.server_id == welcome.server_id@,
        welcome@.session_id == welcome.session_id@,
        welcome@.success == welcome.success,
        welcome@.encoding == welcome.encoding@,
{
}

/// A request is made of what it is given, a topic is added to it alone, and a response
/// answers the request that it is made for.
pub proof fn law_messages_are_made_of_what_they_are_given(
    request_id: String,
    correlation_id: String,
    service: &str,
    method: &str,
    payload: Value,
    topic: &str,
    q: ServiceRequest,
    t: ServiceRequest,
    good: ServiceResponse,
    bad: ServiceResponse,
    err: &str,
)
    requires
        call_ensures(
            ServiceRequest::with_ids,
            (request_id, correlation_id, service, method, payload),
            q,
        ),
        call_ensures(ServiceRequest::with_topic, (q, topic), t),
        call_ensures(ServiceResponse::success, (&q, payload), good),
        call_ensures(ServiceResponse::error, (&q, err), bad),
    ensures
        q.request_id@ == request_id@ && q.correlation_id@ == correlation_id@,
        q.service_name@ == service@ && q.method@ == method@ && q.payload@ == payload@,
        q.topic is None,
        t@ == (RequestView { topic: Some(topic@), ..q@ }),
        good.request_id@ == request_id@ && good.correlation_id@ == correlation_id@,
        good.status@ == "success"@ && good.payload@ == payload@ && good.error is None,
        bad.request_id@ == request_id@ && bad.correlation_id@ == correlation_id@,
        bad.status@ == "error"@ && bad.payload@ == Json::Null,
        bad.error matches Some(told) && told@ == err@,
{
}

/// A new request is for what was asked, and has identifiers of its own.
pub proof fn law_new_request_is_for_what_was_asked(
    service: &str,
    method: &str,
    payload: Value,
    q: ServiceRequest,
)
    requires
        call_ensures(ServiceRequest::new, (service, method, payload), q),
    ensures
        q.service_name@ == service@ && q.method@ == method@ && q.payload@ == payload@,
        q.topic is None,
        q.request_id@.len() == 36 && q.correlation_id@.len() == 36,
{
}

} // verus!
