//! Services: what answers the requests.

use crate::ids;
use crate::protocol;
use crate::protocol::{
    HandshakeRequest, HandshakeResponse, HandshakeResponseView, RequestView, ResponseView,
    ServiceRequest, ServiceResponse,
};
use std::sync::Arc;
use vstd::prelude::*;

verus! {

#[derive(Debug)]
pub enum HealthStatus {
    Healthy(String),
    Unhealthy(String, String),
}

/// The mathematical model of a [`HealthStatus`].
pub enum HealthView {
    Healthy(Seq<char>),
    Unhealthy(Seq<char>, Seq<char>),
}

impl View for HealthStatus {
    type V = HealthView;

    open spec fn view(&self) -> HealthView {
        match *self {
            HealthStatus::Healthy(s) => HealthView::Healthy(s@),
            HealthStatus::Unhealthy(s, r) => HealthView::Unhealthy(s@, r@),
        }
    }
}

impl Clone for HealthStatus {
    fn clone(&self) -> (r: HealthStatus)
        ensures
            r@ == self@,
    {
        match self {
            HealthStatus::Healthy(s) => HealthStatus::Healthy(s.clone()),
            HealthStatus::Unhealthy(s, r) => HealthStatus::Unhealthy(s.clone(), r.clone()),
        }
    }
}

impl HealthStatus {
    pub fn healthy(service: &str) -> (r: HealthStatus)
        ensures
            r@ == HealthView::Healthy(service@),
    {
        HealthStatus::Healthy(service.to_string())
    }

    pub fn unhealthy(service: &str, reason: &str) -> (r: HealthStatus)
        ensures
            r@ == HealthView::Unhealthy(service@, reason@),
    {
        HealthStatus::Unhealthy(service.to_string(), reason.to_string())
    }
}

/// The answer to a handshake that a service gives unless it has one of its own.
pub open spec fn accepted_handshake(server_id: Seq<char>, session_id: Seq<char>) -> HandshakeResponseView {
    HandshakeResponseView { server_id, session_id, success: true, encoding: "json"@ }
}

/// Accepts a handshake under the given session identifier.
pub fn accept_handshake(server_id: &str, session_id: String) -> (r: HandshakeResponse)
    ensures
        r@ == accepted_handshake(server_id@, session_id@),
{
    HandshakeResponse {
        server_id: server_id.to_string(),
        session_id,
        success: true,
        encoding: "json".to_string(),
    }
}

/// A service. Its users implement it.
pub trait ServiceHandler: Send + Sync {
    /// The name of the service. It does not change.
    open spec fn name(&self) -> Seq<char> {
        arbitrary()
    }

    /// Whether the service may answer the request in this way; in any way unless
    /// it says otherwise.
    open spec fn may_respond(&self, request: RequestView, response: ResponseView) -> bool {
        true
    }

    fn service_name(&self) -> (r: &str)
        ensures
            r@ == self.name(),
    ;

    fn capabilities(&self) -> (r: Vec<String>)
        ensures
            true,
        default_ensures
            protocol::texts(r@) == seq!["json"@],
    {
        protocol::one_text("json")
    }

    fn on_handshake(&self, request: HandshakeRequest) -> (r: HandshakeResponse)
        ensures
            true,
        default_ensures
            r@ == accepted_handshake(self.name(), r.session_id@),
            ids::is_random_id(r.session_id@),
    {
        accept_handshake(self.service_name(), ids::random_uuid())
    }

    fn handle(&self, request: ServiceRequest) -> (r: ServiceResponse)
        ensures
            self.may_respond(request@, r@),
    ;

    fn health_status(&self) -> (r: HealthStatus)
        ensures
            true,
        default_ensures
            r@ == HealthView::Healthy(self.name()),
    {
        HealthStatus::healthy(self.service_name())
    }
}

/// A service that a function answers for.
pub struct FnServiceHandler<F: Fn(ServiceRequest) -> ServiceResponse> {
    name: String,
    handler: Arc<F>,
}

impl<F: Fn(ServiceRequest) -> ServiceResponse> FnServiceHandler<F> {
    #[verifier::type_invariant]
    spec fn answers_everything(self) -> bool {
        forall|request: ServiceRequest| call_requires(*self.handler, (request,))
    }

    /// The function that answers.
    pub closed spec fn handler(&self) -> F {
        *self.handler
    }
}

impl<F: Fn(ServiceRequest) -> ServiceResponse + Send + Sync + 'static> FnServiceHandler<F> {
    pub fn new(name: &str, handler: F) -> (r: FnServiceHandler<F>)
        requires
            forall|request: ServiceRequest| call_requires(handler, (request,)),
        ensures
            r.name() == name@,
            r.handler() == handler,
    {
        FnServiceHandler { name: name.to_string(), handler: Arc::new(handler) }
    }
}

impl<F: Fn(ServiceRequest) -> ServiceResponse + Send + Sync + 'static> ServiceHandler
    for FnServiceHandler<F> {
    closed spec fn name(&self) -> Seq<char> {
        self.name@
    }

    open spec fn may_respond(&self, request: RequestView, response: ResponseView) -> bool {
        exists|q: ServiceRequest, r: ServiceResponse|
            q@ == request && r@ == response && #[trigger] call_ensures(self.handler(), (q,), r)
    }

    fn service_name(&self) -> (r: &str) {
        self.name.as_str()
    }

    fn handle(&self, request: ServiceRequest) -> (r: ServiceResponse) {
        proof {
            use_type_invariant(self);
        }
        let handler: &F = &self.handler;
        let r = handler(request);
        assert(call_ensures(self.handler(), (request,), r));
        r
    }
}

/// A handshake is accepted in the name of the service, under the session that it is
/// given, for JSON.
pub proof fn law_accepted_handshake_gives_a_session(server_id: Seq<char>, session_id: Seq<char>)
    ensures
        ({
            let r = accepted_handshake(server_id, session_id);
            &&& r.server_id == server_id
            &&& r.session_id == session_id
            &&& r.success
            &&& r.encoding == "json"@
        }),
{
}

/// A status tells of the service that it is about, and why it is not well.
pub proof fn law_status_tells_of_its_service(
    service: &str,
    reason: &str,
    well: HealthStatus,
    ill: HealthStatus,
    session_id: String,
    accepted: HandshakeResponse,
)
    requires
        call_ensures(HealthStatus::healthy, (service,), well),
        call_ensures(HealthStatus::unhealthy, (service, reason), ill),
        call_ensures(accept_handshake, (service, session_id), accepted),
    ensures
        well matches HealthStatus::Healthy(s) && s@ == service@,
        ill matches HealthStatus::Unhealthy(s, why) && s@ == service@ && why@ == reason@,
        accepted.server_id@ == service@ && accepted.session_id@ == session_id@,
        accepted.success && accepted.encoding@ == "json"@,
{
}

} // verus!
