//! Webhooks: events that are posted to the outside, with retries.

use crate::error::{ErrorView, ProtocolError};
use crate::map::StrMap;
use crate::text;
use crate::time::Duration;
use vstd::prelude::*;

verus! {

#[derive(Debug)]
pub enum WebhookEvent {
    RequestReceived { request_id: String, service_name: String, method: String, timestamp: String },
    ResponseSent {
        request_id: String,
        service_name: String,
        status: String,
        duration_ms: u64,
        timestamp: String,
    },
    Error { request_id: String, service_name: String, error: String, timestamp: String },
    HealthCheck { service_name: String, status: String, timestamp: String },
}

/// The mathematical model of a [`WebhookEvent`].
pub enum EventView {
    RequestReceived {
        request_id: Seq<char>,
        service_name: Seq<char>,
        method: Seq<char>,
        timestamp: Seq<char>,
    },
    ResponseSent {
        request_id: Seq<char>,
        service_name: Seq<char>,
        status: Seq<char>,
        duration_ms: u64,
        timestamp: Seq<char>,
    },
    Error {
        request_id: Seq<char>,
        service_name: Seq<char>,
        error: Seq<char>,
        timestamp: Seq<char>,
    },
    HealthCheck { service_name: Seq<char>, status: Seq<char>, timestamp: Seq<char> },
}

impl View for WebhookEvent {
    type V = EventView;

    open spec fn view(&self) -> EventView {
        match *self {
            WebhookEvent::RequestReceived { request_id, service_name, method, timestamp } => {
                EventView::RequestReceived {
                    request_id: request_id@,
                    service_name: service_name@,
                    method: method@,
                    timestamp: timestamp@,
                }
            },
            WebhookEvent::ResponseSent {
                request_id,
                service_name,
                status,
                duration_ms,
                timestamp,
            } => EventView::ResponseSent {
                request_id: request_id@,
                service_name: service_name@,
                status: status@,
                duration_ms,
                timestamp: timestamp@,
            },
            WebhookEvent::Error { request_id, service_name, error, timestamp } => EventView::Error {
                request_id: request_id@,
                service_name: service_name@,
                error: error@,
                timestamp: timestamp@,
            },
            WebhookEvent::HealthCheck { service_name, status, timestamp } => {
                EventView::HealthCheck {
                    service_name: service_name@,
                    status: status@,
                    timestamp: timestamp@,
                }
            },
        }
    }
}

impl Clone for WebhookEvent {
    fn clone(&self) -> (r: WebhookEvent)
        ensures
            r@ == self@,
    {
        match self {
            WebhookEvent::RequestReceived { request_id, service_name, method, timestamp } => {
                WebhookEvent::RequestReceived {
                    request_id: request_id.clone(),
                    service_name: service_name.clone(),
                    method: method.clone(),
                    timestamp: timestamp.clone(),
                }
            },
            WebhookEvent::ResponseSent {
                request_id,
                service_name,
                status,
                duration_ms,
                timestamp,
            } => WebhookEvent::ResponseSent {
                request_id: request_id.clone(),
                service_name: service_name.clone(),
                status: status.clone(),
                duration_ms: *duration_ms,
                timestamp: timestamp.clone(),
            },
            WebhookEvent::Error { request_id, service_name, error, timestamp } => {
                WebhookEvent::Error {
                    request_id: request_id.clone(),
                    service_name: service_name.clone(),
                    error: error.clone(),
                    timestamp: timestamp.clone(),
                }
            },
            WebhookEvent::HealthCheck { service_name, status, timestamp } => {
                WebhookEvent::HealthCheck {
                    service_name: service_name.clone(),
                    status: status.clone(),
                    timestamp: timestamp.clone(),
                }
            },
        }
    }
}

impl EventView {
    /// The name that the event goes by in the header of a post.
    pub open spec fn event_type(self) -> Seq<char> {
        match self {
            EventView::RequestReceived { .. } => "request_received"@,
            EventView::ResponseSent { .. } => "response_sent"@,
            EventView::Error { .. } => "error"@,
            EventView::HealthCheck { .. } => "health_check"@,
        }
    }
}

/// A request came in.
pub open spec fn received_at(
    request_id: Seq<char>,
    service_name: Seq<char>,
    method: Seq<char>,
    timestamp: Seq<char>,
) -> EventView {
    EventView::RequestReceived { request_id, service_name, method, timestamp }
}

/// A response went out.
pub open spec fn sent_at(
    request_id: Seq<char>,
    service_name: Seq<char>,
    status: Seq<char>,
    duration_ms: u64,
    timestamp: Seq<char>,
) -> EventView {
    EventView::ResponseSent { request_id, service_name, status, duration_ms, timestamp }
}

/// A request failed.
pub open spec fn failed_at(
    request_id: Seq<char>,
    service_name: Seq<char>,
    error: Seq<char>,
    timestamp: Seq<char>,
) -> EventView {
    EventView::Error { request_id, service_name, error, timestamp }
}

/// Whether a text ends with the offset of UTC.
pub open spec fn tells_utc(timestamp: Seq<char>) -> bool {
    timestamp.len() > 6 && timestamp.skip(timestamp.len() - 6) == "+00:00"@
}

/// Whether the current time may be written so. It is a relation and picks no text.
pub uninterp spec fn now_may_be_written(text: Seq<char>) -> bool;

/// Whether this may be the current time in UTC.
pub open spec fn may_be_now(timestamp: Seq<char>) -> bool {
    tells_utc(timestamp) && now_may_be_written(timestamp)
}

/// Calls `chrono::Utc::now` and `DateTime::to_rfc3339`. The text depends on the
/// time, so that all that is claimed of it is that the current time may be
/// written so, and that it ends with the offset of UTC, which is written out.
#[verifier::external_body]
fn utc_now_rfc3339() -> (r: String)
    ensures
        tells_utc(r@),
        now_may_be_written(r@),
{
    chrono::Utc::now().to_rfc3339()
}

impl WebhookEvent {
    /// A request came in.
    pub fn request_received(
        request_id: &str,
        service_name: &str,
        method: &str,
        timestamp: String,
    ) -> (r: WebhookEvent)
        ensures
            r@ == received_at(request_id@, service_name@, method@, timestamp@),
    {
        WebhookEvent::RequestReceived {
            request_id: request_id.to_string(),
            service_name: service_name.to_string(),
            method: method.to_string(),
            timestamp,
        }
    }

    /// A response went out.
    pub fn response_sent(
        request_id: &str,
        service_name: &str,
        status: &str,
        duration_ms: u64,
        timestamp: String,
    ) -> (r: WebhookEvent)
        ensures
            r@ == sent_at(request_id@, service_name@, status@, duration_ms, timestamp@),
    {
        WebhookEvent::ResponseSent {
            request_id: request_id.to_string(),
            service_name: service_name.to_string(),
            status: status.to_string(),
            duration_ms,
            timestamp,
        }
    }

    /// A request failed.
    pub fn failed(request_id: &str, service_name: &str, error: &str, timestamp: String) -> (r:
        WebhookEvent)
        ensures
            r@ == failed_at(request_id@, service_name@, error@, timestamp@),
    {
        WebhookEvent::Error {
            request_id: request_id.to_string(),
            service_name: service_name.to_string(),
            error: error.to_string(),
            timestamp,
        }
    }

    /// A request came in now.
    pub fn request_received_now(request_id: &str, service_name: &str, method: &str) -> (r:
        WebhookEvent)
        ensures
            exists|timestamp: Seq<char>|
                #[trigger] may_be_now(timestamp) && r@ == received_at(
                    request_id@,
                    service_name@,
                    method@,
                    timestamp,
                ),
    {
        let timestamp = WebhookEvent::timestamp();
        WebhookEvent::request_received(request_id, service_name, method, timestamp)
    }

    /// A response went out now.
    pub fn response_sent_now(
        request_id: &str,
        service_name: &str,
        status: &str,
        duration_ms: u64,
    ) -> (r: WebhookEvent)
        ensures
            exists|timestamp: Seq<char>|
                #[trigger] may_be_now(timestamp) && r@ == sent_at(
                    request_id@,
                    service_name@,
                    status@,
                    duration_ms,
                    timestamp,
                ),
    {
        let timestamp = WebhookEvent::timestamp();
        WebhookEvent::response_sent(request_id, service_name, status, duration_ms, timestamp)
    }

    /// A request failed now.
    pub fn failed_now(request_id: &str, service_name: &str, error: &str) -> (r: WebhookEvent)
        ensures
            exists|timestamp: Seq<char>|
                #[trigger] may_be_now(timestamp) && r@ == failed_at(
                    request_id@,
                    service_name@,
                    error@,
                    timestamp,
                ),
    {
        let timestamp = WebhookEvent::timestamp();
        WebhookEvent::failed(request_id, service_name, error, timestamp)
    }

    pub fn event_type(&self) -> (r: &'static str)
        ensures
            r@ == self@.event_type(),
    {
        match self {
            WebhookEvent::RequestReceived { .. } => "request_received",
            WebhookEvent::ResponseSent { .. } => "response_sent",
            WebhookEvent::Error { .. } => "error",
            WebhookEvent::HealthCheck { .. } => "health_check",
        }
    }

    /// The current time in UTC, as RFC 3339 writes it.
    pub fn timestamp() -> (r: String)
        ensures
            may_be_now(r@),
    {
        utc_now_rfc3339()
    }
}

/// How often and after what delays a post is tried again. The multiplier is
/// kept as the bits of an IEEE 754 double.
#[derive(Debug, Clone, Copy, PartialEq, Eq, Structural)]
pub struct WebhookRetryPolicy {
    pub max_retries: u32,
    pub initial_delay_ms: u64,
    pub max_delay_ms: u64,
    pub backoff_multiplier_bits: u64,
}

/// The bits of the double 1.
pub const DOUBLE_ONE: u64 = 0x3FF0_0000_0000_0000;

/// The bits of the double 2.
pub const DOUBLE_TWO: u64 = 0x4000_0000_0000_0000;

impl Default for WebhookRetryPolicy {
    fn default() -> (r: WebhookRetryPolicy)
        ensures
            r == (WebhookRetryPolicy {
                max_retries: 3,
                initial_delay_ms: 100,
                max_delay_ms: 10000,
                backoff_multiplier_bits: DOUBLE_TWO,
            }),
    {
        WebhookRetryPolicy {
            max_retries: 3,
            initial_delay_ms: 100,
            max_delay_ms: 10000,
            backoff_multiplier_bits: DOUBLE_TWO,
        }
    }
}

impl WebhookRetryPolicy {
    /// Delays that double, up to half a minute.
    pub fn exponential(max_retries: u32) -> (r: WebhookRetryPolicy)
        ensures
            r == (WebhookRetryPolicy {
                max_retries,
                initial_delay_ms: 100,
                max_delay_ms: 30000,
                backoff_multiplier_bits: DOUBLE_TWO,
            }),
    {
        WebhookRetryPolicy {
            max_retries,
            initial_delay_ms: 100,
            max_delay_ms: 30000,
            backoff_multiplier_bits: DOUBLE_TWO,
        }
    }

    /// Delays that stay the same.
    pub fn linear(max_retries: u32, delay_ms: u64) -> (r: WebhookRetryPolicy)
        ensures
            r == (WebhookRetryPolicy {
                max_retries,
                initial_delay_ms: delay_ms,
                max_delay_ms: delay_ms,
                backoff_multiplier_bits: DOUBLE_ONE,
            }),
    {
        WebhookRetryPolicy {
            max_retries,
            initial_delay_ms: delay_ms,
            max_delay_ms: delay_ms,
            backoff_multiplier_bits: DOUBLE_ONE,
        }
    }

    /// A delay as it is kept: no longer than the longest that the policy allows.
    pub fn capped_delay(&self, delay_ms: u64) -> (r: Duration)
        ensures
            r@ == vstd::math::min(delay_ms as int, self.max_delay_ms as int) * 1_000_000,
    {
        if delay_ms <= self.max_delay_ms {
            Duration::from_millis(delay_ms)
        } else {
            Duration::from_millis(self.max_delay_ms)
        }
    }
}

#[derive(Debug)]
pub struct WebhookConfig {
    pub url: String,
    pub headers: StrMap<String>,
    pub timeout_secs: u64,
    pub retry_policy: WebhookRetryPolicy,
}

/// The mathematical model of a [`WebhookConfig`].
pub struct WebhookConfigView {
    pub url: Seq<char>,
    pub headers: Map<Seq<char>, Seq<char>>,
    pub timeout_secs: u64,
    pub retry_policy: WebhookRetryPolicy,
}

impl View for WebhookConfig {
    type V = WebhookConfigView;

    open spec fn view(&self) -> WebhookConfigView {
        WebhookConfigView {
            url: self.url@,
            headers: self.headers@.map_values(|s: String| s@),
            timeout_secs: self.timeout_secs,
            retry_policy: self.retry_policy,
        }
    }
}

impl Clone for WebhookConfig {
    fn clone(&self) -> (r: WebhookConfig)
        ensures
            r@ == self@,
            r.headers.order() == self.headers.order(),
    {
        WebhookConfig {
            url: self.url.clone(),
            headers: crate::map::copy_text_map(&self.headers),
            timeout_secs: self.timeout_secs,
            retry_policy: self.retry_policy,
        }
    }
}

impl WebhookConfigView {
    /// The settings of a webhook of which only the address is known.
    pub open spec fn plain(url: Seq<char>) -> WebhookConfigView {
        WebhookConfigView {
            url,
            headers: Map::empty(),
            timeout_secs: 30,
            retry_policy: WebhookRetryPolicy {
                max_retries: 3,
                initial_delay_ms: 100,
                max_delay_ms: 10000,
                backoff_multiplier_bits: DOUBLE_TWO,
            },
        }
    }
}

impl WebhookConfig {
    pub fn new(url: &str) -> (r: WebhookConfig)
        ensures
            r@ == WebhookConfigView::plain(url@),
    {
        let r = WebhookConfig {
            url: url.to_string(),
            headers: StrMap::new(),
            timeout_secs: 30,
            retry_policy: WebhookRetryPolicy::default(),
        };
        assert(r@.headers =~= Map::empty());
        r
    }

    pub fn with_header(self, key: &str, value: &str) -> (r: WebhookConfig)
        ensures
            r@ == (WebhookConfigView { headers: self@.headers.insert(key@, value@), ..self@ }),
    {
        let mut headers = self.headers;
        headers.insert(key.to_string(), value.to_string());
        let r = WebhookConfig { headers, ..self };
        assert(r@.headers =~= self@.headers.insert(key@, value@));
        r
    }

    pub fn with_timeout(self, secs: u64) -> (r: WebhookConfig)
        ensures
            r@ == (WebhookConfigView { timeout_secs: secs, ..self@ }),
    {
        WebhookConfig { timeout_secs: secs, ..self }
    }

    pub fn with_retry_policy(self, policy: WebhookRetryPolicy) -> (r: WebhookConfig)
        ensures
            r@ == (WebhookConfigView { retry_policy: policy, ..self@ }),
    {
        WebhookConfig { retry_policy: policy, ..self }
    }
}

/// What came of one post.
#[derive(Debug)]
pub enum PostOutcome {
    /// An answer, with its status as text and whether that means success.
    Answered { success: bool, status: String },
    /// No answer, and why.
    Failed(String),
}

/// The mathematical model of a [`PostOutcome`].
pub enum OutcomeView {
    Answered { success: bool, status: Seq<char> },
    Failed(Seq<char>),
}

impl View for PostOutcome {
    type V = OutcomeView;

    open spec fn view(&self) -> OutcomeView {
        match *self {
            PostOutcome::Answered { success, status } => OutcomeView::Answered {
                success,
                status: status@,
            },
            PostOutcome::Failed(why) => OutcomeView::Failed(why@),
        }
    }
}

impl OutcomeView {
    pub open spec fn is_success(self) -> bool {
        self matches OutcomeView::Answered { success: true, .. }
    }
}

/// What to do after a post.
#[derive(Debug)]
pub enum DeliveryStep {
    Delivered,
    GiveUp(ProtocolError),
    /// Post again after the delay that is due for this attempt.
    Retry { attempt: u32 },
}

/// The mathematical model of a [`DeliveryStep`].
pub enum StepView {
    Delivered,
    GiveUp(ErrorView),
    Retry { attempt: u32 },
}

impl View for DeliveryStep {
    type V = StepView;

    open spec fn view(&self) -> StepView {
        match *self {
            DeliveryStep::Delivered => StepView::Delivered,
            DeliveryStep::GiveUp(e) => StepView::GiveUp(e@),
            DeliveryStep::Retry { attempt } => StepView::Retry { attempt },
        }
    }
}

/// The delivery of one event: how many posts failed so far, out of how many
/// that may be made.
#[derive(Debug)]
pub struct Delivery {
    attempt: u32,
    max_attempts: u32,
}

/// The mathematical model of a [`Delivery`].
pub struct DeliveryView {
    pub attempt: u32,
    pub max_attempts: u32,
}

impl View for Delivery {
    type V = DeliveryView;

    closed spec fn view(&self) -> DeliveryView {
        DeliveryView { attempt: self.attempt, max_attempts: self.max_attempts }
    }
}

/// The error once all posts have failed.
pub open spec fn gave_up(max_attempts: u32, outcome: OutcomeView) -> ErrorView {
    let head = "Webhook failed after "@ + text::decimal(max_attempts as nat);
    match outcome {
        OutcomeView::Answered { status, .. } => ErrorView::Server(
            head + " attempts: HTTP "@ + status,
        ),
        OutcomeView::Failed(why) => ErrorView::ConnectionFailed(head + " attempts: "@ + why),
    }
}

impl DeliveryView {
    /// What to do after the post that comes next ended in `outcome`.
    pub open spec fn step(self, outcome: OutcomeView) -> StepView {
        if outcome.is_success() {
            StepView::Delivered
        } else if self.attempt + 1 >= self.max_attempts {
            StepView::GiveUp(gave_up(self.max_attempts, outcome))
        } else {
            StepView::Retry { attempt: (self.attempt + 1) as u32 }
        }
    }

    pub open spec fn after(self, outcome: OutcomeView) -> DeliveryView {
        match self.step(outcome) {
            StepView::Retry { attempt } => DeliveryView { attempt, ..self },
            _ => self,
        }
    }
}

impl Delivery {
    #[verifier::type_invariant]
    spec fn inv(self) -> bool {
        self.attempt < self.max_attempts
    }

    /// A delivery under the policy: one post and its retries. The number of
    /// posts has to fit in 32 bits.
    pub fn new(policy: &WebhookRetryPolicy) -> (r: Delivery)
        requires
            policy.max_retries < u32::MAX,
        ensures
            r@ == (DeliveryView {
                attempt: 0,
                max_attempts: (policy.max_retries + 1) as u32,
            }),
    {
        Delivery { attempt: 0, max_attempts: policy.max_retries + 1 }
    }

    /// Takes note of what came of a post, and says what to do.
    pub fn record(&mut self, outcome: PostOutcome) -> (r: DeliveryStep)
        ensures
            r@ == old(self)@.step(outcome@),
            final(self)@ == old(self)@.after(outcome@),
    {
        proof {
            use_type_invariant(&*self);
        }
        match outcome {
            PostOutcome::Answered { success, status } => {
                if success {
                    return DeliveryStep::Delivered;
                }
                if self.attempt >= self.max_attempts - 1 {
                    let head = text::join_number(
                        "Webhook failed after ",
                        self.max_attempts as u64,
                        " attempts: HTTP ",
                    );
                    return DeliveryStep::GiveUp(
                        ProtocolError::Server(text::join(head.as_str(), status.as_str())),
                    );
                }
            },
            PostOutcome::Failed(why) => {
                if self.attempt >= self.max_attempts - 1 {
                    let head = text::join_number(
                        "Webhook failed after ",
                        self.max_attempts as u64,
                        " attempts: ",
                    );
                    return DeliveryStep::GiveUp(
                        ProtocolError::ConnectionFailed(text::join(head.as_str(), why.as_str())),
                    );
                }
            },
        }
        self.attempt = self.attempt + 1;
        DeliveryStep::Retry { attempt: self.attempt }
    }
}

/// The delivery after posts that ended in the given outcomes.
pub open spec fn after_posts(d: DeliveryView, outcomes: Seq<OutcomeView>) -> DeliveryView
    decreases outcomes.len(),
{
    if outcomes.len() == 0 {
        d
    } else {
        after_posts(d, outcomes.drop_last()).after(outcomes.last())
    }
}

/// An event is posted as often as the policy allows and no more: the retries
/// are numbered from 1 on, and the last post that fails ends the delivery.
pub proof fn law_bounded_attempts(max_retries: u32, failures: Seq<OutcomeView>, last: OutcomeView)
    requires
        max_retries < u32::MAX,
        failures.len() <= max_retries,
        forall|i: int| 0 <= i < failures.len() ==> !(#[trigger] failures[i]).is_success(),
        !last.is_success(),
    ensures
        ({
            let d = DeliveryView { attempt: 0, max_attempts: (max_retries + 1) as u32 };
            after_posts(d, failures).step(last) == if failures.len() == max_retries {
                StepView::GiveUp(gave_up((max_retries + 1) as u32, last))
            } else {
                StepView::Retry { attempt: (failures.len() + 1) as u32 }
            }
        }),
{
    lemma_attempts_counted(max_retries, failures);
}

proof fn lemma_attempts_counted(max_retries: u32, failures: Seq<OutcomeView>)
    requires
        max_retries < u32::MAX,
        failures.len() <= max_retries,
        forall|i: int| 0 <= i < failures.len() ==> !(#[trigger] failures[i]).is_success(),
    ensures
        ({
            let d = DeliveryView { attempt: 0, max_attempts: (max_retries + 1) as u32 };
            after_posts(d, failures) == (DeliveryView {
                attempt: failures.len() as u32,
                max_attempts: (max_retries + 1) as u32,
            })
        }),
    decreases failures.len(),
{
    if failures.len() > 0 {
        assert forall|i: int| 0 <= i < failures.drop_last().len() implies !(
        #[trigger] failures.drop_last()[i]).is_success() by {
            assert(!failures[i].is_success());
        }
        lemma_attempts_counted(max_retries, failures.drop_last());
        assert(!failures[failures.len() - 1].is_success());
    }
}

/// Posts events to one address.
#[derive(Debug)]
pub struct WebhookSender {
    config: WebhookConfig,
}

/// The headers of a post: its content type and the event, and then those that
/// were configured, in the order in which they came.
pub open spec fn post_headers(config: WebhookConfig, event: EventView) -> Seq<(Seq<char>, Seq<char>)> {
    seq![
        ("Content-Type"@, "application/json"@),
        ("X-Webhook-Event"@, event.event_type()),
    ] + Seq::new(
        config.headers.order().len(),
        |i: int| (config.headers.order()[i], config@.headers[config.headers.order()[i]]),
    )
}

pub open spec fn header_views(headers: Seq<(String, String)>) -> Seq<(Seq<char>, Seq<char>)> {
    headers.map_values(|h: (String, String)| (h.0@, h.1@))
}

impl WebhookSender {
    pub closed spec fn spec_config(&self) -> WebhookConfig {
        self.config
    }

    pub fn new(config: WebhookConfig) -> (r: WebhookSender)
        ensures
            r.spec_config() == config,
    {
        WebhookSender { config }
    }

    pub fn config(&self) -> (r: &WebhookConfig)
        ensures
            *r == self.spec_config(),
    {
        &self.config
    }

    /// The headers of a post for the event.
    pub fn headers(&self, event: &WebhookEvent) -> (r: Vec<(String, String)>)
        ensures
            header_views(r@) == post_headers(self.spec_config(), event@),
    {
        let mut headers: Vec<(String, String)> = Vec::new();
        headers.push(("Content-Type".to_string(), "application/json".to_string()));
        headers.push(("X-Webhook-Event".to_string(), event.event_type().to_string()));
        let own = &self.config.headers;
        let n = own.len();
        let ghost wanted = post_headers(self.config, event@);
        assert(header_views(headers@) =~= wanted.take(2));
        let mut i: usize = 0;
        while i < n
            invariant
                own == self.config.headers,
                n == own.order().len(),
                wanted == post_headers(self.config, event@),
                i <= n,
                header_views(headers@) == wanted.take(2 + i),
            decreases n - i,
        {
            let (key, value) = own.entry(i);
            let ghost before = headers@;
            headers.push((key.clone(), value.clone()));
            assert(wanted[2 + i] == (key@, value@));
            assert(header_views(headers@) =~= header_views(before).push((key@, value@)));
            assert(wanted.take(2 + i + 1) =~= wanted.take(2 + i).push(wanted[2 + i]));
            i = i + 1;
        }
        assert(wanted.take(2 + n) =~= wanted);
        headers
    }
}

/// The errors among results, in order.
pub open spec fn errors_of(results: Seq<Result<(), ProtocolError>>) -> Seq<ErrorView>
    decreases results.len(),
{
    if results.len() == 0 {
        Seq::empty()
    } else {
        match results.last() {
            Ok(()) => errors_of(results.drop_last()),
            Err(e) => errors_of(results.drop_last()).push(e@),
        }
    }
}

pub open spec fn error_views(errors: Seq<ProtocolError>) -> Seq<ErrorView> {
    errors.map_values(|e: ProtocolError| e@)
}

/// All the webhooks that are told of an event.
#[derive(Debug)]
pub struct WebhookService {
    senders: Vec<WebhookSender>,
}

impl WebhookService {
    /// The configurations of the webhooks, in order.
    pub closed spec fn configs(&self) -> Seq<WebhookConfig> {
        self.senders@.map_values(|s: WebhookSender| s.spec_config())
    }

    pub fn new() -> (r: WebhookService)
        ensures
            r.configs() == Seq::<WebhookConfig>::empty(),
    {
        let r = WebhookService { senders: Vec::new() };
        assert(r.configs() =~= Seq::<WebhookConfig>::empty());
        r
    }

    pub fn with_webhook(self, config: WebhookConfig) -> (r: WebhookService)
        ensures
            r.configs() == self.configs().push(config),
    {
        let mut senders = self.senders;
        senders.push(WebhookSender::new(config));
        let r = WebhookService { senders };
        assert(r.configs() =~= self.configs().push(config));
        r
    }

    pub fn senders(&self) -> (r: &Vec<WebhookSender>)
        ensures
            r@.len() == self.configs().len(),
            forall|i: int|
                0 <= i < r@.len() ==> (#[trigger] r@[i]).spec_config() == self.configs()[i],
    {
        &self.senders
    }
}

impl Default for WebhookService {
    fn default() -> (r: WebhookService)
        ensures
            r.configs() == Seq::<WebhookConfig>::empty(),
    {
        WebhookService::new()
    }
}

/// What is reported once every webhook was told: the errors of those that could
/// not be reached, in order.
pub fn notify_outcome(results: Vec<Result<(), ProtocolError>>) -> (r: Result<
    (),
    Vec<ProtocolError>,
>)
    ensures
        r is Ok <==> errors_of(results@).len() == 0,
        r matches Err(errors) ==> error_views(errors@) == errors_of(results@),
{
    let mut errors: Vec<ProtocolError> = Vec::new();
    let mut rest = results;
    let ghost all = results@;
    let ghost mut done: int = 0;
    assert(error_views(errors@) =~= errors_of(all.take(0)));
    while rest.len() > 0
        invariant
            0 <= done <= all.len(),
            rest@ == all.skip(done),
            error_views(errors@) == errors_of(all.take(done)),
        decreases rest.len(),
    {
        let result = rest.remove(0);
        assert(rest@ =~= all.skip(done + 1));
        assert(all.take(done + 1).drop_last() =~= all.take(done));
        assert(result == all[done]);
        let ghost before = errors@;
        if let Err(e) = result {
            errors.push(e);
            assert(error_views(errors@) =~= error_views(before).push(e@));
        }
        proof {
            done = done + 1;
        }
    }
    assert(all.take(all.len() as int) =~= all);
    if errors.len() == 0 {
        Ok(())
    } else {
        Err(errors)
    }
}

/// A post that is answered with success ends the delivery. Any other is tried again
/// as long as retries are left, and else ends it with an error that tells how often it
/// was tried and what came of the last post.
pub proof fn law_delivery_ends_with_success_or_an_error(
    d: DeliveryView,
    status: Seq<char>,
    why: Seq<char>,
)
    requires
        d.attempt < d.max_attempts,
    ensures
        d.step(OutcomeView::Answered { success: true, status }) == StepView::Delivered,
        d.attempt + 1 < d.max_attempts ==> {
            let next = StepView::Retry { attempt: (d.attempt + 1) as u32 };
            let after = DeliveryView { attempt: (d.attempt + 1) as u32, ..d };
            &&& d.step(OutcomeView::Answered { success: false, status }) == next
            &&& d.step(OutcomeView::Failed(why)) == next
            &&& d.after(OutcomeView::Answered { success: false, status }) == after
            &&& d.after(OutcomeView::Failed(why)) == after
        },
        d.attempt + 1 == d.max_attempts ==> {
            let head = "Webhook failed after "@ + text::decimal(d.max_attempts as nat);
            &&& d.step(OutcomeView::Answered { success: false, status }) == StepView::GiveUp(
                ErrorView::Server(head + " attempts: HTTP "@ + status),
            )
            &&& d.step(OutcomeView::Failed(why)) == StepView::GiveUp(
                ErrorView::ConnectionFailed(head + " attempts: "@ + why),
            )
        },
{
}

/// A post tells that it carries JSON and which event it is, and then every header that
/// was configured, with its value.
pub proof fn law_posts_carry_their_headers(config: WebhookConfig, event: EventView, i: int)
    ensures
        ({
            let headers = post_headers(config, event);
            let own = config.headers.order();
            &&& headers.len() == own.len() + 2
            &&& headers[0] == ("Content-Type"@, "application/json"@)
            &&& headers[1].0 == "X-Webhook-Event"@
            &&& headers[1].1 == match event {
                EventView::RequestReceived { .. } => "request_received"@,
                EventView::ResponseSent { .. } => "response_sent"@,
                EventView::Error { .. } => "error"@,
                EventView::HealthCheck { .. } => "health_check"@,
            }
            &&& 0 <= i < own.len() ==> headers[2 + i] == (own[i], config@.headers[own[i]])
        }),
{
}

/// What is reported of webhooks is the error of each that could not be reached, in
/// their order, and of no other.
pub proof fn law_unreached_webhooks_are_reported(
    results: Seq<Result<(), ProtocolError>>,
    e: ProtocolError,
)
    ensures
        errors_of(Seq::empty()).len() == 0,
        errors_of(results.push(Ok(()))) == errors_of(results),
        errors_of(results.push(Err(e))) == errors_of(results).push(e@),
{
    assert(results.push(Ok(())).drop_last() =~= results);
    assert(results.push(Err(e)).drop_last() =~= results);
}

/// The events tell what happened to which request of which service, and when.
pub proof fn law_events_tell_what_happened(
    request_id: Seq<char>,
    service_name: Seq<char>,
    what: Seq<char>,
    duration_ms: u64,
    timestamp: Seq<char>,
)
    ensures
        received_at(request_id, service_name, what, timestamp) == (EventView::RequestReceived {
            request_id,
            service_name,
            method: what,
            timestamp,
        }),
        sent_at(request_id, service_name, what, duration_ms, timestamp) == (
        EventView::ResponseSent {
            request_id,
            service_name,
            status: what,
            duration_ms,
            timestamp,
        }),
        failed_at(request_id, service_name, what, timestamp) == (EventView::Error {
            request_id,
            service_name,
            error: what,
            timestamp,
        }),
{
}

/// A webhook of which only the address is known has no headers, waits for half a
/// minute, and is tried three times more, after delays that double from a tenth of a
/// second up to ten seconds.
pub proof fn law_plain_webhook_has_defaults(url: Seq<char>, key: Seq<char>)
    ensures
        ({
            let c = WebhookConfigView::plain(url);
            &&& c.url == url
            &&& !c.headers.dom().contains(key)
            &&& c.timeout_secs == 30
            &&& c.retry_policy.max_retries == 3
            &&& c.retry_policy.initial_delay_ms == 100
            &&& c.retry_policy.max_delay_ms == 10 * 1000
            &&& c.retry_policy.backoff_multiplier_bits == 0x4000_0000_0000_0000
        }),
{
}

/// A delivery posts once more than its policy retries: the post after the last retry ends
/// it, and none before does unless it is answered with success.
pub proof fn law_delivery_goes_by_its_policy(
    policy: WebhookRetryPolicy,
    fresh: Delivery,
    d: &mut Delivery,
    outcome: PostOutcome,
    next: DeliveryStep,
)
    requires
        policy.max_retries < u32::MAX,
        call_ensures(Delivery::new, (&policy,), fresh),
        call_ensures(Delivery::record, (d, outcome), next),
    ensures
        fresh@.attempt == 0,
        fresh@.max_attempts == policy.max_retries + 1,
        (outcome matches PostOutcome::Answered { success, .. } && success) ==> next is Delivered,
        !(outcome matches PostOutcome::Answered { success, .. } && success) ==> {
            &&& old(d)@.attempt + 1 < old(d)@.max_attempts ==> (next matches DeliveryStep::Retry {
                attempt,
            } && attempt == old(d)@.attempt + 1 && final(d)@.attempt == attempt)
            &&& old(d)@.attempt + 1 >= old(d)@.max_attempts ==> next is GiveUp
        },
        final(d)@.max_attempts == old(d)@.max_attempts,
{
}

/// A delay is what was asked for, up to the longest that the policy allows. The delays of
/// a linear policy stay the same, those of an exponential one double up to half a minute.
pub proof fn law_policies_bound_their_delays(
    p: WebhookRetryPolicy,
    delay_ms: u64,
    kept: Duration,
    max_retries: u32,
    linear: WebhookRetryPolicy,
    exponential: WebhookRetryPolicy,
)
    requires
        call_ensures(WebhookRetryPolicy::capped_delay, (&p, delay_ms), kept),
        call_ensures(WebhookRetryPolicy::linear, (max_retries, delay_ms), linear),
        call_ensures(WebhookRetryPolicy::exponential, (max_retries,), exponential),
    ensures
        delay_ms <= p.max_delay_ms ==> kept@ == delay_ms * 1_000_000,
        delay_ms >= p.max_delay_ms ==> kept@ == p.max_delay_ms * 1_000_000,
        linear.max_retries == max_retries && exponential.max_retries == max_retries,
        linear.initial_delay_ms == delay_ms && linear.max_delay_ms == delay_ms,
        linear.backoff_multiplier_bits == 0x3FF0_0000_0000_0000,
        exponential.initial_delay_ms == 100 && exponential.max_delay_ms == 30_000,
        exponential.backoff_multiplier_bits == 0x4000_0000_0000_0000,
{
}

/// Each setting of a webhook is set without the others.
pub proof fn law_settings_are_set_one_by_one(
    c: WebhookConfig,
    key: &str,
    value: &str,
    a: WebhookConfig,
    secs: u64,
    b: WebhookConfig,
    policy: WebhookRetryPolicy,
    d: WebhookConfig,
)
    requires
        call_ensures(WebhookConfig::with_header, (c, key, value), a),
        call_ensures(WebhookConfig::with_timeout, (c, secs), b),
        call_ensures(WebhookConfig::with_retry_policy, (c, policy), d),
    ensures
        a@.headers.dom().contains(key@) && a@.headers[key@] == value@,
        a@.url == c@.url && a@.timeout_secs == c@.timeout_secs && a@.retry_policy
            == c@.retry_policy,
        b@ == (WebhookConfigView { timeout_secs: secs, ..c@ }),
        d@ == (WebhookConfigView { retry_policy: policy, ..c@ }),
{
}

/// A service tells the webhooks that it was given, in their order.
pub proof fn law_service_keeps_its_webhooks(
    s: WebhookService,
    config: WebhookConfig,
    r: WebhookService,
    i: int,
)
    requires
        call_ensures(WebhookService::with_webhook, (s, config), r),
        0 <= i < s.configs().len(),
    ensures
        r.configs().len() == s.configs().len() + 1,
        r.configs().last() == config,
        r.configs()[i] == s.configs()[i],
{
}

/// Nothing is reported just when every webhook was reached.
pub proof fn law_outcome_is_good_if_all_were_reached(
    results: Vec<Result<(), ProtocolError>>,
    outcome: Result<(), Vec<ProtocolError>>,
)
    requires
        call_ensures(notify_outcome, (results,), outcome),
    ensures
        outcome is Ok <==> forall|i: int| 0 <= i < results@.len() ==> #[trigger] results@[i] is Ok,
        outcome matches Err(errors) ==> 0 < errors@.len() <= results@.len(),
{
    lemma_errors_are_among_the_results(results@);
    if let Err(errors) = outcome {
        assert(error_views(errors@).len() == errors@.len());
    }
}

proof fn lemma_errors_are_among_the_results(results: Seq<Result<(), ProtocolError>>)
    ensures
        errors_of(results).len() <= results.len(),
        errors_of(results).len() == 0 <==> forall|i: int|
            0 <= i < results.len() ==> #[trigger] results[i] is Ok,
    decreases results.len(),
{
    if results.len() > 0 {
        let front = results.drop_last();
        lemma_errors_are_among_the_results(front);
        assert forall|i: int| 0 <= i < front.len() implies #[trigger] front[i] == results[i] by {}
        if errors_of(results).len() == 0 {
            assert forall|i: int| 0 <= i < results.len() implies #[trigger] results[i] is Ok by {
                if i < front.len() {
                    assert(front[i] == results[i]);
                }
            }
        } else if forall|i: int| 0 <= i < results.len() ==> #[trigger] results[i] is Ok {
            assert(results[results.len() - 1] is Ok);
            assert forall|i: int| 0 <= i < front.len() implies #[trigger] front[i] is Ok by {
                assert(results[i] is Ok);
            }
        }
    }
}

/// A policy of which nothing is said retries three times, with delays that double from a
/// tenth of a second up to ten seconds.
pub proof fn law_default_policy_is_this(p: WebhookRetryPolicy, url: &str, c: WebhookConfig)
    requires
        call_ensures(WebhookRetryPolicy::default, (), p),
        call_ensures(WebhookConfig::new, (url,), c),
    ensures
        p.max_retries == 3 && p.initial_delay_ms == 100 && p.max_delay_ms == 10_000,
        p.backoff_multiplier_bits == 0x4000_0000_0000_0000,
        c.url@ == url@ && c.timeout_secs == 30 && c.retry_policy == p,
        c@.headers == Map::<Seq<char>, Seq<char>>::empty(),
{
}

} // verus!
