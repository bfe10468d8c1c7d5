//! Counters, a rate limiter, cancellation, topics and a queue of dead letters.

use crate::map::StrMap;
use crate::metrics;
use crate::metrics::Rate;
use crate::protocol;
use crate::protocol::{RequestView, ServiceRequest};
use crate::time::{Clock, Duration, Instant, Timestamp};
use crate::webhook::DOUBLE_TWO;
use crate::window;
use bytes::Bytes;
use std::collections::VecDeque;
use std::sync::atomic::{AtomicBool, Ordering};
use std::sync::Arc;
use tokio::sync::broadcast::{Receiver, Sender};
use vstd::prelude::*;

verus! {

/// Counters of a client or a server. They wrap around.
#[derive(Debug)]
pub struct Metrics {
    requests_total: usize,
    requests_success: usize,
    requests_failure: usize,
    connections_active: usize,
    bytes_sent: usize,
    bytes_received: usize,
    latency_sum: u64,
    latency_count: usize,
}

/// The mathematical model of [`Metrics`].
pub struct MetricsView {
    pub requests_total: usize,
    pub requests_success: usize,
    pub requests_failure: usize,
    pub connections_active: usize,
    pub bytes_sent: usize,
    pub bytes_received: usize,
    /// In milliseconds.
    pub latency_sum: u64,
    pub latency_count: usize,
}

impl View for Metrics {
    type V = MetricsView;

    closed spec fn view(&self) -> MetricsView {
        MetricsView {
            requests_total: self.requests_total,
            requests_success: self.requests_success,
            requests_failure: self.requests_failure,
            connections_active: self.connections_active,
            bytes_sent: self.bytes_sent,
            bytes_received: self.bytes_received,
            latency_sum: self.latency_sum,
            latency_count: self.latency_count,
        }
    }
}

#[derive(Debug, Clone, Copy, PartialEq, Eq, Structural)]
pub struct MetricsSnapshot {
    pub requests_total: usize,
    pub requests_success: usize,
    pub requests_failure: usize,
    pub connections_active: usize,
    pub bytes_sent: usize,
    pub bytes_received: usize,
    pub avg_latency_ms: u64,
    /// The requests that succeeded, out of all; a part of nothing before the
    /// first.
    pub success_rate: Rate,
}

/// A counter after `n` was added to it.
pub open spec fn plus(counter: usize, n: usize) -> usize {
    if counter + n > usize::MAX {
        (counter + n - usize::MAX - 1) as usize
    } else {
        (counter + n) as usize
    }
}

/// A counter after one was taken off it.
pub open spec fn minus_one(counter: usize) -> usize {
    if counter == 0 {
        usize::MAX
    } else {
        (counter - 1) as usize
    }
}

impl MetricsView {
    pub open spec fn fresh() -> MetricsView {
        MetricsView {
            requests_total: 0,
            requests_success: 0,
            requests_failure: 0,
            connections_active: 0,
            bytes_sent: 0,
            bytes_received: 0,
            latency_sum: 0,
            latency_count: 0,
        }
    }

    /// The counters after one more latency.
    pub open spec fn with_latency(self, millis: u64) -> MetricsView {
        MetricsView {
            latency_sum: metrics::plus(self.latency_sum, millis),
            latency_count: plus(self.latency_count, 1),
            ..self
        }
    }

    /// The counters after all of these latencies.
    pub open spec fn with_latencies(self, latencies: Seq<u64>) -> MetricsView
        decreases latencies.len(),
    {
        if latencies.len() == 0 {
            self
        } else {
            self.with_latencies(latencies.drop_last()).with_latency(latencies.last())
        }
    }

    pub open spec fn snapshot(self) -> MetricsSnapshot {
        MetricsSnapshot {
            requests_total: self.requests_total,
            requests_success: self.requests_success,
            requests_failure: self.requests_failure,
            connections_active: self.connections_active,
            bytes_sent: self.bytes_sent,
            bytes_received: self.bytes_received,
            avg_latency_ms: if self.latency_count > 0 {
                self.latency_sum / self.latency_count as u64
            } else {
                0
            },
            success_rate: Rate {
                part: self.requests_success as u64,
                whole: self.requests_total as u64,
            },
        }
    }
}

impl Metrics {
    pub fn record_request(&mut self)
        ensures
            final(self)@ == (MetricsView {
                requests_total: plus(old(self)@.requests_total, 1),
                ..old(self)@
            }),
    {
        self.requests_total = self.requests_total.wrapping_add(1);
    }

    pub fn record_success(&mut self)
        ensures
            final(self)@ == (MetricsView {
                requests_success: plus(old(self)@.requests_success, 1),
                ..old(self)@
            }),
    {
        self.requests_success = self.requests_success.wrapping_add(1);
    }

    pub fn record_failure(&mut self)
        ensures
            final(self)@ == (MetricsView {
                requests_failure: plus(old(self)@.requests_failure, 1),
                ..old(self)@
            }),
    {
        self.requests_failure = self.requests_failure.wrapping_add(1);
    }

    pub fn record_latency(&mut self, duration: Duration)
        ensures
            final(self)@ == old(self)@.with_latency(metrics::latency_millis(duration)),
    {
        self.latency_sum = metrics::counted(self.latency_sum, duration.millis_wrapped());
        self.latency_count = self.latency_count.wrapping_add(1);
    }

    pub fn inc_connections(&mut self)
        ensures
            final(self)@ == (MetricsView {
                connections_active: plus(old(self)@.connections_active, 1),
                ..old(self)@
            }),
    {
        self.connections_active = self.connections_active.wrapping_add(1);
    }

    pub fn dec_connections(&mut self)
        ensures
            final(self)@ == (MetricsView {
                connections_active: minus_one(old(self)@.connections_active),
                ..old(self)@
            }),
    {
        self.connections_active = self.connections_active.wrapping_sub(1);
    }

    pub fn add_bytes_sent(&mut self, bytes: usize)
        ensures
            final(self)@ == (MetricsView {
                bytes_sent: plus(old(self)@.bytes_sent, bytes),
                ..old(self)@
            }),
    {
        self.bytes_sent = self.bytes_sent.wrapping_add(bytes);
    }

    pub fn add_bytes_received(&mut self, bytes: usize)
        ensures
            final(self)@ == (MetricsView {
                bytes_received: plus(old(self)@.bytes_received, bytes),
                ..old(self)@
            }),
    {
        self.bytes_received = self.bytes_received.wrapping_add(bytes);
    }

    pub fn snapshot(&self) -> (r: MetricsSnapshot)
        ensures
            r == self@.snapshot(),
    {
        MetricsSnapshot {
            requests_total: self.requests_total,
            requests_success: self.requests_success,
            requests_failure: self.requests_failure,
            connections_active: self.connections_active,
            bytes_sent: self.bytes_sent,
            bytes_received: self.bytes_received,
            avg_latency_ms: if self.latency_count > 0 {
                self.latency_sum / self.latency_count as u64
            } else {
                0
            },
            success_rate: Rate {
                part: self.requests_success as u64,
                whole: self.requests_total as u64,
            },
        }
    }
}

/// The average latency is taken over all that were recorded, those before
/// included, and recording a latency changes nothing else.
pub proof fn law_average_is_over_all_latencies(m: MetricsView, latencies: Seq<u64>)
    requires
        latencies.len() > 0,
        m.latency_sum + metrics::total_millis(latencies) <= u64::MAX,
        m.latency_count + latencies.len() <= usize::MAX,
    ensures
        m.with_latencies(latencies).snapshot() == (MetricsSnapshot {
            avg_latency_ms: ((m.latency_sum + metrics::total_millis(latencies)) / (m.latency_count
                + latencies.len())) as u64,
            ..m.snapshot()
        }),
{
    lemma_latencies_add_up(m, latencies);
}

proof fn lemma_latencies_add_up(m: MetricsView, latencies: Seq<u64>)
    requires
        m.latency_sum + metrics::total_millis(latencies) <= u64::MAX,
        m.latency_count + latencies.len() <= usize::MAX,
    ensures
        m.with_latencies(latencies) == (MetricsView {
            latency_sum: (m.latency_sum + metrics::total_millis(latencies)) as u64,
            latency_count: (m.latency_count + latencies.len()) as usize,
            ..m
        }),
    decreases latencies.len(),
{
    if latencies.len() > 0 {
        lemma_latencies_add_up(m, latencies.drop_last());
    }
}

impl Default for Metrics {
    fn default() -> (r: Metrics)
        ensures
            r@ == MetricsView::fresh(),
    {
        Metrics {
            requests_total: 0,
            requests_success: 0,
            requests_failure: 0,
            connections_active: 0,
            bytes_sent: 0,
            bytes_received: 0,
            latency_sum: 0,
            latency_count: 0,
        }
    }
}

/// How often and after what delays a call is tried again. The multiplier is kept
/// as the bits of an IEEE 754 double.
#[derive(Debug, Clone, Copy, PartialEq, Eq, Structural)]
pub struct RetryConfig {
    pub max_retries: usize,
    pub initial_delay: Duration,
    pub max_delay: Duration,
    pub backoff_multiplier_bits: u64,
    pub jitter: bool,
}

impl Default for RetryConfig {
    fn default() -> (r: RetryConfig)
        ensures
            r.max_retries == 3,
            r.initial_delay@ == 100_000_000,
            r.max_delay@ == 30_000_000_000,
            r.backoff_multiplier_bits == DOUBLE_TWO,
            r.jitter,
    {
        RetryConfig {
            max_retries: 3,
            initial_delay: Duration::from_millis(100),
            max_delay: Duration::from_secs(30),
            backoff_multiplier_bits: DOUBLE_TWO,
            jitter: true,
        }
    }
}

/// At most `max_requests` in any stretch of time as long as `window`.
#[derive(Debug)]
pub struct RateLimiter {
    max_requests: usize,
    window: Duration,
    requests: Vec<Instant>,
    clock: Clock,
}

/// The mathematical model of a [`RateLimiter`].
pub struct LimiterView {
    pub max_requests: nat,
    /// In nanoseconds.
    pub window: nat,
    /// When requests were let through.
    pub requests: Seq<Instant>,
    pub clock: Clock,
}

impl View for RateLimiter {
    type V = LimiterView;

    closed spec fn view(&self) -> LimiterView {
        LimiterView {
            max_requests: self.max_requests as nat,
            window: self.window@,
            requests: self.requests@,
            clock: self.clock,
        }
    }
}

impl LimiterView {
    /// Whether a request is let through at `now`.
    pub open spec fn lets_through(self, now: Instant) -> bool {
        window::fresh(self.requests, now, self.window).len() < self.max_requests
    }

    /// The limiter after a request at `now`.
    pub open spec fn after_request(self, now: Instant) -> LimiterView {
        LimiterView {
            requests: window::admitted(self.requests, now, self.window, self.max_requests),
            ..self
        }
    }

    /// The limiter without what has left the window.
    pub open spec fn pruned(self, now: Instant) -> LimiterView {
        LimiterView { requests: window::fresh(self.requests, now, self.window), ..self }
    }

    /// How many more requests are let through at `now`.
    pub open spec fn available(self, now: Instant) -> nat {
        window::room(self.requests, now, self.window, self.max_requests)
    }
}

impl RateLimiter {
    pub fn new(max_requests: usize, window: Duration) -> (r: RateLimiter)
        ensures
            r@ == (LimiterView {
                max_requests: max_requests as nat,
                window: window@,
                requests: Seq::empty(),
                clock: r@.clock,
            }),
    {
        let r = RateLimiter { max_requests, window, requests: Vec::new(), clock: Clock::new() };
        assert(r@.requests =~= Seq::empty());
        r
    }

    /// Whether a request is let through at the current time.
    pub fn try_acquire(&mut self) -> (r: bool)
        ensures
            exists|now: Instant|
                old(self)@.clock.shows(now) && r == old(self)@.lets_through(now) && final(self)@
                    == #[trigger] old(self)@.after_request(now),
    {
        let now = self.clock.now();
        self.try_acquire_at(now)
    }

    /// Whether a request is let through at the time `now` of the limiter's clock.
    pub fn try_acquire_at(&mut self, now: Instant) -> (r: bool)
        ensures
            r == old(self)@.lets_through(now),
            final(self)@ == old(self)@.after_request(now),
    {
        window::let_in_at(&mut self.requests, now, self.window, self.max_requests)
    }

    /// How many more requests are let through at the current time.
    pub fn available(&mut self) -> (r: usize)
        ensures
            exists|now: Instant|
                old(self)@.clock.shows(now) && r == old(self)@.available(now) && final(self)@
                    == #[trigger] old(self)@.pruned(now),
    {
        let now = self.clock.now();
        self.available_at(now)
    }

    /// How many more requests are let through at the time `now` of the limiter's
    /// clock.
    pub fn available_at(&mut self, now: Instant) -> (r: usize)
        ensures
            r == old(self)@.available(now),
            final(self)@ == old(self)@.pruned(now),
    {
        self.requests = window::keep_fresh(&self.requests, now, self.window);
        self.max_requests.saturating_sub(self.requests.len())
    }
}

/// The limiter after requests at the given times.
pub open spec fn after_requests(limiter: LimiterView, times: Seq<Instant>) -> LimiterView
    decreases times.len(),
{
    if times.len() == 0 {
        limiter
    } else {
        after_requests(limiter, times.drop_last()).after_request(times.last())
    }
}

/// A limiter that starts afresh keeps just the window of its history, so that
/// `window::law_rate_is_bounded` holds of its requests.
pub proof fn law_limiter_follows_the_window(limiter: LimiterView, times: Seq<Instant>)
    requires
        limiter.requests.len() == 0,
    ensures
        after_requests(limiter, times).requests == window::history(
            times,
            limiter.window,
            limiter.max_requests,
        ).1,
        after_requests(limiter, times).window == limiter.window,
        after_requests(limiter, times).max_requests == limiter.max_requests,
    decreases times.len(),
{
    if times.len() == 0 {
        assert(limiter.requests =~= Seq::empty());
    } else {
        law_limiter_follows_the_window(limiter, times.drop_last());
    }
}

/// What happens to a limiter.
pub enum LimiterEvent {
    /// A request asked to be let through.
    Acquired(Instant),
    /// It was asked how many more are let through.
    LookedAt(Instant),
}

impl LimiterView {
    /// The limiter after all of these events.
    pub open spec fn after(self, events: Seq<LimiterEvent>) -> LimiterView
        decreases events.len(),
    {
        if events.len() == 0 {
            self
        } else {
            let before = self.after(events.drop_last());
            match events.last() {
                LimiterEvent::Acquired(now) => before.after_request(now),
                LimiterEvent::LookedAt(now) => before.pruned(now),
            }
        }
    }

    /// When requests were let through.
    pub open spec fn let_through(self, events: Seq<LimiterEvent>) -> Seq<Instant>
        decreases events.len(),
    {
        if events.len() == 0 {
            Seq::empty()
        } else {
            let before = self.let_through(events.drop_last());
            match events.last() {
                LimiterEvent::Acquired(now) => if self.after(events.drop_last()).lets_through(now) {
                    before.push(now)
                } else {
                    before
                },
                LimiterEvent::LookedAt(_) => before,
            }
        }
    }
}

/// Nothing happened later than `now`.
pub open spec fn happened_by(events: Seq<LimiterEvent>, now: Instant) -> bool
    decreases events.len(),
{
    if events.len() == 0 {
        true
    } else {
        happened_by(events.drop_last(), now) && match events.last() {
            LimiterEvent::Acquired(then) => then.nanos <= now.nanos,
            LimiterEvent::LookedAt(then) => then.nanos <= now.nanos,
        }
    }
}

/// Whatever happened to a limiter that started afresh: a request is let through
/// just when fewer than the maximum of those that were let through lie in the
/// window. A request that is refused does not count.
pub proof fn law_only_accepted_requests_count(
    limiter: LimiterView,
    events: Seq<LimiterEvent>,
    now: Instant,
)
    requires
        limiter.requests.len() == 0,
        happened_by(events, now),
    ensures
        ({
            let after = limiter.after(events);
            let counted = window::fresh(limiter.let_through(events), now, limiter.window);
            &&& after.lets_through(now) <==> counted.len() < limiter.max_requests
            &&& after.available(now) == if counted.len() < limiter.max_requests {
                (limiter.max_requests - counted.len()) as nat
            } else {
                0
            }
            &&& !after.lets_through(now) ==> after.after_request(now).available(now) == 0
        }),
{
    lemma_accepted_are_kept(limiter, events, now);
    let after = limiter.after(events);
    window::law_forgotten_times_stay_out(after.requests, now, now, limiter.window);
}

proof fn lemma_accepted_are_kept(limiter: LimiterView, events: Seq<LimiterEvent>, now: Instant)
    requires
        limiter.requests.len() == 0,
        happened_by(events, now),
    ensures
        limiter.after(events).window == limiter.window,
        limiter.after(events).max_requests == limiter.max_requests,
        window::fresh(limiter.after(events).requests, now, limiter.window) == window::fresh(
            limiter.let_through(events),
            now,
            limiter.window,
        ),
    decreases events.len(),
{
    if events.len() == 0 {
        assert(limiter.requests =~= limiter.let_through(events));
    } else {
        let before = limiter.after(events.drop_last());
        lemma_accepted_are_kept(limiter, events.drop_last(), now);
        match events.last() {
            LimiterEvent::Acquired(then) => {
                window::lemma_admitted_time_counts_later(
                    before.requests,
                    then,
                    now,
                    limiter.window,
                    limiter.max_requests,
                );
                window::lemma_pushed_time_counts(
                    before.requests,
                    limiter.let_through(events.drop_last()),
                    then,
                    now,
                    limiter.window,
                );
            },
            LimiterEvent::LookedAt(then) => {
                window::law_forgotten_times_stay_out(before.requests, then, now, limiter.window);
            },
        }
    }
}

/// A request is let through just when there is room for one more.
pub proof fn law_available_tells(limiter: LimiterView, now: Instant)
    ensures
        limiter.lets_through(now) <==> limiter.available(now) > 0,
{
}

/// Tells those who hold a fork of it that something was called off.
#[derive(Debug)]
pub struct CancellationToken {
    flag: Arc<AtomicBool>,
    called_off: bool,
}

impl CancellationToken {
    /// The flag that the token shares with its forks.
    pub closed spec fn flag(&self) -> Arc<AtomicBool> {
        self.flag
    }

    /// Whether the flag was made unset.
    pub open spec fn flag_is_new(&self) -> bool {
        call_ensures(AtomicBool::new, (false,), *self.flag())
    }

    /// Whether the flag may be read as this.
    pub open spec fn flag_may_read(&self, flag: bool) -> bool {
        call_ensures(AtomicBool::load, (&*self.flag(), Ordering::Relaxed), flag)
    }

    /// Whether the flag was set.
    pub open spec fn flag_was_set(&self) -> bool {
        call_ensures(AtomicBool::store, (&*self.flag(), true, Ordering::Relaxed), ())
    }

    /// Whether the token may say this when it is asked whether it was cancelled:
    /// that it is known, or what its flag is read as.
    pub open spec fn may_say(&self, cancelled: bool) -> bool {
        exists|flag: bool|
            #[trigger] self.flag_may_read(flag) && cancelled == (self.known_cancelled() || flag)
    }

    /// Whether it is known of this token that it was cancelled: through itself,
    /// or through the token that it was forked from before the fork.
    pub closed spec fn known_cancelled(&self) -> bool {
        self.called_off
    }

    pub fn new() -> (r: CancellationToken)
        ensures
            !r.known_cancelled(),
            r.flag_is_new(),
    {
        CancellationToken { flag: Arc::new(AtomicBool::new(false)), called_off: false }
    }

    /// Whether the token counts as cancelled when its flag reads `flag`.
    pub fn cancelled_by(&self, flag: bool) -> (r: bool)
        ensures
            r == (self.known_cancelled() || flag),
    {
        self.called_off || flag
    }

    /// Whether the token, or any that shares its flag, was cancelled. What others
    /// do may come at any time; of that nothing is claimed.
    pub fn is_cancelled(&self) -> (r: bool)
        ensures
            self.may_say(r),
    {
        let flag = self.flag.load(Ordering::Relaxed);
        assert(self.flag_may_read(flag));
        self.cancelled_by(flag)
    }

    /// Cancels the token and all that share its flag. Whoever holds it by a shared
    /// reference cancels a fork of it.
    pub fn cancel(&mut self)
        ensures
            final(self).known_cancelled(),
            final(self).flag_was_set(),
            final(self).flag() == old(self).flag(),
    {
        self.called_off = true;
        self.flag.store(true, Ordering::Relaxed);
    }

    /// A token that is cancelled together with this one.
    pub fn fork(&self) -> (r: CancellationToken)
        ensures
            r.flag() == self.flag(),
            r.known_cancelled() == self.known_cancelled(),
    {
        CancellationToken { flag: self.flag.clone(), called_off: self.called_off }
    }
}

impl Default for CancellationToken {
    fn default() -> (r: CancellationToken)
        ensures
            !r.known_cancelled(),
            r.flag_is_new(),
    {
        CancellationToken::new()
    }
}

impl Clone for CancellationToken {
    fn clone(&self) -> (r: CancellationToken)
        ensures
            r.flag() == self.flag(),
            r.known_cancelled() == self.known_cancelled(),
    {
        self.fork()
    }
}

/// A token that was cancelled says so. Two tokens that share a flag read it
/// alike, and a cancellation of either sets the flag of both; where both know the
/// same, they may say the same.
pub proof fn law_forks_share_their_flag(t: CancellationToken, f: CancellationToken, says: bool)
    requires
        f.flag() == t.flag(),
    ensures
        t.known_cancelled() && t.may_say(says) ==> says,
        f.flag_may_read(says) == t.flag_may_read(says),
        f.flag_was_set() == t.flag_was_set(),
        f.known_cancelled() == t.known_cancelled() ==> f.may_say(says) == t.may_say(says),
{
    if f.known_cancelled() == t.known_cancelled() {
        if t.may_say(says) {
            let flag = choose|flag: bool|
                #[trigger] t.flag_may_read(flag) && says == (t.known_cancelled() || flag);
            assert(f.flag_may_read(flag));
        }
        if f.may_say(says) {
            let flag = choose|flag: bool|
                #[trigger] f.flag_may_read(flag) && says == (f.known_cancelled() || flag);
            assert(t.flag_may_read(flag));
        }
    }
}

/// How often, and how patiently, an address is probed.
#[derive(Debug)]
pub struct HealthChecker {
    interval: Duration,
    timeout: Duration,
}

/// The mathematical model of a [`HealthChecker`]; times are in nanoseconds.
pub struct CheckerView {
    pub interval: nat,
    pub timeout: nat,
}

impl View for HealthChecker {
    type V = CheckerView;

    closed spec fn view(&self) -> CheckerView {
        CheckerView { interval: self.interval@, timeout: self.timeout@ }
    }
}

/// The settings that a health checker has unless it is told otherwise.
pub open spec fn default_checker() -> CheckerView {
    CheckerView { interval: 30_000_000_000, timeout: 5_000_000_000 }
}

impl HealthChecker {
    pub fn new() -> (r: HealthChecker)
        ensures
            r@ == default_checker(),
    {
        HealthChecker { interval: Duration::from_secs(30), timeout: Duration::from_secs(5) }
    }

    pub fn with_interval(self, interval: Duration) -> (r: HealthChecker)
        ensures
            r@ == (CheckerView { interval: interval@, ..self@ }),
    {
        HealthChecker { interval, ..self }
    }

    pub fn with_timeout(self, timeout: Duration) -> (r: HealthChecker)
        ensures
            r@ == (CheckerView { timeout: timeout@, ..self@ }),
    {
        HealthChecker { timeout, ..self }
    }

    /// What a probe tells: an address counts as healthy if it answers in time,
    /// be it by a refusal.
    pub fn verdict(&self, answered_in_time: bool) -> (r: bool)
        ensures
            r == answered_in_time,
    {
        answered_in_time
    }

    pub fn interval(&self) -> (r: Duration)
        ensures
            r@ == self@.interval,
    {
        self.interval
    }

    pub fn timeout_duration(&self) -> (r: Duration)
        ensures
            r@ == self@.timeout,
    {
        self.timeout
    }
}

impl Default for HealthChecker {
    fn default() -> (r: HealthChecker)
        ensures
            r@ == default_checker(),
    {
        HealthChecker::new()
    }
}

#[verifier::external_type_specification]
#[verifier::external_body]
pub struct ExBytes(Bytes);

#[verifier::external_type_specification]
#[verifier::external_body]
#[verifier::reject_recursive_types(T)]
pub struct ExSender<T>(Sender<T>);

#[verifier::external_type_specification]
#[verifier::external_body]
#[verifier::reject_recursive_types(T)]
pub struct ExReceiver<T>(Receiver<T>);

/// The channel that a sender sends on.
pub uninterp spec fn sends_on(sender: Sender<Bytes>) -> int;

/// The channel that a receiver receives from.
pub uninterp spec fn receives_from(receiver: Receiver<Bytes>) -> int;

/// Whether sending this message on the channel may come to this: so many
/// receivers, or nobody to receive it. It is a relation and picks no outcome;
/// which one comes depends on who listens at the time.
pub uninterp spec fn may_come_to(channel: int, data: Bytes, sent: Option<usize>) -> bool;

/// How many messages a channel was asked to hold for a receiver that lags behind.
/// It may hold more.
pub uninterp spec fn asked_to_hold(channel: int) -> usize;

/// Calls `tokio::sync::broadcast::channel`: the two halves belong to one
/// channel, which was asked to hold `capacity` messages. A channel holds at least
/// one message, and reserves space for as many as it holds.
#[verifier::external_body]
fn broadcast_channel(capacity: usize) -> (r: (Sender<Bytes>, Receiver<Bytes>))
    requires
        0 < capacity <= 0x1_0000,
    ensures
        sends_on(r.0) == receives_from(r.1),
        asked_to_hold(sends_on(r.0)) == capacity,
{
    tokio::sync::broadcast::channel(capacity)
}

/// Calls `tokio::sync::broadcast::Sender::send`, and gives how many receivers
/// there are: at least one, or none if the message could not be sent because
/// there was nobody to receive it. How many there are depends on what others do,
/// so of that no more is claimed than that this message was sent on the sender's
/// channel.
#[verifier::external_body]
fn broadcast_send(sender: &Sender<Bytes>, data: Bytes) -> (r: Option<usize>)
    ensures
        r matches Some(n) ==> n >= 1,
        may_come_to(sends_on(*sender), data, r),
{
    sender.send(data).ok()
}

/// Topics that messages are published on.
#[derive(Debug)]
pub struct MessageQueue {
    topics: StrMap<Sender<Bytes>>,
}

impl View for MessageQueue {
    type V = Map<Seq<char>, Sender<Bytes>>;

    /// The sender of each topic.
    closed spec fn view(&self) -> Map<Seq<char>, Sender<Bytes>> {
        self.topics@
    }
}

/// How many messages a topic holds for a receiver that lags behind.
pub const TOPIC_CAPACITY: usize = 1024;

/// How many receive a message, by what sending it came to: nobody if it could
/// not be sent.
pub open spec fn receivers(sent: Option<usize>) -> usize {
    match sent {
        Some(n) => n,
        None => 0,
    }
}

/// How many receive a message, by what sending it came to.
pub fn count_receivers(sent: Option<usize>) -> (r: usize)
    ensures
        r == receivers(sent),
{
    match sent {
        Some(n) => n,
        None => 0,
    }
}

impl MessageQueue {
    pub fn new() -> (r: MessageQueue)
        ensures
            r@ == Map::<Seq<char>, Sender<Bytes>>::empty(),
    {
        MessageQueue { topics: StrMap::new() }
    }

    /// Publishes a message on a topic, and gives how many receive it. On a topic
    /// that nobody subscribed to that is nobody. On others the message is sent on
    /// the topic's channel; how many receive it depends on who is still there.
    pub fn publish(&self, topic: &str, data: Bytes) -> (r: usize)
        ensures
            !self@.dom().contains(topic@) ==> r == 0,
            self@.dom().contains(topic@) ==> exists|sent: Option<usize>|
                #[trigger] may_come_to(sends_on(self@[topic@]), data, sent) && sent != Some(0usize)
                    && r == receivers(sent),
    {
        match self.topics.get(topic) {
            Some(sender) => {
                let sent = broadcast_send(sender, data);
                assert(may_come_to(sends_on(self@[topic@]), data, sent));
                count_receivers(sent)
            },
            None => 0,
        }
    }

    /// Subscribes to a topic. What is published on it from now on goes to the new
    /// receiver, and no longer to those who subscribed before.
    pub fn subscribe(&mut self, topic: &str) -> (r: Receiver<Bytes>)
        ensures
            final(self)@.dom() == old(self)@.dom().insert(topic@),
            sends_on(final(self)@[topic@]) == receives_from(r),
            asked_to_hold(receives_from(r)) == TOPIC_CAPACITY,
            forall|t: Seq<char>|
                t != topic@ && #[trigger] old(self)@.dom().contains(t) ==> final(self)@[t] == old(
                    self,
                )@[t],
    {
        let (sender, receiver) = broadcast_channel(TOPIC_CAPACITY);
        self.topics.insert(topic.to_string(), sender);
        receiver
    }

    /// The topics that somebody subscribed to.
    pub fn topics(&self) -> (r: Vec<String>)
        ensures
            protocol::texts(r@).no_duplicates(),
            protocol::texts(r@).to_set() == self@.dom(),
    {
        let keys = self.topics.keys();
        assert(self@.dom() =~= self.topics@.dom());
        keys
    }
}

impl Default for MessageQueue {
    fn default() -> (r: MessageQueue)
        ensures
            r@ == Map::<Seq<char>, Sender<Bytes>>::empty(),
    {
        MessageQueue::new()
    }
}

/// A request that could not be served, and why.
#[derive(Debug)]
pub struct DeadLetter {
    pub request: ServiceRequest,
    pub error: String,
    pub timestamp: Timestamp,
    pub retry_count: usize,
}

/// The mathematical model of a [`DeadLetter`].
pub struct LetterView {
    pub request: RequestView,
    pub error: Seq<char>,
    pub timestamp: Timestamp,
    pub retry_count: usize,
}

impl View for DeadLetter {
    type V = LetterView;

    open spec fn view(&self) -> LetterView {
        LetterView {
            request: self.request@,
            error: self.error@,
            timestamp: self.timestamp,
            retry_count: self.retry_count,
        }
    }
}

impl Clone for DeadLetter {
    fn clone(&self) -> (r: DeadLetter)
        ensures
            r@ == self@,
    {
        DeadLetter {
            request: self.request.clone(),
            error: self.error.clone(),
            timestamp: self.timestamp,
            retry_count: self.retry_count,
        }
    }
}

pub open spec fn letter_views(letters: Seq<DeadLetter>) -> Seq<LetterView> {
    letters.map_values(|l: DeadLetter| l@)
}

/// Dead letters, the oldest first. The oldest makes room for a new one when the
/// queue is full.
#[derive(Debug)]
pub struct DeadLetterQueue {
    queue: VecDeque<DeadLetter>,
    max_size: usize,
}

/// The mathematical model of a [`DeadLetterQueue`].
pub struct QueueView {
    pub letters: Seq<LetterView>,
    pub max_size: usize,
}

impl View for DeadLetterQueue {
    type V = QueueView;

    closed spec fn view(&self) -> QueueView {
        QueueView { letters: letter_views(self.queue@), max_size: self.max_size }
    }
}

impl QueueView {
    pub open spec fn pushed(self, letter: LetterView) -> QueueView {
        QueueView {
            letters: (if self.letters.len() >= self.max_size && self.letters.len() > 0 {
                self.letters.drop_first()
            } else {
                self.letters
            }).push(letter),
            ..self
        }
    }
}

impl DeadLetterQueue {
    pub fn new(max_size: usize) -> (r: DeadLetterQueue)
        ensures
            r@ == (QueueView { letters: Seq::empty(), max_size }),
    {
        let r = DeadLetterQueue { queue: VecDeque::new(), max_size };
        assert(r@.letters =~= Seq::empty());
        r
    }

    /// Adds a letter that carries the current time.
    pub fn push(&mut self, request: ServiceRequest, error: String)
        ensures
            exists|timestamp: Timestamp|
                timestamp.may_be_now() && final(self)@ == #[trigger] old(self)@.pushed(
                    (LetterView { request: request@, error: error@, timestamp, retry_count: 0 }),
                ),
    {
        let timestamp = Timestamp::now();
        self.push_at(request, error, timestamp);
    }

    /// Adds a letter that carries the given time.
    pub fn push_at(&mut self, request: ServiceRequest, error: String, timestamp: Timestamp)
        ensures
            final(self)@ == old(self)@.pushed(
                (LetterView { request: request@, error: error@, timestamp, retry_count: 0 }),
            ),
    {
        if self.queue.len() >= self.max_size {
            let _ = self.queue.pop_front();
        }
        let ghost kept = self.queue@;
        self.queue.push_back(DeadLetter { request, error, timestamp, retry_count: 0 });
        assert(self@.letters =~= old(self)@.pushed(
            (LetterView { request: request@, error: error@, timestamp, retry_count: 0 }),
        ).letters);
    }

    /// Takes out the oldest letter.
    pub fn pop(&mut self) -> (r: Option<DeadLetter>)
        ensures
            old(self)@.letters.len() == 0 ==> r is None && final(self)@ == old(self)@,
            old(self)@.letters.len() > 0 ==> {
                &&& r is Some
                &&& r->0@ == old(self)@.letters.first()
                &&& final(self)@ == (QueueView {
                    letters: old(self)@.letters.drop_first(),
                    ..old(self)@
                })
            },
    {
        let oldest = self.queue.pop_front();
        proof {
            if old(self)@.letters.len() > 0 {
                assert(self@.letters =~= old(self)@.letters.drop_first());
            } else {
                assert(self@.letters =~= old(self)@.letters);
            }
        }
        oldest
    }

    /// Copies of all letters, the oldest first.
    pub fn get_all(&self) -> (r: Vec<DeadLetter>)
        ensures
            letter_views(r@) == self@.letters,
    {
        let mut all: Vec<DeadLetter> = Vec::new();
        let mut i: usize = 0;
        while i < self.queue.len()
            invariant
                i <= self.queue@.len(),
                all@.len() == i,
                forall|j: int| 0 <= j < i ==> (#[trigger] all@[j])@ == self.queue@[j]@,
            decreases self.queue.len() - i,
        {
            all.push(self.queue[i].clone());
            i = i + 1;
        }
        assert(letter_views(all@) =~= self@.letters);
        all
    }

    pub fn clear(&mut self)
        ensures
            final(self)@ == (QueueView { letters: Seq::empty(), ..old(self)@ }),
    {
        self.queue.clear();
        assert(self@.letters =~= Seq::empty());
    }

    pub fn len(&self) -> (r: usize)
        ensures
            r == self@.letters.len(),
    {
        self.queue.len()
    }

    pub fn is_empty(&self) -> (r: bool)
        ensures
            r == (self@.letters.len() == 0),
    {
        self.queue.len() == 0
    }
}

/// The queue after letters were pushed in order.
pub open spec fn after_pushes(q: QueueView, letters: Seq<LetterView>) -> QueueView
    decreases letters.len(),
{
    if letters.len() == 0 {
        q
    } else {
        after_pushes(q, letters.drop_last()).pushed(letters.last())
    }
}

/// An empty queue that letters are pushed to holds the latest of them, in order,
/// as many as it may hold.
pub proof fn law_queue_keeps_the_latest(max_size: usize, letters: Seq<LetterView>)
    requires
        max_size > 0,
    ensures
        after_pushes(QueueView { letters: Seq::empty(), max_size }, letters) == (QueueView {
            letters: if letters.len() <= max_size {
                letters
            } else {
                letters.skip(letters.len() - max_size)
            },
            max_size,
        }),
    decreases letters.len(),
{
    let q = QueueView { letters: Seq::empty(), max_size };
    if letters.len() == 0 {
        assert(letters =~= Seq::empty());
    } else {
        law_queue_keeps_the_latest(max_size, letters.drop_last());
        let before = after_pushes(q, letters.drop_last()).letters;
        let after = after_pushes(q, letters).letters;
        if letters.len() <= max_size {
            assert(after =~= letters);
        } else if letters.len() == max_size + 1 {
            assert(after =~= letters.skip(1));
        } else {
            assert(after =~= letters.skip(letters.len() - max_size));
        }
    }
}

/// Even a queue that may hold nothing holds the last letter.
pub proof fn law_queue_is_bounded(q: QueueView, letter: LetterView)
    requires
        q.letters.len() <= q.max_size || q.letters.len() <= 1,
    ensures
        q.pushed(letter).letters.len() <= q.max_size || q.pushed(letter).letters.len() <= 1,
        q.pushed(letter).letters.last() == letter,
{
}

/// A snapshot tells what was counted, the requests that succeeded out of all, and no
/// latency before the first was recorded.
pub proof fn law_snapshot_tells_what_was_counted(m: MetricsView)
    ensures
        ({
            let s = m.snapshot();
            &&& s.requests_total == m.requests_total
            &&& s.requests_success == m.requests_success
            &&& s.requests_failure == m.requests_failure
            &&& s.connections_active == m.connections_active
            &&& s.bytes_sent == m.bytes_sent
            &&& s.bytes_received == m.bytes_received
            &&& s.success_rate.part == m.requests_success
            &&& s.success_rate.whole == m.requests_total
            &&& m.latency_count == 0 ==> s.avg_latency_ms == 0
            &&& m.latency_count > 0 ==> s.avg_latency_ms * m.latency_count <= m.latency_sum
                && m.latency_sum < (s.avg_latency_ms + 1) * m.latency_count
        }),
        MetricsView::fresh().snapshot().requests_total == 0,
        MetricsView::fresh().latency_count == 0,
        MetricsView::fresh().latency_sum == 0,
{
    if m.latency_count > 0 {
        let s = m.latency_sum as int;
        let n = m.latency_count as int;
        assert((s / n) * n <= s < (s / n + 1) * n) by (nonlinear_arith)
            requires
                n > 0,
                s >= 0,
        ;
    }
}

/// Counters count up and down by what they are told, within their range.
pub proof fn law_counters_count(counter: usize, n: usize)
    ensures
        counter + n <= usize::MAX ==> plus(counter, n) == counter + n,
        counter + n > usize::MAX ==> plus(counter, n) == counter + n - (usize::MAX + 1),
        counter > 0 ==> minus_one(counter) == counter - 1,
        minus_one(0) == usize::MAX,
{
}

/// A request is let through just when fewer than the maximum of those that are kept lie
/// less than the window before now; it is then kept. As many more are let through as
/// are missing to the maximum, and asking for that lets nothing through.
pub proof fn law_rate_is_checked_against_the_window(limiter: LimiterView, now: Instant)
    ensures
        ({
            let recent = window::count_recent(limiter.requests, now, limiter.window);
            let after = limiter.after_request(now);
            &&& limiter.lets_through(now) <==> recent < limiter.max_requests
            &&& recent < limiter.max_requests ==> limiter.available(now) == limiter.max_requests
                - recent
            &&& recent >= limiter.max_requests ==> limiter.available(now) == 0
            &&& recent < limiter.max_requests ==> after.requests.len() == recent + 1
                && after.requests.last() == now
            &&& recent >= limiter.max_requests ==> after.requests.len() == recent
            &&& limiter.pruned(now).requests.len() == recent
            &&& after.max_requests == limiter.max_requests && after.window == limiter.window
            &&& limiter.pruned(now).max_requests == limiter.max_requests
                && limiter.pruned(now).window == limiter.window
        }),
{
    window::law_window_counts_the_recent(
        limiter.requests,
        now,
        limiter.window,
        limiter.max_requests,
    );
}

/// A message that could not be sent reaches nobody, and any other as many as it was
/// sent to.
pub proof fn law_receivers_are_counted(n: usize)
    ensures
        receivers(Some(n)) == n,
        receivers(None) == 0,
{
}

/// A health checker that was told nothing probes every half minute and waits for five
/// seconds.
pub proof fn law_checker_has_defaults()
    ensures
        default_checker().interval == 30 * 1_000_000_000,
        default_checker().timeout == 5 * 1_000_000_000,
{
}

/// A letter and its model hold the same.
pub proof fn law_letter_model_keeps_everything(letter: DeadLetter)
    ensures
        letter@.request == letter.request@,
        letter@.error == letter.error@,
        letter@.timestamp == letter.timestamp,
        letter@.retry_count == letter.retry_count,
{
}

/// What is recorded is what is counted, and nothing else changes.
pub proof fn law_recording_counts(
    a: &mut Metrics,
    b: &mut Metrics,
    c: &mut Metrics,
    d: &mut Metrics,
    duration: Duration,
    e: &mut Metrics,
    f: &mut Metrics,
    g: &mut Metrics,
    h: &mut Metrics,
    bytes: usize,
)
    requires
        call_ensures(Metrics::record_request, (a,), ()),
        call_ensures(Metrics::record_success, (b,), ()),
        call_ensures(Metrics::record_failure, (c,), ()),
        call_ensures(Metrics::record_latency, (d, duration), ()),
        call_ensures(Metrics::inc_connections, (e,), ()),
        call_ensures(Metrics::dec_connections, (f,), ()),
        call_ensures(Metrics::add_bytes_sent, (g, bytes), ()),
        call_ensures(Metrics::add_bytes_received, (h, bytes), ()),
        old(a)@.requests_total < usize::MAX,
        old(b)@.requests_success < usize::MAX,
        old(c)@.requests_failure < usize::MAX,
        old(d)@.latency_count < usize::MAX,
        old(d)@.latency_sum + duration@ / 1_000_000 <= u64::MAX,
        old(e)@.connections_active < usize::MAX,
        old(f)@.connections_active > 0,
        old(g)@.bytes_sent + bytes <= usize::MAX,
        old(h)@.bytes_received + bytes <= usize::MAX,
    ensures
        final(a)@ == (MetricsView {
            requests_total: (old(a)@.requests_total + 1) as usize,
            ..old(a)@
        }),
        final(b)@ == (MetricsView {
            requests_success: (old(b)@.requests_success + 1) as usize,
            ..old(b)@
        }),
        final(c)@ == (MetricsView {
            requests_failure: (old(c)@.requests_failure + 1) as usize,
            ..old(c)@
        }),
        final(d)@ == (MetricsView {
            latency_sum: (old(d)@.latency_sum + duration@ / 1_000_000) as u64,
            latency_count: (old(d)@.latency_count + 1) as usize,
            ..old(d)@
        }),
        final(e)@ == (MetricsView {
            connections_active: (old(e)@.connections_active + 1) as usize,
            ..old(e)@
        }),
        final(f)@ == (MetricsView {
            connections_active: (old(f)@.connections_active - 1) as usize,
            ..old(f)@
        }),
        final(g)@ == (MetricsView {
            bytes_sent: (old(g)@.bytes_sent + bytes) as usize,
            ..old(g)@
        }),
        final(h)@ == (MetricsView {
            bytes_received: (old(h)@.bytes_received + bytes) as usize,
            ..old(h)@
        }),
{
}

/// A letter that is pushed carries the request, the error and the time, and is the last;
/// the first that is popped is the oldest.
pub proof fn law_letters_come_out_in_order(
    a: &mut DeadLetterQueue,
    request: ServiceRequest,
    error: String,
    timestamp: Timestamp,
    b: &mut DeadLetterQueue,
    popped: Option<DeadLetter>,
)
    requires
        call_ensures(DeadLetterQueue::push_at, (a, request, error, timestamp), ()),
        call_ensures(DeadLetterQueue::pop, (b,), popped),
    ensures
        ({
            let last = final(a)@.letters.last();
            &&& final(a)@.letters.len() > 0
            &&& last.request == request@ && last.error == error@ && last.timestamp == timestamp
            &&& last.retry_count == 0
            &&& old(a)@.letters.len() < old(a)@.max_size ==> final(a)@.letters.len()
                == old(a)@.letters.len() + 1
        }),
        old(b)@.letters.len() > 0 ==> popped is Some && popped->0@ == old(b)@.letters[0]
            && final(b)@.letters.len() == old(b)@.letters.len() - 1,
        old(b)@.letters.len() == 0 ==> popped is None && final(b)@ == old(b)@,
{
}

/// A token says that it was cancelled once it was, and a fork of it too.
pub proof fn law_cancelled_token_says_so(
    t: &mut CancellationToken,
    after: CancellationToken,
    says: bool,
    fork: CancellationToken,
    fork_says: bool,
)
    requires
        call_ensures(CancellationToken::cancel, (t,), ()),
        after == *final(t),
        call_ensures(CancellationToken::is_cancelled, (&after,), says),
        call_ensures(CancellationToken::fork, (&after,), fork),
        call_ensures(CancellationToken::is_cancelled, (&fork,), fork_says),
    ensures
        says,
        fork_says,
        after.flag() == old(t).flag() && fork.flag() == after.flag(),
{
}

/// A limiter lets a request through just when fewer than the maximum of those that it
/// let through lie less than its window before now.
pub proof fn law_limiter_lets_through_what_it_may(
    l: &mut RateLimiter,
    now: Instant,
    through: bool,
    max_requests: usize,
    span: Duration,
    fresh: RateLimiter,
)
    requires
        call_ensures(RateLimiter::try_acquire_at, (l, now), through),
        call_ensures(RateLimiter::new, (max_requests, span), fresh),
    ensures
        through <==> window::count_recent(old(l)@.requests, now, old(l)@.window)
            < old(l)@.max_requests,
        through ==> final(l)@.requests.last() == now,
        fresh@.max_requests == max_requests && fresh@.window == span@ && fresh@.requests.len()
            == 0,
{
    window::law_window_counts_the_recent(
        old(l)@.requests,
        now,
        old(l)@.window,
        old(l)@.max_requests,
    );
}

/// A new queue is empty, and a queue is empty once it was cleared; all of its letters are
/// given in their order.
pub proof fn law_queue_holds_its_letters(
    max_size: usize,
    fresh: DeadLetterQueue,
    q: DeadLetterQueue,
    all: Vec<DeadLetter>,
    n: usize,
    empty: bool,
    cleared: &mut DeadLetterQueue,
    i: int,
)
    requires
        call_ensures(DeadLetterQueue::new, (max_size,), fresh),
        call_ensures(DeadLetterQueue::get_all, (&q,), all),
        call_ensures(DeadLetterQueue::len, (&q,), n),
        call_ensures(DeadLetterQueue::is_empty, (&q,), empty),
        call_ensures(DeadLetterQueue::clear, (cleared,), ()),
        0 <= i < all@.len(),
    ensures
        fresh@.letters.len() == 0 && fresh@.max_size == max_size,
        n == q@.letters.len() && all@.len() == n,
        !empty,
        all@[i]@ == q@.letters[i],
        final(cleared)@.letters.len() == 0 && final(cleared)@.max_size == old(cleared)@.max_size,
{
    assert(letter_views(all@)[i] == all@[i]@);
}

/// A checker says that a service is well just when it answered in time, and keeps the
/// interval and the timeout that it is given.
pub proof fn law_checker_goes_by_the_answer(
    c: HealthChecker,
    answered: bool,
    well: bool,
    span: Duration,
    a: HealthChecker,
    b: HealthChecker,
)
    requires
        call_ensures(HealthChecker::verdict, (&c, answered), well),
        call_ensures(HealthChecker::with_interval, (c, span), a),
        call_ensures(HealthChecker::with_timeout, (c, span), b),
    ensures
        well <==> answered,
        a@.interval == span@ && a@.timeout == c@.timeout,
        b@.timeout == span@ && b@.interval == c@.interval,
{
}

/// What is available and what lies in the window make up the maximum.
pub proof fn law_available_is_what_is_left(l: &mut RateLimiter, now: Instant, left: usize)
    requires
        call_ensures(RateLimiter::available_at, (l, now), left),
    ensures
        ({
            let recent = window::count_recent(old(l)@.requests, now, old(l)@.window);
            recent + left == old(l)@.max_requests || (recent >= old(l)@.max_requests && left == 0)
        }),
        final(l)@.max_requests == old(l)@.max_requests && final(l)@.window == old(l)@.window,
{
    window::law_window_counts_the_recent(
        old(l)@.requests,
        now,
        old(l)@.window,
        old(l)@.max_requests,
    );
}

/// Cancelling sets the flag that is shared; a new token is not cancelled by its own flag.
pub proof fn law_cancelling_sets_the_flag(
    t: &mut CancellationToken,
    fresh: CancellationToken,
    flag: bool,
    counts: bool,
)
    requires
        call_ensures(CancellationToken::cancel, (t,), ()),
        call_ensures(CancellationToken::new, (), fresh),
        call_ensures(CancellationToken::cancelled_by, (&fresh, flag), counts),
    ensures
        call_ensures(AtomicBool::store, (&*final(t).flag(), true, Ordering::Relaxed), ()),
        counts <==> flag,
{
}

} // verus!
