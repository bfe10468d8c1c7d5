//! A circuit breaker: after enough failures in a row calls are refused, until
//! a pause is over and one more may be tried.

use crate::error::{ErrorView, ProtocolError};
use crate::time::{Clock, Duration, Instant};
use vstd::prelude::*;

verus! {

#[derive(Debug, Clone, Copy, PartialEq, Eq, Structural)]
pub enum CircuitState {
    Closed,
    Open,
    HalfOpen,
}

#[derive(Debug)]
pub struct CircuitBreaker {
    failures: usize,
    successes: usize,
    state: CircuitState,
    threshold: usize,
    timeout: Duration,
    last_failure: Option<Instant>,
    clock: Clock,
}

/// The mathematical model of a [`CircuitBreaker`].
pub struct BreakerView {
    /// Failures since the last success.
    pub failures: usize,
    /// Successes in all.
    pub successes: usize,
    /// The state as it was last stored.
    pub state: CircuitState,
    /// Failures in a row that open the circuit.
    pub threshold: usize,
    /// Nanoseconds that an open circuit stays open after the last failure.
    pub timeout: nat,
    pub last_failure: Option<Instant>,
    pub clock: Clock,
}

impl View for CircuitBreaker {
    type V = BreakerView;

    closed spec fn view(&self) -> BreakerView {
        BreakerView {
            failures: self.failures,
            successes: self.successes,
            state: self.state,
            threshold: self.threshold,
            timeout: self.timeout@,
            last_failure: self.last_failure,
            clock: self.clock,
        }
    }
}

/// The next value of a counter that wraps around.
pub open spec fn next_count(n: usize) -> usize {
    if n == usize::MAX {
        0
    } else {
        (n + 1) as usize
    }
}

impl BreakerView {
    /// A breaker that has seen nothing.
    pub open spec fn fresh(threshold: usize, clock: Clock) -> BreakerView {
        BreakerView {
            failures: 0,
            successes: 0,
            state: CircuitState::Closed,
            threshold,
            timeout: 30_000_000_000,
            last_failure: None,
            clock,
        }
    }

    pub open spec fn after_success(self) -> BreakerView {
        BreakerView {
            failures: 0,
            successes: next_count(self.successes),
            state: if self.state == CircuitState::HalfOpen {
                CircuitState::Closed
            } else {
                self.state
            },
            ..self
        }
    }

    pub open spec fn after_failure(self, now: Instant) -> BreakerView {
        BreakerView {
            failures: next_count(self.failures),
            last_failure: Some(now),
            state: if next_count(self.failures) >= self.threshold {
                CircuitState::Open
            } else {
                self.state
            },
            ..self
        }
    }

    /// Whether the pause of an open circuit is over.
    pub open spec fn pause_over(self, now: Instant) -> bool {
        match self.last_failure {
            Some(last) => crate::time::elapsed_nanos(now, last) > self.timeout,
            None => false,
        }
    }

    /// The breaker after it was looked at: an open circuit whose pause is over
    /// has become half open.
    pub open spec fn observed(self, now: Instant) -> BreakerView {
        if self.state == CircuitState::Open && self.pause_over(now) {
            BreakerView { state: CircuitState::HalfOpen, ..self }
        } else {
            self
        }
    }

    /// The breaker after failures at the given times.
    pub open spec fn after_failures(self, times: Seq<Instant>) -> BreakerView
        decreases times.len(),
    {
        if times.len() == 0 {
            self
        } else {
            self.after_failures(times.drop_last()).after_failure(times.last())
        }
    }
}

/// The error of a call that the breaker refuses.
pub open spec fn refusal() -> ErrorView {
    ErrorView::ConnectionFailed("circuit breaker open"@)
}

impl CircuitBreaker {
    /// A closed circuit that opens after `threshold` failures in a row and
    /// pauses for 30 seconds.
    pub fn new(threshold: usize) -> (r: CircuitBreaker)
        ensures
            r@ == BreakerView::fresh(threshold, r@.clock),
    {
        CircuitBreaker {
            failures: 0,
            successes: 0,
            state: CircuitState::Closed,
            threshold,
            timeout: Duration::from_secs(30),
            last_failure: None,
            clock: Clock::new(),
        }
    }

    pub fn with_timeout(self, timeout: Duration) -> (r: CircuitBreaker)
        ensures
            r@ == (BreakerView { timeout: timeout@, ..self@ }),
    {
        CircuitBreaker { timeout, ..self }
    }

    /// The current time on the breaker's clock.
    pub fn now(&self) -> (r: Instant)
        ensures
            self@.clock.shows(r),
    {
        self.clock.now()
    }

    pub fn record_success(&mut self)
        ensures
            final(self)@ == old(self)@.after_success(),
    {
        self.successes = self.successes.wrapping_add(1);
        self.failures = 0;
        if self.state == CircuitState::HalfOpen {
            self.state = CircuitState::Closed;
        }
    }

    /// Records a failure at the current time.
    pub fn record_failure(&mut self)
        ensures
            exists|now: Instant|
                old(self)@.clock.shows(now) && final(self)@ == #[trigger] old(self)@.after_failure(
                    now,
                ),
    {
        let now = self.clock.now();
        self.record_failure_at(now);
    }

    /// Records a failure at the time `now` of the breaker's clock.
    pub fn record_failure_at(&mut self, now: Instant)
        ensures
            final(self)@ == old(self)@.after_failure(now),
    {
        self.failures = self.failures.wrapping_add(1);
        self.last_failure = Some(now);
        if self.failures >= self.threshold {
            self.state = CircuitState::Open;
        }
    }

    /// The state at the current time.
    pub fn state(&mut self) -> (r: CircuitState)
        ensures
            r == final(self)@.state,
            exists|now: Instant|
                old(self)@.clock.shows(now) && final(self)@ == #[trigger] old(self)@.observed(now),
    {
        let now = self.clock.now();
        self.state_at(now)
    }

    /// The state at the time `now` of the breaker's clock.
    pub fn state_at(&mut self, now: Instant) -> (r: CircuitState)
        ensures
            r == final(self)@.state,
            final(self)@ == old(self)@.observed(now),
    {
        if self.state == CircuitState::Open {
            if let Some(last) = self.last_failure {
                if now.beyond(last, self.timeout) {
                    self.state = CircuitState::HalfOpen;
                    return CircuitState::HalfOpen;
                }
            }
        }
        self.state
    }

    pub fn is_available(&mut self) -> (r: bool)
        ensures
            r == (final(self)@.state != CircuitState::Open),
            exists|now: Instant|
                old(self)@.clock.shows(now) && final(self)@ == #[trigger] old(self)@.observed(now),
    {
        let state = self.state();
        state != CircuitState::Open
    }

    /// Whether a call may be made at the current time.
    pub fn can_execute(&mut self) -> (r: Result<(), ProtocolError>)
        ensures
            r is Ok <==> final(self)@.state != CircuitState::Open,
            r matches Err(e) ==> e@ == refusal(),
            exists|now: Instant|
                old(self)@.clock.shows(now) && final(self)@ == #[trigger] old(self)@.observed(now),
    {
        let now = self.clock.now();
        self.can_execute_at(now)
    }

    /// Whether a call may be made at the time `now` of the breaker's clock.
    pub fn can_execute_at(&mut self, now: Instant) -> (r: Result<(), ProtocolError>)
        ensures
            r is Ok <==> old(self)@.observed(now).state != CircuitState::Open,
            r matches Err(e) ==> e@ == refusal(),
            final(self)@ == old(self)@.observed(now),
    {
        match self.state_at(now) {
            CircuitState::Closed => Ok(()),
            CircuitState::HalfOpen => Ok(()),
            CircuitState::Open => Err(
                ProtocolError::ConnectionFailed("circuit breaker open".to_string()),
            ),
        }
    }
}

proof fn lemma_failures_counted(threshold: usize, clock: Clock, times: Seq<Instant>)
    requires
        times.len() <= threshold,
    ensures
        ({
            let b = BreakerView::fresh(threshold, clock).after_failures(times);
            &&& b.failures == times.len()
            &&& b.threshold == threshold
            &&& b.state == if 0 < times.len() && times.len() == threshold {
                CircuitState::Open
            } else {
                CircuitState::Closed
            }
        }),
    decreases times.len(),
{
    if times.len() > 0 {
        lemma_failures_counted(threshold, clock, times.drop_last());
    }
}

/// What happens to a breaker.
pub enum BreakerEvent {
    Failed(Instant),
    Succeeded,
    /// It was asked for its state.
    LookedAt(Instant),
}

impl BreakerView {
    /// The breaker after one more event.
    pub open spec fn after_event(self, event: BreakerEvent) -> BreakerView {
        match event {
            BreakerEvent::Failed(now) => self.after_failure(now),
            BreakerEvent::Succeeded => self.after_success(),
            BreakerEvent::LookedAt(now) => self.observed(now),
        }
    }

    /// The breaker after all of these events.
    pub open spec fn after(self, history: Seq<BreakerEvent>) -> BreakerView
        decreases history.len(),
    {
        if history.len() == 0 {
            self
        } else {
            self.after(history.drop_last()).after_event(history.last())
        }
    }
}

/// The failures since the last success.
pub open spec fn failures_at_the_end(history: Seq<BreakerEvent>) -> nat
    decreases history.len(),
{
    if history.len() == 0 {
        0
    } else {
        match history.last() {
            BreakerEvent::Failed(_) => failures_at_the_end(history.drop_last()) + 1,
            BreakerEvent::Succeeded => 0,
            BreakerEvent::LookedAt(_) => failures_at_the_end(history.drop_last()),
        }
    }
}

/// When the last failure came.
pub open spec fn last_failed(history: Seq<BreakerEvent>) -> Option<Instant>
    decreases history.len(),
{
    if history.len() == 0 {
        None
    } else {
        match history.last() {
            BreakerEvent::Failed(now) => Some(now),
            _ => last_failed(history.drop_last()),
        }
    }
}

/// The breaker was not looked at after `now` since the last failure or success.
pub open spec fn last_looked_at_by(history: Seq<BreakerEvent>, now: Instant) -> bool
    decreases history.len(),
{
    if history.len() == 0 {
        true
    } else {
        match history.last() {
            BreakerEvent::LookedAt(t) => t.nanos <= now.nanos && last_looked_at_by(
                history.drop_last(),
                now,
            ),
            _ => true,
        }
    }
}

proof fn lemma_history_counted(b: BreakerView, history: Seq<BreakerEvent>)
    requires
        b.failures == 0,
        b.last_failure is None,
        b.threshold > 0,
    ensures
        ({
            let a = b.after(history);
            let in_a_row = failures_at_the_end(history);
            &&& a.last_failure == last_failed(history)
            &&& a.threshold == b.threshold
            &&& a.timeout == b.timeout
            &&& in_a_row > 0 ==> a.last_failure is Some
            &&& in_a_row <= usize::MAX ==> a.failures == in_a_row
            &&& b.threshold <= in_a_row <= usize::MAX ==> a.state == CircuitState::Open || (a.state
                == CircuitState::HalfOpen && forall|now: Instant|
                last_looked_at_by(history, now) ==> #[trigger] a.pause_over(now))
        }),
    decreases history.len(),
{
    if history.len() > 0 {
        lemma_history_counted(b, history.drop_last());
    }
}

/// Whatever came before: once as many failures as the threshold came in a row, a
/// circuit is open until its pause since the last of them is over, and half open
/// from then on. A half-open circuit stays so, until a success closes it or one
/// more failure opens it again.
pub proof fn law_failures_in_a_row_open(
    threshold: usize,
    timeout: nat,
    clock: Clock,
    history: Seq<BreakerEvent>,
    now: Instant,
    later: Instant,
)
    requires
        0 < threshold <= failures_at_the_end(history) < usize::MAX,
        last_looked_at_by(history, now),
    ensures
        ({
            let fresh = BreakerView { timeout, ..BreakerView::fresh(threshold, clock) };
            let b = fresh.after(history);
            let seen = b.observed(now);
            &&& last_failed(history) is Some
            &&& seen.state == if crate::time::elapsed_nanos(now, last_failed(history)->0)
                > timeout {
                CircuitState::HalfOpen
            } else {
                CircuitState::Open
            }
            &&& seen.state == CircuitState::HalfOpen ==> seen.observed(later) == seen
            &&& seen.state == CircuitState::HalfOpen ==> seen.after_success().state
                == CircuitState::Closed
            &&& seen.after_failure(later).state == CircuitState::Open
        }),
{
    lemma_history_counted(
        BreakerView { timeout, ..BreakerView::fresh(threshold, clock) },
        history,
    );
}

/// Fewer failures than the threshold leave a new circuit closed.
pub proof fn law_closed_below_threshold(threshold: usize, clock: Clock, times: Seq<Instant>)
    requires
        times.len() < threshold,
    ensures
        BreakerView::fresh(threshold, clock).after_failures(times).state == CircuitState::Closed,
{
    lemma_failures_counted(threshold, clock, times);
}

/// The failure that reaches the threshold opens a new circuit.
pub proof fn law_opens_at_threshold(threshold: usize, clock: Clock, times: Seq<Instant>)
    requires
        0 < times.len() == threshold,
    ensures
        BreakerView::fresh(threshold, clock).after_failures(times).state == CircuitState::Open,
{
    lemma_failures_counted(threshold, clock, times);
}

/// A success starts the count of failures anew, and closes a half-open circuit.
pub proof fn law_success_resets(b: BreakerView)
    ensures
        b.after_success().failures == 0,
        b.state == CircuitState::HalfOpen ==> b.after_success().state == CircuitState::Closed,
        b.state == CircuitState::Closed ==> b.after_success().state == CircuitState::Closed,
{
}

/// An open circuit refuses calls until its pause since the last failure is
/// over, and lets one through from then on.
pub proof fn law_open_until_pause_over(b: BreakerView, failed: Instant, now: Instant)
    requires
        b.state == CircuitState::Open,
        b.last_failure == Some(failed),
    ensures
        b.observed(now).state == if crate::time::elapsed_nanos(now, failed) > b.timeout {
            CircuitState::HalfOpen
        } else {
            CircuitState::Open
        },
{
}

/// A half-open circuit that fails again, with no success since it opened, is
/// open again. (A success while it was open, or a count at its limit, starts
/// the count anew.)
pub proof fn law_half_open_failure_reopens(b: BreakerView, now: Instant)
    requires
        b.state == CircuitState::HalfOpen,
        b.threshold <= b.failures < usize::MAX,
    ensures
        b.after_failure(now).state == CircuitState::Open,
{
}

/// A closed circuit stays closed however long nothing happens.
pub proof fn law_time_alone_never_opens(b: BreakerView, now: Instant)
    requires
        b.state != CircuitState::Open,
    ensures
        b.observed(now) == b,
{
}

/// A failure is counted, and noted with its time. It opens the circuit once as many
/// came in a row as the threshold, and else leaves it as it was.
pub proof fn law_failure_is_counted(b: BreakerView, now: Instant)
    requires
        b.failures < usize::MAX,
    ensures
        b.after_failure(now) == (BreakerView {
            failures: (b.failures + 1) as usize,
            last_failure: Some(now),
            state: if b.failures + 1 >= b.threshold {
                CircuitState::Open
            } else {
                b.state
            },
            ..b
        }),
{
}

/// A success is counted, and takes all failures off the count. It closes a
/// half-open circuit, and leaves an open or closed one as it was.
pub proof fn law_success_is_counted(b: BreakerView)
    requires
        b.successes < usize::MAX,
    ensures
        b.after_success() == (BreakerView {
            failures: 0,
            successes: (b.successes + 1) as usize,
            state: match b.state {
                CircuitState::HalfOpen => CircuitState::Closed,
                CircuitState::Open => CircuitState::Open,
                CircuitState::Closed => CircuitState::Closed,
            },
            ..b
        }),
{
}

/// A look at a breaker changes nothing but that an open circuit becomes half open
/// once more than its pause lies between the last failure and now.
pub proof fn law_look_changes_an_open_circuit_alone(b: BreakerView, now: Instant)
    ensures
        b.observed(now) == (BreakerView {
            state: if b.state == CircuitState::Open && b.last_failure is Some && now.nanos
                - b.last_failure->0.nanos > b.timeout {
                CircuitState::HalfOpen
            } else {
                b.state
            },
            ..b
        }),
{
}

/// A circuit is not closed only after as many failures in a row as its threshold,
/// and at least one, with no success among them, came at some time before.
pub proof fn law_opens_only_after_failures_in_a_row(
    threshold: usize,
    timeout: nat,
    clock: Clock,
    history: Seq<BreakerEvent>,
)
    requires
        (BreakerView { timeout, ..BreakerView::fresh(threshold, clock) }).after(history).state
            != CircuitState::Closed,
    ensures
        exists|n: int|
            0 < n <= history.len() && #[trigger] failures_at_the_end(history.take(n)) >= threshold
                && failures_at_the_end(history.take(n)) > 0,
    decreases history.len(),
{
    let fresh = BreakerView { timeout, ..BreakerView::fresh(threshold, clock) };
    let last = history.len() as int;
    if last > 0 {
        let before = history.drop_last();
        if fresh.after(before).state != CircuitState::Closed {
            law_opens_only_after_failures_in_a_row(threshold, timeout, clock, before);
            let n = choose|n: int|
                0 < n <= before.len() && #[trigger] failures_at_the_end(before.take(n))
                    >= threshold && failures_at_the_end(before.take(n)) > 0;
            assert(history.take(n) =~= before.take(n));
            assert(failures_at_the_end(history.take(n)) >= threshold);
        } else {
            lemma_failures_follow(fresh, before);
            assert(history.take(last) =~= history);
            assert(failures_at_the_end(history.take(last)) >= threshold);
        }
    }
}

proof fn lemma_failures_follow(b: BreakerView, history: Seq<BreakerEvent>)
    requires
        b.failures == 0,
    ensures
        failures_at_the_end(history) <= usize::MAX ==> b.after(history).failures
            == failures_at_the_end(history),
        b.after(history).threshold == b.threshold,
    decreases history.len(),
{
    if history.len() > 0 {
        lemma_failures_follow(b, history.drop_last());
    }
}

/// A new breaker is closed and has counted nothing; it pauses for half a minute.
pub proof fn law_new_breaker_is_closed(threshold: usize, clock: Clock)
    ensures
        ({
            let b = BreakerView::fresh(threshold, clock);
            &&& b.state == CircuitState::Closed
            &&& b.failures == 0 && b.successes == 0 && b.last_failure is None
            &&& b.threshold == threshold && b.timeout == 30 * 1_000_000_000 && b.clock == clock
        }),
{
}

/// A breaker lets calls through unless its circuit is open and still pauses, and then
/// says that it is open.
pub proof fn law_breaker_refuses_while_it_pauses(
    b: &mut CircuitBreaker,
    now: Instant,
    may: Result<(), ProtocolError>,
)
    requires
        call_ensures(CircuitBreaker::can_execute_at, (b, now), may),
    ensures
        ({
            let before = old(b)@;
            let paused = before.state == CircuitState::Open && !(before.last_failure is Some
                && now.nanos - before.last_failure->0.nanos > before.timeout);
            &&& may is Err <==> paused
            &&& may matches Err(e) ==> e@ == ErrorView::ConnectionFailed("circuit breaker open"@)
            &&& final(b)@.failures == before.failures
        }),
{
}

/// What is recorded is what is counted: a success clears the failures, and a failure is
/// one more, which opens the circuit when there are as many as the threshold.
pub proof fn law_recording_counts(
    a: &mut CircuitBreaker,
    b: &mut CircuitBreaker,
    now: Instant,
    c: &mut CircuitBreaker,
    state: CircuitState,
)
    requires
        call_ensures(CircuitBreaker::record_success, (a,), ()),
        call_ensures(CircuitBreaker::record_failure_at, (b, now), ()),
        call_ensures(CircuitBreaker::state_at, (c, now), state),
        old(b)@.failures < usize::MAX,
    ensures
        final(a)@.failures == 0,
        final(a)@.state == if old(a)@.state == CircuitState::HalfOpen {
            CircuitState::Closed
        } else {
            old(a)@.state
        },
        final(b)@.failures == old(b)@.failures + 1,
        final(b)@.last_failure == Some(now),
        final(b)@.state == if old(b)@.failures + 1 >= old(b)@.threshold {
            CircuitState::Open
        } else {
            old(b)@.state
        },
        state == if old(c)@.state == CircuitState::Open && old(c)@.last_failure is Some
            && now.nanos - old(c)@.last_failure->0.nanos > old(c)@.timeout {
            CircuitState::HalfOpen
        } else {
            old(c)@.state
        },
        final(c)@.state == state,
{
}

/// A new breaker opens after as many failures as it is told, and pauses for half a minute
/// unless it is told otherwise.
pub proof fn law_new_breaker_takes_its_settings(
    threshold: usize,
    timeout: Duration,
    a: CircuitBreaker,
    b: CircuitBreaker,
)
    requires
        call_ensures(CircuitBreaker::new, (threshold,), a),
        call_ensures(CircuitBreaker::with_timeout, (a, timeout), b),
    ensures
        a@.threshold == threshold && a@.timeout == 30 * 1_000_000_000,
        a@.state == CircuitState::Closed && a@.failures == 0,
        b@.threshold == threshold && b@.timeout == timeout@,
        b@.state == CircuitState::Closed && b@.failures == 0,
{
}

/// Whether a call may be made is what the breaker says at a time that its clock shows: it
/// may unless the circuit is open then.
pub proof fn law_breaker_is_asked_at_the_current_time(
    a: &mut CircuitBreaker,
    may: Result<(), ProtocolError>,
    b: &mut CircuitBreaker,
    available: bool,
)
    requires
        call_ensures(CircuitBreaker::can_execute, (a,), may),
        call_ensures(CircuitBreaker::is_available, (b,), available),
    ensures
        old(a)@.state != CircuitState::Open ==> may is Ok,
        may is Ok ==> final(a)@.state == CircuitState::Closed || final(a)@.state
            == CircuitState::HalfOpen,
        may is Ok && old(a)@.state == CircuitState::Open ==> final(a)@.state
            == CircuitState::HalfOpen,
        may matches Err(e) ==> e@ == ErrorView::ConnectionFailed("circuit breaker open"@)
            && final(a)@.state == CircuitState::Open,
        available <==> final(b)@.state != CircuitState::Open,
        old(b)@.state != CircuitState::Open ==> available,
{
}

} // verus!
