//! Spans of time, points in time, and the clock that yields them.

use vstd::prelude::*;

verus! {

/// Nanoseconds in one second.
pub const NANOS_PER_SEC: u64 = 1_000_000_000;

/// Nanoseconds in one millisecond.
pub const NANOS_PER_MILLI: u64 = 1_000_000;

/// The longest span: `u64::MAX` seconds and 999,999,999 nanoseconds.
pub open spec fn max_span() -> nat {
    (u64::MAX as nat) * 1_000_000_000 + 999_999_999
}

/// A span of time with nanosecond precision.
#[derive(Debug, Clone, Copy, PartialEq, Eq, Structural)]
pub struct Duration {
    nanos: u128,
}

impl View for Duration {
    type V = nat;

    /// The length of the span in nanoseconds.
    closed spec fn view(&self) -> nat {
        self.nanos as nat
    }
}

impl Duration {
    #[verifier::type_invariant]
    spec fn bounded(self) -> bool {
        self.nanos <= max_span()
    }

    /// The whole milliseconds of the span.
    pub open spec fn millis(self) -> nat {
        self@ / 1_000_000
    }

    /// The whole seconds of the span.
    pub open spec fn secs(self) -> nat {
        self@ / 1_000_000_000
    }

    pub fn from_secs(secs: u64) -> (r: Duration)
        ensures
            r@ == secs * 1_000_000_000,
    {
        Duration { nanos: secs as u128 * 1_000_000_000 }
    }

    pub fn from_millis(millis: u64) -> (r: Duration)
        ensures
            r@ == millis * 1_000_000,
    {
        Duration { nanos: millis as u128 * 1_000_000 }
    }

    pub fn from_nanos(nanos: u64) -> (r: Duration)
        ensures
            r@ == nanos,
    {
        Duration { nanos: nanos as u128 }
    }

    /// A span of `secs` seconds and `nanos` nanoseconds.
    pub fn from_parts(secs: u64, nanos: u32) -> (r: Duration)
        requires
            nanos < 1_000_000_000,
        ensures
            r@ == secs * 1_000_000_000 + nanos,
    {
        Duration { nanos: secs as u128 * 1_000_000_000 + nanos as u128 }
    }

    pub fn as_nanos(&self) -> (r: u128)
        ensures
            r == self@,
    {
        self.nanos
    }

    pub fn as_millis(&self) -> (r: u128)
        ensures
            r == self.millis(),
    {
        self.nanos / 1_000_000
    }

    pub fn as_secs(&self) -> (r: u64)
        ensures
            r == self.secs(),
    {
        proof {
            use_type_invariant(self);
        }
        (self.nanos / 1_000_000_000) as u64
    }

    /// The nanoseconds beyond the last whole second.
    pub fn subsec_nanos(&self) -> (r: u32)
        ensures
            r == self@ % 1_000_000_000,
    {
        (self.nanos % 1_000_000_000) as u32
    }

    /// The whole milliseconds in a 64-bit counter, which wraps around.
    pub fn millis_wrapped(&self) -> (r: u64)
        ensures
            r == self.millis() % 0x1_0000_0000_0000_0000,
    {
        let millis: u128 = self.nanos / 1_000_000;
        assert(#[verifier::truncate] (millis as u64) == millis % 0x1_0000_0000_0000_0000)
            by (bit_vector);
        #[verifier::truncate]
        (millis as u64)
    }

    /// This span `factor` times over, but no more than `cap`.
    pub fn times_capped(&self, factor: u32, cap: Duration) -> (r: Duration)
        ensures
            r@ == vstd::math::min(self@ * factor, cap@ as int),
    {
        proof {
            use_type_invariant(self);
            use_type_invariant(&cap);
            assert(self.nanos * factor <= max_span() * u32::MAX) by (nonlinear_arith)
                requires
                    self.nanos <= max_span(),
                    factor <= u32::MAX,
            ;
        }
        let product: u128 = self.nanos * factor as u128;
        if product <= cap.nanos {
            Duration { nanos: product }
        } else {
            cap
        }
    }
}

/// A point in time: the nanoseconds since the origin of the clock that was read.
/// Points read from one clock can be compared with each other.
#[derive(Debug, Clone, Copy, PartialEq, Eq, Structural)]
pub struct Instant {
    pub nanos: u64,
}

/// The nanoseconds from `earlier` to `later`; none if `later` comes first.
pub open spec fn elapsed_nanos(later: Instant, earlier: Instant) -> nat {
    if later.nanos >= earlier.nanos {
        (later.nanos - earlier.nanos) as nat
    } else {
        0
    }
}

impl Instant {
    /// The span since `earlier`; empty if `earlier` lies in the future.
    pub fn duration_since(&self, earlier: Instant) -> (r: Duration)
        ensures
            r@ == elapsed_nanos(*self, earlier),
    {
        if self.nanos >= earlier.nanos {
            Duration::from_nanos(self.nanos - earlier.nanos)
        } else {
            Duration::from_nanos(0)
        }
    }

    /// Whether less than `span` has passed since `earlier`.
    pub fn within(&self, earlier: Instant, span: Duration) -> (r: bool)
        ensures
            r == (elapsed_nanos(*self, earlier) < span@),
    {
        self.duration_since(earlier).as_nanos() < span.as_nanos()
    }

    /// Whether more than `span` has passed since `earlier`.
    pub fn beyond(&self, earlier: Instant, span: Duration) -> (r: bool)
        ensures
            r == (elapsed_nanos(*self, earlier) > span@),
    {
        self.duration_since(earlier).as_nanos() > span.as_nanos()
    }
}

/// A point in time that lies `span` after a reading of `clock`.
#[derive(Debug, Clone, Copy)]
pub struct Deadline {
    clock: Clock,
    at_nanos: u128,
}

/// The mathematical model of a [`Deadline`].
pub struct DeadlineView {
    pub clock: Clock,
    /// The nanoseconds from the clock's origin to the deadline.
    pub at: nat,
}

impl View for Deadline {
    type V = DeadlineView;

    closed spec fn view(&self) -> DeadlineView {
        DeadlineView { clock: self.clock, at: self.at_nanos as nat }
    }
}

impl Deadline {
    /// The deadline `span` after `start`, a reading of `clock`.
    pub fn after(clock: Clock, start: Instant, span: Duration) -> (r: Deadline)
        ensures
            r@ == (DeadlineView { clock, at: start.nanos as nat + span@ }),
    {
        proof {
            use_type_invariant(&span);
        }
        Deadline { clock, at_nanos: start.nanos as u128 + span.as_nanos() }
    }

    /// Whether `now`, a reading of the same clock, comes before the deadline.
    pub fn is_ahead_at(&self, now: Instant) -> (r: bool)
        ensures
            r == (now.nanos < self@.at),
    {
        (now.nanos as u128) < self.at_nanos
    }

    /// The current time on the deadline's clock.
    pub fn clock_now(&self) -> (r: Instant)
        ensures
            self@.clock.shows(r),
    {
        self.clock.now()
    }
}

#[verifier::external_type_specification]
#[verifier::external_body]
pub struct ExInstant(std::time::Instant);

/// Whether this may be the current instant. It is a relation and picks none.
pub uninterp spec fn may_be_instant(origin: std::time::Instant) -> bool;

/// Calls `std::time::Instant::now`. What it returns depends on when it is
/// called, so all that is claimed of it is that it may be the current instant.
#[verifier::external_body]
fn monotonic_now() -> (r: std::time::Instant)
    ensures
        may_be_instant(r),
{
    std::time::Instant::now()
}

/// Whether so many nanoseconds may be found to have passed since `origin`.
pub uninterp spec fn may_have_passed(origin: std::time::Instant, nanos: u64) -> bool;

/// Calls `std::time::Instant::elapsed` and gives the span in nanoseconds. It
/// depends on when it is called, so all that is claimed of it is that it may be
/// found to have passed since `origin`.
#[verifier::external_body]
fn nanos_since(origin: &std::time::Instant) -> (r: u64)
    ensures
        may_have_passed(*origin, r),
{
    origin.elapsed().as_nanos() as u64
}

#[verifier::external_type_specification]
#[verifier::external_body]
pub struct ExSystemTime(std::time::SystemTime);

/// Whether the system's clock may show this time. It is a relation and picks no
/// time.
pub uninterp spec fn system_may_show(time: std::time::SystemTime) -> bool;

/// Calls `std::time::SystemTime::now`. What it returns depends on when it is
/// called, so all that is claimed of it is that the system's clock may show it.
#[verifier::external_body]
fn system_now() -> (r: std::time::SystemTime)
    ensures
        system_may_show(r),
{
    std::time::SystemTime::now()
}

/// The whole seconds from the beginning of 1970 to a time and the nanoseconds on
/// top of them; none if the time lies before.
pub uninterp spec fn epoch_span(time: std::time::SystemTime) -> Option<(u64, u32)>;

/// Calls `std::time::SystemTime::duration_since` with the beginning of 1970, and
/// gives the whole seconds and the nanoseconds on top of them, which are less
/// than a second; none if the time lies before.
#[verifier::external_body]
fn since_epoch(time: &std::time::SystemTime) -> (r: Option<(u64, u32)>)
    ensures
        r == epoch_span(*time),
        r matches Some(span) ==> span.1 < 1_000_000_000,
{
    let span = time.duration_since(std::time::UNIX_EPOCH).ok();
    span.map(|d| (d.as_secs(), d.subsec_nanos()))
}

/// The whole milliseconds in a span of seconds and nanoseconds, as far as 63
/// bits hold them; 0 for no span.
pub open spec fn millis_in(span: Option<(u64, u32)>) -> i64 {
    match span {
        Some((secs, nanos)) => (secs * 1000 + nanos / 1_000_000) as i64,
        None => 0,
    }
}

/// The whole milliseconds in a span of seconds and nanoseconds.
pub fn whole_millis(span: Option<(u64, u32)>) -> (r: i64)
    ensures
        r == millis_in(span),
{
    match span {
        Some((secs, nanos)) => {
            let millis: u128 = secs as u128 * 1000 + (nanos / 1_000_000) as u128;
            #[verifier::truncate]
            (millis as i64)
        },
        None => 0,
    }
}

/// The whole seconds in a span of seconds and nanoseconds; 0 for no span.
pub open spec fn seconds_in(span: Option<(u64, u32)>) -> u64 {
    match span {
        Some((secs, _)) => secs,
        None => 0,
    }
}

/// The whole seconds in a span of seconds and nanoseconds; 0 for no span.
pub fn whole_seconds(span: Option<(u64, u32)>) -> (r: u64)
    ensures
        r == seconds_in(span),
{
    match span {
        Some((secs, _)) => secs,
        None => 0,
    }
}

/// The milliseconds since 1970 began, by the system's clock; 0 before that.
pub fn unix_millis() -> (r: i64)
    ensures
        exists|time: std::time::SystemTime|
            system_may_show(time) && r == millis_in(#[trigger] epoch_span(time)),
{
    let time = system_now();
    whole_millis(since_epoch(&time))
}

/// Whether these may be the seconds since 1970 began, by the system's clock.
pub open spec fn may_be_seconds(secs: u64) -> bool {
    exists|time: std::time::SystemTime|
        system_may_show(time) && secs == seconds_in(#[trigger] epoch_span(time))
}

/// The seconds since 1970 began, by the system's clock; 0 before that.
pub fn unix_seconds() -> (r: u64)
    ensures
        may_be_seconds(r),
{
    let time = system_now();
    whole_seconds(since_epoch(&time))
}

/// A point in time in UTC: the seconds since 1970 began, and the nanoseconds on
/// top of them. A leap second is told by a nanosecond count of a second or more.
#[derive(Debug, Clone, Copy, PartialEq, Eq, Structural)]
pub struct Timestamp {
    pub secs: i64,
    pub nanos: u32,
}

/// Whether the current time in UTC may be so many seconds and nanoseconds. It is
/// a relation and picks no time.
pub uninterp spec fn utc_may_be(secs: i64, nanos: u32) -> bool;

/// Calls `chrono::Utc::now`, and gives its `timestamp` and its
/// `timestamp_subsec_nanos`, which are less than two seconds. Besides that they
/// depend on when it is called, so that all that is claimed is that the current
/// time may be so.
#[verifier::external_body]
fn utc_now() -> (r: (i64, u32))
    ensures
        r.1 < 2_000_000_000,
        utc_may_be(r.0, r.1),
{
    let now = chrono::Utc::now();
    (now.timestamp(), now.timestamp_subsec_nanos())
}

impl Timestamp {
    /// Whether the current time may be this.
    pub open spec fn may_be_now(self) -> bool {
        utc_may_be(self.secs, self.nanos) && self.nanos < 2_000_000_000
    }

    /// The current time.
    pub fn now() -> (r: Timestamp)
        ensures
            r.may_be_now(),
    {
        let (secs, nanos) = utc_now();
        Timestamp { secs, nanos }
    }
}

/// A monotonic clock. Its readings count from the moment it was made.
#[derive(Debug, Clone, Copy)]
pub struct Clock {
    origin: std::time::Instant,
}

impl Clock {
    /// Whether this may be read from the clock.
    pub closed spec fn shows(self, now: Instant) -> bool {
        may_have_passed(self.origin, now.nanos)
    }

    /// Whether the clock may be made now.
    pub closed spec fn may_start(self) -> bool {
        may_be_instant(self.origin)
    }

    pub fn new() -> (r: Clock)
        ensures
            r.may_start(),
    {
        Clock { origin: monotonic_now() }
    }

    /// The current time on this clock.
    pub fn now(&self) -> (r: Instant)
        ensures
            self.shows(r),
    {
        Instant { nanos: nanos_since(&self.origin) }
    }
}

/// The span between two points in time leads from the earlier to the later one;
/// there is none the other way round.
pub proof fn law_elapsed_leads_from_one_to_the_other(later: Instant, earlier: Instant)
    ensures
        earlier.nanos <= later.nanos ==> earlier.nanos + elapsed_nanos(later, earlier)
            == later.nanos,
        earlier.nanos > later.nanos ==> elapsed_nanos(later, earlier) == 0,
{
}

/// A span has as many whole milliseconds and seconds as fit in it.
pub proof fn law_whole_units_fit(d: Duration)
    ensures
        d.millis() * 1_000_000 <= d@ < (d.millis() + 1) * 1_000_000,
        d.secs() * 1_000_000_000 <= d@ < (d.secs() + 1) * 1_000_000_000,
{
}

/// A span has as many nanoseconds as the seconds, milliseconds or nanoseconds that it is
/// made of, and tells them back.
pub proof fn law_spans_tell_what_they_are_made_of(
    n: u64,
    secs: Duration,
    millis: Duration,
    nanos: Duration,
    told_secs: u64,
    told_millis: u128,
    told_nanos: u128,
)
    requires
        call_ensures(Duration::from_secs, (n,), secs),
        call_ensures(Duration::from_millis, (n,), millis),
        call_ensures(Duration::from_nanos, (n,), nanos),
        call_ensures(Duration::as_secs, (&secs,), told_secs),
        call_ensures(Duration::as_millis, (&millis,), told_millis),
        call_ensures(Duration::as_nanos, (&nanos,), told_nanos),
    ensures
        told_secs == n && told_millis == n && told_nanos == n,
        secs@ == 1000 * millis@ && millis@ == 1_000_000 * nanos@,
{
}

/// The span between two points leads from one to the other; a point is within a span, at
/// its end or beyond it.
pub proof fn law_points_are_within_or_beyond(
    earlier: Instant,
    now: Instant,
    span: Duration,
    passed: Duration,
    within: bool,
    beyond: bool,
    clock: Clock,
    deadline: Deadline,
    ahead: bool,
)
    requires
        call_ensures(Instant::duration_since, (&now, earlier), passed),
        call_ensures(Instant::within, (&now, earlier, span), within),
        call_ensures(Instant::beyond, (&now, earlier, span), beyond),
        call_ensures(Deadline::after, (clock, earlier, span), deadline),
        call_ensures(Deadline::is_ahead_at, (&deadline, now), ahead),
    ensures
        earlier.nanos <= now.nanos ==> earlier.nanos + passed@ == now.nanos,
        now.nanos <= earlier.nanos ==> passed@ == 0,
        within <==> passed@ < span@,
        beyond <==> span@ < passed@,
        earlier.nanos <= now.nanos ==> (ahead <==> within),
        deadline@.clock == clock,
{
}

/// A span that is multiplied stays below its cap, and is the multiple where that does.
pub proof fn law_multiples_are_capped(d: Duration, factor: u32, cap: Duration, r: Duration)
    requires
        call_ensures(Duration::times_capped, (&d, factor, cap), r),
    ensures
        r@ <= cap@,
        d@ * factor <= cap@ ==> r@ == d@ * factor,
        d@ * factor > cap@ ==> r@ == cap@,
{
}

/// The seconds and milliseconds of a span since the epoch are told whole.
pub proof fn law_epoch_is_told_whole(secs: u64, nanos: u32, millis: i64, whole: u64)
    requires
        call_ensures(whole_millis, (Some((secs, nanos)),), millis),
        call_ensures(whole_seconds, (Some((secs, nanos)),), whole),
        secs * 1000 + 1000 <= i64::MAX,
        nanos < 1_000_000_000,
    ensures
        whole == secs,
        secs * 1000 <= millis < secs * 1000 + 1000,
        millis - secs * 1000 == nanos as int / 1_000_000,
{
}

} // verus!
