//! Counters of requests and connections, latencies, and alerts on them.
//!
//! Counters are 64 bits wide and wrap around.

use crate::map::StrMap;
use crate::text;
use crate::time::{Duration, Instant};
use vstd::prelude::*;

verus! {

/// A counter after `n` was added to it.
pub open spec fn plus(counter: u64, n: u64) -> u64 {
    ((counter + n) % 0x1_0000_0000_0000_0000) as u64
}

/// A counter after one was taken off it.
pub open spec fn minus_one(counter: u64) -> u64 {
    if counter == 0 {
        u64::MAX
    } else {
        (counter - 1) as u64
    }
}

/// Adds to a counter that wraps around.
pub fn counted(counter: u64, n: u64) -> (r: u64)
    ensures
        r == plus(counter, n),
{
    counter.wrapping_add(n)
}

/// Takes one off a counter that wraps around.
pub fn uncounted(counter: u64) -> (r: u64)
    ensures
        r == minus_one(counter),
{
    counter.wrapping_sub(1)
}

/// How many values fell below each of a list of bounds. A value is counted in
/// the bucket of the first bound that is not below it, and in one more bucket
/// if there is none.
#[derive(Debug)]
pub struct Histogram {
    buckets: Vec<u64>,
    bounds: Vec<u64>,
}

/// The mathematical model of a [`Histogram`].
pub struct HistogramView {
    pub buckets: Seq<u64>,
    pub bounds: Seq<u64>,
}

impl View for Histogram {
    type V = HistogramView;

    closed spec fn view(&self) -> HistogramView {
        HistogramView { buckets: self.buckets@, bounds: self.bounds@ }
    }
}

/// The sum of the first `n` counts.
pub open spec fn prefix_sum(buckets: Seq<u64>, n: int) -> nat
    decreases n,
{
    if n <= 0 {
        0
    } else {
        prefix_sum(buckets, n - 1) + buckets[n - 1] as nat
    }
}

/// The bounds are in ascending order.
pub open spec fn ascending(bounds: Seq<u64>) -> bool {
    forall|i: int, j: int| 0 <= i <= j < bounds.len() ==> bounds[i] <= bounds[j]
}

impl HistogramView {
    /// One bucket for each bound, and one for what lies above them.
    pub open spec fn well_formed(self) -> bool {
        self.buckets.len() == self.bounds.len() + 1
    }

    pub open spec fn empty(bounds: Seq<u64>) -> HistogramView {
        HistogramView { buckets: Seq::new((bounds.len() + 1) as nat, |i: int| 0u64), bounds }
    }

    /// The bucket at `i` is the one for `value`.
    pub open spec fn is_bucket_of(self, value: u64, i: int) -> bool {
        &&& 0 <= i <= self.bounds.len()
        &&& forall|j: int| 0 <= j < i ==> self.bounds[j] < value
        &&& i < self.bounds.len() ==> self.bounds[i] >= value
    }

    /// The bucket for `value`.
    pub open spec fn bucket_of(self, value: u64) -> int {
        choose|i: int| self.is_bucket_of(value, i)
    }

    /// The histogram after one more value.
    pub open spec fn observed(self, value: u64) -> HistogramView {
        let i = self.bucket_of(value);
        HistogramView { buckets: self.buckets.update(i, plus(self.buckets[i], 1)), ..self }
    }

    /// The value that is reported for what lies above all bounds.
    pub open spec fn ceiling(self) -> u64 {
        if self.bounds.len() == 0 {
            100
        } else {
            self.bounds.last()
        }
    }

    /// The bucket at `i` is the first with which `rank` values are reached.
    pub open spec fn reaches(self, rank: nat, i: int) -> bool {
        &&& 0 <= i < self.buckets.len()
        &&& prefix_sum(self.buckets, i + 1) >= rank
        &&& forall|j: int| 0 <= j < i ==> (#[trigger] prefix_sum(self.buckets, j + 1)) < rank
    }

    /// The bound below which the first `rank` values lie, as far as the buckets
    /// tell.
    pub open spec fn at_rank(self, rank: nat) -> u64 {
        if exists|i: int| self.reaches(rank, i) {
            let i = choose|i: int| self.reaches(rank, i);
            if i < self.bounds.len() {
                self.bounds[i]
            } else {
                self.ceiling()
            }
        } else {
            self.ceiling()
        }
    }

    /// The bound below which `percent` in a hundred of `total` values lie.
    pub open spec fn percentile(self, percent: nat, total: nat) -> u64 {
        if total == 0 {
            0
        } else {
            self.at_rank(rank_of(percent, total))
        }
    }
}

/// How many values are `percent` in a hundred of `total`, rounded up.
pub open spec fn rank_of(percent: nat, total: nat) -> nat {
    (total * percent + 99) / 100
}

/// There is just one bucket for a value.
proof fn lemma_bucket_unique(h: HistogramView, value: u64, i: int, k: int)
    requires
        h.is_bucket_of(value, i),
        h.is_bucket_of(value, k),
    ensures
        i == k,
{
}

/// A rank is reached in just one bucket.
proof fn lemma_reaches_unique(h: HistogramView, rank: nat, i: int, k: int)
    requires
        h.reaches(rank, i),
        h.reaches(rank, k),
    ensures
        i == k,
{
    if i < k {
        assert(prefix_sum(h.buckets, i + 1) < rank);
    }
    if k < i {
        assert(prefix_sum(h.buckets, k + 1) < rank);
    }
}

proof fn lemma_prefix_sum_monotone(buckets: Seq<u64>, a: int, b: int)
    requires
        a <= b,
    ensures
        prefix_sum(buckets, a) <= prefix_sum(buckets, b),
    decreases b - a,
{
    if a < b {
        lemma_prefix_sum_monotone(buckets, a, b - 1);
    }
}

impl Histogram {
    #[verifier::type_invariant]
    spec fn inv(self) -> bool {
        self@.well_formed()
    }

    pub fn new(bounds: &[u64]) -> (r: Histogram)
        ensures
            r@ == HistogramView::empty(bounds@),
    {
        let mut buckets: Vec<u64> = Vec::new();
        let mut copy: Vec<u64> = Vec::new();
        buckets.push(0);
        let mut i: usize = 0;
        while i < bounds.len()
            invariant
                i <= bounds@.len(),
                buckets@ == Seq::new((i + 1) as nat, |j: int| 0u64),
                copy@ == bounds@.take(i as int),
            decreases bounds.len() - i,
        {
            buckets.push(0);
            copy.push(bounds[i]);
            assert(buckets@ =~= Seq::new((i + 2) as nat, |j: int| 0u64));
            assert(copy@ =~= bounds@.take(i + 1));
            i = i + 1;
        }
        assert(bounds@.take(bounds@.len() as int) =~= bounds@);
        Histogram { buckets, bounds: copy }
    }

    /// The count of each bucket: one for each bound, and one for what lies above
    /// them.
    pub fn buckets(&self) -> (r: &Vec<u64>)
        ensures
            r@ == self@.buckets,
            self@.well_formed(),
    {
        proof {
            use_type_invariant(self);
        }
        &self.buckets
    }

    pub fn observe(&mut self, value: u64)
        ensures
            final(self)@ == old(self)@.observed(value),
    {
        proof {
            use_type_invariant(&*self);
        }
        let mut index: usize = 0;
        while index < self.bounds.len() && self.bounds[index] < value
            invariant
                *self == *old(self),
                self@.well_formed(),
                index <= self.bounds@.len(),
                forall|j: int| 0 <= j < index ==> self@.bounds[j] < value,
            decreases self.bounds.len() - index,
        {
            index = index + 1;
        }
        proof {
            assert(self@.is_bucket_of(value, index as int));
            lemma_bucket_unique(self@, value, index as int, self@.bucket_of(value));
        }
        let count: u64 = counted(self.buckets[index], 1);
        self.buckets[index] = count;
        assert(self@.buckets =~= old(self)@.observed(value).buckets);
    }

    fn ceiling(&self) -> (r: u64)
        ensures
            r == self@.ceiling(),
    {
        if self.bounds.len() == 0 {
            100
        } else {
            self.bounds[self.bounds.len() - 1]
        }
    }

    /// The bound below which the first `rank` values lie, as far as the buckets
    /// tell.
    pub fn value_at_rank(&self, rank: u64) -> (r: u64)
        ensures
            r == self@.at_rank(rank as nat),
    {
        self.value_at_wide_rank(rank as u128)
    }

    fn value_at_wide_rank(&self, rank: u128) -> (r: u64)
        requires
            rank <= u128::MAX - u64::MAX,
        ensures
            r == self@.at_rank(rank as nat),
    {
        proof {
            use_type_invariant(self);
        }
        let mut cumulative: u128 = 0;
        let mut i: usize = 0;
        while i < self.buckets.len()
            invariant
                self@.well_formed(),
                i <= self@.buckets.len(),
                rank <= u128::MAX - u64::MAX,
                cumulative == prefix_sum(self@.buckets, i as int),
                i == 0 || cumulative < rank,
                i == 0 ==> cumulative == 0,
                forall|j: int|
                    0 <= j < i ==> (#[trigger] prefix_sum(self@.buckets, j + 1)) < rank,
            decreases self.buckets.len() - i,
        {
            cumulative = cumulative + self.buckets[i] as u128;
            assert(cumulative == prefix_sum(self@.buckets, i + 1));
            if cumulative >= rank {
                proof {
                    assert(self@.reaches(rank as nat, i as int));
                    let k = choose|k: int| self@.reaches(rank as nat, k);
                    lemma_reaches_unique(self@, rank as nat, i as int, k);
                }
                return if i < self.bounds.len() {
                    self.bounds[i]
                } else {
                    self.ceiling()
                };
            }
            i = i + 1;
        }
        assert forall|k: int| !self@.reaches(rank as nat, k) by {
            if self@.reaches(rank as nat, k) {
                assert(prefix_sum(self@.buckets, k + 1) < rank);
            }
        }
        self.ceiling()
    }

    /// The bound below which `percent` in a hundred of `total` values lie; 0 if
    /// there are none.
    pub fn percentile(&self, percent: u8, total: u64) -> (r: u64)
        ensures
            r == self@.percentile(percent as nat, total as nat),
    {
        if total == 0 {
            return 0;
        }
        assert(total * percent <= u64::MAX * 255) by (nonlinear_arith)
            requires
                total <= u64::MAX,
                percent <= 255,
        ;
        let rank: u128 = (total as u128 * percent as u128 + 99) / 100;
        self.value_at_wide_rank(rank)
    }
}

/// More of the values never lie below a smaller bound.
pub proof fn law_percentiles_ascend(h: HistogramView, p: nat, q: nat, total: nat)
    requires
        h.well_formed(),
        ascending(h.bounds),
        p <= q,
    ensures
        h.percentile(p, total) <= h.percentile(q, total),
{
    let a = rank_of(p, total);
    let b = rank_of(q, total);
    assert(total * p <= total * q) by (nonlinear_arith)
        requires
            p <= q,
    ;
    assert(a <= b);
    if exists|i: int| h.reaches(b, i) {
        let k = choose|i: int| h.reaches(b, i);
        lemma_first_reached(h, a, k);
        let i = choose|i: int| h.reaches(a, i);
        if i > k {
            assert(prefix_sum(h.buckets, k + 1) < a);
        }
    }
}

/// A rank that some bucket reaches is reached first by one.
proof fn lemma_first_reached(h: HistogramView, rank: nat, k: int)
    requires
        0 <= k < h.buckets.len(),
        prefix_sum(h.buckets, k + 1) >= rank,
    ensures
        exists|i: int| h.reaches(rank, i),
    decreases k,
{
    if exists|j: int| 0 <= j < k && #[trigger] prefix_sum(h.buckets, j + 1) >= rank {
        let j = choose|j: int| 0 <= j < k && #[trigger] prefix_sum(h.buckets, j + 1) >= rank;
        lemma_first_reached(h, rank, j);
    } else {
        assert(h.reaches(rank, k));
    }
}

/// A value is counted once: some one bucket counts one more, and no other
/// changes.
pub proof fn law_value_is_counted_once(h: HistogramView, value: u64)
    requires
        h.well_formed(),
    ensures
        exists|i: int|
            #[trigger] h.is_bucket_of(value, i) && h.observed(value).buckets == h.buckets.update(
                i,
                plus(h.buckets[i], 1),
            ),
{
    lemma_has_bucket(h, value, 0);
}

proof fn lemma_has_bucket(h: HistogramView, value: u64, from: int)
    requires
        0 <= from <= h.bounds.len(),
        forall|j: int| 0 <= j < from ==> h.bounds[j] < value,
    ensures
        exists|i: int| h.is_bucket_of(value, i),
    decreases h.bounds.len() - from,
{
    if from < h.bounds.len() && h.bounds[from] < value {
        lemma_has_bucket(h, value, from + 1);
    } else {
        assert(h.is_bucket_of(value, from));
    }
}

/// The histogram with these bounds after all of these values.
pub open spec fn observed_all(bounds: Seq<u64>, values: Seq<u64>) -> HistogramView
    decreases values.len(),
{
    if values.len() == 0 {
        HistogramView::empty(bounds)
    } else {
        observed_all(bounds, values.drop_last()).observed(values.last())
    }
}

/// How many of the values are at most `bound`.
pub open spec fn count_up_to(values: Seq<u64>, bound: u64) -> nat
    decreases values.len(),
{
    if values.len() == 0 {
        0
    } else {
        count_up_to(values.drop_last(), bound) + if values.last() <= bound {
            1nat
        } else {
            0nat
        }
    }
}

/// Some bound is at least as large as `rank` of the values.
pub open spec fn some_bound_holds(bounds: Seq<u64>, values: Seq<u64>, rank: nat) -> bool {
    exists|i: int| 0 <= i < bounds.len() && count_up_to(values, #[trigger] bounds[i]) >= rank
}

proof fn lemma_prefix_sum_empty(n: int, len: nat)
    requires
        n <= len,
    ensures
        prefix_sum(Seq::new(len, |i: int| 0u64), n) == 0,
    decreases n,
{
    if n > 0 {
        lemma_prefix_sum_empty(n - 1, len);
    }
}

proof fn lemma_prefix_sum_update(buckets: Seq<u64>, k: int, count: u64, n: int)
    requires
        0 <= k < buckets.len(),
        0 <= n <= buckets.len(),
    ensures
        prefix_sum(buckets.update(k, count), n) == prefix_sum(buckets, n) + if k < n {
            count - buckets[k]
        } else {
            0
        },
    decreases n,
{
    if n > 0 {
        lemma_prefix_sum_update(buckets, k, count, n - 1);
    }
}

/// The buckets up to a bound count the values up to it, and all buckets count all
/// values.
proof fn lemma_buckets_count(bounds: Seq<u64>, values: Seq<u64>, i: int)
    requires
        ascending(bounds),
        values.len() <= u64::MAX,
        0 <= i <= bounds.len(),
    ensures
        observed_all(bounds, values).well_formed(),
        observed_all(bounds, values).bounds == bounds,
        prefix_sum(observed_all(bounds, values).buckets, i + 1) == if i < bounds.len() {
            count_up_to(values, bounds[i])
        } else {
            values.len()
        },
    decreases values.len(),
{
    let h = observed_all(bounds, values);
    if values.len() == 0 {
        lemma_prefix_sum_empty(i + 1, (bounds.len() + 1) as nat);
    } else {
        let value = values.last();
        let before = observed_all(bounds, values.drop_last());
        let n = bounds.len() as int;
        lemma_buckets_count(bounds, values.drop_last(), i);
        lemma_buckets_count(bounds, values.drop_last(), n);
        lemma_has_bucket(before, value, 0);
        let k = before.bucket_of(value);
        assert(before.is_bucket_of(value, k));
        lemma_prefix_sum_monotone(before.buckets, k + 1, n + 1);
        lemma_prefix_sum_monotone(before.buckets, 0, k);
        assert(before.buckets[k] < u64::MAX);
        lemma_prefix_sum_update(before.buckets, k, plus(before.buckets[k], 1), i + 1);
        if i < n {
            assert(value <= bounds[i] <==> k <= i);
        }
    }
}

/// Whether this is the smallest bound that is at least as large as `rank` of the
/// values, or the last one if there is no such bound.
pub open spec fn is_bound_of_rank(bounds: Seq<u64>, values: Seq<u64>, rank: nat, found: u64) -> bool {
    if some_bound_holds(bounds, values, rank) {
        &&& bounds.contains(found)
        &&& count_up_to(values, found) >= rank
        &&& forall|i: int|
            0 <= i < bounds.len() && count_up_to(values, #[trigger] bounds[i]) >= rank ==> found
                <= bounds[i]
    } else {
        found == bounds.last()
    }
}

/// The value at a rank of all the values that were observed is the smallest bound
/// that is at least as large as so many of them; if there is no such bound, it is
/// the last one.
pub proof fn law_rank_of_what_was_observed(bounds: Seq<u64>, values: Seq<u64>, rank: nat)
    requires
        ascending(bounds),
        bounds.len() > 0,
        values.len() <= u64::MAX,
    ensures
        is_bound_of_rank(bounds, values, rank, observed_all(bounds, values).at_rank(rank)),
{
    let h = observed_all(bounds, values);
    lemma_buckets_count(bounds, values, 0);
    assert forall|i: int| 0 <= i < bounds.len() implies prefix_sum(h.buckets, i + 1) == count_up_to(
        values,
        #[trigger] bounds[i],
    ) by {
        lemma_buckets_count(bounds, values, i);
    }
    if some_bound_holds(bounds, values, rank) {
        let i = choose|i: int|
            0 <= i < bounds.len() && count_up_to(values, #[trigger] bounds[i]) >= rank;
        lemma_first_reached(h, rank, i);
        let k = choose|k: int| h.reaches(rank, k);
        assert(prefix_sum(h.buckets, i + 1) >= rank);
        assert(k <= i);
        assert(bounds[k] == h.at_rank(rank));
        assert forall|j: int|
            0 <= j < bounds.len() && count_up_to(values, #[trigger] bounds[j])
                >= rank implies bounds[k] <= bounds[j] by {
            assert(prefix_sum(h.buckets, j + 1) >= rank);
            assert(k <= j);
        }
    } else if exists|k: int| h.reaches(rank, k) {
        let k = choose|k: int| h.reaches(rank, k);
        if k < bounds.len() {
            assert(count_up_to(values, bounds[k]) >= rank);
        }
    }
}

/// A percentile of all the values that were observed is the smallest bound that
/// is at least as large as so many of them; if there is no such bound, it is the
/// last one.
pub proof fn law_percentile_of_what_was_observed(bounds: Seq<u64>, values: Seq<u64>, percent: nat)
    requires
        ascending(bounds),
        bounds.len() > 0,
        0 < values.len() <= u64::MAX,
    ensures
        is_bound_of_rank(
            bounds,
            values,
            rank_of(percent, values.len()),
            observed_all(bounds, values).percentile(percent, values.len()),
        ),
{
    law_rank_of_what_was_observed(bounds, values, rank_of(percent, values.len()));
}

#[derive(Debug, Clone, Copy, PartialEq, Eq, Structural)]
pub struct RequestMetrics {
    pub total: u64,
    pub success: u64,
    pub failure: u64,
    pub timeout: u64,
    pub latency_avg_ms: u64,
    pub latency_p50_ms: u64,
    pub latency_p95_ms: u64,
    pub latency_p99_ms: u64,
    pub latency_max_ms: u64,
}

/// The counters of one service.
#[derive(Debug)]
pub struct ServiceMetrics {
    requests_total: u64,
    requests_success: u64,
    requests_failure: u64,
    requests_timeout: u64,
    latency_sum_ms: u64,
    latency_count: u64,
    latency_max_ms: u64,
    active_requests: u64,
    latency_histogram: Histogram,
}

/// The mathematical model of [`ServiceMetrics`].
pub struct ServiceView {
    pub total: u64,
    pub success: u64,
    pub failure: u64,
    pub timeout: u64,
    pub latency_sum_ms: u64,
    pub latency_count: u64,
    pub latency_max_ms: u64,
    pub active: u64,
    pub latencies: HistogramView,
}

/// The bounds of the latency histogram, in milliseconds.
pub open spec fn latency_bounds() -> Seq<u64> {
    seq![10u64, 50, 100, 250, 500, 1000, 2500, 5000, 10000, 30000, 60000]
}

impl View for ServiceMetrics {
    type V = ServiceView;

    closed spec fn view(&self) -> ServiceView {
        ServiceView {
            total: self.requests_total,
            success: self.requests_success,
            failure: self.requests_failure,
            timeout: self.requests_timeout,
            latency_sum_ms: self.latency_sum_ms,
            latency_count: self.latency_count,
            latency_max_ms: self.latency_max_ms,
            active: self.active_requests,
            latencies: self.latency_histogram@,
        }
    }
}

impl ServiceView {
    /// The counters of a service that nothing has happened to.
    pub open spec fn fresh() -> ServiceView {
        ServiceView {
            total: 0,
            success: 0,
            failure: 0,
            timeout: 0,
            latency_sum_ms: 0,
            latency_count: 0,
            latency_max_ms: 0,
            active: 0,
            latencies: HistogramView::empty(latency_bounds()),
        }
    }

    pub open spec fn started(self) -> ServiceView {
        ServiceView { total: plus(self.total, 1), active: plus(self.active, 1), ..self }
    }

    /// The counters after a request ended that took `millis` milliseconds. A
    /// request that timed out counts as neither a success nor a failure.
    pub open spec fn ended(self, millis: u64, success: bool, is_timeout: bool) -> ServiceView {
        ServiceView {
            active: minus_one(self.active),
            latency_count: plus(self.latency_count, 1),
            latency_sum_ms: plus(self.latency_sum_ms, millis),
            latency_max_ms: if millis > self.latency_max_ms {
                millis
            } else {
                self.latency_max_ms
            },
            latencies: self.latencies.observed(millis),
            timeout: if is_timeout {
                plus(self.timeout, 1)
            } else {
                self.timeout
            },
            success: if !is_timeout && success {
                plus(self.success, 1)
            } else {
                self.success
            },
            failure: if !is_timeout && !success {
                plus(self.failure, 1)
            } else {
                self.failure
            },
            ..self
        }
    }

    pub open spec fn snapshot(self) -> RequestMetrics {
        RequestMetrics {
            total: self.total,
            success: self.success,
            failure: self.failure,
            timeout: self.timeout,
            latency_avg_ms: if self.latency_count > 0 {
                self.latency_sum_ms / self.latency_count
            } else {
                0
            },
            latency_p50_ms: self.latencies.percentile(50, self.total as nat),
            latency_p95_ms: self.latencies.percentile(95, self.total as nat),
            latency_p99_ms: self.latencies.percentile(99, self.total as nat),
            latency_max_ms: self.latency_max_ms,
        }
    }

    /// What the counters keep, as long as none has wrapped around and no
    /// request ended that had not started.
    pub open spec fn balanced(self) -> bool {
        &&& self.active + self.success + self.failure + self.timeout == self.total
        &&& self.latency_count == self.success + self.failure + self.timeout
    }
}

/// The milliseconds of a latency as a counter holds them.
pub open spec fn latency_millis(latency: Duration) -> u64 {
    (latency.millis() % 0x1_0000_0000_0000_0000) as u64
}

impl ServiceMetrics {
    pub fn new() -> (r: ServiceMetrics)
        ensures
            r@ == ServiceView::fresh(),
    {
        let bounds: [u64; 11] = [10, 50, 100, 250, 500, 1000, 2500, 5000, 10000, 30000, 60000];
        assert(bounds@ =~= latency_bounds());
        ServiceMetrics {
            requests_total: 0,
            requests_success: 0,
            requests_failure: 0,
            requests_timeout: 0,
            latency_sum_ms: 0,
            latency_count: 0,
            latency_max_ms: 0,
            active_requests: 0,
            latency_histogram: Histogram::new(&bounds),
        }
    }

    pub fn request_start(&mut self)
        ensures
            final(self)@ == old(self)@.started(),
    {
        self.requests_total = counted(self.requests_total, 1);
        self.active_requests = counted(self.active_requests, 1);
    }

    pub fn request_end(&mut self, latency: Duration, success: bool, is_timeout: bool)
        ensures
            final(self)@ == old(self)@.ended(latency_millis(latency), success, is_timeout),
    {
        self.active_requests = uncounted(self.active_requests);
        let latency_ms: u64 = latency.millis_wrapped();
        self.latency_count = counted(self.latency_count, 1);
        self.latency_sum_ms = counted(self.latency_sum_ms, latency_ms);
        if latency_ms > self.latency_max_ms {
            self.latency_max_ms = latency_ms;
        }
        self.latency_histogram.observe(latency_ms);
        if is_timeout {
            self.requests_timeout = counted(self.requests_timeout, 1);
        } else if success {
            self.requests_success = counted(self.requests_success, 1);
        } else {
            self.requests_failure = counted(self.requests_failure, 1);
        }
    }

    pub fn snapshot(&self) -> (r: RequestMetrics)
        ensures
            r == self@.snapshot(),
    {
        let total: u64 = self.requests_total;
        let count: u64 = self.latency_count;
        RequestMetrics {
            total,
            success: self.requests_success,
            failure: self.requests_failure,
            timeout: self.requests_timeout,
            latency_avg_ms: if count > 0 {
                self.latency_sum_ms / count
            } else {
                0
            },
            latency_p50_ms: self.latency_histogram.percentile(50, total),
            latency_p95_ms: self.latency_histogram.percentile(95, total),
            latency_p99_ms: self.latency_histogram.percentile(99, total),
            latency_max_ms: self.latency_max_ms,
        }
    }

    pub fn active_count(&self) -> (r: u64)
        ensures
            r == self@.active,
    {
        self.active_requests
    }
}

impl Default for ServiceMetrics {
    fn default() -> (r: ServiceMetrics)
        ensures
            r@ == ServiceView::fresh(),
    {
        ServiceMetrics::new()
    }
}

/// Requests that start and end keep the counters balanced: every request is
/// active or has succeeded, failed or timed out.
pub proof fn law_requests_stay_balanced(m: ServiceView, millis: u64, success: bool, is_timeout: bool)
    requires
        m.balanced(),
    ensures
        m.total < u64::MAX ==> m.started().balanced(),
        m.active > 0 ==> m.ended(millis, success, is_timeout).balanced(),
        ServiceView::fresh().balanced(),
{
}

/// The sum of latencies.
pub open spec fn total_millis(latencies: Seq<u64>) -> nat
    decreases latencies.len(),
{
    if latencies.len() == 0 {
        0
    } else {
        total_millis(latencies.drop_last()) + latencies.last() as nat
    }
}

/// What happens to the requests of a service.
pub enum RequestEvent {
    Started,
    Ended { millis: u64, success: bool, is_timeout: bool },
}

/// The counters of a service after all of these events.
pub open spec fn counted_requests(events: Seq<RequestEvent>) -> ServiceView
    decreases events.len(),
{
    if events.len() == 0 {
        ServiceView::fresh()
    } else {
        let before = counted_requests(events.drop_last());
        match events.last() {
            RequestEvent::Started => before.started(),
            RequestEvent::Ended { millis, success, is_timeout } => before.ended(
                millis,
                success,
                is_timeout,
            ),
        }
    }
}

/// How many requests are active after the events.
pub open spec fn active_after(events: Seq<RequestEvent>) -> int
    decreases events.len(),
{
    if events.len() == 0 {
        0
    } else {
        active_after(events.drop_last()) + match events.last() {
            RequestEvent::Started => 1int,
            RequestEvent::Ended { .. } => -1int,
        }
    }
}

/// No request ends that was not active.
pub open spec fn ends_only_active(events: Seq<RequestEvent>) -> bool
    decreases events.len(),
{
    events.len() == 0 || (active_after(events) >= 0 && ends_only_active(events.drop_last()))
}

/// How many requests started.
pub open spec fn starts_in(events: Seq<RequestEvent>) -> nat
    decreases events.len(),
{
    if events.len() == 0 {
        0
    } else {
        starts_in(events.drop_last()) + if events.last() is Started {
            1nat
        } else {
            0nat
        }
    }
}

/// As long as no request ends that was not active, the counters of a service
/// count what happened: as many requests in all as started, and as many active as
/// started and did not end, which are all but those that succeeded, failed or
/// timed out.
pub proof fn law_requests_are_balanced_throughout(events: Seq<RequestEvent>)
    requires
        events.len() <= u64::MAX,
        ends_only_active(events),
    ensures
        ({
            let m = counted_requests(events);
            let s = m.snapshot();
            &&& m.balanced()
            &&& s.total == starts_in(events)
            &&& m.active == active_after(events)
            &&& m.active == s.total - s.success - s.failure - s.timeout
        }),
    decreases events.len(),
{
    if events.len() > 0 {
        let m = counted_requests(events.drop_last());
        lemma_starts_bounded(events.drop_last());
        law_requests_are_balanced_throughout(events.drop_last());
        match events.last() {
            RequestEvent::Started => {
                lemma_start_counted(m);
            },
            RequestEvent::Ended { millis, success, is_timeout } => {
                lemma_end_counted(m, millis, success, is_timeout);
            },
        }
    }
}

proof fn lemma_start_counted(m: ServiceView)
    requires
        m.balanced(),
        m.total < u64::MAX,
    ensures
        m.started().balanced(),
        m.started().total == m.total + 1,
        m.started().active == m.active + 1,
{
}

proof fn lemma_end_counted(m: ServiceView, millis: u64, success: bool, is_timeout: bool)
    requires
        m.balanced(),
        m.active > 0,
    ensures
        m.ended(millis, success, is_timeout).balanced(),
        m.ended(millis, success, is_timeout).total == m.total,
        m.ended(millis, success, is_timeout).active == m.active - 1,
{
    law_requests_stay_balanced(m, millis, success, is_timeout);
}

proof fn lemma_starts_bounded(events: Seq<RequestEvent>)
    ensures
        active_after(events) <= starts_in(events) <= events.len(),
    decreases events.len(),
{
    if events.len() > 0 {
        lemma_starts_bounded(events.drop_last());
    }
}

/// The latencies of the requests that ended.
pub open spec fn latencies_of(events: Seq<RequestEvent>) -> Seq<u64>
    decreases events.len(),
{
    if events.len() == 0 {
        Seq::empty()
    } else {
        let before = latencies_of(events.drop_last());
        match events.last() {
            RequestEvent::Started => before,
            RequestEvent::Ended { millis, .. } => before.push(millis),
        }
    }
}

/// The average latency of a service is taken over all requests that ended, and
/// its percentiles come from the latencies of all of them.
pub proof fn law_latencies_are_of_all_requests(events: Seq<RequestEvent>)
    requires
        total_millis(latencies_of(events)) <= u64::MAX,
        0 < latencies_of(events).len() <= u64::MAX,
    ensures
        counted_requests(events).snapshot().latency_avg_ms == total_millis(latencies_of(events))
            / latencies_of(events).len(),
        counted_requests(events).latencies == observed_all(latency_bounds(), latencies_of(events)),
{
    lemma_latencies_recorded(events);
}

proof fn lemma_latencies_recorded(events: Seq<RequestEvent>)
    requires
        total_millis(latencies_of(events)) <= u64::MAX,
        latencies_of(events).len() <= u64::MAX,
    ensures
        ({
            let m = counted_requests(events);
            &&& m.latency_sum_ms == total_millis(latencies_of(events))
            &&& m.latency_count == latencies_of(events).len()
            &&& m.latencies == observed_all(latency_bounds(), latencies_of(events))
        }),
    decreases events.len(),
{
    if events.len() > 0 {
        if events.last() is Ended {
            assert(latencies_of(events).drop_last() =~= latencies_of(events.drop_last()));
        }
        lemma_latencies_recorded(events.drop_last());
    }
}

/// No latency that was recorded is above the maximum.
pub proof fn law_maximum_bounds_latencies(m: ServiceView, millis: u64, success: bool, is_timeout: bool)
    ensures
        m.ended(millis, success, is_timeout).latency_max_ms >= millis,
        m.ended(millis, success, is_timeout).latency_max_ms >= m.latency_max_ms,
{
}

#[derive(Debug, Clone, Copy, PartialEq, Eq, Structural)]
pub struct ConnectionMetrics {
    pub total_connections: u64,
    pub active_connections: u64,
    pub peak_connections: u64,
    pub closed_connections: u64,
    pub connection_errors: u64,
}

#[derive(Debug)]
pub struct ConnectionTracker {
    counters: ConnectionMetrics,
}

impl View for ConnectionTracker {
    type V = ConnectionMetrics;

    closed spec fn view(&self) -> ConnectionMetrics {
        self.counters
    }
}

impl ConnectionMetrics {
    pub open spec fn fresh() -> ConnectionMetrics {
        ConnectionMetrics {
            total_connections: 0,
            active_connections: 0,
            peak_connections: 0,
            closed_connections: 0,
            connection_errors: 0,
        }
    }

    pub open spec fn opened(self) -> ConnectionMetrics {
        ConnectionMetrics {
            total_connections: plus(self.total_connections, 1),
            active_connections: plus(self.active_connections, 1),
            peak_connections: if plus(self.active_connections, 1) > self.peak_connections {
                plus(self.active_connections, 1)
            } else {
                self.peak_connections
            },
            ..self
        }
    }

    pub open spec fn closed(self) -> ConnectionMetrics {
        ConnectionMetrics {
            active_connections: minus_one(self.active_connections),
            closed_connections: plus(self.closed_connections, 1),
            ..self
        }
    }

    pub open spec fn failed(self) -> ConnectionMetrics {
        ConnectionMetrics { connection_errors: plus(self.connection_errors, 1), ..self }
    }

    /// What the counters keep, as long as none has wrapped around and no
    /// connection closed that was not open.
    pub open spec fn balanced(self) -> bool {
        &&& self.active_connections + self.closed_connections == self.total_connections
        &&& self.active_connections <= self.peak_connections <= self.total_connections
    }
}

impl ConnectionTracker {
    pub fn new() -> (r: ConnectionTracker)
        ensures
            r@ == ConnectionMetrics::fresh(),
    {
        ConnectionTracker {
            counters: ConnectionMetrics {
                total_connections: 0,
                active_connections: 0,
                peak_connections: 0,
                closed_connections: 0,
                connection_errors: 0,
            },
        }
    }

    pub fn connection_opened(&mut self)
        ensures
            final(self)@ == old(self)@.opened(),
    {
        let active: u64 = if self.counters.active_connections == u64::MAX {
            0
        } else {
            self.counters.active_connections + 1
        };
        self.counters.total_connections = counted(self.counters.total_connections, 1);
        self.counters.active_connections = active;
        if active > self.counters.peak_connections {
            self.counters.peak_connections = active;
        }
    }

    pub fn connection_closed(&mut self)
        ensures
            final(self)@ == old(self)@.closed(),
    {
        self.counters.active_connections = uncounted(self.counters.active_connections);
        self.counters.closed_connections = counted(self.counters.closed_connections, 1);
    }

    pub fn connection_error(&mut self)
        ensures
            final(self)@ == old(self)@.failed(),
    {
        self.counters.connection_errors = counted(self.counters.connection_errors, 1);
    }

    pub fn snapshot(&self) -> (r: ConnectionMetrics)
        ensures
            r == self@,
    {
        self.counters
    }
}

impl Default for ConnectionTracker {
    fn default() -> (r: ConnectionTracker)
        ensures
            r@ == ConnectionMetrics::fresh(),
    {
        ConnectionTracker::new()
    }
}

/// Connections that open and close keep the counters balanced: every one is
/// open or closed, and the peak lies between those open and all of them.
pub proof fn law_connections_stay_balanced(c: ConnectionMetrics)
    requires
        c.balanced(),
    ensures
        c.total_connections < u64::MAX ==> c.opened().balanced(),
        c.active_connections > 0 ==> c.closed().balanced(),
        c.failed().balanced(),
        ConnectionMetrics::fresh().balanced(),
{
}

/// What a tracker of connections takes note of.
pub enum ConnectionEvent {
    Opened,
    Closed,
    Failed,
}

impl ConnectionMetrics {
    /// The counters after one more event.
    pub open spec fn noted(self, event: ConnectionEvent) -> ConnectionMetrics {
        match event {
            ConnectionEvent::Opened => self.opened(),
            ConnectionEvent::Closed => self.closed(),
            ConnectionEvent::Failed => self.failed(),
        }
    }
}

/// The counters after all of these events.
pub open spec fn counted_connections(events: Seq<ConnectionEvent>) -> ConnectionMetrics
    decreases events.len(),
{
    if events.len() == 0 {
        ConnectionMetrics::fresh()
    } else {
        counted_connections(events.drop_last()).noted(events.last())
    }
}

/// How many of the events are this one.
pub open spec fn how_many(events: Seq<ConnectionEvent>, event: ConnectionEvent) -> nat
    decreases events.len(),
{
    if events.len() == 0 {
        0
    } else {
        how_many(events.drop_last(), event) + if events.last() == event {
            1nat
        } else {
            0nat
        }
    }
}

/// How many connections are open after the first `n` events.
pub open spec fn open_after(events: Seq<ConnectionEvent>, n: int) -> int {
    how_many(events.take(n), ConnectionEvent::Opened) - how_many(
        events.take(n),
        ConnectionEvent::Closed,
    )
}

/// The most connections that were open at a time.
pub open spec fn is_peak(events: Seq<ConnectionEvent>, peak: int) -> bool {
    &&& exists|n: int| 0 <= n <= events.len() && #[trigger] open_after(events, n) == peak
    &&& forall|n: int| 0 <= n <= events.len() ==> #[trigger] open_after(events, n) <= peak
}

/// No connection closes that was not open.
pub open spec fn closes_only_open(events: Seq<ConnectionEvent>) -> bool {
    forall|n: int| 0 <= n <= events.len() ==> #[trigger] open_after(events, n) >= 0
}

/// What a tracker that counted some events holds, but for the peak.
pub open spec fn counts_hold(c: ConnectionMetrics, events: Seq<ConnectionEvent>) -> bool {
    &&& c.total_connections == how_many(events, ConnectionEvent::Opened)
    &&& c.closed_connections == how_many(events, ConnectionEvent::Closed)
    &&& c.connection_errors == how_many(events, ConnectionEvent::Failed)
    &&& c.total_connections + c.closed_connections + c.connection_errors == events.len()
    &&& c.balanced()
}

proof fn lemma_prefixes_agree(events: Seq<ConnectionEvent>)
    requires
        events.len() > 0,
    ensures
        forall|n: int|
            0 <= n < events.len() ==> #[trigger] open_after(events.drop_last(), n) == open_after(
                events,
                n,
            ),
        forall|n: int|
            0 <= n < events.len() ==> open_after(events.drop_last(), n) == #[trigger] open_after(
                events,
                n,
            ),
        open_after(events, events.len() as int) == how_many(events, ConnectionEvent::Opened)
            - how_many(events, ConnectionEvent::Closed),
{
    assert(events.take(events.len() as int) =~= events);
    assert forall|n: int| 0 <= n < events.len() implies events.drop_last().take(n)
        == #[trigger] events.take(n) by {
        assert(events.drop_last().take(n) =~= events.take(n));
    }
}

proof fn lemma_event_noted(c: ConnectionMetrics, event: ConnectionEvent)
    requires
        c.balanced(),
        c.total_connections + c.closed_connections + c.connection_errors < u64::MAX,
        event is Closed ==> c.active_connections > 0,
    ensures
        c.noted(event).balanced(),
        c.noted(event).total_connections == c.total_connections + if event is Opened {
            1int
        } else {
            0int
        },
        c.noted(event).closed_connections == c.closed_connections + if event is Closed {
            1int
        } else {
            0int
        },
        c.noted(event).connection_errors == c.connection_errors + if event is Failed {
            1int
        } else {
            0int
        },
{
}

proof fn lemma_connections_counted(events: Seq<ConnectionEvent>)
    requires
        events.len() <= u64::MAX,
        closes_only_open(events),
    ensures
        counts_hold(counted_connections(events), events),
    decreases events.len(),
{
    if events.len() > 0 {
        let before = events.drop_last();
        assert(closes_only_open(before) && how_many(events, ConnectionEvent::Opened) >= how_many(
            events,
            ConnectionEvent::Closed,
        )) by {
            lemma_prefixes_agree(events);
            assert(open_after(events, events.len() as int) >= 0);
        }
        lemma_connections_counted(before);
        lemma_event_noted(counted_connections(before), events.last());
    }
}

/// As long as no connection closes that was not open, a tracker counts what
/// happened: the connections opened, closed, failed and open, and as the peak the
/// most that were ever open at a time.
pub proof fn law_tracker_counts_connections(events: Seq<ConnectionEvent>)
    requires
        events.len() <= u64::MAX,
        closes_only_open(events),
    ensures
        counts_hold(counted_connections(events), events),
        is_peak(events, counted_connections(events).peak_connections as int),
    decreases events.len(),
{
    lemma_connections_counted(events);
    if events.len() == 0 {
        assert(events.take(0) =~= events);
        assert(open_after(events, 0) == 0);
    } else {
        let before = events.drop_last();
        let c = counted_connections(before);
        lemma_prefixes_agree(events);
        law_tracker_counts_connections(before);
        let n = choose|n: int|
            0 <= n <= before.len() && #[trigger] open_after(before, n) == c.peak_connections;
        assert(open_after(events, n) == c.peak_connections);
        assert(open_after(events, events.len() as int)
            == counted_connections(events).active_connections);
    }
}

/// Which service of a [`MetricsCollector`] is meant.
#[derive(Debug, Clone, Copy, PartialEq, Eq, Structural)]
pub struct ServiceId {
    pub index: usize,
}

/// The counters of all services, and those of the connections.
#[derive(Debug)]
pub struct MetricsCollector {
    names: Vec<String>,
    services: Vec<ServiceMetrics>,
    connections: ConnectionTracker,
}

/// The mathematical model of a [`MetricsCollector`].
pub struct CollectorView {
    /// The services in the order in which they came up.
    pub names: Seq<Seq<char>>,
    pub services: Seq<ServiceView>,
    pub connections: ConnectionMetrics,
}

impl View for MetricsCollector {
    type V = CollectorView;

    closed spec fn view(&self) -> CollectorView {
        CollectorView {
            names: self.names@.map_values(|s: String| s@),
            services: self.services@.map_values(|m: ServiceMetrics| m@),
            connections: self.connections@,
        }
    }
}

impl CollectorView {
    /// Each service has its counters, and none comes up twice.
    pub open spec fn well_formed(self) -> bool {
        &&& self.names.len() == self.services.len()
        &&& self.names.no_duplicates()
    }

    pub open spec fn empty() -> CollectorView {
        CollectorView {
            names: Seq::empty(),
            services: Seq::empty(),
            connections: ConnectionMetrics::fresh(),
        }
    }

    /// The collector once it knows the service.
    pub open spec fn knowing(self, name: Seq<char>) -> CollectorView {
        if self.names.contains(name) {
            self
        } else {
            CollectorView {
                names: self.names.push(name),
                services: self.services.push(ServiceView::fresh()),
                ..self
            }
        }
    }

    pub open spec fn has(self, id: ServiceId) -> bool {
        id.index < self.services.len()
    }

    pub open spec fn with_service(self, id: ServiceId, m: ServiceView) -> CollectorView {
        CollectorView { services: self.services.update(id.index as int, m), ..self }
    }
}

impl MetricsCollector {
    #[verifier::type_invariant]
    spec fn inv(self) -> bool {
        self@.well_formed()
    }

    pub fn new() -> (r: MetricsCollector)
        ensures
            r@ == CollectorView::empty(),
    {
        let names: Vec<String> = Vec::new();
        let services: Vec<ServiceMetrics> = Vec::new();
        assert(names@.map_values(|s: String| s@) =~= Seq::<Seq<char>>::empty());
        assert(services@.map_values(|m: ServiceMetrics| m@) =~= Seq::<ServiceView>::empty());
        MetricsCollector { names, services, connections: ConnectionTracker::new() }
    }

    /// Finds the counters of a service; a new service starts with fresh ones.
    pub fn get_or_create_service(&mut self, service_name: &str) -> (r: ServiceId)
        ensures
            final(self)@ == old(self)@.knowing(service_name@),
            final(self)@.well_formed(),
            final(self)@.has(r),
            final(self)@.names[r.index as int] == service_name@,
    {
        proof {
            use_type_invariant(&*self);
        }
        let mut i: usize = 0;
        while i < self.names.len()
            invariant
                *self == *old(self),
                self@.well_formed(),
                i <= self.names@.len(),
                forall|j: int| 0 <= j < i ==> (#[trigger] self@.names[j]) != service_name@,
            decreases self.names.len() - i,
        {
            if text::str_eq(self.names[i].as_str(), service_name) {
                assert(self@.names[i as int] == service_name@);
                return ServiceId { index: i };
            }
            i = i + 1;
        }
        let mut fresh = MetricsCollector::new();
        std::mem::swap(&mut fresh, self);
        let MetricsCollector { mut names, mut services, connections } = fresh;
        names.push(service_name.to_string());
        services.push(ServiceMetrics::new());
        assert(names@.map_values(|s: String| s@) =~= old(self)@.names.push(service_name@));
        assert(services@.map_values(|m: ServiceMetrics| m@) =~= old(self)@.services.push(
            ServiceView::fresh(),
        ));
        *self = MetricsCollector { names, services, connections };
        ServiceId { index: i }
    }

    /// The counters of a service.
    pub fn service(&self, id: ServiceId) -> (r: &ServiceMetrics)
        requires
            self@.has(id),
        ensures
            r@ == self@.services[id.index as int],
    {
        &self.services[id.index]
    }

    pub fn request_start(&mut self, id: ServiceId)
        requires
            old(self)@.has(id),
        ensures
            final(self)@ == old(self)@.with_service(
                id,
                old(self)@.services[id.index as int].started(),
            ),
    {
        proof {
            use_type_invariant(&*self);
        }
        let mut fresh = MetricsCollector::new();
        std::mem::swap(&mut fresh, self);
        let MetricsCollector { names, mut services, connections } = fresh;
        services[id.index].request_start();
        assert(services@.map_values(|m: ServiceMetrics| m@) =~= old(self)@.services.update(
            id.index as int,
            old(self)@.services[id.index as int].started(),
        ));
        *self = MetricsCollector { names, services, connections };
    }

    pub fn request_end(&mut self, id: ServiceId, latency: Duration, success: bool, is_timeout: bool)
        requires
            old(self)@.has(id),
        ensures
            final(self)@ == old(self)@.with_service(
                id,
                old(self)@.services[id.index as int].ended(
                    latency_millis(latency),
                    success,
                    is_timeout,
                ),
            ),
    {
        proof {
            use_type_invariant(&*self);
        }
        let mut fresh = MetricsCollector::new();
        std::mem::swap(&mut fresh, self);
        let MetricsCollector { names, mut services, connections } = fresh;
        services[id.index].request_end(latency, success, is_timeout);
        assert(services@.map_values(|m: ServiceMetrics| m@) =~= old(self)@.services.update(
            id.index as int,
            old(self)@.services[id.index as int].ended(
                latency_millis(latency),
                success,
                is_timeout,
            ),
        ));
        *self = MetricsCollector { names, services, connections };
    }

    /// The counters of the connections.
    pub fn connection_tracker(&self) -> (r: &ConnectionTracker)
        ensures
            r@ == self@.connections,
    {
        &self.connections
    }

    pub fn connection_opened(&mut self)
        ensures
            final(self)@ == (CollectorView {
                connections: old(self)@.connections.opened(),
                ..old(self)@
            }),
    {
        proof {
            use_type_invariant(&*self);
        }
        let mut connections = ConnectionTracker { counters: self.connections.snapshot() };
        connections.connection_opened();
        self.connections = connections;
    }

    pub fn connection_closed(&mut self)
        ensures
            final(self)@ == (CollectorView {
                connections: old(self)@.connections.closed(),
                ..old(self)@
            }),
    {
        proof {
            use_type_invariant(&*self);
        }
        let mut connections = ConnectionTracker { counters: self.connections.snapshot() };
        connections.connection_closed();
        self.connections = connections;
    }

    pub fn connection_error(&mut self)
        ensures
            final(self)@ == (CollectorView {
                connections: old(self)@.connections.failed(),
                ..old(self)@
            }),
    {
        proof {
            use_type_invariant(&*self);
        }
        let mut connections = ConnectionTracker { counters: self.connections.snapshot() };
        connections.connection_error();
        self.connections = connections;
    }

    /// A snapshot of every service under its name.
    pub fn snapshot_all(&self) -> (r: StrMap<RequestMetrics>)
        ensures
            self@.well_formed(),
            r.order() == self@.names,
            r@.dom() == self@.names.to_set(),
            forall|i: int|
                0 <= i < self@.names.len() ==> r@[#[trigger] self@.names[i]]
                    == self@.services[i].snapshot(),
    {
        proof {
            use_type_invariant(self);
        }
        let mut all: StrMap<RequestMetrics> = StrMap::new();
        let mut i: usize = 0;
        while i < self.names.len()
            invariant
                self@.well_formed(),
                i <= self@.names.len(),
                all.order() == self@.names.take(i as int),
                forall|k: Seq<char>|
                    #[trigger] all@.dom().contains(k) <==> self@.names.take(i as int).contains(k),
                forall|j: int|
                    0 <= j < i ==> all@[#[trigger] self@.names[j]] == self@.services[j].snapshot(),
            decreases self.names.len() - i,
        {
            let ghost name = self@.names[i as int];
            assert(name == self.names@[i as int]@);
            assert(!self@.names.take(i as int).contains(name));
            assert(self@.names.take(i + 1) =~= self@.names.take(i as int).push(name));
            all.insert(self.names[i].clone(), self.services[i].snapshot());
            assert forall|k: Seq<char>|
                #[trigger] all@.dom().contains(k) <==> self@.names.take(i + 1).contains(k) by {
                let before = self@.names.take(i as int);
                if before.contains(k) {
                    let j = choose|j: int| 0 <= j < before.len() && before[j] == k;
                    assert(before.push(name)[j] == k);
                }
                assert(before.push(name)[i as int] == name);
            }
            i = i + 1;
        }
        assert(self@.names.take(self@.names.len() as int) =~= self@.names);
        assert(all@.dom() =~= self@.names.to_set());
        all
    }
}

impl Default for MetricsCollector {
    fn default() -> (r: MetricsCollector)
        ensures
            r@ == CollectorView::empty(),
    {
        MetricsCollector::new()
    }
}

/// One name always stands for the same service, and two names for two.
pub proof fn law_services_are_told_apart(c: CollectorView, a: ServiceId, b: ServiceId)
    requires
        c.well_formed(),
        c.has(a),
        c.has(b),
    ensures
        a == b <==> c.names[a.index as int] == c.names[b.index as int],
{
}

/// A service that is known keeps its place and its counters when others come
/// up.
pub proof fn law_known_services_stay(c: CollectorView, name: Seq<char>, id: ServiceId)
    requires
        c.well_formed(),
        c.has(id),
    ensures
        c.knowing(name).well_formed(),
        c.knowing(name).has(id),
        c.knowing(name).names[id.index as int] == c.names[id.index as int],
        c.knowing(name).services[id.index as int] == c.services[id.index as int],
        c.knowing(name).knowing(name) == c.knowing(name),
{
    if !c.names.contains(name) {
        assert(c.knowing(name).names[c.names.len() as int] == name);
    }
}

/// A part of a whole, such as one error in a hundred requests.
#[derive(Debug, Clone, Copy, PartialEq, Eq, Structural)]
pub struct Rate {
    pub part: u64,
    pub whole: u64,
}

impl Rate {
    /// Whether this rate is above `other`. No rate is above, or below, a part
    /// of nothing.
    pub open spec fn exceeds(self, other: Rate) -> bool {
        self.part * other.whole > other.part * self.whole
    }

    pub fn is_above(&self, other: Rate) -> (r: bool)
        ensures
            r == self.exceeds(other),
    {
        assert(self.part * other.whole <= u64::MAX * u64::MAX) by (nonlinear_arith)
            requires
                self.part <= u64::MAX,
                other.whole <= u64::MAX,
        ;
        assert(other.part * self.whole <= u64::MAX * u64::MAX) by (nonlinear_arith)
            requires
                other.part <= u64::MAX,
                self.whole <= u64::MAX,
        ;
        self.part as u128 * other.whole as u128 > other.part as u128 * self.whole as u128
    }
}

#[derive(Debug, Clone, Copy, PartialEq, Eq, Structural)]
pub enum AlertCondition {
    LatencyP99Above(u64),
    ErrorRateAbove(Rate),
    ActiveConnectionsAbove(u64),
    CircuitBreakerOpen,
}

impl AlertCondition {
    /// Whether the condition holds of a service. Those on connections and
    /// circuit breakers are not conditions of a service.
    pub open spec fn holds(self, m: RequestMetrics) -> bool {
        match self {
            AlertCondition::LatencyP99Above(threshold) => m.latency_p99_ms > threshold,
            AlertCondition::ErrorRateAbove(threshold) => m.total > 0 && (Rate {
                part: m.failure,
                whole: m.total,
            }).exceeds(threshold),
            AlertCondition::ActiveConnectionsAbove(_) => false,
            AlertCondition::CircuitBreakerOpen => false,
        }
    }

    pub fn is_met(&self, m: &RequestMetrics) -> (r: bool)
        ensures
            r == self.holds(*m),
    {
        match self {
            AlertCondition::LatencyP99Above(threshold) => m.latency_p99_ms > *threshold,
            AlertCondition::ErrorRateAbove(threshold) => {
                if m.total > 0 {
                    let rate = Rate { part: m.failure, whole: m.total };
                    rate.is_above(*threshold)
                } else {
                    false
                }
            },
            AlertCondition::ActiveConnectionsAbove(_) => false,
            AlertCondition::CircuitBreakerOpen => false,
        }
    }
}

#[derive(Debug)]
pub struct AlertRule {
    pub name: String,
    pub metric: String,
    pub condition: AlertCondition,
    pub cooldown: Duration,
}

/// The mathematical model of an [`AlertRule`].
pub struct RuleView {
    pub name: Seq<char>,
    pub metric: Seq<char>,
    pub condition: AlertCondition,
    pub cooldown: nat,
}

impl View for AlertRule {
    type V = RuleView;

    open spec fn view(&self) -> RuleView {
        RuleView {
            name: self.name@,
            metric: self.metric@,
            condition: self.condition,
            cooldown: self.cooldown@,
        }
    }
}

#[derive(Debug, Clone, Copy, PartialEq, Eq, Structural)]
pub enum AlertSeverity {
    Warning,
    Critical,
}

impl AlertSeverity {
    pub open spec fn label(self) -> Seq<char> {
        match self {
            AlertSeverity::Warning => "WARNING"@,
            AlertSeverity::Critical => "CRITICAL"@,
        }
    }

    pub fn to_string(&self) -> (r: String)
        ensures
            r@ == self.label(),
    {
        match self {
            AlertSeverity::Warning => "WARNING".to_string(),
            AlertSeverity::Critical => "CRITICAL".to_string(),
        }
    }
}

#[derive(Debug)]
pub struct Alert {
    pub rule_name: String,
    pub message: String,
    pub severity: AlertSeverity,
    pub timestamp: Instant,
}

/// The mathematical model of an [`Alert`].
pub struct AlertView {
    pub rule_name: Seq<char>,
    pub message: Seq<char>,
    pub severity: AlertSeverity,
    pub timestamp: Instant,
}

impl View for Alert {
    type V = AlertView;

    open spec fn view(&self) -> AlertView {
        AlertView {
            rule_name: self.rule_name@,
            message: self.message@,
            severity: self.severity,
            timestamp: self.timestamp,
        }
    }
}

impl Clone for Alert {
    fn clone(&self) -> (r: Alert)
        ensures
            r@ == self@,
    {
        Alert {
            rule_name: self.rule_name.clone(),
            message: self.message.clone(),
            severity: self.severity,
            timestamp: self.timestamp,
        }
    }
}

impl Alert {
    pub fn to_string(&self) -> (r: String)
        ensures
            r@ == "["@ + self@.severity.label() + "] "@ + self@.rule_name + " - "@ + self@.message,
    {
        let severity = self.severity.to_string();
        let head = text::join("[", severity.as_str());
        let head = text::join(head.as_str(), "] ");
        let head = text::join(head.as_str(), self.rule_name.as_str());
        let head = text::join(head.as_str(), " - ");
        text::join(head.as_str(), self.message.as_str())
    }
}

/// The alert that a rule raises for a service.
pub open spec fn alert_of(rule: RuleView, service: Seq<char>, now: Instant) -> AlertView {
    AlertView {
        rule_name: rule.name,
        message: service + ": threshold exceeded"@,
        severity: AlertSeverity::Warning,
        timestamp: now,
    }
}

/// The alerts that the rules raise for one service, in the order of the rules.
pub open spec fn alerts_of(
    rules: Seq<RuleView>,
    service: Seq<char>,
    m: RequestMetrics,
    now: Instant,
) -> Seq<AlertView>
    decreases rules.len(),
{
    if rules.len() == 0 {
        Seq::empty()
    } else {
        let before = alerts_of(rules.drop_last(), service, m, now);
        if rules.last().metric == service && rules.last().condition.holds(m) {
            before.push(alert_of(rules.last(), service, now))
        } else {
            before
        }
    }
}

/// The alerts for the services in order.
pub open spec fn all_alerts(
    rules: Seq<RuleView>,
    names: Seq<Seq<char>>,
    services: Seq<ServiceView>,
    now: Instant,
) -> Seq<AlertView>
    decreases names.len(),
{
    if names.len() == 0 {
        Seq::empty()
    } else {
        all_alerts(rules, names.drop_last(), services, now) + alerts_of(
            rules,
            names.last(),
            services[names.len() - 1].snapshot(),
            now,
        )
    }
}

pub open spec fn alert_views(alerts: Seq<Alert>) -> Seq<AlertView> {
    alerts.map_values(|a: Alert| a@)
}

/// What is told of alerts. Its users implement it.
pub trait AlertCallback: Send + Sync {
    /// Whether this holds once it was told of the alert; nothing more than that
    /// unless an implementation says otherwise.
    open spec fn heard(&self, alert: AlertView) -> bool {
        true
    }

    fn on_alert(&self, alert: &Alert)
        ensures
            self.heard(alert@),
    ;
}

/// A function that is told of alerts.
pub struct FnAlertCallback<F: Fn(&Alert)> {
    callback: F,
}

impl<F: Fn(&Alert)> FnAlertCallback<F> {
    #[verifier::type_invariant]
    spec fn takes_every_alert(self) -> bool {
        forall|alert: &Alert| call_requires(self.callback, (alert,))
    }

    /// The function that is called.
    pub closed spec fn callback(&self) -> F {
        self.callback
    }

    pub fn new(callback: F) -> (r: FnAlertCallback<F>)
        requires
            forall|alert: &Alert| call_requires(callback, (alert,)),
        ensures
            r.callback() == callback,
    {
        FnAlertCallback { callback }
    }
}

impl<F: Fn(&Alert) + Send + Sync> AlertCallback for FnAlertCallback<F> {
    /// The function was called with the alert.
    open spec fn heard(&self, alert: AlertView) -> bool {
        exists|a: Alert| a@ == alert && #[trigger] call_ensures(self.callback(), (&a,), ())
    }

    fn on_alert(&self, alert: &Alert) {
        proof {
            use_type_invariant(self);
        }
        let callback: &F = &self.callback;
        callback(alert);
        assert(call_ensures(self.callback(), (alert,), ()));
    }
}

/// A list of one item.
fn alone<A>(item: A) -> (r: Vec<A>)
    ensures
        r@ == seq![item],
{
    let mut list: Vec<A> = Vec::new();
    list.push(item);
    list
}

/// Raises alerts by rules on the metrics of services.
pub struct AlertManager {
    rules: Vec<AlertRule>,
    listeners: Vec<Box<dyn AlertCallback>>,
}

impl View for AlertManager {
    type V = Seq<RuleView>;

    closed spec fn view(&self) -> Seq<RuleView> {
        self.rules@.map_values(|r: AlertRule| r@)
    }
}

impl AlertManager {
    /// How many are told of alerts.
    pub closed spec fn callbacks(&self) -> nat {
        self.listeners@.len()
    }

    /// Whether the callback at `j`, in the order in which they were added, heard
    /// of the alert.
    pub closed spec fn heard_by(&self, j: int, alert: AlertView) -> bool {
        self.listeners@[j].heard(alert)
    }

    /// Whether every callback heard of the alert.
    pub open spec fn told(&self, alert: AlertView) -> bool {
        forall|j: int| 0 <= j < self.callbacks() ==> #[trigger] self.heard_by(j, alert)
    }

    pub fn new() -> (r: AlertManager)
        ensures
            r@ == Seq::<RuleView>::empty(),
            r.callbacks() == 0,
    {
        let r = AlertManager { rules: Vec::new(), listeners: Vec::new() };
        assert(r@ =~= Seq::<RuleView>::empty());
        r
    }

    pub fn add_rule(&mut self, rule: AlertRule)
        ensures
            final(self)@ == old(self)@.push(rule@),
            final(self).callbacks() == old(self).callbacks(),
            forall|j: int, alert: AlertView| #[trigger]
                final(self).heard_by(j, alert) == old(self).heard_by(j, alert),
    {
        self.rules.push(rule);
        assert(self@ =~= old(self)@.push(rule@));
    }

    /// Adds one more to those that are told of alerts.
    pub fn add_callback(&mut self, callback: Box<dyn AlertCallback>)
        ensures
            final(self)@ == old(self)@,
            final(self).callbacks() == old(self).callbacks() + 1,
            forall|j: int, alert: AlertView|
                0 <= j < old(self).callbacks() ==> #[trigger] final(self).heard_by(j, alert) == old(
                    self,
                ).heard_by(j, alert),
            forall|alert: AlertView| #[trigger]
                final(self).heard_by(old(self).callbacks() as int, alert) == callback.heard(alert),
    {
        let mut one = alone(callback);
        self.listeners.append(&mut one);
    }

    /// Tells all callbacks of the alerts, one alert after another.
    fn tell(&self, alerts: &Vec<Alert>)
        ensures
            forall|i: int| 0 <= i < alerts@.len() ==> self.told((#[trigger] alerts@[i])@),
    {
        let mut i: usize = 0;
        while i < alerts.len()
            invariant
                i <= alerts@.len(),
                forall|k: int| 0 <= k < i ==> self.told((#[trigger] alerts@[k])@),
            decreases alerts.len() - i,
        {
            let mut j: usize = 0;
            while j < self.listeners.len()
                invariant
                    i < alerts@.len(),
                    j <= self.listeners@.len(),
                    forall|k: int|
                        0 <= k < j ==> #[trigger] self.heard_by(k, alerts@[i as int]@),
                decreases self.listeners.len() - j,
            {
                self.listeners[j].on_alert(&alerts[i]);
                j = j + 1;
            }
            i = i + 1;
        }
    }

    /// Appends the alerts for one service.
    fn check_service(&self, service: &String, m: &RequestMetrics, now: Instant, alerts: &mut Vec<Alert>)
        ensures
            alert_views(final(alerts)@) == alert_views(old(alerts)@) + alerts_of(
                self@,
                service@,
                *m,
                now,
            ),
    {
        let mut i: usize = 0;
        assert(self@.take(0) =~= Seq::<RuleView>::empty());
        assert(alert_views(alerts@) =~= alert_views(alerts@) + Seq::<AlertView>::empty());
        while i < self.rules.len()
            invariant
                i <= self@.len(),
                self@.len() == self.rules@.len(),
                alert_views(alerts@) == alert_views(old(alerts)@) + alerts_of(
                    self@.take(i as int),
                    service@,
                    *m,
                    now,
                ),
            decreases self.rules.len() - i,
        {
            let rule = &self.rules[i];
            let ghost before = alerts@;
            assert(self@.take(i + 1).drop_last() =~= self@.take(i as int));
            assert(self@.take(i + 1).last() == rule@);
            if text::str_eq(rule.metric.as_str(), service.as_str()) && rule.condition.is_met(m) {
                alerts.push(
                    Alert {
                        rule_name: rule.name.clone(),
                        message: text::join(service.as_str(), ": threshold exceeded"),
                        severity: AlertSeverity::Warning,
                        timestamp: now,
                    },
                );
                assert(alert_views(alerts@) =~= alert_views(before).push(
                    alert_of(rule@, service@, now),
                ));
            }
            assert(alert_views(alerts@) =~= alert_views(old(alerts)@) + alerts_of(
                self@.take(i + 1),
                service@,
                *m,
                now,
            ));
            i = i + 1;
        }
        assert(self@.take(self@.len() as int) =~= self@);
    }

    /// The alerts that are due at the time `now`. Every callback has been told of
    /// each of them, in this order.
    pub fn check(&self, metrics: &MetricsCollector, now: Instant) -> (r: Vec<Alert>)
        ensures
            alert_views(r@) == all_alerts(self@, metrics@.names, metrics@.services, now),
            forall|i: int| 0 <= i < r@.len() ==> self.told((#[trigger] r@[i])@),
    {
        proof {
            use_type_invariant(metrics);
        }
        let mut alerts: Vec<Alert> = Vec::new();
        let mut i: usize = 0;
        assert(metrics@.names.take(0) =~= Seq::<Seq<char>>::empty());
        assert(alert_views(alerts@) =~= Seq::<AlertView>::empty());
        while i < metrics.names.len()
            invariant
                metrics@.well_formed(),
                i <= metrics@.names.len(),
                alert_views(alerts@) == all_alerts(
                    self@,
                    metrics@.names.take(i as int),
                    metrics@.services,
                    now,
                ),
            decreases metrics.names.len() - i,
        {
            assert(metrics@.names.take(i + 1).drop_last() =~= metrics@.names.take(i as int));
            let snapshot = metrics.services[i].snapshot();
            self.check_service(&metrics.names[i], &snapshot, now, &mut alerts);
            i = i + 1;
        }
        assert(metrics@.names.take(metrics@.names.len() as int) =~= metrics@.names);
        self.tell(&alerts);
        alerts
    }
}

impl Default for AlertManager {
    fn default() -> (r: AlertManager)
        ensures
            r@ == Seq::<RuleView>::empty(),
            r.callbacks() == 0,
    {
        AlertManager::new()
    }
}

/// Whether a rule is due for a service with these metrics: it is on the service,
/// and the 99th percentile of its latencies, or its failures out of all requests,
/// are above the threshold. Other conditions are none of a service.
pub open spec fn is_due(rule: RuleView, service: Seq<char>, m: RequestMetrics) -> bool {
    &&& rule.metric == service
    &&& match rule.condition {
        AlertCondition::LatencyP99Above(threshold) => threshold < m.latency_p99_ms,
        AlertCondition::ErrorRateAbove(threshold) => m.total > 0 && m.failure * threshold.whole
            > threshold.part * m.total,
        _ => false,
    }
}

/// A rule on a service raises an alert for it when its threshold is exceeded: a
/// warning that names the rule, the service and the time.
pub proof fn law_rule_raises_alert(
    rules: Seq<RuleView>,
    i: int,
    service: Seq<char>,
    m: RequestMetrics,
    now: Instant,
)
    requires
        0 <= i < rules.len(),
        rules[i].metric == service,
        match rules[i].condition {
            AlertCondition::LatencyP99Above(threshold) => threshold < m.latency_p99_ms,
            AlertCondition::ErrorRateAbove(threshold) => m.total > 0 && m.failure
                * threshold.whole > threshold.part * m.total,
            _ => false,
        },
    ensures
        alerts_of(rules, service, m, now).contains(
            AlertView {
                rule_name: rules[i].name,
                message: service + ": threshold exceeded"@,
                severity: AlertSeverity::Warning,
                timestamp: now,
            },
        ),
    decreases rules.len(),
{
    let before = alerts_of(rules.drop_last(), service, m, now);
    let wanted = AlertView {
        rule_name: rules[i].name,
        message: service + ": threshold exceeded"@,
        severity: AlertSeverity::Warning,
        timestamp: now,
    };
    let all = alerts_of(rules, service, m, now);
    if i < rules.len() - 1 {
        law_rule_raises_alert(rules.drop_last(), i, service, m, now);
        let k = choose|k: int| 0 <= k < before.len() && before[k] == wanted;
        assert(all[k] == wanted);
    } else {
        assert(all.last() == wanted);
    }
}

/// Without a rule on the service whose threshold is exceeded there is no alert.
pub proof fn law_no_alert_without_cause(
    rules: Seq<RuleView>,
    service: Seq<char>,
    m: RequestMetrics,
    now: Instant,
)
    requires
        forall|i: int| 0 <= i < rules.len() ==> !is_due(#[trigger] rules[i], service, m),
    ensures
        alerts_of(rules, service, m, now).len() == 0,
    decreases rules.len(),
{
    if rules.len() > 0 {
        assert forall|i: int| 0 <= i < rules.drop_last().len() implies !is_due(
            #[trigger] rules.drop_last()[i],
            service,
            m,
        ) by {
            assert(!is_due(rules[i], service, m));
        }
        assert(!is_due(rules[rules.len() - 1], service, m));
        law_no_alert_without_cause(rules.drop_last(), service, m, now);
    }
}

/// A single rule raises one alert for a service if its threshold is exceeded there,
/// and none otherwise.
pub proof fn law_rule_alerts_just_when_it_is_due(
    rule: RuleView,
    service: Seq<char>,
    m: RequestMetrics,
    now: Instant,
)
    ensures
        alerts_of(seq![rule], service, m, now) == if is_due(rule, service, m) {
            seq![
                AlertView {
                    rule_name: rule.name,
                    message: service + ": threshold exceeded"@,
                    severity: AlertSeverity::Warning,
                    timestamp: now,
                },
            ]
        } else {
            Seq::<AlertView>::empty()
        },
{
    reveal_with_fuel(alerts_of, 2);
    assert(seq![rule].drop_last() =~= Seq::<RuleView>::empty());
    assert(seq![rule].last() == rule);
    if is_due(rule, service, m) {
        assert(alerts_of(seq![rule], service, m, now) =~= seq![
            AlertView {
                rule_name: rule.name,
                message: service + ": threshold exceeded"@,
                severity: AlertSeverity::Warning,
                timestamp: now,
            },
        ]);
    }
}

/// Each rule alerts for itself: the alerts of two lists of rules are those of the
/// first and then those of the second.
pub proof fn law_rules_alert_independently(
    first: Seq<RuleView>,
    second: Seq<RuleView>,
    service: Seq<char>,
    m: RequestMetrics,
    now: Instant,
)
    ensures
        alerts_of(first + second, service, m, now) == alerts_of(first, service, m, now)
            + alerts_of(second, service, m, now),
    decreases second.len(),
{
    if second.len() == 0 {
        assert(first + second =~= first);
        assert(alerts_of(first, service, m, now) + Seq::<AlertView>::empty() =~= alerts_of(
            first,
            service,
            m,
            now,
        ));
    } else {
        law_rules_alert_independently(first, second.drop_last(), service, m, now);
        assert((first + second).drop_last() =~= first + second.drop_last());
        assert((first + second).last() == second.last());
        assert(alerts_of(first + second, service, m, now) =~= alerts_of(first, service, m, now)
            + alerts_of(second, service, m, now));
    }
}

/// Every service is looked at: the alerts of all are those of each, in their order,
/// by its own metrics.
pub proof fn law_every_service_is_looked_at(
    rules: Seq<RuleView>,
    names: Seq<Seq<char>>,
    services: Seq<ServiceView>,
    name: Seq<char>,
    now: Instant,
)
    ensures
        all_alerts(rules, Seq::empty(), services, now).len() == 0,
        names.len() < services.len() ==> all_alerts(rules, names.push(name), services, now)
            == all_alerts(rules, names, services, now) + alerts_of(
            rules,
            name,
            services[names.len() as int].snapshot(),
            now,
        ),
{
    assert(names.push(name).drop_last() =~= names);
}

/// A rule on the 99th percentile of a service raises an alert just when the
/// smallest bound that at least 99 in a hundred of its latencies do not exceed,
/// which is `found`, is above the threshold.
pub proof fn law_latency_alert_follows_the_latencies(
    events: Seq<RequestEvent>,
    rule: RuleView,
    threshold: u64,
    found: u64,
    service: Seq<char>,
    now: Instant,
)
    requires
        events.len() <= u64::MAX,
        ends_only_active(events),
        starts_in(events) > 0,
        rule.metric == service,
        rule.condition == AlertCondition::LatencyP99Above(threshold),
        is_bound_of_rank(
            seq![10u64, 50, 100, 250, 500, 1000, 2500, 5000, 10000, 30000, 60000],
            latencies_of(events),
            ((99 * starts_in(events) + 99) / 100) as nat,
            found,
        ),
    ensures
        alerts_of(seq![rule], service, counted_requests(events).snapshot(), now).len()
            == if found > threshold {
            1nat
        } else {
            0nat
        },
{
    law_snapshot_reports_percentiles(events);
    let bounds = seq![10u64, 50, 100, 250, 500, 1000, 2500, 5000, 10000, 30000, 60000];
    let rank = ((99 * starts_in(events) + 99) / 100) as nat;
    lemma_bound_of_rank_unique(
        bounds,
        latencies_of(events),
        rank,
        found,
        counted_requests(events).snapshot().latency_p99_ms,
    );
    law_rule_alerts_just_when_it_is_due(
        rule,
        service,
        counted_requests(events).snapshot(),
        now,
    );
}

/// A rule on the error rate of a service raises an alert just when the requests
/// that failed, out of all that were started, are more than the threshold allows.
pub proof fn law_error_alert_follows_the_failures(
    events: Seq<RequestEvent>,
    rule: RuleView,
    threshold: Rate,
    service: Seq<char>,
    now: Instant,
)
    requires
        events.len() <= u64::MAX,
        ends_only_active(events),
        rule.metric == service,
        rule.condition == AlertCondition::ErrorRateAbove(threshold),
    ensures
        alerts_of(seq![rule], service, counted_requests(events).snapshot(), now).len()
            == if starts_in(events) > 0 && failures_in(events) * threshold.whole > threshold.part
            * starts_in(events) {
            1nat
        } else {
            0nat
        },
{
    law_requests_are_balanced_throughout(events);
    law_ends_are_counted_by_what_they_were(events);
    law_rule_alerts_just_when_it_is_due(
        rule,
        service,
        counted_requests(events).snapshot(),
        now,
    );
}

proof fn lemma_bound_of_rank_unique(
    bounds: Seq<u64>,
    values: Seq<u64>,
    rank: nat,
    a: u64,
    b: u64,
)
    requires
        is_bound_of_rank(bounds, values, rank, a),
        is_bound_of_rank(bounds, values, rank, b),
    ensures
        a == b,
{
    if some_bound_holds(bounds, values, rank) {
        let i = choose|i: int| 0 <= i < bounds.len() && bounds[i] == a;
        let k = choose|k: int| 0 <= k < bounds.len() && bounds[k] == b;
        assert(count_up_to(values, bounds[i]) >= rank);
        assert(count_up_to(values, bounds[k]) >= rank);
    }
}

/// How many requests succeeded: they ended as a success, and not by a timeout.
pub open spec fn successes_in(events: Seq<RequestEvent>) -> nat
    decreases events.len(),
{
    if events.len() == 0 {
        0
    } else {
        successes_in(events.drop_last()) + match events.last() {
            RequestEvent::Ended { success: true, is_timeout: false, .. } => 1nat,
            _ => 0nat,
        }
    }
}

/// How many requests failed: they ended neither as a success nor by a timeout.
pub open spec fn failures_in(events: Seq<RequestEvent>) -> nat
    decreases events.len(),
{
    if events.len() == 0 {
        0
    } else {
        failures_in(events.drop_last()) + match events.last() {
            RequestEvent::Ended { success: false, is_timeout: false, .. } => 1nat,
            _ => 0nat,
        }
    }
}

/// How many requests timed out.
pub open spec fn timeouts_in(events: Seq<RequestEvent>) -> nat
    decreases events.len(),
{
    if events.len() == 0 {
        0
    } else {
        timeouts_in(events.drop_last()) + match events.last() {
            RequestEvent::Ended { is_timeout: true, .. } => 1nat,
            _ => 0nat,
        }
    }
}

/// Requests are counted by what came of them, a timeout before all else.
pub proof fn law_ends_are_counted_by_what_they_were(events: Seq<RequestEvent>)
    requires
        events.len() <= u64::MAX,
    ensures
        ({
            let s = counted_requests(events).snapshot();
            &&& s.success == successes_in(events)
            &&& s.failure == failures_in(events)
            &&& s.timeout == timeouts_in(events)
            &&& s.success <= events.len() && s.failure <= events.len() && s.timeout
                <= events.len()
        }),
    decreases events.len(),
{
    if events.len() > 0 {
        law_ends_are_counted_by_what_they_were(events.drop_last());
        if let RequestEvent::Ended { millis, success, is_timeout } = events.last() {
            lemma_end_counts(
                counted_requests(events.drop_last()),
                millis,
                success,
                is_timeout,
            );
        }
    }
}

proof fn lemma_end_counts(m: ServiceView, millis: u64, success: bool, is_timeout: bool)
    requires
        m.success < u64::MAX,
        m.failure < u64::MAX,
        m.timeout < u64::MAX,
    ensures
        ({
            let after = m.ended(millis, success, is_timeout);
            &&& after.success == m.success + if success && !is_timeout {
                1int
            } else {
                0int
            }
            &&& after.failure == m.failure + if !success && !is_timeout {
                1int
            } else {
                0int
            }
            &&& after.timeout == m.timeout + if is_timeout {
                1int
            } else {
                0int
            }
        }),
{
}

/// The percentiles that are reported are the smallest bounds that at least 50, 95
/// and 99 in a hundred of the latencies do not exceed, as many as the requests that
/// were started. A service without requests reports none.
pub proof fn law_snapshot_reports_percentiles(events: Seq<RequestEvent>)
    requires
        events.len() <= u64::MAX,
        ends_only_active(events),
    ensures
        ({
            let s = counted_requests(events).snapshot();
            let n = starts_in(events);
            let bounds = seq![10u64, 50, 100, 250, 500, 1000, 2500, 5000, 10000, 30000, 60000];
            let latencies = latencies_of(events);
            if n == 0 {
                s.latency_p50_ms == 0 && s.latency_p95_ms == 0 && s.latency_p99_ms == 0
            } else {
                &&& is_bound_of_rank(
                    bounds,
                    latencies,
                    ((50 * n + 99) / 100) as nat,
                    s.latency_p50_ms,
                )
                &&& is_bound_of_rank(
                    bounds,
                    latencies,
                    ((95 * n + 99) / 100) as nat,
                    s.latency_p95_ms,
                )
                &&& is_bound_of_rank(
                    bounds,
                    latencies,
                    ((99 * n + 99) / 100) as nat,
                    s.latency_p99_ms,
                )
            }
        }),
{
    law_requests_are_balanced_throughout(events);
    lemma_latencies_observed(events);
    let bounds = seq![10u64, 50, 100, 250, 500, 1000, 2500, 5000, 10000, 30000, 60000];
    let n = starts_in(events);
    assert(latency_bounds() =~= bounds);
    assert(ascending(bounds));
    law_rank_of_what_was_observed(bounds, latencies_of(events), rank_of(50, n));
    law_rank_of_what_was_observed(bounds, latencies_of(events), rank_of(95, n));
    law_rank_of_what_was_observed(bounds, latencies_of(events), rank_of(99, n));
}

proof fn lemma_latencies_observed(events: Seq<RequestEvent>)
    ensures
        counted_requests(events).latencies == observed_all(latency_bounds(), latencies_of(events)),
        latencies_of(events).len() <= events.len(),
    decreases events.len(),
{
    if events.len() > 0 {
        lemma_latencies_observed(events.drop_last());
        if events.last() is Ended {
            assert(latencies_of(events).drop_last() =~= latencies_of(events.drop_last()));
        }
    }
}

/// The maximum that is reported is the largest latency of all, and 0 if there is
/// none.
pub proof fn law_maximum_is_the_largest_latency(events: Seq<RequestEvent>)
    ensures
        ({
            let max = counted_requests(events).snapshot().latency_max_ms;
            let latencies = latencies_of(events);
            &&& forall|i: int| 0 <= i < latencies.len() ==> #[trigger] latencies[i] <= max
            &&& latencies.len() > 0 ==> latencies.contains(max)
            &&& latencies.len() == 0 ==> max == 0
        }),
    decreases events.len(),
{
    if events.len() > 0 {
        law_maximum_is_the_largest_latency(events.drop_last());
        let before = latencies_of(events.drop_last());
        let latencies = latencies_of(events);
        let max = counted_requests(events).snapshot().latency_max_ms;
        let old_max = counted_requests(events.drop_last()).snapshot().latency_max_ms;
        if events.last() is Ended {
            assert(latencies == before.push(latencies.last()));
            if max == latencies.last() {
                assert(latencies[latencies.len() - 1] == max);
            } else {
                let k = choose|k: int| 0 <= k < before.len() && before[k] == old_max;
                assert(latencies[k] == max);
            }
            assert forall|i: int| 0 <= i < latencies.len() implies #[trigger] latencies[i]
                <= max by {
                if i < before.len() {
                    assert(latencies[i] == before[i]);
                }
            }
        }
    }
}

/// A latency is recorded in whole milliseconds.
pub proof fn law_latency_is_in_whole_milliseconds(latency: Duration)
    requires
        latency@ < 0x1_0000_0000_0000_0000 * 1_000_000,
    ensures
        latency_millis(latency) * 1_000_000 <= latency@ < (latency_millis(latency) + 1)
            * 1_000_000,
{
}

/// What happens to one service leaves the counters of every other service, the
/// names and the connections as they were.
pub proof fn law_services_are_counted_apart(
    c: CollectorView,
    id: ServiceId,
    other: ServiceId,
    m: ServiceView,
)
    requires
        c.has(id),
        c.has(other),
        id != other,
    ensures
        c.with_service(id, m).services[id.index as int] == m,
        c.with_service(id, m).services[other.index as int] == c.services[other.index as int],
        c.with_service(id, m).services.len() == c.services.len(),
        c.with_service(id, m).names == c.names,
        c.with_service(id, m).connections == c.connections,
{
}

/// A service that was not known yet comes last and has counted nothing; nothing
/// else changes.
pub proof fn law_new_service_starts_at_nothing(c: CollectorView, name: Seq<char>)
    requires
        c.names.len() == c.services.len(),
    ensures
        c.names.contains(name) ==> c.knowing(name) == c,
        !c.names.contains(name) ==> {
            let after = c.knowing(name);
            &&& after.names == c.names.push(name)
            &&& after.services.len() == c.services.len() + 1
            &&& after.services.last() == counted_requests(Seq::empty())
            &&& after.services.last().total == 0 && after.services.last().active == 0
            &&& after.services.last().latency_count == 0
            &&& after.connections == c.connections
        },
        CollectorView::empty().names.len() == 0,
        CollectorView::empty().services.len() == 0,
        CollectorView::empty().connections == counted_connections(Seq::empty()),
{
}

/// A rate is above another when the part of the first, taken as often as the whole
/// of the second, is more than the other way round.
pub proof fn law_rates_compare_as_fractions(a: Rate, b: Rate)
    ensures
        a.exceeds(b) <==> a.part * b.whole > b.part * a.whole,
        !(a.exceeds(b) && b.exceeds(a)),
{
}

/// Counters count up and down by one, within their range.
pub proof fn law_counters_count(counter: u64, n: u64)
    ensures
        counter + n <= u64::MAX ==> plus(counter, n) == counter + n,
        counter + n > u64::MAX ==> plus(counter, n) == counter + n - 0x1_0000_0000_0000_0000,
        counter > 0 ==> minus_one(counter) == counter - 1,
        minus_one(0) == u64::MAX,
{
}

/// A histogram without bounds has nothing to report but 100, and no percentile of
/// no values is above 0.
pub proof fn law_histogram_without_bounds(h: HistogramView, rank: nat, percent: nat)
    ensures
        h.bounds.len() == 0 ==> h.at_rank(rank) == 100,
        h.percentile(percent, 0) == 0,
        HistogramView::empty(h.bounds).bounds == h.bounds,
        HistogramView::empty(h.bounds).buckets.len() == h.bounds.len() + 1,
        forall|i: int|
            0 <= i <= h.bounds.len() ==> #[trigger] HistogramView::empty(h.bounds).buckets[i] == 0,
{
}

/// A rule, an alert and their models are the same, and an alert goes by the name of its
/// severity.
pub proof fn law_models_keep_everything(rule: AlertRule, alert: Alert)
    ensures
        rule@.name == rule.name@,
        rule@.metric == rule.metric@,
        rule@.condition == rule.condition,
        rule@.cooldown == rule.cooldown@,
        alert@.rule_name == alert.rule_name@,
        alert@.message == alert.message@,
        alert@.severity == alert.severity,
        alert@.timestamp == alert.timestamp,
        AlertSeverity::Warning.label() == "WARNING"@,
        AlertSeverity::Critical.label() == "CRITICAL"@,
{
}

/// A condition on the latency is met just when the 99th percentile is above the
/// threshold, and one on errors when the failures are more than their share of all
/// requests; the others are never met by a service.
pub proof fn law_condition_is_met_above_its_threshold(
    condition: AlertCondition,
    m: RequestMetrics,
    met: bool,
)
    requires
        call_ensures(AlertCondition::is_met, (&condition, &m), met),
    ensures
        condition matches AlertCondition::LatencyP99Above(threshold) ==> (met <==> threshold
            < m.latency_p99_ms),
        condition matches AlertCondition::ErrorRateAbove(threshold) ==> (met <==> m.total > 0
            && m.failure * threshold.whole > threshold.part * m.total),
        condition is ActiveConnectionsAbove || condition is CircuitBreakerOpen ==> !met,
{
}

/// Checking raises, for the one rule and the one service that there are, one alert if the
/// rule is due and none otherwise, and every callback has heard of it.
pub proof fn law_checking_raises_what_is_due(
    manager: AlertManager,
    metrics: MetricsCollector,
    now: Instant,
    alerts: Vec<Alert>,
)
    requires
        call_ensures(AlertManager::check, (&manager, &metrics, now), alerts),
        manager@.len() == 1,
        metrics@.names.len() == 1,
    ensures
        ({
            let rule = manager@[0];
            let name = metrics@.names[0];
            let m = metrics@.services[0].snapshot();
            &&& is_due(rule, name, m) ==> {
                &&& alerts@.len() == 1
                &&& alerts@[0].rule_name@ == rule.name
                &&& alerts@[0].message@ == name + ": threshold exceeded"@
                &&& alerts@[0].severity == AlertSeverity::Warning
                &&& alerts@[0].timestamp == now
                &&& forall|j: int|
                    0 <= j < manager.callbacks() ==> #[trigger] manager.heard_by(j, alerts@[0]@)
            }
            &&& !is_due(rule, name, m) ==> alerts@.len() == 0
        }),
{
    let rule = manager@[0];
    let name = metrics@.names[0];
    let m = metrics@.services[0].snapshot();
    assert(manager@ =~= seq![rule]);
    assert(metrics@.names =~= Seq::<Seq<char>>::empty().push(name));
    law_rule_alerts_just_when_it_is_due(rule, name, m, now);
    assert(Seq::<Seq<char>>::empty().push(name).drop_last() =~= Seq::<Seq<char>>::empty());
    reveal_with_fuel(all_alerts, 2);
    assert(all_alerts(manager@, metrics@.names, metrics@.services, now) =~= alerts_of(
        seq![rule],
        name,
        m,
        now,
    ));
    assert(alerts@.len() == alert_views(alerts@).len());
    if alerts@.len() > 0 {
        assert(alert_views(alerts@)[0] == alerts@[0]@);
        assert(manager.told(alerts@[0]@));
    }
}

/// A request that starts is one more in all and one more active; one that ends is one
/// less active, and counted by what came of it, with its whole milliseconds. The other
/// services are left alone.
pub proof fn law_collector_counts_each_service(
    a: &mut MetricsCollector,
    b: &mut MetricsCollector,
    id: ServiceId,
    other: ServiceId,
    latency: Duration,
    success: bool,
    is_timeout: bool,
)
    requires
        call_ensures(MetricsCollector::request_start, (a, id), ()),
        call_ensures(MetricsCollector::request_end, (b, id, latency, success, is_timeout), ()),
        old(a)@.has(id) && old(b)@.has(id) && old(a)@.has(other) && old(b)@.has(other),
        other != id,
        old(a)@.services[id.index as int].total < u64::MAX,
        old(a)@.services[id.index as int].active < u64::MAX,
        old(b)@.services[id.index as int].balanced(),
        old(b)@.services[id.index as int].active > 0,
        latency@ < 0x1_0000_0000_0000_0000 * 1_000_000,
    ensures
        ({
            let before = old(a)@.services[id.index as int];
            let after = final(a)@.services[id.index as int];
            &&& after.total == before.total + 1
            &&& after.active == before.active + 1
            &&& after.success == before.success && after.failure == before.failure
                && after.timeout == before.timeout
            &&& final(a)@.services[other.index as int] == old(a)@.services[other.index as int]
        }),
        ({
            let before = old(b)@.services[id.index as int];
            let after = final(b)@.services[id.index as int];
            &&& after.total == before.total
            &&& after.active == before.active - 1
            &&& after.timeout == before.timeout + if is_timeout {
                1int
            } else {
                0int
            }
            &&& after.success == before.success + if success && !is_timeout {
                1int
            } else {
                0int
            }
            &&& after.failure == before.failure + if !success && !is_timeout {
                1int
            } else {
                0int
            }
            &&& after.latency_max_ms >= latency@ / 1_000_000
            &&& after.latency_max_ms == before.latency_max_ms || after.latency_max_ms == latency@
                / 1_000_000
            &&& final(b)@.services[other.index as int] == old(b)@.services[other.index as int]
        }),
{
    lemma_end_counted(
        old(b)@.services[id.index as int],
        latency_millis(latency),
        success,
        is_timeout,
    );
    lemma_end_counts(
        old(b)@.services[id.index as int],
        latency_millis(latency),
        success,
        is_timeout,
    );
}

/// The counters of connections count who comes, goes and fails.
pub proof fn law_collector_counts_connections(
    a: &mut MetricsCollector,
    b: &mut MetricsCollector,
    c: &mut MetricsCollector,
)
    requires
        call_ensures(MetricsCollector::connection_opened, (a,), ()),
        call_ensures(MetricsCollector::connection_closed, (b,), ()),
        call_ensures(MetricsCollector::connection_error, (c,), ()),
        old(a)@.connections.total_connections < u64::MAX,
        old(a)@.connections.active_connections < u64::MAX,
        old(b)@.connections.active_connections > 0,
        old(b)@.connections.closed_connections < u64::MAX,
        old(c)@.connections.connection_errors < u64::MAX,
    ensures
        final(a)@.connections.total_connections == old(a)@.connections.total_connections + 1,
        final(a)@.connections.active_connections == old(a)@.connections.active_connections + 1,
        final(a)@.connections.peak_connections >= final(a)@.connections.active_connections,
        final(a)@.connections.closed_connections == old(a)@.connections.closed_connections,
        final(b)@.connections.active_connections == old(b)@.connections.active_connections - 1,
        final(b)@.connections.closed_connections == old(b)@.connections.closed_connections + 1,
        final(b)@.connections.peak_connections == old(b)@.connections.peak_connections,
        final(b)@.connections.total_connections == old(b)@.connections.total_connections,
        final(c)@.connections.connection_errors == old(c)@.connections.connection_errors + 1,
        final(c)@.connections.active_connections == old(c)@.connections.active_connections,
        final(a)@.services == old(a)@.services && final(b)@.services == old(b)@.services
            && final(c)@.services == old(c)@.services,
{
}

/// A rate is above another as fractions are.
pub proof fn law_rates_are_compared(a: Rate, b: Rate, above: bool)
    requires
        call_ensures(Rate::is_above, (&a, b), above),
    ensures
        above <==> a.part * b.whole > b.part * a.whole,
{
}

/// An alert is shown with its severity, its rule and its message.
pub proof fn law_alert_is_shown(alert: Alert, shown: String)
    requires
        call_ensures(Alert::to_string, (&alert,), shown),
    ensures
        alert.severity == AlertSeverity::Warning ==> shown@ == "["@ + "WARNING"@ + "] "@
            + alert.rule_name@ + " - "@ + alert.message@,
        alert.severity == AlertSeverity::Critical ==> shown@ == "["@ + "CRITICAL"@ + "] "@
            + alert.rule_name@ + " - "@ + alert.message@,
{
}

/// A percentile of a histogram of whole numbers is what stands at its rank.
pub proof fn law_percentile_is_at_its_rank(
    h: Histogram,
    percent: u8,
    total: u64,
    rank: u64,
    by_percent: u64,
    by_rank: u64,
)
    requires
        call_ensures(Histogram::percentile, (&h, percent, total), by_percent),
        call_ensures(Histogram::value_at_rank, (&h, rank), by_rank),
        total > 0,
        100 * (rank - 1) < total * percent <= 100 * rank,
    ensures
        by_percent == by_rank,
{
}

} // verus!
