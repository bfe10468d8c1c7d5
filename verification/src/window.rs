//! A sliding window over the times at which something was admitted.

use crate::time::{Duration, Instant};
use vstd::prelude::*;

verus! {

/// Less than `span` nanoseconds lie between `t` and `now`.
pub open spec fn recent(now: Instant, span: nat) -> spec_fn(Instant) -> bool {
    |t: Instant| crate::time::elapsed_nanos(now, t) < span
}

/// The times that lie in the window of `span` nanoseconds up to `now`.
pub open spec fn fresh(stamps: Seq<Instant>, now: Instant, span: nat) -> Seq<Instant> {
    stamps.filter(recent(now, span))
}

/// The times in the window once one more was let in at `now`, if `max` allows.
pub open spec fn admitted(stamps: Seq<Instant>, now: Instant, span: nat, max: nat) -> Seq<Instant> {
    if fresh(stamps, now, span).len() < max {
        fresh(stamps, now, span).push(now)
    } else {
        fresh(stamps, now, span)
    }
}

/// How many more `max` allows at `now`.
pub open spec fn room(stamps: Seq<Instant>, now: Instant, span: nat, max: nat) -> nat {
    if fresh(stamps, now, span).len() < max {
        (max - fresh(stamps, now, span).len()) as nat
    } else {
        0
    }
}

/// Keeps the times that lie in the window up to `now`.
pub fn keep_fresh(stamps: &Vec<Instant>, now: Instant, span: Duration) -> (r: Vec<Instant>)
    ensures
        r@ == fresh(stamps@, now, span@),
{
    let mut kept: Vec<Instant> = Vec::new();
    let mut i: usize = 0;
    let ghost p = recent(now, span@);
    assert(stamps@.take(0).filter(p) =~= Seq::<Instant>::empty()) by {
        reveal(Seq::filter);
    }
    while i < stamps.len()
        invariant
            i <= stamps@.len(),
            p == recent(now, span@),
            kept@ == stamps@.take(i as int).filter(p),
        decreases stamps.len() - i,
    {
        let t = stamps[i];
        assert(stamps@.take(i + 1).drop_last() =~= stamps@.take(i as int));
        assert(stamps@.take(i + 1).last() == t);
        if now.within(t, span) {
            kept.push(t);
        }
        assert(kept@ == stamps@.take(i + 1).filter(p)) by {
            reveal(Seq::filter);
        }
        i = i + 1;
    }
    assert(stamps@.take(stamps@.len() as int) =~= stamps@);
    kept
}

/// Forgets the times that have left the window, and lets one more in at `now`
/// if fewer than `max` are left.
pub fn let_in_at(stamps: &mut Vec<Instant>, now: Instant, span: Duration, max: usize) -> (r: bool)
    ensures
        r == (fresh(old(stamps)@, now, span@).len() < max),
        final(stamps)@ == admitted(old(stamps)@, now, span@, max as nat),
{
    *stamps = keep_fresh(stamps, now, span);
    if stamps.len() < max {
        stamps.push(now);
        true
    } else {
        false
    }
}

/// How many more may be let in at `now`.
pub fn room_left(stamps: &Vec<Instant>, now: Instant, span: Duration, max: usize) -> (r: usize)
    ensures
        r == room(stamps@, now, span@, max as nat),
{
    let kept = keep_fresh(stamps, now, span);
    max.saturating_sub(kept.len())
}

/// The times that were let in, out of attempts at `times`, and the times that
/// the window holds after the last of them.
pub open spec fn history(times: Seq<Instant>, span: nat, max: nat) -> (Seq<Instant>, Seq<Instant>)
    decreases times.len(),
{
    if times.len() == 0 {
        (Seq::empty(), Seq::empty())
    } else {
        let (let_in, window) = history(times.drop_last(), span, max);
        let now = times.last();
        (
            if fresh(window, now, span).len() < max {
                let_in.push(now)
            } else {
                let_in
            },
            admitted(window, now, span, max),
        )
    }
}

/// Attempts come one after another.
pub open spec fn in_order(times: Seq<Instant>) -> bool {
    forall|i: int, j: int|
        0 <= i <= j < times.len() ==> (#[trigger] times[i]).nanos <= (#[trigger] times[j]).nanos
}

/// The times that lie in the `span` nanoseconds from `start` on.
pub open spec fn in_span(times: Seq<Instant>, start: int, span: nat) -> Seq<Instant> {
    times.filter(|t: Instant| start <= t.nanos < start + span)
}

proof fn lemma_filter_push(s: Seq<Instant>, t: Instant, p: spec_fn(Instant) -> bool)
    ensures
        s.push(t).filter(p) == if p(t) {
            s.filter(p).push(t)
        } else {
            s.filter(p)
        },
{
    reveal(Seq::filter);
    assert(s.push(t).drop_last() =~= s);
}

proof fn lemma_filter_weaker(
    s: Seq<Instant>,
    p: spec_fn(Instant) -> bool,
    q: spec_fn(Instant) -> bool,
)
    requires
        forall|i: int| 0 <= i < s.len() && p(#[trigger] s[i]) ==> q(s[i]),
    ensures
        s.filter(p).len() <= s.filter(q).len(),
    decreases s.len(),
{
    reveal(Seq::filter);
    if s.len() > 0 {
        let head = s.drop_last();
        assert forall|i: int| 0 <= i < head.len() && p(#[trigger] head[i]) implies q(head[i]) by {
            assert(head[i] == s[i]);
        }
        lemma_filter_weaker(head, p, q);
        assert(s[s.len() - 1] == s.last());
    }
}

proof fn lemma_filter_twice(
    s: Seq<Instant>,
    p: spec_fn(Instant) -> bool,
    q: spec_fn(Instant) -> bool,
)
    requires
        forall|t: Instant| q(t) ==> #[trigger] p(t),
    ensures
        s.filter(p).filter(q) == s.filter(q),
    decreases s.len(),
{
    reveal(Seq::filter);
    if s.len() > 0 {
        lemma_filter_twice(s.drop_last(), p, q);
        if p(s.last()) {
            lemma_filter_push(s.drop_last().filter(p), s.last(), q);
        }
    } else {
        assert(s.filter(p) =~= s.filter(q));
    }
}

/// What was forgotten because it had left the window does not come back into it
/// later.
pub proof fn law_forgotten_times_stay_out(
    stamps: Seq<Instant>,
    then: Instant,
    now: Instant,
    span: nat,
)
    requires
        then.nanos <= now.nanos,
    ensures
        fresh(fresh(stamps, then, span), now, span) == fresh(stamps, now, span),
{
    lemma_filter_twice(stamps, recent(then, span), recent(now, span));
}

/// Letting one more in at `then` adds it to what the window holds later.
pub(crate) proof fn lemma_admitted_time_counts_later(
    stamps: Seq<Instant>,
    then: Instant,
    now: Instant,
    span: nat,
    max: nat,
)
    requires
        then.nanos <= now.nanos,
    ensures
        fresh(admitted(stamps, then, span, max), now, span) == fresh(
            if fresh(stamps, then, span).len() < max {
                stamps.push(then)
            } else {
                stamps
            },
            now,
            span,
        ),
{
    law_forgotten_times_stay_out(stamps, then, now, span);
    lemma_filter_push(fresh(stamps, then, span), then, recent(now, span));
    lemma_filter_push(stamps, then, recent(now, span));
}

/// Times that show the same in the window show the same with one more.
pub(crate) proof fn lemma_pushed_time_counts(
    stamps: Seq<Instant>,
    others: Seq<Instant>,
    then: Instant,
    now: Instant,
    span: nat,
)
    requires
        fresh(stamps, now, span) == fresh(others, now, span),
    ensures
        fresh(stamps.push(then), now, span) == fresh(others.push(then), now, span),
{
    lemma_filter_push(stamps, then, recent(now, span));
    lemma_filter_push(others, then, recent(now, span));
}

/// The window holds just what was let in recently.
proof fn lemma_window_is_recent_history(times: Seq<Instant>, span: nat, max: nat)
    requires
        in_order(times),
        times.len() > 0,
        span > 0,
    ensures
        history(times, span, max).1 == fresh(history(times, span, max).0, times.last(), span),
        forall|i: int|
            0 <= i < history(times, span, max).0.len() ==> (#[trigger] history(
                times,
                span,
                max,
            ).0[i]).nanos <= times.last().nanos,
    decreases times.len(),
{
    let before = times.drop_last();
    let now = times.last();
    let (let_in, window) = history(before, span, max);
    if before.len() > 0 {
        assert(in_order(before)) by {
            assert forall|i: int, j: int| 0 <= i <= j < before.len() implies (
            #[trigger] before[i]).nanos <= (#[trigger] before[j]).nanos by {
                assert(times[i].nanos <= times[j].nanos);
            }
        }
        lemma_window_is_recent_history(before, span, max);
        let prev = before.last();
        assert(times[times.len() - 2].nanos <= times[times.len() - 1].nanos);
        lemma_filter_twice(let_in, recent(prev, span), recent(now, span));
        assert forall|i: int| 0 <= i < let_in.len() implies (#[trigger] let_in[i]).nanos
            <= now.nanos by {
            assert(let_in[i].nanos <= prev.nanos);
        }
    } else {
        reveal(Seq::filter);
        assert(fresh(window, now, span) =~= fresh(let_in, now, span));
    }
    lemma_filter_push(let_in, now, recent(now, span));
}

/// Whatever the attempts, no stretch of time as long as the window sees more
/// than `max` of them let in.
pub proof fn law_rate_is_bounded(times: Seq<Instant>, span: nat, max: nat, start: int)
    requires
        in_order(times),
    ensures
        in_span(history(times, span, max).0, start, span).len() <= max,
    decreases times.len(),
{
    let let_in = history(times, span, max).0;
    let q = |t: Instant| start <= t.nanos < start + span;
    if times.len() == 0 || span == 0 {
        lemma_filter_none(let_in, q);
    } else {
        let before = times.drop_last();
        let now = times.last();
        assert(in_order(before)) by {
            assert forall|i: int, j: int| 0 <= i <= j < before.len() implies (
            #[trigger] before[i]).nanos <= (#[trigger] before[j]).nanos by {
                assert(times[i].nanos <= times[j].nanos);
            }
        }
        law_rate_is_bounded(before, span, max, start);
        let (old_in, window) = history(before, span, max);
        if fresh(window, now, span).len() < max {
            lemma_filter_push(old_in, now, q);
            if q(now) {
                lemma_window_is_recent_history(times, span, max);
                assert(let_in == old_in.push(now));
                assert forall|i: int| 0 <= i < let_in.len() && q(#[trigger] let_in[i]) implies recent(
                    now,
                    span,
                )(let_in[i]) by {
                    assert(let_in[i].nanos <= now.nanos);
                }
                lemma_filter_weaker(let_in, q, recent(now, span));
            }
        }
    }
}

proof fn lemma_filter_none(s: Seq<Instant>, p: spec_fn(Instant) -> bool)
    requires
        forall|i: int| 0 <= i < s.len() ==> !p(#[trigger] s[i]),
    ensures
        s.filter(p).len() == 0,
    decreases s.len(),
{
    reveal(Seq::filter);
    if s.len() > 0 {
        let head = s.drop_last();
        assert forall|i: int| 0 <= i < head.len() implies !p(#[trigger] head[i]) by {
            assert(head[i] == s[i]);
        }
        lemma_filter_none(head, p);
        assert(s[s.len() - 1] == s.last());
    }
}

/// An attempt is refused only while the window is full.
pub proof fn law_refused_only_when_full(stamps: Seq<Instant>, now: Instant, span: nat, max: nat)
    ensures
        room(stamps, now, span, max) > 0 <==> admitted(stamps, now, span, max) == fresh(
            stamps,
            now,
            span,
        ).push(now),
        room(stamps, now, span, max) == 0 ==> fresh(stamps, now, span).len() >= max,
{
    if room(stamps, now, span, max) == 0 {
        assert(fresh(stamps, now, span).len() != fresh(stamps, now, span).push(now).len());
    }
}

/// How many of the times lie less than `span` nanoseconds before `now`, or after it.
pub open spec fn count_recent(stamps: Seq<Instant>, now: Instant, span: nat) -> nat
    decreases stamps.len(),
{
    if stamps.len() == 0 {
        0
    } else {
        count_recent(stamps.drop_last(), now, span) + if span > 0 && now.nanos
            - stamps.last().nanos < span {
            1nat
        } else {
            0nat
        }
    }
}

/// The window holds just the times that lie less than its span before now, and one
/// more is let in just when fewer than the maximum do. As many more are let in as are
/// missing to the maximum.
pub proof fn law_window_counts_the_recent(stamps: Seq<Instant>, now: Instant, span: nat, max: nat)
    ensures
        fresh(stamps, now, span).len() == count_recent(stamps, now, span),
        count_recent(stamps, now, span) < max ==> admitted(stamps, now, span, max) == fresh(
            stamps,
            now,
            span,
        ).push(now) && room(stamps, now, span, max) == max - count_recent(stamps, now, span),
        count_recent(stamps, now, span) >= max ==> admitted(stamps, now, span, max) == fresh(
            stamps,
            now,
            span,
        ) && room(stamps, now, span, max) == 0,
    decreases stamps.len(),
{
    reveal(Seq::filter);
    if stamps.len() > 0 {
        law_window_counts_the_recent(stamps.drop_last(), now, span, max);
    }
}

/// What is in the window was there before, and lies less than its span before now.
pub proof fn law_window_keeps_nothing_else(stamps: Seq<Instant>, now: Instant, span: nat, t: Instant)
    ensures
        fresh(stamps, now, span).contains(t) ==> stamps.contains(t) && span > 0 && now.nanos
            - t.nanos < span,
    decreases stamps.len(),
{
    reveal(Seq::filter);
    if stamps.len() > 0 && fresh(stamps, now, span).contains(t) {
        let before = fresh(stamps.drop_last(), now, span);
        law_window_keeps_nothing_else(stamps.drop_last(), now, span, t);
        let all = fresh(stamps, now, span);
        let i = choose|i: int| 0 <= i < all.len() && all[i] == t;
        if i < before.len() {
            assert(before[i] == t);
            let k = choose|k: int|
                0 <= k < stamps.drop_last().len() && stamps.drop_last()[k] == t;
            assert(stamps[k] == t);
        } else {
            assert(stamps[stamps.len() - 1] == t);
        }
    }
}

} // verus!
