//! Sessions of clients, which end when they are idle for too long.

use crate::ids;
use crate::map::StrMap;
use crate::protocol;
use crate::time;
use crate::time::{Clock, Duration, Instant};
use vstd::prelude::*;

verus! {

#[derive(Debug)]
pub struct Session {
    pub id: String,
    pub client_id: String,
    pub service_name: String,
    pub created_at: Instant,
    pub last_active: Instant,
    pub metadata: StrMap<String>,
    clock: Clock,
}

/// The mathematical model of a [`Session`].
pub struct SessionView {
    pub id: Seq<char>,
    pub client_id: Seq<char>,
    pub service_name: Seq<char>,
    pub created_at: Instant,
    pub last_active: Instant,
    pub metadata: Map<Seq<char>, Seq<char>>,
    pub clock: Clock,
}

impl View for Session {
    type V = SessionView;

    closed spec fn view(&self) -> SessionView {
        SessionView {
            id: self.id@,
            client_id: self.client_id@,
            service_name: self.service_name@,
            created_at: self.created_at,
            last_active: self.last_active,
            metadata: crate::map::text_map(self.metadata@),
            clock: self.clock,
        }
    }
}

impl SessionView {
    /// A session that begins at `now`.
    pub open spec fn begun(
        id: Seq<char>,
        client_id: Seq<char>,
        service_name: Seq<char>,
        clock: Clock,
        now: Instant,
    ) -> SessionView {
        SessionView {
            id,
            client_id,
            service_name,
            created_at: now,
            last_active: now,
            metadata: Map::empty(),
            clock,
        }
    }

    pub open spec fn touched(self, now: Instant) -> SessionView {
        SessionView { last_active: now, ..self }
    }

    /// How long the session has been idle, in nanoseconds.
    pub open spec fn idle(self, now: Instant) -> nat {
        time::elapsed_nanos(now, self.last_active)
    }
}

impl Clone for Session {
    fn clone(&self) -> (r: Session)
        ensures
            r@ == self@,
    {
        Session {
            id: self.id.clone(),
            client_id: self.client_id.clone(),
            service_name: self.service_name.clone(),
            created_at: self.created_at,
            last_active: self.last_active,
            metadata: crate::map::copy_text_map(&self.metadata),
            clock: self.clock,
        }
    }
}

impl Session {
    /// A session that begins now, on a clock of its own.
    pub fn new(id: String, client_id: String, service_name: String) -> (r: Session)
        ensures
            exists|now: Instant|
                r@.clock.shows(now) && r@ == #[trigger] SessionView::begun(
                    id@,
                    client_id@,
                    service_name@,
                    r@.clock,
                    now,
                ),
    {
        let clock = Clock::new();
        let now = clock.now();
        let r = Session::begin(id, client_id, service_name, clock, now);
        assert(r@ == SessionView::begun(id@, client_id@, service_name@, r@.clock, now));
        r
    }

    /// A session that begins at the time `now` of `clock`.
    pub fn begin(
        id: String,
        client_id: String,
        service_name: String,
        clock: Clock,
        now: Instant,
    ) -> (r: Session)
        ensures
            r@ == SessionView::begun(id@, client_id@, service_name@, clock, now),
    {
        let r = Session {
            id,
            client_id,
            service_name,
            created_at: now,
            last_active: now,
            metadata: StrMap::new(),
            clock,
        };
        assert(r@.metadata =~= Map::empty());
        r
    }

    /// Takes note that the session is in use.
    pub fn touch(&mut self)
        ensures
            exists|now: Instant|
                old(self)@.clock.shows(now) && final(self)@ == #[trigger] old(self)@.touched(now),
    {
        let now = self.clock.now();
        self.touch_at(now);
    }

    pub fn touch_at(&mut self, now: Instant)
        ensures
            final(self)@ == old(self)@.touched(now),
    {
        self.last_active = now;
    }

    /// How long ago the session began.
    pub fn age(&self) -> (r: Duration)
        ensures
            exists|now: Instant|
                self@.clock.shows(now) && r@ == #[trigger] time::elapsed_nanos(
                    now,
                    self@.created_at,
                ),
    {
        let now = self.clock.now();
        self.age_at(now)
    }

    pub fn age_at(&self, now: Instant) -> (r: Duration)
        ensures
            r@ == time::elapsed_nanos(now, self@.created_at),
    {
        now.duration_since(self.created_at)
    }

    /// How long the session has been idle.
    pub fn idle_time(&self) -> (r: Duration)
        ensures
            exists|now: Instant| self@.clock.shows(now) && r@ == #[trigger] self@.idle(now),
    {
        let now = self.clock.now();
        self.idle_time_at(now)
    }

    pub fn idle_time_at(&self, now: Instant) -> (r: Duration)
        ensures
            r@ == self@.idle(now),
    {
        now.duration_since(self.last_active)
    }
}

/// All sessions by their identifiers.
#[derive(Debug)]
pub struct SessionManager {
    sessions: StrMap<Session>,
    max_idle_time: Duration,
    clock: Clock,
}

/// The mathematical model of a [`SessionManager`].
pub struct SessionsView {
    pub sessions: Map<Seq<char>, SessionView>,
    /// In nanoseconds.
    pub max_idle_time: nat,
    pub clock: Clock,
}

/// The models of the sessions in a map.
pub open spec fn session_views(m: Map<Seq<char>, Session>) -> Map<Seq<char>, SessionView> {
    m.map_values(|s: Session| s@)
}

impl View for SessionManager {
    type V = SessionsView;

    closed spec fn view(&self) -> SessionsView {
        SessionsView {
            sessions: session_views(self.sessions@),
            max_idle_time: self.max_idle_time@,
            clock: self.clock,
        }
    }
}

impl SessionsView {
    /// Whether the session has not been idle for too long.
    pub open spec fn alive(self, id: Seq<char>, now: Instant) -> bool {
        self.sessions.dom().contains(id) && self.sessions[id].idle(now) < self.max_idle_time
    }

    /// The sessions that have not been idle for too long.
    pub open spec fn cleaned(self, now: Instant) -> SessionsView {
        SessionsView {
            sessions: self.sessions.restrict(Set::new(|id: Seq<char>| self.alive(id, now))),
            ..self
        }
    }

    pub open spec fn with_session(self, s: SessionView) -> SessionsView {
        SessionsView { sessions: self.sessions.insert(s.id, s), ..self }
    }

    pub open spec fn without(self, id: Seq<char>) -> SessionsView {
        SessionsView { sessions: self.sessions.remove(id), ..self }
    }

    /// The sessions after one was asked for, which counts as using it.
    pub open spec fn after_get(self, id: Seq<char>, now: Instant) -> SessionsView {
        if self.sessions.dom().contains(id) {
            SessionsView {
                sessions: self.sessions.insert(id, self.sessions[id].touched(now)),
                ..self
            }
        } else {
            self
        }
    }
}

impl SessionManager {
    /// Sessions end after five idle minutes unless told otherwise.
    pub fn new() -> (r: SessionManager)
        ensures
            r@ == (SessionsView {
                sessions: Map::empty(),
                max_idle_time: 300_000_000_000,
                clock: r@.clock,
            }),
    {
        let r = SessionManager {
            sessions: StrMap::new(),
            max_idle_time: Duration::from_secs(300),
            clock: Clock::new(),
        };
        assert(r@.sessions =~= Map::empty());
        r
    }

    pub fn with_max_idle_time(self, duration: Duration) -> (r: SessionManager)
        ensures
            r@ == (SessionsView { max_idle_time: duration@, ..self@ }),
    {
        SessionManager { max_idle_time: duration, ..self }
    }

    /// Begins a session under a new random identifier.
    pub fn create_session(&mut self, client_id: String, service_name: String) -> (r: Session)
        ensures
            ids::is_random_id(r@.id),
            exists|now: Instant|
                old(self)@.clock.shows(now) && r@ == #[trigger] SessionView::begun(
                    r@.id,
                    client_id@,
                    service_name@,
                    old(self)@.clock,
                    now,
                ),
            final(self)@ == old(self)@.with_session(r@),
    {
        let id = ids::random_uuid();
        let now = self.clock.now();
        self.create_session_at(id, client_id, service_name, now)
    }

    /// Begins a session under the given identifier at the time `now` of the
    /// manager's clock.
    pub fn create_session_at(
        &mut self,
        id: String,
        client_id: String,
        service_name: String,
        now: Instant,
    ) -> (r: Session)
        ensures
            r@ == SessionView::begun(id@, client_id@, service_name@, old(self)@.clock, now),
            final(self)@ == old(self)@.with_session(r@),
    {
        let session = Session::begin(id.clone(), client_id, service_name, self.clock, now);
        let copy = session.clone();
        self.sessions.insert(id, session);
        assert(self@.sessions =~= old(self)@.sessions.insert(id@, session@));
        copy
    }

    /// The session with this identifier, which is in use from now on.
    pub fn get_session(&mut self, id: &str) -> (r: Option<Session>)
        ensures
            r is Some <==> old(self)@.sessions.dom().contains(id@),
            exists|now: Instant|
                old(self)@.clock.shows(now) && final(self)@ == #[trigger] old(self)@.after_get(
                    id@,
                    now,
                ) && (r matches Some(s) ==> s@
                    == old(self)@.sessions[id@].touched(now)),
    {
        let now = self.clock.now();
        self.get_session_at(id, now)
    }

    /// The session with this identifier, which is in use at the time `now` of the
    /// manager's clock.
    pub fn get_session_at(&mut self, id: &str, now: Instant) -> (r: Option<Session>)
        ensures
            final(self)@ == old(self)@.after_get(id@, now),
            r is Some <==> old(self)@.sessions.dom().contains(id@),
            r matches Some(s) ==> s@ == old(self)@.sessions[id@].touched(now),
    {
        match self.sessions.remove(id) {
            Some(found) => {
                let mut session = found;
                session.touch_at(now);
                let copy = session.clone();
                self.sessions.insert(id.to_string(), session);
                assert(self@.sessions =~= old(self)@.after_get(id@, now).sessions);
                Some(copy)
            },
            None => {
                assert(self@.sessions =~= old(self)@.sessions);
                None
            },
        }
    }

    /// Ends the session with this identifier.
    pub fn remove_session(&mut self, id: &str) -> (r: Option<Session>)
        ensures
            final(self)@ == old(self)@.without(id@),
            r is Some <==> old(self)@.sessions.dom().contains(id@),
            r matches Some(s) ==> s@ == old(self)@.sessions[id@],
    {
        let removed = self.sessions.remove(id);
        assert(self@.sessions =~= old(self)@.sessions.remove(id@));
        removed
    }

    /// Ends the sessions that have been idle for too long, and gives how many
    /// that were.
    pub fn cleanup_idle(&mut self) -> (r: usize)
        ensures
            exists|now: Instant|
                old(self)@.clock.shows(now) && final(self)@ == #[trigger] old(self)@.cleaned(now),
            old(self)@.sessions.dom().finite(),
            r == old(self)@.sessions.dom().difference(final(self)@.sessions.dom()).len(),
    {
        let now = self.clock.now();
        self.cleanup_idle_at(now)
    }

    /// Ends the sessions that have been idle for too long at the time `now` of
    /// the manager's clock, and gives how many that were.
    pub fn cleanup_idle_at(&mut self, now: Instant) -> (r: usize)
        ensures
            final(self)@ == old(self)@.cleaned(now),
            old(self)@.sessions.dom().finite(),
            r == old(self)@.sessions.dom().difference(final(self)@.sessions.dom()).len(),
    {
        let ghost before = self@;
        let keys = self.sessions.keys();
        let n = self.sessions.len();
        let ghost order = protocol::texts(keys@);
        let mut i: usize = 0;
        let mut ended: usize = 0;
        let ghost all = before.sessions.dom();
        let ghost mut gone: Set<Seq<char>> = Set::empty();
        assert(all =~= self.sessions@.dom());
        assert(all.difference(gone) =~= self@.sessions.dom());
        while i < keys.len()
            invariant
                before == old(self)@,
                all == before.sessions.dom(),
                all.finite(),
                order == protocol::texts(keys@),
                order.no_duplicates(),
                order.to_set() == all,
                i <= keys@.len(),
                gone.finite(),
                gone.len() == ended,
                ended <= i,
                gone.subset_of(all),
                forall|k: Seq<char>|
                    #[trigger] gone.contains(k) ==> order.take(i as int).contains(k)
                        && !before.alive(k, now),
                forall|j: int|
                    0 <= j < i && !before.alive(#[trigger] order[j], now) ==> gone.contains(
                        order[j],
                    ),
                self@.max_idle_time == before.max_idle_time,
                self@.clock == before.clock,
                self@.sessions == before.sessions.restrict(all.difference(gone)),
            decreases keys.len() - i,
        {
            let ghost k = order[i as int];
            assert(keys@[i as int]@ == k);
            assert(order.contains(k));
            assert(!gone.contains(k)) by {
                if gone.contains(k) {
                    let j = choose|j: int|
                        0 <= j < order.take(i as int).len() && order.take(i as int)[j] == k;
                    assert(order[j] == order[i as int]);
                }
            }
            assert(self@.sessions.dom().contains(k));
            let idle = match self.sessions.get(keys[i].as_str()) {
                Some(session) => {
                    assert(session@ == self@.sessions[k]);
                    assert(all.difference(gone).contains(k));
                    session.idle_time_at(now).as_nanos() >= self.max_idle_time.as_nanos()
                },
                None => false,
            };
            assert(idle == !before.alive(k, now));
            assert(order.take(i + 1) =~= order.take(i as int).push(k));
            assert forall|x: Seq<char>| order.take(i as int).contains(x) implies order.take(
                i + 1,
            ).contains(x) by {
                let j = choose|j: int|
                    0 <= j < order.take(i as int).len() && order.take(i as int)[j] == x;
                assert(order.take(i + 1)[j] == x);
            }
            assert(order.take(i + 1)[i as int] == k);
            if idle {
                let ghost mid = self@.sessions;
                let _ = self.sessions.remove(keys[i].as_str());
                ended = ended + 1;
                proof {
                    assert(self@.sessions =~= mid.remove(k));
                    gone = gone.insert(k);
                    assert(self@.sessions =~= before.sessions.restrict(all.difference(gone)));
                }
            }
            i = i + 1;
        }
        proof {
            assert forall|k: Seq<char>| all.contains(k) implies (gone.contains(k)
                <==> !before.alive(k, now)) by {
                let j = choose|j: int| 0 <= j < order.len() && order[j] == k;
                assert(order[j] == k);
            }
            assert(self@.sessions =~= before.cleaned(now).sessions);
            assert(all.difference(self@.sessions.dom()) =~= gone);
        }
        ended
    }

    pub fn session_count(&self) -> (r: usize)
        ensures
            self@.sessions.dom().finite(),
            r == self@.sessions.len(),
    {
        assert(self@.sessions.dom() =~= self.sessions@.dom());
        self.sessions.len()
    }
}

impl Default for SessionManager {
    fn default() -> (r: SessionManager)
        ensures
            r@ == (SessionsView {
                sessions: Map::empty(),
                max_idle_time: 300_000_000_000,
                clock: r@.clock,
            }),
    {
        SessionManager::new()
    }
}

/// A session that was begun is found until it is removed.
pub proof fn law_session_is_found(m: SessionsView, s: SessionView, other: Seq<char>)
    ensures
        m.with_session(s).sessions.dom().contains(s.id),
        m.with_session(s).sessions[s.id] == s,
        other != s.id ==> m.with_session(s).without(other).sessions.dom().contains(s.id),
        !m.with_session(s).without(s.id).sessions.dom().contains(s.id),
{
}

/// A session that is in use outlives a cleanup that comes within its idle time.
pub proof fn law_used_session_survives(m: SessionsView, id: Seq<char>, used: Instant, now: Instant)
    requires
        m.sessions.dom().contains(id),
    ensures
        time::elapsed_nanos(now, used) < m.max_idle_time <==> m.after_get(id, used).cleaned(
            now,
        ).sessions.dom().contains(id),
{
}

/// Cleaning up twice at one time is the same as once.
pub proof fn law_cleanup_is_idempotent(m: SessionsView, now: Instant)
    ensures
        m.cleaned(now).cleaned(now) == m.cleaned(now),
{
    assert(m.cleaned(now).cleaned(now).sessions =~= m.cleaned(now).sessions);
}

/// A session begins at the time at which it is made, and has nothing noted with it.
pub proof fn law_session_begins_when_it_is_made(
    id: Seq<char>,
    client_id: Seq<char>,
    service_name: Seq<char>,
    clock: Clock,
    now: Instant,
    later: Instant,
)
    ensures
        ({
            let s = SessionView::begun(id, client_id, service_name, clock, now);
            &&& s.id == id && s.client_id == client_id && s.service_name == service_name
            &&& s.created_at == now && s.last_active == now && s.clock == clock
            &&& s.metadata.dom() =~= Set::empty()
            &&& later.nanos >= now.nanos ==> s.idle(later) == later.nanos - now.nanos
        }),
{
}

/// Using a session makes it idle from then on, and changes nothing else.
pub proof fn law_used_session_is_idle_from_then_on(s: SessionView, now: Instant, later: Instant)
    ensures
        s.touched(now) == (SessionView { last_active: now, ..s }),
        later.nanos >= now.nanos ==> s.touched(now).idle(later) == later.nanos - now.nanos,
{
}

/// A cleanup keeps just the sessions that have been idle for less than the time that
/// is allowed, as they are.
pub proof fn law_cleanup_keeps_who_is_active(m: SessionsView, id: Seq<char>, now: Instant)
    ensures
        ({
            let s = m.sessions[id];
            let idle = if now.nanos >= s.last_active.nanos {
                now.nanos - s.last_active.nanos
            } else {
                0
            };
            &&& m.cleaned(now).sessions.dom().contains(id) <==> m.sessions.dom().contains(id)
                && idle < m.max_idle_time
            &&& m.cleaned(now).sessions.dom().contains(id) ==> m.cleaned(now).sessions[id] == s
            &&& m.cleaned(now).max_idle_time == m.max_idle_time
        }),
{
}

/// Asking for a session counts as using it and leaves the others alone; removing one
/// leaves the others alone too.
pub proof fn law_sessions_are_independent(
    m: SessionsView,
    id: Seq<char>,
    other: Seq<char>,
    s: SessionView,
    now: Instant,
)
    requires
        id != other,
    ensures
        m.sessions.dom().contains(id) ==> m.after_get(id, now).sessions[id] == (SessionView {
            last_active: now,
            ..m.sessions[id]
        }),
        !m.sessions.dom().contains(id) ==> m.after_get(id, now) == m,
        m.after_get(id, now).sessions.dom() =~= m.sessions.dom(),
        m.sessions.dom().contains(other) ==> m.after_get(id, now).sessions[other]
            == m.sessions[other],
        m.without(id).sessions.dom().contains(other) == m.sessions.dom().contains(other),
        m.sessions.dom().contains(other) ==> m.without(id).sessions[other] == m.sessions[other],
        s.id == id && m.sessions.dom().contains(other) ==> m.with_session(s).sessions[other]
            == m.sessions[other],
{
}

/// A session that is created is found under its identifier and begins now; one that is
/// asked for is used from now on; one that is removed is gone.
pub proof fn law_manager_keeps_its_sessions(
    a: &mut SessionManager,
    id: String,
    client_id: String,
    service_name: String,
    now: Instant,
    made: Session,
    b: &mut SessionManager,
    key: &str,
    found: Option<Session>,
)
    requires
        call_ensures(
            SessionManager::create_session_at,
            (a, id, client_id, service_name, now),
            made,
        ),
        call_ensures(SessionManager::get_session_at, (b, key, now), found),
    ensures
        made@.id == id@ && made@.client_id == client_id@ && made@.service_name == service_name@,
        made@.created_at == now && made@.last_active == now,
        final(a)@.sessions.dom().contains(id@) && final(a)@.sessions[id@] == made@,
        final(a)@.max_idle_time == old(a)@.max_idle_time,
        found is Some <==> old(b)@.sessions.dom().contains(key@),
        found matches Some(s) ==> s@.last_active == now && s@.id == old(b)@.sessions[key@].id
            && final(b)@.sessions[key@] == s@,
{
}

/// A cleanup ends the sessions that were idle for as long as allowed or longer, and no
/// others.
pub proof fn law_cleanup_ends_who_is_idle(
    m: &mut SessionManager,
    now: Instant,
    ended: usize,
    id: Seq<char>,
)
    requires
        call_ensures(SessionManager::cleanup_idle_at, (m, now), ended),
    ensures
        final(m)@.sessions.dom().contains(id) <==> old(m)@.sessions.dom().contains(id)
            && old(m)@.max_idle_time > if now.nanos >= old(m)@.sessions[id].last_active.nanos {
            now.nanos - old(m)@.sessions[id].last_active.nanos
        } else {
            0
        },
        final(m)@.sessions.dom().contains(id) ==> final(m)@.sessions[id] == old(m)@.sessions[id],
{
}

/// The age of a session runs from when it began, and its idle time from its last use.
pub proof fn law_times_run_from_their_events(
    s: Session,
    now: Instant,
    age: Duration,
    idle: Duration,
    t: &mut Session,
)
    requires
        call_ensures(Session::age_at, (&s, now), age),
        call_ensures(Session::idle_time_at, (&s, now), idle),
        call_ensures(Session::touch_at, (t, now), ()),
        s@.created_at.nanos <= now.nanos,
        s@.last_active.nanos <= now.nanos,
    ensures
        age@ == now.nanos - s@.created_at.nanos,
        idle@ == now.nanos - s@.last_active.nanos,
        final(t)@.last_active == now,
        final(t)@.created_at == old(t)@.created_at && final(t)@.id == old(t)@.id,
{
}

/// A session that is removed is handed over and found no more; the others stay.
pub proof fn law_removed_session_is_gone(
    m: &mut SessionManager,
    id: &str,
    removed: Option<Session>,
    after: &mut SessionManager,
    now: Instant,
    found: Option<Session>,
    other: Seq<char>,
)
    requires
        call_ensures(SessionManager::remove_session, (m, id), removed),
        *old(after) == *final(m),
        call_ensures(SessionManager::get_session_at, (after, id, now), found),
        other != id@,
    ensures
        removed is Some <==> old(m)@.sessions.dom().contains(id@),
        removed matches Some(s) ==> s@ == old(m)@.sessions[id@],
        found is None,
        final(m)@.sessions.dom().contains(other) <==> old(m)@.sessions.dom().contains(other),
        old(m)@.sessions.dom().contains(other) ==> final(m)@.sessions[other]
            == old(m)@.sessions[other],
{
}

/// A new manager has no sessions and lets them be idle for five minutes, or as long as
/// it is told.
pub proof fn law_new_manager_is_empty(
    m: SessionManager,
    span: Duration,
    told: SessionManager,
    count: usize,
)
    requires
        call_ensures(SessionManager::new, (), m),
        call_ensures(SessionManager::with_max_idle_time, (m, span), told),
        call_ensures(SessionManager::session_count, (&m,), count),
    ensures
        count == 0,
        m@.max_idle_time == 300_000_000_000,
        told@.max_idle_time == span@,
        told@.sessions == m@.sessions,
{
}

} // verus!
