//! Pools of connections and of clients.

use crate::circuit_breaker::{BreakerView, CircuitBreaker, CircuitState};
use crate::error::{ErrorView, ProtocolError};
use crate::map::StrMap;
use crate::metrics;
use crate::protocol;
use crate::protocol::{ResponseView, ServiceResponse};
use crate::text;
use crate::time;
use crate::time::{Clock, Duration, Instant};
use crate::wire::MSG_RESPONSE;
use pingora_pool::{ConnectionMeta, ConnectionPool};
use vstd::multiset::Multiset;
use vstd::prelude::*;

verus! {

/// What is known of a connection in a pool.
#[derive(Debug)]
pub struct PooledConnectionMeta {
    pub id: u64,
    pub path: String,
    pub created_at: Instant,
    pub last_used_at: Instant,
    pub use_count: usize,
    clock: Clock,
}

/// The mathematical model of a [`PooledConnectionMeta`].
pub struct MetaView {
    pub id: u64,
    pub path: Seq<char>,
    pub created_at: Instant,
    pub last_used_at: Instant,
    pub use_count: usize,
    pub clock: Clock,
}

impl View for PooledConnectionMeta {
    type V = MetaView;

    closed spec fn view(&self) -> MetaView {
        MetaView {
            id: self.id,
            path: self.path@,
            created_at: self.created_at,
            last_used_at: self.last_used_at,
            use_count: self.use_count,
            clock: self.clock,
        }
    }
}

/// The next value of a counter that wraps around.
pub open spec fn next(n: usize) -> usize {
    if n == usize::MAX {
        0
    } else {
        (n + 1) as usize
    }
}

/// The value before a counter that wraps around was last counted up.
pub open spec fn previous(n: usize) -> usize {
    if n == 0 {
        usize::MAX
    } else {
        (n - 1) as usize
    }
}

impl MetaView {
    pub open spec fn fresh(id: u64, path: Seq<char>, clock: Clock, now: Instant) -> MetaView {
        MetaView { id, path, created_at: now, last_used_at: now, use_count: 0, clock }
    }

    pub open spec fn used(self, now: Instant) -> MetaView {
        MetaView { use_count: next(self.use_count), last_used_at: now, ..self }
    }

    /// Whether more than `max_idle_secs` whole seconds have passed since the
    /// last use.
    pub open spec fn idle_too_long(self, now: Instant, max_idle_secs: u64) -> bool {
        time::elapsed_nanos(now, self.last_used_at) / 1_000_000_000 > max_idle_secs
    }
}

impl PooledConnectionMeta {
    /// A connection that was made now, on a clock of its own.
    pub fn new(id: u64, path: String) -> (r: PooledConnectionMeta)
        ensures
            exists|now: Instant|
                r@.clock.shows(now) && r@ == #[trigger] MetaView::fresh(
                    id,
                    path@,
                    r@.clock,
                    now,
                ),
    {
        let clock = Clock::new();
        let now = clock.now();
        let r = PooledConnectionMeta::begin(id, path, clock, now);
        assert(r@ == MetaView::fresh(id, path@, r@.clock, now));
        r
    }

    /// A connection that was made at the time `now` of `clock`.
    pub fn begin(id: u64, path: String, clock: Clock, now: Instant) -> (r: PooledConnectionMeta)
        ensures
            r@ == MetaView::fresh(id, path@, clock, now),
    {
        PooledConnectionMeta {
            id,
            path,
            created_at: now,
            last_used_at: now,
            use_count: 0,
            clock,
        }
    }

    pub fn record_use(&mut self)
        ensures
            exists|now: Instant|
                old(self)@.clock.shows(now) && final(self)@ == #[trigger] old(self)@.used(now),
    {
        let now = self.clock.now();
        self.record_use_at(now);
    }

    pub fn record_use_at(&mut self, now: Instant)
        ensures
            final(self)@ == old(self)@.used(now),
    {
        self.use_count = self.use_count.wrapping_add(1);
        self.last_used_at = now;
    }

    pub fn is_idle_timeout(&self, max_idle_secs: u64) -> (r: bool)
        ensures
            exists|now: Instant|
                self@.clock.shows(now) && r == #[trigger] self@.idle_too_long(now, max_idle_secs),
    {
        let now = self.clock.now();
        self.is_idle_timeout_at(now, max_idle_secs)
    }

    pub fn is_idle_timeout_at(&self, now: Instant, max_idle_secs: u64) -> (r: bool)
        ensures
            r == self@.idle_too_long(now, max_idle_secs),
    {
        now.duration_since(self.last_used_at).as_secs() > max_idle_secs
    }
}

/// Counters of a pool of connections. They wrap around.
#[derive(Debug, Clone, Copy, PartialEq, Eq, Structural)]
pub struct ConnectionPoolMetrics {
    pub total_requests: usize,
    pub connections_created: usize,
    pub connections_reused: usize,
    pub pool_hits: usize,
    pub pool_misses: usize,
    pub connections_evicted: usize,
}

/// How many connections were reused, out of all that were handed out.
#[derive(Debug, Clone, Copy, PartialEq, Eq, Structural)]
pub struct ReuseRate {
    pub reused: u64,
    pub total: u128,
}

impl ConnectionPoolMetrics {
    pub open spec fn fresh() -> ConnectionPoolMetrics {
        ConnectionPoolMetrics {
            total_requests: 0,
            connections_created: 0,
            connections_reused: 0,
            pool_hits: 0,
            pool_misses: 0,
            connections_evicted: 0,
        }
    }

    /// The counters after a call for which a connection was there, or was not.
    pub open spec fn called(self, hit: bool) -> ConnectionPoolMetrics {
        let counted = ConnectionPoolMetrics { total_requests: next(self.total_requests), ..self };
        if hit {
            ConnectionPoolMetrics {
                pool_hits: next(self.pool_hits),
                connections_reused: next(self.connections_reused),
                ..counted
            }
        } else {
            ConnectionPoolMetrics {
                pool_misses: next(self.pool_misses),
                connections_created: next(self.connections_created),
                ..counted
            }
        }
    }

    /// The counters after a connection could not be opened.
    pub open spec fn unopened(self) -> ConnectionPoolMetrics {
        ConnectionPoolMetrics { connections_evicted: next(self.connections_evicted), ..self }
    }

    pub fn total_requests(&self) -> (r: usize)
        ensures
            r == self.total_requests,
    {
        self.total_requests
    }

    pub fn connections_created(&self) -> (r: usize)
        ensures
            r == self.connections_created,
    {
        self.connections_created
    }

    pub fn connections_reused(&self) -> (r: usize)
        ensures
            r == self.connections_reused,
    {
        self.connections_reused
    }

    pub fn pool_hits(&self) -> (r: usize)
        ensures
            r == self.pool_hits,
    {
        self.pool_hits
    }

    pub fn pool_misses(&self) -> (r: usize)
        ensures
            r == self.pool_misses,
    {
        self.pool_misses
    }

    pub fn connections_evicted(&self) -> (r: usize)
        ensures
            r == self.connections_evicted,
    {
        self.connections_evicted
    }

    /// How many connections were reused, out of all that were handed out.
    pub fn reuse_rate(&self) -> (r: ReuseRate)
        ensures
            r.reused == self.connections_reused,
            r.total == self.connections_created + self.connections_reused,
    {
        ReuseRate {
            reused: self.connections_reused as u64,
            total: self.connections_created as u128 + self.connections_reused as u128,
        }
    }
}

impl Default for ConnectionPoolMetrics {
    fn default() -> (r: ConnectionPoolMetrics)
        ensures
            r == ConnectionPoolMetrics::fresh(),
    {
        ConnectionPoolMetrics {
            total_requests: 0,
            connections_created: 0,
            connections_reused: 0,
            pool_hits: 0,
            pool_misses: 0,
            connections_evicted: 0,
        }
    }
}

/// Every call finds a connection or misses one, as long as no counter has
/// wrapped around.
pub proof fn law_calls_hit_or_miss(m: ConnectionPoolMetrics, hit: bool)
    requires
        m.pool_hits + m.pool_misses == m.total_requests,
        m.total_requests < usize::MAX,
    ensures
        m.called(hit).pool_hits + m.called(hit).pool_misses == m.called(hit).total_requests,
        m.unopened().pool_hits + m.unopened().pool_misses == m.unopened().total_requests,
{
}

#[verifier::external_type_specification]
#[verifier::external_body]
pub struct ExUnixStream(tokio::net::UnixStream);

#[verifier::external_type_specification]
#[verifier::external_body]
#[verifier::reject_recursive_types(S)]
pub struct ExConnectionPool<S>(ConnectionPool<S>);

/// The connections in a pool, each by its group key and its identifier.
pub uninterp spec fn pooled(pool: ConnectionPool<tokio::net::UnixStream>) -> Multiset<(u64, i32)>;

/// How many connections a pool was made for.
pub uninterp spec fn made_for(pool: ConnectionPool<tokio::net::UnixStream>) -> usize;

/// Calls `pingora_pool::ConnectionPool::new`: the pool is empty, and made for
/// `size` connections. It reserves space for `size` groups, which has to be
/// addressable.
#[verifier::external_body]
fn pool_new(size: usize) -> (r: ConnectionPool<tokio::net::UnixStream>)
    requires
        size <= isize::MAX / 64,
    ensures
        pooled(r) == Multiset::<(u64, i32)>::empty(),
        made_for(r) == size,
{
    ConnectionPool::new(size)
}

/// Calls `pingora_pool::ConnectionPool::get`: takes some connection of the group
/// out, if there is any.
#[verifier::external_body]
fn pool_get(pool: &mut ConnectionPool<tokio::net::UnixStream>, key: u64) -> (r: Option<
    tokio::net::UnixStream,
>)
    ensures
        r is Some ==> exists|id: i32|
            #[trigger] pooled(*old(pool)).contains((key, id)) && pooled(*final(pool)) == pooled(
                *old(pool),
            ).remove((key, id)),
        r is None ==> pooled(*final(pool)) == pooled(*old(pool)) && forall|id: i32|
            !#[trigger] pooled(*old(pool)).contains((key, id)),
        made_for(*final(pool)) == made_for(*old(pool)),
{
    pool.get(&key)
}

/// The pool after a connection was put in: it is there, and what left the pool
/// for it is at most the connection that was used least recently, and one with
/// the same identifier.
pub open spec fn put_in(
    before: Multiset<(u64, i32)>,
    after: Multiset<(u64, i32)>,
    key: u64,
    id: i32,
    gone: Multiset<(u64, i32)>,
) -> bool {
    &&& gone.subset_of(before)
    &&& gone.len() <= 2
    &&& (forall|k: u64| !#[trigger] before.contains((k, id))) ==> gone.len() <= 1
    &&& after == before.sub(gone).insert((key, id))
}

/// Calls `pingora_pool::ConnectionPool::put` and does not watch what becomes of
/// the connection. Which connection was used least recently is kept by each
/// thread for itself, so that it is not claimed when one has to leave.
#[verifier::external_body]
fn pool_put(
    pool: &mut ConnectionPool<tokio::net::UnixStream>,
    key: u64,
    id: i32,
    stream: tokio::net::UnixStream,
)
    ensures
        exists|gone: Multiset<(u64, i32)>| #[trigger]
            put_in(pooled(*old(pool)), pooled(*final(pool)), key, id, gone),
        made_for(*final(pool)) == made_for(*old(pool)),
{
    let _ = pool.put(&ConnectionMeta::new(key, id), stream);
}

/// Calls `pingora_pool::ConnectionPool::pop_closed`: closes one connection of
/// the group with this identifier, if there is one.
#[verifier::external_body]
fn pool_pop_closed(pool: &mut ConnectionPool<tokio::net::UnixStream>, key: u64, id: i32)
    ensures
        pooled(*final(pool)) == pooled(*old(pool)).remove((key, id)),
        made_for(*final(pool)) == made_for(*old(pool)),
{
    pool.pop_closed(&ConnectionMeta::new(key, id));
}

/// The group that all connections of a pool to one path are in.
pub const GROUP: u64 = 1;

/// The error of a reply that is no response.
pub open spec fn wrong_reply(msg_type: u8) -> ErrorView {
    ErrorView::Protocol(
        "invalid response type: expected "@ + text::decimal(MSG_RESPONSE as nat) + ", got "@
            + text::decimal(msg_type as nat),
    )
}

/// Checks that the reply to a request is a response.
pub fn check_reply(msg_type: u8) -> (r: Result<(), ProtocolError>)
    ensures
        r is Ok <==> msg_type == MSG_RESPONSE,
        r matches Err(e) ==> e@ == wrong_reply(msg_type),
{
    if msg_type != MSG_RESPONSE {
        let head = text::join_number(
            "invalid response type: expected ",
            MSG_RESPONSE as u64,
            ", got ",
        );
        return Err(
            ProtocolError::Protocol(
                text::join(head.as_str(), text::decimal_text(msg_type as u64).as_str()),
            ),
        );
    }
    Ok(())
}

/// A pool of connections to one path.
pub struct UdsConnectionPool {
    pool: ConnectionPool<tokio::net::UnixStream>,
    path: String,
    max_idle_secs: u64,
    connection_id: u64,
    metrics: ConnectionPoolMetrics,
}

/// The mathematical model of a [`UdsConnectionPool`].
pub struct ConnectionPoolView {
    /// The connections that can be reused, by group and identifier.
    pub idle: Multiset<(u64, i32)>,
    /// How many connections the pool was made for.
    pub max_connections: usize,
    pub path: Seq<char>,
    pub max_idle_secs: u64,
    /// How many connections were put in, as a counter that wraps around.
    pub connection_id: u64,
    pub metrics: ConnectionPoolMetrics,
}

impl View for UdsConnectionPool {
    type V = ConnectionPoolView;

    closed spec fn view(&self) -> ConnectionPoolView {
        ConnectionPoolView {
            idle: pooled(self.pool),
            max_connections: made_for(self.pool),
            path: self.path@,
            max_idle_secs: self.max_idle_secs,
            connection_id: self.connection_id,
            metrics: self.metrics,
        }
    }
}

/// The identifier under which a connection is put in: the lower half of the
/// counter.
pub open spec fn identifier(connection_id: u64) -> i32 {
    (connection_id % 0x1_0000_0000) as u32 as i32
}

impl UdsConnectionPool {
    /// A pool for connections to a path. Its size has to be addressable.
    pub fn new(path: &str, max_connections: usize) -> (r: UdsConnectionPool)
        requires
            max_connections <= isize::MAX / 64,
        ensures
            r@ == (ConnectionPoolView {
                idle: Multiset::empty(),
                max_connections,
                path: path@,
                max_idle_secs: 300,
                connection_id: 0,
                metrics: ConnectionPoolMetrics::fresh(),
            }),
    {
        UdsConnectionPool {
            pool: pool_new(max_connections),
            path: path.to_string(),
            max_idle_secs: 300,
            connection_id: 0,
            metrics: ConnectionPoolMetrics::default(),
        }
    }

    pub fn with_max_idle_secs(self, secs: u64) -> (r: UdsConnectionPool)
        ensures
            r@ == (ConnectionPoolView { max_idle_secs: secs, ..self@ }),
    {
        UdsConnectionPool { max_idle_secs: secs, ..self }
    }

    pub fn path(&self) -> (r: &str)
        ensures
            r@ == self@.path,
    {
        self.path.as_str()
    }

    /// Takes a connection out, if there is any.
    pub fn get(&mut self) -> (r: Option<tokio::net::UnixStream>)
        ensures
            r is Some ==> exists|id: i32|
                #[trigger] old(self)@.idle.contains((GROUP, id)) && final(self)@ == (
                ConnectionPoolView { idle: old(self)@.idle.remove((GROUP, id)), ..old(self)@ }),
            r is None ==> final(self)@ == old(self)@ && forall|id: i32|
                !#[trigger] old(self)@.idle.contains((GROUP, id)),
    {
        let ghost before = pooled(self.pool);
        let found = pool_get(&mut self.pool, GROUP);
        proof {
            if found is Some {
                let id = choose|id: i32|
                    #[trigger] before.contains((GROUP, id)) && pooled(self.pool) == before.remove(
                        (GROUP, id),
                    );
                assert(old(self)@.idle.contains((GROUP, id)));
            }
        }
        found
    }

    /// Puts a connection in under a new identifier.
    pub fn put(&mut self, stream: tokio::net::UnixStream)
        ensures
            exists|gone: Multiset<(u64, i32)>|
                put_in(
                    old(self)@.idle,
                    final(self)@.idle,
                    GROUP,
                    identifier(old(self)@.connection_id),
                    gone,
                ),
            final(self)@ == (ConnectionPoolView {
                idle: final(self)@.idle,
                connection_id: metrics::plus(old(self)@.connection_id, 1),
                ..old(self)@
            }),
    {
        let counter: u64 = self.connection_id;
        assert(#[verifier::truncate] (counter as i32) == #[verifier::truncate] ((counter
            % 0x1_0000_0000) as u32 as i32)) by (bit_vector);
        let id: i32 = #[verifier::truncate]
        (counter as i32);
        self.connection_id = metrics::counted(counter, 1);
        let ghost before = pooled(self.pool);
        pool_put(&mut self.pool, GROUP, id, stream);
        proof {
            let gone = choose|gone: Multiset<(u64, i32)>| #[trigger]
                put_in(before, pooled(self.pool), GROUP, id, gone);
            assert(put_in(old(self)@.idle, self@.idle, GROUP, identifier(counter), gone));
        }
    }

    /// Takes a connection out for a call, and counts the call.
    pub fn begin_call(&mut self) -> (r: Option<tokio::net::UnixStream>)
        ensures
            final(self)@.metrics == old(self)@.metrics.called(r is Some),
            r is Some ==> exists|id: i32|
                #[trigger] old(self)@.idle.contains((GROUP, id)) && final(self)@.idle == old(
                    self,
                )@.idle.remove((GROUP, id)),
            r is None ==> final(self)@.idle == old(self)@.idle && forall|id: i32|
                !#[trigger] old(self)@.idle.contains((GROUP, id)),
            final(self)@ == (ConnectionPoolView {
                idle: final(self)@.idle,
                metrics: final(self)@.metrics,
                ..old(self)@
            }),
    {
        self.metrics.total_requests = self.metrics.total_requests.wrapping_add(1);
        let ghost counted = self@;
        let found = self.get();
        proof {
            assert(counted.idle == old(self)@.idle);
            if found is Some {
                let id = choose|id: i32|
                    #[trigger] counted.idle.contains((GROUP, id)) && self@.idle
                        == counted.idle.remove((GROUP, id));
                assert(old(self)@.idle.contains((GROUP, id)));
            } else {
                assert forall|id: i32| !#[trigger] old(self)@.idle.contains((GROUP, id)) by {
                    assert(!counted.idle.contains((GROUP, id)));
                }
            }
        }
        match &found {
            Some(_) => {
                self.metrics.pool_hits = self.metrics.pool_hits.wrapping_add(1);
                self.metrics.connections_reused = self.metrics.connections_reused.wrapping_add(1);
            },
            None => {
                self.metrics.pool_misses = self.metrics.pool_misses.wrapping_add(1);
                self.metrics.connections_created = self.metrics.connections_created.wrapping_add(
                    1,
                );
            },
        }
        found
    }

    /// Takes note that a new connection for a call could not be opened.
    pub fn open_failed(&mut self, why: String) -> (r: ProtocolError)
        ensures
            final(self)@ == (ConnectionPoolView {
                metrics: old(self)@.metrics.unopened(),
                ..old(self)@
            }),
            r@ == ErrorView::ConnectionFailed(why@),
    {
        self.metrics.connections_evicted = self.metrics.connections_evicted.wrapping_add(1);
        ProtocolError::ConnectionFailed(why)
    }

    /// Takes note that a call on a connection is over: the connection goes back,
    /// whatever came of the call.
    pub fn finish_call(
        &mut self,
        stream: tokio::net::UnixStream,
        result: Result<ServiceResponse, ProtocolError>,
    ) -> (r: Result<ServiceResponse, ProtocolError>)
        ensures
            r == result,
            exists|gone: Multiset<(u64, i32)>|
                put_in(
                    old(self)@.idle,
                    final(self)@.idle,
                    GROUP,
                    identifier(old(self)@.connection_id),
                    gone,
                ),
            final(self)@ == (ConnectionPoolView {
                idle: final(self)@.idle,
                connection_id: metrics::plus(old(self)@.connection_id, 1),
                ..old(self)@
            }),
    {
        self.put(stream);
        result
    }

    pub fn metrics(&self) -> (r: &ConnectionPoolMetrics)
        ensures
            *r == self@.metrics,
    {
        &self.metrics
    }

    /// Closes the connection that was put in first, if it is still there.
    pub fn cleanup(&mut self)
        ensures
            final(self)@ == (ConnectionPoolView {
                idle: old(self)@.idle.remove((GROUP, 0)),
                ..old(self)@
            }),
    {
        pool_pop_closed(&mut self.pool, GROUP, 0);
    }

    /// Does nothing: the connections are closed with the pool.
    pub fn close(&self) {
    }
}

/// A connection that was put in can be taken out again: the pool is not empty
/// after it.
pub proof fn law_put_then_get(
    before: Multiset<(u64, i32)>,
    after: Multiset<(u64, i32)>,
    id: i32,
    gone: Multiset<(u64, i32)>,
)
    requires
        put_in(before, after, GROUP, id, gone),
    ensures
        after.contains((GROUP, id)),
        after.len() <= before.len() + 1,
        after.len() + 1 >= before.len(),
{
    broadcast use vstd::multiset::group_multiset_axioms;

    assert(after.count((GROUP, id)) >= 1);
    lemma_sub_len(before, gone);
}

proof fn lemma_sub_len(a: Multiset<(u64, i32)>, b: Multiset<(u64, i32)>)
    requires
        b.subset_of(a),
    ensures
        a.sub(b).len() == a.len() - b.len(),
{
    broadcast use vstd::multiset::group_multiset_axioms;

    assert(a.sub(b).add(b) =~= a);
}

/// Where a client for a call comes from.
#[derive(Debug)]
pub enum Acquired<C> {
    /// One that was waiting in the pool.
    Reused(C),
    /// Make a new one.
    Create,
    /// Ask again; a pause comes first if none is there by then.
    Wait { retries: u32 },
    /// Pause for ten milliseconds, and then ask again.
    Pause { retries: u32 },
}

/// A pool of clients for one path. `C` stands for a client.
#[derive(Debug)]
pub struct UdsClientPool<C> {
    path: String,
    idle: Vec<C>,
    max_concurrent: usize,
    max_pool_size: usize,
    created_clients: usize,
}

/// The mathematical model of a [`UdsClientPool`].
pub struct ClientPoolView<C> {
    pub path: Seq<char>,
    /// The clients that are waiting, the one that came last at the end.
    pub idle: Seq<C>,
    pub max_concurrent: usize,
    pub max_pool_size: usize,
    /// How many clients were made for the pool.
    pub created: usize,
}

impl<C> View for UdsClientPool<C> {
    type V = ClientPoolView<C>;

    closed spec fn view(&self) -> ClientPoolView<C> {
        ClientPoolView {
            path: self.path@,
            idle: self.idle@,
            max_concurrent: self.max_concurrent,
            max_pool_size: self.max_pool_size,
            created: self.created_clients,
        }
    }
}

/// Whether a client goes back to the pool after a call: if the call succeeded,
/// or failed because the connection was lost, which the client mends by itself.
pub open spec fn reusable(result: Result<ResponseView, ErrorView>) -> bool {
    match result {
        Ok(_) => true,
        Err(e) => e.is_connection_loss(),
    }
}

/// The model of the result of a call.
pub open spec fn result_view(result: Result<ServiceResponse, ProtocolError>) -> Result<
    ResponseView,
    ErrorView,
> {
    match result {
        Ok(r) => Ok(r@),
        Err(e) => Err(e@),
    }
}

impl<C> ClientPoolView<C> {
    pub open spec fn fresh(path: Seq<char>, max_concurrent: usize, max_pool_size: usize) -> Self {
        ClientPoolView { path, idle: Seq::empty(), max_concurrent, max_pool_size, created: 0 }
    }

    /// What every pool keeps: no more clients wait in it, or were made for it,
    /// than it may hold.
    pub open spec fn bounded(self) -> bool {
        &&& self.idle.len() <= self.max_pool_size
        &&& self.created <= self.max_pool_size
    }

    /// The pool without the client that came last.
    pub open spec fn popped(self) -> Self {
        ClientPoolView { idle: self.idle.drop_last(), ..self }
    }

    /// The pool once one more client was made for it.
    pub open spec fn grown(self) -> Self {
        ClientPoolView { created: (self.created + 1) as usize, ..self }
    }

    /// Asks for a client: one that waits, or a new one if the pool may grow. If
    /// it may not, it is worth asking up to three times more.
    pub open spec fn acquire(self) -> (Self, Acquired<C>) {
        if self.idle.len() > 0 {
            (self.popped(), Acquired::Reused(self.idle.last()))
        } else if self.created < self.max_pool_size {
            (self.grown(), Acquired::Create)
        } else {
            (self, Acquired::Wait { retries: 3 })
        }
    }

    /// Asks once more. After the last time a client is made that the pool does
    /// not count.
    pub open spec fn retry(self, retries: u32) -> (Self, Acquired<C>) {
        if retries == 0 {
            (self, Acquired::Create)
        } else if self.idle.len() > 0 {
            (self.popped(), Acquired::Reused(self.idle.last()))
        } else {
            (self, Acquired::Pause { retries: (retries - 1) as u32 })
        }
    }

    /// Asks for a client without waiting for one.
    pub open spec fn acquire_now(self) -> (Self, Option<C>) {
        if self.idle.len() > 0 {
            (self.popped(), Some(self.idle.last()))
        } else if self.created < self.max_pool_size {
            (self.grown(), None)
        } else {
            (self, None)
        }
    }

    /// The pool after a client came back from a call.
    pub open spec fn returned(self, client: C, result: Result<ResponseView, ErrorView>) -> Self {
        if reusable(result) && self.idle.len() < self.max_pool_size {
            ClientPoolView { idle: self.idle.push(client), ..self }
        } else {
            self
        }
    }

    pub open spec fn closed(self) -> Self {
        ClientPoolView { idle: Seq::empty(), created: 0, ..self }
    }
}

impl<C> UdsClientPool<C> {
    /// A pool that holds as many clients as may be at work at once.
    pub fn new(path: &str, max_concurrent: usize) -> (r: UdsClientPool<C>)
        ensures
            r@ == ClientPoolView::<C>::fresh(path@, max_concurrent, max_concurrent),
    {
        UdsClientPool::with_max_pool_size(path, max_concurrent, max_concurrent)
    }

    pub fn with_max_pool_size(path: &str, max_concurrent: usize, max_pool_size: usize) -> (r:
        UdsClientPool<C>)
        ensures
            r@ == ClientPoolView::<C>::fresh(path@, max_concurrent, max_pool_size),
    {
        let r = UdsClientPool {
            path: path.to_string(),
            idle: Vec::new(),
            max_concurrent,
            max_pool_size,
            created_clients: 0,
        };
        assert(r@.idle =~= Seq::empty());
        r
    }

    pub fn path(&self) -> (r: &str)
        ensures
            r@ == self@.path,
    {
        self.path.as_str()
    }

    /// How many calls may be under way at once.
    pub fn max_concurrent(&self) -> (r: usize)
        ensures
            r == self@.max_concurrent,
    {
        self.max_concurrent
    }

    /// Asks for a client: one that waits, or a new one if the pool may grow.
    pub fn acquire(&mut self) -> (r: Acquired<C>)
        ensures
            final(self)@ == old(self)@.acquire().0,
            r == old(self)@.acquire().1,
    {
        if let Some(client) = self.idle.pop() {
            return Acquired::Reused(client);
        }
        if self.created_clients < self.max_pool_size {
            self.created_clients = self.created_clients + 1;
            return Acquired::Create;
        }
        Acquired::Wait { retries: 3 }
    }

    /// Asks once more, with as many times left as given.
    pub fn retry(&mut self, retries: u32) -> (r: Acquired<C>)
        ensures
            final(self)@ == old(self)@.retry(retries).0,
            r == old(self)@.retry(retries).1,
    {
        if retries == 0 {
            return Acquired::Create;
        }
        match self.idle.pop() {
            Some(client) => Acquired::Reused(client),
            None => Acquired::Pause { retries: retries - 1 },
        }
    }

    /// Asks for a client without waiting for one: one that waits, or else a new
    /// one is to be made.
    pub fn acquire_now(&mut self) -> (r: Option<C>)
        ensures
            final(self)@ == old(self)@.acquire_now().0,
            r == old(self)@.acquire_now().1,
    {
        if let Some(client) = self.idle.pop() {
            return Some(client);
        }
        if self.created_clients < self.max_pool_size {
            self.created_clients = self.created_clients + 1;
        }
        None
    }

    /// Takes a client back after a call, if it can be used again and there is
    /// room.
    pub fn return_client(&mut self, client: C, result: &Result<ServiceResponse, ProtocolError>)
        ensures
            final(self)@ == old(self)@.returned(client, result_view(*result)),
    {
        let should_pool = match result {
            Ok(_) => true,
            Err(e) => e.is_connection_loss(),
        };
        if should_pool && self.idle.len() < self.max_pool_size {
            self.idle.push(client);
        }
    }

    /// Empties the pool, and hands over the clients that are to be closed.
    pub fn close(&mut self) -> (r: Vec<C>)
        ensures
            final(self)@ == old(self)@.closed(),
            r@ == old(self)@.idle,
    {
        let mut idle: Vec<C> = Vec::new();
        std::mem::swap(&mut idle, &mut self.idle);
        self.created_clients = 0;
        assert(self@.idle =~= Seq::empty());
        idle
    }

    /// How many clients were made for the pool.
    pub fn pooled_count(&self) -> (r: usize)
        ensures
            r == self@.created,
    {
        self.created_clients
    }
}

/// Where a call on a pool of clients stands.
#[derive(Debug, Clone, Copy, PartialEq, Eq, Structural)]
pub enum CallStage {
    /// Waiting to be let in.
    AwaitingPermit,
    /// Waiting for a client to come back, with so many times left to ask.
    Pausing { retries: u32 },
    /// Waiting for the client.
    Calling,
    Over,
}

/// What happened to a call on a pool of clients.
#[derive(Debug)]
pub enum CallEvent<C> {
    PermitGranted,
    /// No more calls are let in.
    PermitDenied,
    /// The pause is over.
    Paused,
    /// The client is done.
    Called { client: C, result: Result<ServiceResponse, ProtocolError> },
}

/// What to do for a call on a pool of clients.
#[derive(Debug)]
pub enum CallAction<C> {
    /// Pause for ten milliseconds.
    Pause,
    /// Call on the client, or on a new one.
    Call { client: Option<C> },
    Finish(Result<ServiceResponse, ProtocolError>),
    Nothing,
}

/// The mathematical model of a [`CallAction`].
pub enum CallActionView<C> {
    Pause,
    Call { client: Option<C> },
    Finish(Result<ResponseView, ErrorView>),
    Nothing,
}

impl<C> View for CallAction<C> {
    type V = CallActionView<C>;

    open spec fn view(&self) -> CallActionView<C> {
        match *self {
            CallAction::Pause => CallActionView::Pause,
            CallAction::Call { client } => CallActionView::Call { client },
            CallAction::Finish(r) => CallActionView::Finish(result_view(r)),
            CallAction::Nothing => CallActionView::Nothing,
        }
    }
}

impl<C> ClientPoolView<C> {
    /// What comes of asking for a client.
    pub open spec fn settle(asked: (Self, Acquired<C>)) -> (Self, CallStage, CallActionView<C>) {
        match asked.1 {
            Acquired::Reused(client) => (
                asked.0,
                CallStage::Calling,
                CallActionView::Call { client: Some(client) },
            ),
            Acquired::Create => (
                asked.0,
                CallStage::Calling,
                CallActionView::Call { client: None },
            ),
            Acquired::Wait { retries } => (
                asked.0,
                CallStage::Pausing { retries },
                CallActionView::Pause,
            ),
            Acquired::Pause { retries } => (
                asked.0,
                CallStage::Pausing { retries },
                CallActionView::Pause,
            ),
        }
    }

    /// A call that was let in asks for a client. A patient one that finds none
    /// asks again at once, and then after every pause.
    pub open spec fn on_permit(self, patient: bool) -> (Self, CallStage, CallActionView<C>) {
        if patient {
            let asked = self.acquire();
            match asked.1 {
                Acquired::Wait { retries } => Self::settle(asked.0.retry(retries)),
                _ => Self::settle(asked),
            }
        } else {
            let (after, client) = self.acquire_now();
            (after, CallStage::Calling, CallActionView::Call { client })
        }
    }

    /// The pool and a call on it after an event, and what to do for the call.
    pub open spec fn advance(self, stage: CallStage, event: CallEvent<C>, patient: bool) -> (
        Self,
        CallStage,
        CallActionView<C>,
    ) {
        match (stage, event) {
            (CallStage::AwaitingPermit, CallEvent::PermitDenied) => (
                self,
                CallStage::Over,
                CallActionView::Finish(Err(exhausted())),
            ),
            (CallStage::AwaitingPermit, CallEvent::PermitGranted) => self.on_permit(patient),
            (CallStage::Pausing { retries }, CallEvent::Paused) => Self::settle(
                self.retry(retries),
            ),
            (CallStage::Calling, CallEvent::Called { client, result }) => (
                self.returned(client, result_view(result)),
                CallStage::Over,
                CallActionView::Finish(result_view(result)),
            ),
            _ => (self, stage, CallActionView::Nothing),
        }
    }
}

/// What comes of asking for a client.
fn settle<C>(asked: Acquired<C>) -> (r: (CallStage, CallAction<C>))
    ensures
        forall|p: ClientPoolView<C>|
            #[trigger] ClientPoolView::settle((p, asked)) == (p, r.0, r.1@),
{
    match asked {
        Acquired::Reused(client) => (
            CallStage::Calling,
            CallAction::Call { client: Some(client) },
        ),
        Acquired::Create => (CallStage::Calling, CallAction::Call { client: None }),
        Acquired::Wait { retries } => (CallStage::Pausing { retries }, CallAction::Pause),
        Acquired::Pause { retries } => (CallStage::Pausing { retries }, CallAction::Pause),
    }
}

impl<C> UdsClientPool<C> {
    /// Takes note of what happened to a call, and says what to do for it and
    /// where it stands then. A call begins by waiting to be let in. A patient one
    /// waits a little for a client; the calls of a batch do not.
    pub fn advance(&mut self, stage: CallStage, event: CallEvent<C>, patient: bool) -> (r: (
        CallStage,
        CallAction<C>,
    ))
        ensures
            (final(self)@, r.0, r.1@) == old(self)@.advance(stage, event, patient),
    {
        match (stage, event) {
            (CallStage::AwaitingPermit, CallEvent::PermitDenied) => (
                CallStage::Over,
                CallAction::Finish(Err(exhausted_error())),
            ),
            (CallStage::AwaitingPermit, CallEvent::PermitGranted) => {
                if patient {
                    match self.acquire() {
                        Acquired::Wait { retries } => {
                            let asked = self.retry(retries);
                            settle(asked)
                        },
                        asked => settle(asked),
                    }
                } else {
                    let client = self.acquire_now();
                    (CallStage::Calling, CallAction::Call { client })
                }
            },
            (CallStage::Pausing { retries }, CallEvent::Paused) => {
                let asked = self.retry(retries);
                settle(asked)
            },
            (CallStage::Calling, CallEvent::Called { client, result }) => {
                self.return_client(client, &result);
                (CallStage::Over, CallAction::Finish(result))
            },
            (stage, _) => (stage, CallAction::Nothing),
        }
    }
}

/// A call on the pool ends with what its client said, and gives its client back
/// if that can be used again.
pub proof fn law_call_ends_with_the_answer<C>(
    p: ClientPoolView<C>,
    client: C,
    result: Result<ServiceResponse, ProtocolError>,
    patient: bool,
)
    ensures
        p.advance(CallStage::Calling, CallEvent::Called { client, result }, patient) == (
            p.returned(client, result_view(result)),
            CallStage::Over,
            CallActionView::<C>::Finish(result_view(result)),
        ),
{
}

/// A call that is let in reaches a client: at once, or after three pauses at
/// most, even if no client ever comes back.
pub proof fn law_every_call_gets_a_client<C>(p: ClientPoolView<C>)
    requires
        p.idle.len() == 0,
        p.created >= p.max_pool_size,
    ensures
        ({
            let (p1, s1, a1) = p.advance(
                CallStage::AwaitingPermit,
                CallEvent::PermitGranted,
                true,
            );
            let (p2, s2, a2) = p1.advance(s1, CallEvent::Paused, true);
            let (p3, s3, a3) = p2.advance(s2, CallEvent::Paused, true);
            let (p4, s4, a4) = p3.advance(s3, CallEvent::Paused, true);
            &&& a1 is Pause && a2 is Pause && a3 is Pause
            &&& a4 == (CallActionView::<C>::Call { client: None })
            &&& p4 == p
        }),
{
}

/// The error when no more calls are let in.
pub open spec fn exhausted() -> ErrorView {
    ErrorView::ResourceExhausted("pool exhausted"@)
}

/// The error when no more calls are let in.
pub fn exhausted_error() -> (r: ProtocolError)
    ensures
        r@ == exhausted(),
{
    ProtocolError::ResourceExhausted("pool exhausted".to_string())
}

/// However clients are taken and returned, a pool holds no more of them, and
/// makes no more of them, than it may.
pub proof fn law_pool_stays_bounded<C>(
    p: ClientPoolView<C>,
    retries: u32,
    client: C,
    result: Result<ResponseView, ErrorView>,
)
    requires
        p.bounded(),
    ensures
        p.acquire().0.bounded(),
        p.retry(retries).0.bounded(),
        p.acquire_now().0.bounded(),
        p.returned(client, result).bounded(),
        p.closed().bounded(),
        ClientPoolView::<C>::fresh(p.path, p.max_concurrent, p.max_pool_size).bounded(),
{
}

/// A client that came back from a call that succeeded is the next to be used,
/// if there was room for it.
pub proof fn law_returned_client_is_reused<C>(
    p: ClientPoolView<C>,
    client: C,
    response: ResponseView,
)
    requires
        p.idle.len() < p.max_pool_size,
    ensures
        p.returned(client, Ok(response)).acquire() == (p, Acquired::Reused(client)),
{
    assert(p.idle.push(client).drop_last() =~= p.idle);
}

/// A client whose call failed for another reason than a lost connection is not
/// used again.
pub proof fn law_failed_client_is_dropped<C>(p: ClientPoolView<C>, client: C, e: ErrorView)
    requires
        !e.is_connection_loss(),
    ensures
        p.returned(client, Err(e)) == p,
{
}

/// Asking comes to an end: after three times without success a client is made.
pub proof fn law_asking_ends<C>(p: ClientPoolView<C>)
    requires
        p.idle.len() == 0,
    ensures
        p.retry(3).1 == (Acquired::<C>::Pause { retries: 2 }),
        p.retry(2).1 == (Acquired::<C>::Pause { retries: 1 }),
        p.retry(1).1 == (Acquired::<C>::Pause { retries: 0 }),
        p.retry(0).1 == Acquired::<C>::Create,
{
}

/// Which client a call goes to.
#[derive(Debug)]
pub enum Route {
    /// Any client of the shared pool.
    Shared,
    /// The one client of the topic, one call after another.
    Serial(String),
}

/// The mathematical model of a [`Route`].
pub enum RouteView {
    Shared,
    Serial(Seq<char>),
}

impl View for Route {
    type V = RouteView;

    open spec fn view(&self) -> RouteView {
        match *self {
            Route::Shared => RouteView::Shared,
            Route::Serial(t) => RouteView::Serial(t@),
        }
    }
}

/// A call with a topic goes to the client of the topic; one without, or with an
/// empty one, to the shared pool.
pub open spec fn route_of(topic: Option<Seq<char>>) -> RouteView {
    match topic {
        Some(t) => if t.len() > 0 {
            RouteView::Serial(t)
        } else {
            RouteView::Shared
        },
        None => RouteView::Shared,
    }
}

/// A pool that keeps the calls of one topic in order. `C` stands for a client.
#[derive(Debug)]
pub struct TopicBasedPool<C> {
    path: String,
    default_pool: UdsClientPool<C>,
    topic_clients: StrMap<C>,
}

/// The mathematical model of a [`TopicBasedPool`].
pub struct TopicPoolView<C> {
    pub path: Seq<char>,
    pub default_pool: ClientPoolView<C>,
    pub topics: Map<Seq<char>, C>,
}

impl<C> View for TopicBasedPool<C> {
    type V = TopicPoolView<C>;

    closed spec fn view(&self) -> TopicPoolView<C> {
        TopicPoolView {
            path: self.path@,
            default_pool: self.default_pool@,
            topics: self.topic_clients@,
        }
    }
}

impl<C> TopicPoolView<C> {
    /// The pool once the topic has a client: its own if it had one, else the
    /// given one.
    pub open spec fn with_topic(self, topic: Seq<char>, client: C) -> Self {
        if self.topics.dom().contains(topic) {
            self
        } else {
            TopicPoolView { topics: self.topics.insert(topic, client), ..self }
        }
    }
}

impl<C> TopicBasedPool<C> {
    pub fn new(path: &str, max_concurrent: usize) -> (r: TopicBasedPool<C>)
        ensures
            r@ == (TopicPoolView::<C> {
                path: path@,
                default_pool: ClientPoolView::fresh(path@, max_concurrent, max_concurrent),
                topics: Map::empty(),
            }),
    {
        TopicBasedPool {
            path: path.to_string(),
            default_pool: UdsClientPool::new(path, max_concurrent),
            topic_clients: StrMap::new(),
        }
    }

    pub fn path(&self) -> (r: &str)
        ensures
            r@ == self@.path,
    {
        self.path.as_str()
    }

    /// Which client a call with this topic goes to.
    pub fn route(topic: &Option<String>) -> (r: Route)
        ensures
            r@ == route_of(crate::protocol::opt_text(*topic)),
    {
        match topic {
            Some(t) => {
                if t.as_str().is_empty() {
                    Route::Shared
                } else {
                    Route::Serial(t.clone())
                }
            },
            None => Route::Shared,
        }
    }

    /// The client of a topic.
    pub fn topic_client(&self, topic: &str) -> (r: Option<&C>)
        ensures
            match r {
                Some(c) => self@.topics.dom().contains(topic@) && *c == self@.topics[topic@],
                None => !self@.topics.dom().contains(topic@),
            },
    {
        self.topic_clients.get(topic)
    }

    /// Gives a topic a client, unless it has one.
    pub fn ensure_topic(&mut self, topic: &str, client: C)
        ensures
            final(self)@ == old(self)@.with_topic(topic@, client),
    {
        if !self.topic_clients.contains_key(topic) {
            self.topic_clients.insert(topic.to_string(), client);
        }
    }

    /// Takes note of what happened to a call that goes to the shared pool, and
    /// says what to do for it and where it stands then.
    pub fn advance(&mut self, stage: CallStage, event: CallEvent<C>) -> (r: (
        CallStage,
        CallAction<C>,
    ))
        ensures
            (final(self)@.default_pool, r.0, r.1@) == old(self)@.default_pool.advance(
                stage,
                event,
                true,
            ),
            final(self)@ == (TopicPoolView {
                default_pool: final(self)@.default_pool,
                ..old(self)@
            }),
    {
        self.default_pool.advance(stage, event, true)
    }

    /// Empties the shared pool, and hands over its clients, which are to be
    /// closed. The clients of the topics are to be closed too, but stay.
    pub fn close(&mut self) -> (r: Vec<C>)
        ensures
            r@ == old(self)@.default_pool.idle,
            final(self)@ == (TopicPoolView {
                default_pool: old(self)@.default_pool.closed(),
                ..old(self)@
            }),
    {
        self.default_pool.close()
    }

    /// How many topics have a client.
    pub fn topic_count(&self) -> (r: usize)
        ensures
            self@.topics.dom().finite(),
            r == self@.topics.len(),
    {
        self.topic_clients.len()
    }

    /// The topics that have a client.
    pub fn topics(&self) -> (r: Vec<String>)
        ensures
            protocol::texts(r@).no_duplicates(),
            protocol::texts(r@).to_set() == self@.topics.dom(),
    {
        let keys = self.topic_clients.keys();
        assert(self@.topics.dom() =~= self.topic_clients@.dom());
        keys
    }
}

/// The calls of one topic all go to one client, whatever happens in between;
/// those of another topic go to another.
pub proof fn law_topic_keeps_its_client<C>(
    p: TopicPoolView<C>,
    topic: Seq<char>,
    other: Seq<char>,
    a: C,
    b: C,
)
    ensures
        p.with_topic(topic, a).topics.dom().contains(topic),
        p.with_topic(topic, a).with_topic(topic, b) == p.with_topic(topic, a),
        topic != other ==> p.with_topic(topic, a).with_topic(other, b).topics[topic]
            == p.with_topic(topic, a).topics[topic],
{
}

#[derive(Debug, Clone, Copy, PartialEq, Eq, Structural)]
pub struct PoolConfig {
    pub max_concurrent: usize,
    pub request_timeout: Duration,
    pub circuit_breaker_threshold: usize,
    pub circuit_breaker_timeout: Duration,
    pub connection_timeout: Duration,
}

impl Default for PoolConfig {
    fn default() -> (r: PoolConfig)
        ensures
            r.max_concurrent == 100,
            r.request_timeout@ == 30_000_000_000,
            r.circuit_breaker_threshold == 5,
            r.circuit_breaker_timeout@ == 30_000_000_000,
            r.connection_timeout@ == 5_000_000_000,
    {
        PoolConfig {
            max_concurrent: 100,
            request_timeout: Duration::from_secs(30),
            circuit_breaker_threshold: 5,
            circuit_breaker_timeout: Duration::from_secs(30),
            connection_timeout: Duration::from_secs(5),
        }
    }
}

#[derive(Debug, Clone)]
pub struct PoolMetrics {
    pub total_requests: u64,
    pub successful_requests: u64,
    pub failed_requests: u64,
    pub circuit_breaker_opens: u64,
    pub circuit_breaker_state: String,
    pub timeout_errors: u64,
    pub active_requests: usize,
}

/// Counters of a production pool. They wrap around.
pub struct Counters {
    pub total: u64,
    pub successful: u64,
    pub failed: u64,
    pub circuit_breaker_opens: u64,
    pub timeouts: u64,
    pub active: usize,
}

/// The name of a state of the circuit breaker.
pub open spec fn state_name(state: CircuitState) -> Seq<char> {
    match state {
        CircuitState::Closed => "Closed"@,
        CircuitState::Open => "Open"@,
        CircuitState::HalfOpen => "HalfOpen"@,
    }
}

/// What came of a call.
#[derive(Debug)]
pub enum CallOutcome {
    /// The client answered in time.
    Answered(Result<ServiceResponse, ProtocolError>),
    TimedOut,
}

impl CallOutcome {
    pub open spec fn result(self) -> Result<ResponseView, ErrorView> {
        match self {
            CallOutcome::Answered(r) => result_view(r),
            CallOutcome::TimedOut => Err(ErrorView::Timeout),
        }
    }
}

/// A pool of clients behind a circuit breaker. `C` stands for a client.
#[derive(Debug)]
pub struct ProductionPool<C> {
    path: String,
    config: PoolConfig,
    idle: Vec<C>,
    breaker: CircuitBreaker,
    total_requests: u64,
    successful_requests: u64,
    failed_requests: u64,
    circuit_breaker_opens: u64,
    timeout_errors: u64,
    active_requests: usize,
    shutdown: bool,
}

/// The mathematical model of a [`ProductionPool`].
pub struct ProductionView<C> {
    pub path: Seq<char>,
    pub config: PoolConfig,
    /// The clients that are waiting, the one that came last at the end.
    pub idle: Seq<C>,
    pub breaker: BreakerView,
    pub counters: Counters,
    pub shutdown: bool,
}

impl<C> View for ProductionPool<C> {
    type V = ProductionView<C>;

    closed spec fn view(&self) -> ProductionView<C> {
        ProductionView {
            path: self.path@,
            config: self.config,
            idle: self.idle@,
            breaker: self.breaker@,
            counters: Counters {
                total: self.total_requests,
                successful: self.successful_requests,
                failed: self.failed_requests,
                circuit_breaker_opens: self.circuit_breaker_opens,
                timeouts: self.timeout_errors,
                active: self.active_requests,
            },
            shutdown: self.shutdown,
        }
    }
}

impl<C> ProductionView<C> {
    pub open spec fn fresh(path: Seq<char>, config: PoolConfig, clock: Clock) -> Self {
        ProductionView {
            path,
            config,
            idle: Seq::empty(),
            breaker: BreakerView {
                timeout: config.circuit_breaker_timeout@,
                ..BreakerView::fresh(config.circuit_breaker_threshold, clock)
            },
            counters: Counters {
                total: 0,
                successful: 0,
                failed: 0,
                circuit_breaker_opens: 0,
                timeouts: 0,
                active: 0,
            },
            shutdown: false,
        }
    }

    /// Why a call at `now` is turned away, if it is.
    pub open spec fn refusal(self, now: Instant) -> Option<ErrorView> {
        if self.shutdown {
            Some(ErrorView::Server("pool is shutting down"@))
        } else if self.breaker.observed(now).state == CircuitState::Open {
            Some(crate::circuit_breaker::refusal())
        } else {
            None
        }
    }

    /// The pool after a call at `now` asked to be let in.
    pub open spec fn begun(self, now: Instant) -> Self {
        if self.shutdown {
            self
        } else {
            let looked = ProductionView { breaker: self.breaker.observed(now), ..self };
            if self.breaker.observed(now).state == CircuitState::Open {
                looked
            } else {
                ProductionView {
                    counters: Counters {
                        total: metrics::plus(self.counters.total, 1),
                        active: next(self.counters.active),
                        ..self.counters
                    },
                    ..looked
                }
            }
        }
    }

    /// The pool after a call was let in but then had to be given up.
    pub open spec fn denied(self) -> Self {
        ProductionView {
            counters: Counters { active: previous(self.counters.active), ..self.counters },
            ..self
        }
    }

    /// The pool after a call came to its end at `now` and its client came back.
    pub open spec fn finished(self, client: C, outcome: CallOutcome, now: Instant) -> Self {
        let ok = outcome.result() is Ok;
        ProductionView {
            idle: self.idle.push(client),
            breaker: if ok {
                self.breaker.after_success()
            } else {
                self.breaker.after_failure(now)
            },
            counters: Counters {
                active: previous(self.counters.active),
                successful: if ok {
                    metrics::plus(self.counters.successful, 1)
                } else {
                    self.counters.successful
                },
                failed: if ok {
                    self.counters.failed
                } else {
                    metrics::plus(self.counters.failed, 1)
                },
                timeouts: if outcome is TimedOut {
                    metrics::plus(self.counters.timeouts, 1)
                } else {
                    self.counters.timeouts
                },
                ..self.counters
            },
            ..self
        }
    }

    /// What the counters keep, as long as none has wrapped around and no call is
    /// given up.
    pub open spec fn balanced(self) -> bool {
        &&& self.counters.active + self.counters.successful + self.counters.failed
            == self.counters.total
        &&& self.counters.timeouts <= self.counters.failed
    }
}

impl<C> ProductionPool<C> {
    pub fn new(path: &str) -> (r: ProductionPool<C>)
        ensures
            exists|config: PoolConfig| #[trigger]
                is_default(config) && r@ == ProductionView::<C>::fresh(
                    path@,
                    config,
                    r@.breaker.clock,
                ),
    {
        let config = PoolConfig::default();
        assert(is_default(config));
        ProductionPool::with_config(path, config)
    }

    pub fn with_config(path: &str, config: PoolConfig) -> (r: ProductionPool<C>)
        ensures
            r@ == ProductionView::<C>::fresh(path@, config, r@.breaker.clock),
    {
        let r = ProductionPool {
            path: path.to_string(),
            config,
            idle: Vec::new(),
            breaker: CircuitBreaker::new(config.circuit_breaker_threshold).with_timeout(
                config.circuit_breaker_timeout,
            ),
            total_requests: 0,
            successful_requests: 0,
            failed_requests: 0,
            circuit_breaker_opens: 0,
            timeout_errors: 0,
            active_requests: 0,
            shutdown: false,
        };
        assert(r@.idle =~= Seq::empty());
        r
    }

    pub fn path(&self) -> (r: &str)
        ensures
            r@ == self@.path,
    {
        self.path.as_str()
    }

    pub fn config(&self) -> (r: &PoolConfig)
        ensures
            *r == self@.config,
    {
        &self.config
    }

    /// Asks to be let in for a call at the current time.
    pub fn begin_call(&mut self) -> (r: Result<(), ProtocolError>)
        ensures
            exists|now: Instant|
                old(self)@.breaker.clock.shows(now) && #[trigger] old(self)@.begun(now)
                    == final(self)@ && match r {
                    Ok(()) => old(self)@.refusal(now) is None,
                    Err(e) => old(self)@.refusal(now) == Some(e@),
                },
    {
        let now = self.breaker.now();
        self.begin_call_at(now)
    }

    /// Asks to be let in for a call at the time `now` of the pool's clock.
    pub fn begin_call_at(&mut self, now: Instant) -> (r: Result<(), ProtocolError>)
        ensures
            final(self)@ == old(self)@.begun(now),
            match r {
                Ok(()) => old(self)@.refusal(now) is None,
                Err(e) => old(self)@.refusal(now) == Some(e@),
            },
    {
        if self.shutdown {
            return Err(ProtocolError::Server("pool is shutting down".to_string()));
        }
        match self.breaker.can_execute_at(now) {
            Ok(()) => {},
            Err(e) => {
                return Err(e);
            },
        }
        self.total_requests = metrics::counted(self.total_requests, 1);
        self.active_requests = self.active_requests.wrapping_add(1);
        Ok(())
    }

    /// Gives up a call that was let in, because the pool was closed meanwhile.
    pub fn permit_denied(&mut self) -> (r: ProtocolError)
        ensures
            final(self)@ == old(self)@.denied(),
            r@ == exhausted(),
    {
        self.active_requests = self.active_requests.wrapping_sub(1);
        exhausted_error()
    }

    /// Takes out the client that came last; none means that one is to be made.
    pub fn take_client(&mut self) -> (r: Option<C>)
        ensures
            old(self)@.idle.len() > 0 ==> r == Some(old(self)@.idle.last()) && final(self)@ == (
            ProductionView { idle: old(self)@.idle.drop_last(), ..old(self)@ }),
            old(self)@.idle.len() == 0 ==> r is None && final(self)@ == old(self)@,
    {
        self.idle.pop()
    }

    /// Takes the client of a call back, and counts what came of the call.
    pub fn finish_call(&mut self, client: C, outcome: CallOutcome) -> (r: Result<
        ServiceResponse,
        ProtocolError,
    >)
        ensures
            exists|now: Instant|
                old(self)@.breaker.clock.shows(now) && final(self)@ == #[trigger] old(
                    self,
                )@.finished(client, outcome, now),
            result_view(r) == outcome.result(),
    {
        let now = self.breaker.now();
        self.finish_call_at(client, outcome, now)
    }

    /// Takes the client of a call back, and counts what came of the call, at the
    /// time `now` of the pool's clock.
    pub fn finish_call_at(&mut self, client: C, outcome: CallOutcome, now: Instant) -> (r: Result<
        ServiceResponse,
        ProtocolError,
    >)
        ensures
            final(self)@ == old(self)@.finished(client, outcome, now),
            result_view(r) == outcome.result(),
    {
        self.idle.push(client);
        self.active_requests = self.active_requests.wrapping_sub(1);
        match outcome {
            CallOutcome::Answered(Ok(response)) => {
                self.breaker.record_success();
                self.successful_requests = metrics::counted(self.successful_requests, 1);
                Ok(response)
            },
            CallOutcome::Answered(Err(e)) => {
                self.breaker.record_failure_at(now);
                self.failed_requests = metrics::counted(self.failed_requests, 1);
                Err(e)
            },
            CallOutcome::TimedOut => {
                self.breaker.record_failure_at(now);
                self.timeout_errors = metrics::counted(self.timeout_errors, 1);
                self.failed_requests = metrics::counted(self.failed_requests, 1);
                Err(ProtocolError::Timeout)
            },
        }
    }

    /// A snapshot of the counters and of the circuit breaker.
    pub fn metrics(&mut self) -> (r: PoolMetrics)
        ensures
            exists|now: Instant|
                old(self)@.breaker.clock.shows(now) && #[trigger] old(self)@.breaker.observed(now)
                    == final(self)@.breaker,
            final(self)@ == (ProductionView { breaker: final(self)@.breaker, ..old(self)@ }),
            r.total_requests == old(self)@.counters.total,
            r.successful_requests == old(self)@.counters.successful,
            r.failed_requests == old(self)@.counters.failed,
            r.circuit_breaker_opens == old(self)@.counters.circuit_breaker_opens,
            r.circuit_breaker_state@ == state_name(final(self)@.breaker.state),
            r.timeout_errors == old(self)@.counters.timeouts,
            r.active_requests == old(self)@.counters.active,
    {
        let state = match self.breaker.state() {
            CircuitState::Closed => "Closed",
            CircuitState::Open => "Open",
            CircuitState::HalfOpen => "HalfOpen",
        };
        PoolMetrics {
            total_requests: self.total_requests,
            successful_requests: self.successful_requests,
            failed_requests: self.failed_requests,
            circuit_breaker_opens: self.circuit_breaker_opens,
            circuit_breaker_state: state.to_string(),
            timeout_errors: self.timeout_errors,
            active_requests: self.active_requests,
        }
    }

    pub fn circuit_breaker_state(&mut self) -> (r: CircuitState)
        ensures
            r == final(self)@.breaker.state,
            exists|now: Instant|
                old(self)@.breaker.clock.shows(now) && #[trigger] old(self)@.breaker.observed(now)
                    == final(self)@.breaker,
            final(self)@ == (ProductionView { breaker: final(self)@.breaker, ..old(self)@ }),
    {
        self.breaker.state()
    }

    /// Lets no more calls in, and hands over the clients that are to be closed.
    pub fn close(&mut self) -> (r: Vec<C>)
        ensures
            final(self)@ == (ProductionView {
                idle: Seq::empty(),
                shutdown: true,
                ..old(self)@
            }),
            r@ == old(self)@.idle,
    {
        self.shutdown = true;
        let mut idle: Vec<C> = Vec::new();
        std::mem::swap(&mut idle, &mut self.idle);
        assert(self@.idle =~= Seq::empty());
        idle
    }

    pub fn is_shutting_down(&self) -> (r: bool)
        ensures
            r == self@.shutdown,
    {
        self.shutdown
    }
}

/// What happened to a call on a production pool.
#[derive(Debug)]
pub enum ProductionEvent<C> {
    PermitGranted,
    /// No more calls are let in.
    PermitDenied,
    /// The client is done, or its time is over.
    Called { client: C, outcome: CallOutcome },
}

/// What to do for a call on a production pool.
#[derive(Debug)]
pub enum ProductionAction<C> {
    /// Wait until the call is let in.
    AcquirePermit,
    /// Call on the client, or on a new one.
    Call { client: Option<C> },
    Finish(Result<ServiceResponse, ProtocolError>),
    Nothing,
}

/// The mathematical model of a [`ProductionAction`].
pub enum ProductionActionView<C> {
    AcquirePermit,
    Call { client: Option<C> },
    Finish(Result<ResponseView, ErrorView>),
    Nothing,
}

impl<C> View for ProductionAction<C> {
    type V = ProductionActionView<C>;

    open spec fn view(&self) -> ProductionActionView<C> {
        match *self {
            ProductionAction::AcquirePermit => ProductionActionView::AcquirePermit,
            ProductionAction::Call { client } => ProductionActionView::Call { client },
            ProductionAction::Finish(r) => ProductionActionView::Finish(result_view(r)),
            ProductionAction::Nothing => ProductionActionView::Nothing,
        }
    }
}

impl<C> ProductionView<C> {
    /// The pool and a call on it once the call asked at `now`, and what to do for
    /// the call.
    pub open spec fn start(self, now: Instant) -> (Self, CallStage, ProductionActionView<C>) {
        match self.refusal(now) {
            Some(e) => (
                self.begun(now),
                CallStage::Over,
                ProductionActionView::Finish(Err(e)),
            ),
            None => (
                self.begun(now),
                CallStage::AwaitingPermit,
                ProductionActionView::AcquirePermit,
            ),
        }
    }

    /// The pool without the client that came last, and that client.
    pub open spec fn taken(self) -> (Self, Option<C>) {
        if self.idle.len() > 0 {
            (
                ProductionView { idle: self.idle.drop_last(), ..self },
                Some(self.idle.last()),
            )
        } else {
            (self, None)
        }
    }

    /// The pool and a call on it after an event at `now`, and what to do for the
    /// call.
    pub open spec fn advance(self, stage: CallStage, event: ProductionEvent<C>, now: Instant) -> (
        Self,
        CallStage,
        ProductionActionView<C>,
    ) {
        match (stage, event) {
            (CallStage::AwaitingPermit, ProductionEvent::PermitDenied) => (
                self.denied(),
                CallStage::Over,
                ProductionActionView::Finish(Err(exhausted())),
            ),
            (CallStage::AwaitingPermit, ProductionEvent::PermitGranted) => (
                self.taken().0,
                CallStage::Calling,
                ProductionActionView::Call { client: self.taken().1 },
            ),
            (CallStage::Calling, ProductionEvent::Called { client, outcome }) => (
                self.finished(client, outcome, now),
                CallStage::Over,
                ProductionActionView::Finish(outcome.result()),
            ),
            _ => (self, stage, ProductionActionView::Nothing),
        }
    }
}

impl<C> ProductionPool<C> {
    /// Begins a call at the time `now` of the pool's clock.
    pub fn start_at(&mut self, now: Instant) -> (r: (CallStage, ProductionAction<C>))
        ensures
            (final(self)@, r.0, r.1@) == old(self)@.start(now),
    {
        match self.begin_call_at(now) {
            Ok(()) => (CallStage::AwaitingPermit, ProductionAction::AcquirePermit),
            Err(e) => (CallStage::Over, ProductionAction::Finish(Err(e))),
        }
    }

    /// Takes note of what happened to a call at the time `now` of the pool's
    /// clock, and says what to do for it and where it stands then. The calls of a
    /// batch go the same way, each for itself.
    pub fn advance_at(&mut self, stage: CallStage, event: ProductionEvent<C>, now: Instant) -> (r: (
        CallStage,
        ProductionAction<C>,
    ))
        ensures
            (final(self)@, r.0, r.1@) == old(self)@.advance(stage, event, now),
    {
        match (stage, event) {
            (CallStage::AwaitingPermit, ProductionEvent::PermitDenied) => {
                let e = self.permit_denied();
                (CallStage::Over, ProductionAction::Finish(Err(e)))
            },
            (CallStage::AwaitingPermit, ProductionEvent::PermitGranted) => {
                let client = self.take_client();
                (CallStage::Calling, ProductionAction::Call { client })
            },
            (CallStage::Calling, ProductionEvent::Called { client, outcome }) => {
                let result = self.finish_call_at(client, outcome, now);
                (CallStage::Over, ProductionAction::Finish(result))
            },
            (stage, _) => (stage, ProductionAction::Nothing),
        }
    }

    /// The current time on the pool's clock.
    pub fn now(&self) -> (r: Instant)
        ensures
            self@.breaker.clock.shows(r),
    {
        self.breaker.now()
    }
}

/// A call that is let in ends with what its client said in time, or with a
/// timeout, and leaves the pool with as many clients as it took, or one more.
pub proof fn law_call_runs_through<C>(
    p: ProductionView<C>,
    client: C,
    outcome: CallOutcome,
    t1: Instant,
    t2: Instant,
    t3: Instant,
)
    requires
        p.refusal(t1) is None,
    ensures
        ({
            let (p1, s1, a1) = p.start(t1);
            let (p2, s2, a2) = p1.advance(s1, ProductionEvent::PermitGranted, t2);
            let (p3, s3, a3) = p2.advance(s2, ProductionEvent::Called { client, outcome }, t3);
            &&& a1 == ProductionActionView::<C>::AcquirePermit
            &&& a2 is Call
            &&& a3 == ProductionActionView::<C>::Finish(outcome.result())
            &&& s3 == CallStage::Over
            &&& p3.counters.total == metrics::plus(p.counters.total, 1)
            &&& p3.counters.active == p.counters.active
            &&& p3.idle.len() == if p.idle.len() > 0 {
                p.idle.len()
            } else {
                1
            }
        }),
{
}

/// The settings that a pool has unless it is told otherwise.
pub open spec fn is_default(config: PoolConfig) -> bool {
    &&& config.max_concurrent == 100
    &&& config.request_timeout@ == 30_000_000_000
    &&& config.circuit_breaker_threshold == 5
    &&& config.circuit_breaker_timeout@ == 30_000_000_000
    &&& config.connection_timeout@ == 5_000_000_000
}

/// A call that is turned away counts nowhere, and leaves the clients as they
/// were.
pub proof fn law_refused_call_leaves_no_trace<C>(p: ProductionView<C>, now: Instant)
    requires
        p.refusal(now) is Some,
    ensures
        p.begun(now).counters == p.counters,
        p.begun(now).idle == p.idle,
{
}

/// Every call that is let in is under way, has succeeded or has failed; those
/// that timed out are among the failures.
pub proof fn law_calls_stay_balanced<C>(
    p: ProductionView<C>,
    client: C,
    outcome: CallOutcome,
    now: Instant,
)
    requires
        p.balanced(),
        p.counters.total < u64::MAX,
        p.counters.active < usize::MAX,
    ensures
        p.begun(now).balanced(),
        p.counters.active > 0 ==> p.finished(client, outcome, now).balanced(),
        ProductionView::<C>::fresh(p.path, p.config, p.breaker.clock).balanced(),
{
}

/// A pool that was closed turns every call away, for good.
pub proof fn law_closed_pool_refuses<C>(
    p: ProductionView<C>,
    client: C,
    outcome: CallOutcome,
    t: Instant,
    now: Instant,
)
    requires
        p.shutdown,
    ensures
        p.refusal(now) == Some(ErrorView::Server("pool is shutting down"@)),
        p.begun(t).shutdown,
        p.finished(client, outcome, t).shutdown,
        p.denied().shutdown,
{
}

/// The pool after calls that failed one after another, at the given times.
pub open spec fn after_failed_calls<C>(
    p: ProductionView<C>,
    client: C,
    times: Seq<Instant>,
) -> ProductionView<C>
    decreases times.len(),
{
    if times.len() == 0 {
        p
    } else {
        after_failed_calls(p, client, times.drop_last()).finished(
            client,
            CallOutcome::TimedOut,
            times.last(),
        )
    }
}

/// As many failures in a row as the threshold make a new pool turn calls away,
/// until the pause is over.
pub proof fn law_failing_service_is_spared<C>(
    path: Seq<char>,
    config: PoolConfig,
    clock: Clock,
    client: C,
    times: Seq<Instant>,
    now: Instant,
)
    requires
        0 < times.len() == config.circuit_breaker_threshold,
        time::elapsed_nanos(now, times.last()) <= config.circuit_breaker_timeout@,
    ensures
        after_failed_calls(
            ProductionView::<C>::fresh(path, config, clock),
            client,
            times,
        ).refusal(now) == Some(crate::circuit_breaker::refusal()),
{
    lemma_failed_calls(path, config, clock, client, times);
}

proof fn lemma_failed_calls<C>(
    path: Seq<char>,
    config: PoolConfig,
    clock: Clock,
    client: C,
    times: Seq<Instant>,
)
    requires
        times.len() <= config.circuit_breaker_threshold,
    ensures
        ({
            let p = after_failed_calls(
                ProductionView::<C>::fresh(path, config, clock),
                client,
                times,
            );
            &&& !p.shutdown
            &&& p.breaker.failures == times.len()
            &&& p.breaker.threshold == config.circuit_breaker_threshold
            &&& p.breaker.timeout == config.circuit_breaker_timeout@
            &&& times.len() > 0 ==> p.breaker.last_failure == Some(times.last())
            &&& times.len() > 0 && times.len() == config.circuit_breaker_threshold
                ==> p.breaker.state == CircuitState::Open
        }),
    decreases times.len(),
{
    if times.len() > 0 {
        lemma_failed_calls(path, config, clock, client, times.drop_last());
    }
}

/// What happens to a production pool.
pub enum PoolEvent<C> {
    /// A call asked to be let in.
    Asked(Instant),
    /// A call that was let in took a client.
    Took,
    /// A call that was let in had to be given up.
    Denied,
    /// A call came to its end, and its client came back.
    Ended { client: C, outcome: CallOutcome, now: Instant },
}

impl<C> ProductionView<C> {
    /// The pool after all of these events.
    pub open spec fn after(self, events: Seq<PoolEvent<C>>) -> Self
        decreases events.len(),
    {
        if events.len() == 0 {
            self
        } else {
            let before = self.after(events.drop_last());
            match events.last() {
                PoolEvent::Asked(now) => before.begun(now),
                PoolEvent::Took => before.taken().0,
                PoolEvent::Denied => before.denied(),
                PoolEvent::Ended { client, outcome, now } => before.finished(client, outcome, now),
            }
        }
    }
}

/// Whether the client answered in time, and with a response.
pub open spec fn answered_well(outcome: CallOutcome) -> bool {
    outcome matches CallOutcome::Answered(Ok(_))
}

/// The calls that failed since the last that was answered with a response.
pub open spec fn failed_in_a_row<C>(events: Seq<PoolEvent<C>>) -> nat
    decreases events.len(),
{
    if events.len() == 0 {
        0
    } else {
        match events.last() {
            PoolEvent::Ended { outcome, .. } => if answered_well(outcome) {
                0
            } else {
                failed_in_a_row(events.drop_last()) + 1
            },
            _ => failed_in_a_row(events.drop_last()),
        }
    }
}

/// When the last call failed.
pub open spec fn last_failed_call<C>(events: Seq<PoolEvent<C>>) -> Option<Instant>
    decreases events.len(),
{
    if events.len() == 0 {
        None
    } else {
        match events.last() {
            PoolEvent::Ended { outcome, now, .. } if !answered_well(outcome) => Some(now),
            _ => last_failed_call(events.drop_last()),
        }
    }
}

/// No call asked after `now` since the last call ended.
pub open spec fn last_asked_by<C>(events: Seq<PoolEvent<C>>, now: Instant) -> bool
    decreases events.len(),
{
    if events.len() == 0 {
        true
    } else {
        match events.last() {
            PoolEvent::Asked(then) => then.nanos <= now.nanos && last_asked_by(
                events.drop_last(),
                now,
            ),
            PoolEvent::Ended { .. } => true,
            _ => last_asked_by(events.drop_last(), now),
        }
    }
}

/// A call that was answered with a response takes all failures off the count, and
/// one that was not counts as one more, at its time. Nothing else changes the
/// count.
pub proof fn law_success_clears_the_failures<C>(
    p: ProductionView<C>,
    client: C,
    outcome: CallOutcome,
    now: Instant,
)
    requires
        p.breaker.failures < usize::MAX,
    ensures
        answered_well(outcome) ==> p.finished(client, outcome, now).breaker.failures == 0,
        !answered_well(outcome) ==> p.finished(client, outcome, now).breaker.failures
            == p.breaker.failures + 1 && p.finished(client, outcome, now).breaker.last_failure
            == Some(now),
        p.begun(now).breaker.failures == p.breaker.failures,
        p.taken().0.breaker == p.breaker,
        p.denied().breaker == p.breaker,
{
}

proof fn lemma_pool_history<C>(
    path: Seq<char>,
    config: PoolConfig,
    clock: Clock,
    events: Seq<PoolEvent<C>>,
)
    ensures
        ({
            let p = ProductionView::<C>::fresh(path, config, clock).after(events);
            let in_a_row = failed_in_a_row(events);
            &&& !p.shutdown
            &&& p.config == config
            &&& p.breaker.threshold == config.circuit_breaker_threshold
            &&& p.breaker.timeout == config.circuit_breaker_timeout@
            &&& p.breaker.last_failure == last_failed_call(events)
            &&& in_a_row > 0 ==> last_failed_call(events) is Some
            &&& in_a_row <= usize::MAX ==> p.breaker.failures == in_a_row
            &&& 0 < config.circuit_breaker_threshold <= in_a_row <= usize::MAX ==> p.breaker.state
                == CircuitState::Open || (p.breaker.state == CircuitState::HalfOpen && forall|
                now: Instant,
            |
                last_asked_by(events, now) ==> #[trigger] p.breaker.pause_over(now))
        }),
    decreases events.len(),
{
    if events.len() > 0 {
        lemma_pool_history(path, config, clock, events.drop_last());
        let before = ProductionView::<C>::fresh(path, config, clock).after(events.drop_last());
        if let PoolEvent::Ended { client, outcome, now } = events.last() {
            assert(answered_well(outcome) <==> outcome.result() is Ok);
        }
    }
}

/// Whatever a new pool has seen: once as many calls in a row failed as the
/// threshold, with none answered among them, it turns calls away until the pause
/// since the last of them is over, and lets one in from then on.
pub proof fn law_failures_in_a_row_spare_the_service<C>(
    path: Seq<char>,
    config: PoolConfig,
    clock: Clock,
    events: Seq<PoolEvent<C>>,
    now: Instant,
)
    requires
        0 < config.circuit_breaker_threshold <= failed_in_a_row(events) < usize::MAX,
        last_asked_by(events, now),
    ensures
        ({
            let p = ProductionView::<C>::fresh(path, config, clock).after(events);
            let (after, stage, action) = p.start(now);
            &&& last_failed_call(events) is Some
            &&& if now.nanos - last_failed_call(events)->0.nanos
                > config.circuit_breaker_timeout@ {
                stage == CallStage::AwaitingPermit && action
                    == ProductionActionView::<C>::AcquirePermit
            } else {
                stage == CallStage::Over && action == ProductionActionView::<C>::Finish(
                    Err(ErrorView::ConnectionFailed("circuit breaker open"@)),
                ) && after.counters == p.counters && after.idle == p.idle
            }
        }),
{
    lemma_pool_history(path, config, clock, events);
}

/// Whatever a new pool has seen, it turns a call away for its circuit only if, at
/// some time before, as many calls in a row had failed as the threshold, and at
/// least one, with none answered among them.
pub proof fn law_refuses_only_after_failures_in_a_row<C>(
    path: Seq<char>,
    config: PoolConfig,
    clock: Clock,
    events: Seq<PoolEvent<C>>,
    now: Instant,
)
    ensures
        ({
            let p = ProductionView::<C>::fresh(path, config, clock).after(events);
            p.start(now).2 != ProductionActionView::<C>::AcquirePermit ==> exists|n: int|
                0 < n <= events.len() && #[trigger] failed_in_a_row(events.take(n))
                    >= config.circuit_breaker_threshold && failed_in_a_row(events.take(n)) > 0
        }),
{
    lemma_pool_history(path, config, clock, events);
    let p = ProductionView::<C>::fresh(path, config, clock).after(events);
    if p.start(now).2 != ProductionActionView::<C>::AcquirePermit {
        assert(p.breaker.state == CircuitState::Open);
        lemma_opened_by_failures(path, config, clock, events);
    }
}

proof fn lemma_opened_by_failures<C>(
    path: Seq<char>,
    config: PoolConfig,
    clock: Clock,
    events: Seq<PoolEvent<C>>,
)
    requires
        ProductionView::<C>::fresh(path, config, clock).after(events).breaker.state
            != CircuitState::Closed,
    ensures
        exists|n: int|
            0 < n <= events.len() && #[trigger] failed_in_a_row(events.take(n))
                >= config.circuit_breaker_threshold && failed_in_a_row(events.take(n)) > 0,
    decreases events.len(),
{
    let fresh = ProductionView::<C>::fresh(path, config, clock);
    let last = events.len() as int;
    if last > 0 {
        let before = events.drop_last();
        lemma_pool_history(path, config, clock, before);
        if fresh.after(before).breaker.state != CircuitState::Closed {
            lemma_opened_by_failures(path, config, clock, before);
            let n = choose|n: int|
                0 < n <= before.len() && #[trigger] failed_in_a_row(before.take(n))
                    >= config.circuit_breaker_threshold && failed_in_a_row(before.take(n)) > 0;
            assert(events.take(n) =~= before.take(n));
            assert(failed_in_a_row(events.take(n)) >= config.circuit_breaker_threshold);
        } else {
            if let PoolEvent::Ended { client, outcome, now } = events.last() {
                assert(answered_well(outcome) <==> outcome.result() is Ok);
            }
            assert(events.take(last) =~= events);
            assert(failed_in_a_row(events.take(last)) >= config.circuit_breaker_threshold);
        }
    }
}

/// A pool turns a call away just when it was closed, or its circuit is open and no
/// more than the pause lies between the last failure and now. It says which. Any
/// other call is let in and counted.
pub proof fn law_calls_are_let_in_or_told_why<C>(p: ProductionView<C>, now: Instant)
    requires
        p.counters.total < u64::MAX,
        p.counters.active < usize::MAX,
    ensures
        ({
            let (after, stage, action) = p.start(now);
            let paused = p.breaker.state == CircuitState::Open && (p.breaker.last_failure is None
                || now.nanos - p.breaker.last_failure->0.nanos <= p.breaker.timeout);
            &&& p.shutdown ==> stage == CallStage::Over && action
                == ProductionActionView::<C>::Finish(
                Err(ErrorView::Server("pool is shutting down"@)),
            ) && after == p
            &&& !p.shutdown && paused ==> stage == CallStage::Over && action
                == ProductionActionView::<C>::Finish(
                Err(ErrorView::ConnectionFailed("circuit breaker open"@)),
            ) && after.counters == p.counters
            &&& !p.shutdown && !paused ==> stage == CallStage::AwaitingPermit && action
                == ProductionActionView::<C>::AcquirePermit && after.counters == (Counters {
                total: (p.counters.total + 1) as u64,
                active: (p.counters.active + 1) as usize,
                ..p.counters
            })
            &&& after.idle == p.idle && after.path == p.path && after.config == p.config
                && after.shutdown == p.shutdown
        }),
{
}

/// A call that was let in is made on the client that came back last, or on a new one
/// if none waits, and ends with what came of it: the client's answer, or a timeout.
/// Its client comes back and is the next to be used, and the call is counted once,
/// by what came of it.
pub proof fn law_call_is_made_and_counted<C>(
    p: ProductionView<C>,
    client: C,
    outcome: CallOutcome,
    t1: Instant,
    t2: Instant,
    t3: Instant,
)
    requires
        p.counters.active > 0,
        p.counters.successful < u64::MAX,
        p.counters.failed < u64::MAX,
        p.counters.timeouts < u64::MAX,
    ensures
        ({
            let (p1, s1, a1) = p.advance(
                CallStage::AwaitingPermit,
                ProductionEvent::PermitGranted,
                t1,
            );
            let (p2, s2, a2) = p1.advance(
                s1,
                ProductionEvent::Called { client, outcome },
                t2,
            );
            let next = p2.advance(CallStage::AwaitingPermit, ProductionEvent::PermitGranted, t3);
            &&& s1 == CallStage::Calling
            &&& p.idle.len() > 0 ==> a1 == (ProductionActionView::Call {
                client: Some(p.idle.last()),
            }) && p1.idle == p.idle.drop_last()
            &&& p.idle.len() == 0 ==> a1 == (ProductionActionView::<C>::Call { client: None })
                && p1.idle == p.idle
            &&& p1.counters == p.counters && p1.breaker == p.breaker
            &&& s2 == CallStage::Over
            &&& a2 == ProductionActionView::<C>::Finish(
                match outcome {
                    CallOutcome::Answered(Ok(response)) => Ok(response@),
                    CallOutcome::Answered(Err(e)) => Err(e@),
                    CallOutcome::TimedOut => Err(ErrorView::Timeout),
                },
            )
            &&& p2.idle == p1.idle.push(client)
            &&& next.2 == (ProductionActionView::Call { client: Some(client) })
            &&& next.0.idle == p1.idle
            &&& p2.counters == (Counters {
                active: (p.counters.active - 1) as usize,
                successful: if outcome matches CallOutcome::Answered(Ok(_)) {
                    (p.counters.successful + 1) as u64
                } else {
                    p.counters.successful
                },
                failed: if outcome matches CallOutcome::Answered(Ok(_)) {
                    p.counters.failed
                } else {
                    (p.counters.failed + 1) as u64
                },
                timeouts: if outcome is TimedOut {
                    (p.counters.timeouts + 1) as u64
                } else {
                    p.counters.timeouts
                },
                ..p.counters
            })
            &&& p2 == p1.finished(client, outcome, t2)
            &&& p2.path == p.path && p2.config == p.config && p2.shutdown == p.shutdown
        }),
{
    let p1 = p.advance(CallStage::AwaitingPermit, ProductionEvent::PermitGranted, t1).0;
    assert(p1.idle.push(client).drop_last() =~= p1.idle);
}

/// A call that was let in and had to be given up is told so, and is not under way
/// any more; nothing else changes. What a call does not wait for does nothing.
pub proof fn law_call_given_up_is_told<C>(
    p: ProductionView<C>,
    stage: CallStage,
    event: ProductionEvent<C>,
    now: Instant,
)
    requires
        p.counters.active > 0,
    ensures
        p.advance(CallStage::AwaitingPermit, ProductionEvent::PermitDenied, now) == (
            ProductionView {
                counters: Counters {
                    active: (p.counters.active - 1) as usize,
                    ..p.counters
                },
                ..p
            },
            CallStage::Over,
            ProductionActionView::<C>::Finish(
                Err(ErrorView::ResourceExhausted("pool exhausted"@)),
            ),
        ),
        stage is Over || stage is Pausing || (stage is Calling && !(event is Called)) || (
        stage is AwaitingPermit && event is Called) ==> p.advance(stage, event, now) == (
            p,
            stage,
            ProductionActionView::<C>::Nothing,
        ),
{
}

/// A new pool has no clients, has counted nothing, and goes by its settings.
pub proof fn law_new_pool_goes_by_its_settings<C>(path: Seq<char>, config: PoolConfig, clock: Clock)
    ensures
        ({
            let p = ProductionView::<C>::fresh(path, config, clock);
            &&& p.path == path && p.config == config && !p.shutdown && p.idle.len() == 0
            &&& p.breaker.state == CircuitState::Closed && p.breaker.failures == 0
            &&& p.breaker.threshold == config.circuit_breaker_threshold
            &&& p.breaker.timeout == config.circuit_breaker_timeout@
            &&& p.counters.total == 0 && p.counters.successful == 0 && p.counters.failed == 0
            &&& p.counters.timeouts == 0 && p.counters.active == 0
            &&& p.counters.circuit_breaker_opens == 0
        }),
{
}

/// A call on a pool of clients that is let in takes the client that came back last.
/// If none waits, one is made as long as the pool may grow; if it may not, a patient
/// call pauses and another makes one that the pool does not count.
pub proof fn law_call_takes_a_client_or_makes_one<C>(p: ClientPoolView<C>, patient: bool)
    requires
        p.created < usize::MAX,
    ensures
        ({
            let (after, stage, action) = p.advance(
                CallStage::AwaitingPermit,
                CallEvent::PermitGranted,
                patient,
            );
            if p.idle.len() > 0 {
                &&& stage == CallStage::Calling
                &&& action == (CallActionView::Call { client: Some(p.idle.last()) })
                &&& after == (ClientPoolView { idle: p.idle.drop_last(), ..p })
            } else if p.created < p.max_pool_size {
                &&& stage == CallStage::Calling
                &&& action == (CallActionView::<C>::Call { client: None })
                &&& after == (ClientPoolView { created: (p.created + 1) as usize, ..p })
            } else if patient {
                &&& stage == (CallStage::Pausing { retries: 2 })
                &&& action == CallActionView::<C>::Pause
                &&& after == p
            } else {
                &&& stage == CallStage::Calling
                &&& action == (CallActionView::<C>::Call { client: None })
                &&& after == p
            }
        }),
{
}

/// After a pause a call takes a client that came back meanwhile, or pauses once
/// more; when it has paused often enough a client is made for it.
pub proof fn law_pausing_call_looks_again<C>(p: ClientPoolView<C>, retries: u32, patient: bool)
    ensures
        ({
            let (after, stage, action) = p.advance(
                CallStage::Pausing { retries },
                CallEvent::Paused,
                patient,
            );
            if retries == 0 {
                &&& stage == CallStage::Calling
                &&& action == (CallActionView::<C>::Call { client: None })
                &&& after == p
            } else if p.idle.len() > 0 {
                &&& stage == CallStage::Calling
                &&& action == (CallActionView::Call { client: Some(p.idle.last()) })
                &&& after == (ClientPoolView { idle: p.idle.drop_last(), ..p })
            } else {
                &&& stage == (CallStage::Pausing { retries: (retries - 1) as u32 })
                &&& action == CallActionView::<C>::Pause
                &&& after == p
            }
        }),
{
}

/// A call on a pool of clients ends with what its client said. The client comes back
/// if there is room for it and the call succeeded or lost its connection, which the
/// client mends by itself; after any other failure it is dropped.
pub proof fn law_client_comes_back_unless_it_failed<C>(
    p: ClientPoolView<C>,
    client: C,
    result: Result<ServiceResponse, ProtocolError>,
    patient: bool,
)
    ensures
        ({
            let (after, stage, action) = p.advance(
                CallStage::Calling,
                CallEvent::Called { client, result },
                patient,
            );
            let kept = match result {
                Ok(_) => true,
                Err(ProtocolError::ConnectionClosed) => true,
                Err(ProtocolError::ConnectionFailed(_)) => true,
                _ => false,
            };
            &&& stage == CallStage::Over
            &&& action == CallActionView::<C>::Finish(
                match result {
                    Ok(response) => Ok(response@),
                    Err(e) => Err(e@),
                },
            )
            &&& kept && p.idle.len() < p.max_pool_size ==> after == (ClientPoolView {
                idle: p.idle.push(client),
                ..p
            })
            &&& !(kept && p.idle.len() < p.max_pool_size) ==> after == p
        }),
{
}

/// A call that is not let in any more is told so. What a call does not wait for does
/// nothing.
pub proof fn law_call_not_let_in_is_told<C>(
    p: ClientPoolView<C>,
    stage: CallStage,
    event: CallEvent<C>,
    patient: bool,
)
    ensures
        p.advance(CallStage::AwaitingPermit, CallEvent::PermitDenied, patient) == (
            p,
            CallStage::Over,
            CallActionView::<C>::Finish(Err(ErrorView::ResourceExhausted("pool exhausted"@))),
        ),
        stage is Over || (stage is Calling && !(event is Called)) || (stage is Pausing && !(
        event is Paused)) || (stage is AwaitingPermit && (event is Called || event is Paused))
            ==> p.advance(stage, event, patient) == (p, stage, CallActionView::<C>::Nothing),
{
}

/// A call goes to the client of its topic, in turn with the others of the topic, just
/// when it has a topic that is not empty.
pub proof fn law_calls_go_by_their_topic(topic: Seq<char>)
    ensures
        topic.len() > 0 ==> route_of(Some(topic)) == RouteView::Serial(topic),
        topic.len() == 0 ==> route_of(Some(topic)) == RouteView::Shared,
        route_of(None) == RouteView::Shared,
{
}

/// A topic gets the client that is given to it first, and keeps it; the other topics
/// and the shared pool stay as they are.
pub proof fn law_first_client_of_a_topic_stays<C>(
    p: TopicPoolView<C>,
    topic: Seq<char>,
    other: Seq<char>,
    client: C,
)
    ensures
        !p.topics.dom().contains(topic) ==> p.with_topic(topic, client).topics[topic] == client,
        p.topics.dom().contains(topic) ==> p.with_topic(topic, client) == p,
        other != topic ==> (p.with_topic(topic, client).topics.dom().contains(other)
            == p.topics.dom().contains(other)),
        other != topic && p.topics.dom().contains(other) ==> p.with_topic(
            topic,
            client,
        ).topics[other] == p.topics[other],
        p.with_topic(topic, client).default_pool == p.default_pool,
        p.with_topic(topic, client).path == p.path,
{
}

/// A closed pool has no clients waiting and counts those that it makes anew.
pub proof fn law_closed_pool_is_empty<C>(p: ClientPoolView<C>)
    ensures
        p.closed() == (ClientPoolView { idle: Seq::empty(), created: 0, ..p }),
        ClientPoolView::<C>::fresh(p.path, p.max_concurrent, p.max_pool_size) == p.closed(),
{
}

/// A call on a pool of connections is counted, as a hit that reuses a connection or
/// as a miss that creates one; a connection that could not be opened is counted as
/// given up.
pub proof fn law_hits_and_misses_are_counted(m: ConnectionPoolMetrics, hit: bool)
    requires
        m.total_requests < usize::MAX,
        m.connections_created < usize::MAX,
        m.connections_reused < usize::MAX,
        m.pool_hits < usize::MAX,
        m.pool_misses < usize::MAX,
        m.connections_evicted < usize::MAX,
    ensures
        m.called(true) == (ConnectionPoolMetrics {
            total_requests: (m.total_requests + 1) as usize,
            pool_hits: (m.pool_hits + 1) as usize,
            connections_reused: (m.connections_reused + 1) as usize,
            ..m
        }),
        m.called(false) == (ConnectionPoolMetrics {
            total_requests: (m.total_requests + 1) as usize,
            pool_misses: (m.pool_misses + 1) as usize,
            connections_created: (m.connections_created + 1) as usize,
            ..m
        }),
        m.unopened() == (ConnectionPoolMetrics {
            connections_evicted: (m.connections_evicted + 1) as usize,
            ..m
        }),
{
}

/// A connection is idle for too long once more whole seconds than allowed lie between
/// its last use and now. A use counts, and is the last.
pub proof fn law_idle_time_runs_from_the_last_use(m: MetaView, max_idle_secs: u64, now: Instant)
    ensures
        m.idle_too_long(now, max_idle_secs) <==> now.nanos - m.last_used_at.nanos >= (max_idle_secs
            + 1) * 1_000_000_000,
        m.use_count < usize::MAX ==> m.used(now) == (MetaView {
            use_count: (m.use_count + 1) as usize,
            last_used_at: now,
            ..m
        }),
{
}

/// What came of a call, and what is done for one, are the same as their models.
pub proof fn law_models_keep_everything<C>(
    outcome: CallOutcome,
    action: CallAction<C>,
    step: ProductionAction<C>,
    result: Result<ServiceResponse, ProtocolError>,
)
    ensures
        result matches Ok(response) ==> result_view(result) == Ok::<ResponseView, ErrorView>(
            response@,
        ),
        result matches Err(e) ==> result_view(result) == Err::<ResponseView, ErrorView>(e@),
        outcome matches CallOutcome::Answered(r) ==> outcome.result() == result_view(r),
        outcome is TimedOut ==> outcome.result() == Err::<ResponseView, ErrorView>(
            ErrorView::Timeout,
        ),
        match action {
            CallAction::Pause => action@ == CallActionView::<C>::Pause,
            CallAction::Call { client } => action@ == (CallActionView::<C>::Call { client }),
            CallAction::Finish(r) => action@ == CallActionView::<C>::Finish(result_view(r)),
            CallAction::Nothing => action@ == CallActionView::<C>::Nothing,
        },
        match step {
            ProductionAction::AcquirePermit => step@ == ProductionActionView::<C>::AcquirePermit,
            ProductionAction::Call { client } => step@ == (ProductionActionView::<C>::Call {
                client,
            }),
            ProductionAction::Finish(r) => step@ == ProductionActionView::<C>::Finish(
                result_view(r),
            ),
            ProductionAction::Nothing => step@ == ProductionActionView::<C>::Nothing,
        },
{
}

/// What a pool that was told nothing goes by, and the names of the states of its
/// circuit.
pub proof fn law_pool_has_defaults(config: PoolConfig)
    requires
        is_default(config),
    ensures
        config.max_concurrent == 100,
        config.request_timeout@ == 30 * 1_000_000_000,
        config.circuit_breaker_threshold == 5,
        config.circuit_breaker_timeout@ == 30 * 1_000_000_000,
        config.connection_timeout@ == 5 * 1_000_000_000,
        state_name(CircuitState::Closed) == "Closed"@,
        state_name(CircuitState::Open) == "Open"@,
        state_name(CircuitState::HalfOpen) == "HalfOpen"@,
{
}

/// A call that was answered with a response leaves no failure counted, and gives the
/// caller that response; one that was not gives the caller its error and counts as a
/// failure. Either way its client is back.
pub proof fn law_finished_call_is_told_and_counted<C>(
    pool: &mut ProductionPool<C>,
    client: C,
    outcome: CallOutcome,
    now: Instant,
    told: Result<ServiceResponse, ProtocolError>,
)
    requires
        call_ensures(ProductionPool::<C>::finish_call_at, (pool, client, outcome, now), told),
        old(pool)@.breaker.failures < usize::MAX,
        old(pool)@.counters.active > 0,
        old(pool)@.counters.successful < u64::MAX,
        old(pool)@.counters.failed < u64::MAX,
    ensures
        final(pool)@.idle == old(pool)@.idle.push(client),
        final(pool)@.counters.active == old(pool)@.counters.active - 1,
        final(pool)@.counters.total == old(pool)@.counters.total,
        outcome matches CallOutcome::Answered(Ok(response)) ==> {
            &&& told matches Ok(given) && given@ == response@
            &&& final(pool)@.breaker.failures == 0
            &&& final(pool)@.counters.successful == old(pool)@.counters.successful + 1
            &&& final(pool)@.counters.failed == old(pool)@.counters.failed
        },
        outcome matches CallOutcome::Answered(Err(e)) ==> {
            &&& told matches Err(given) && given@ == e@
            &&& final(pool)@.breaker.failures == old(pool)@.breaker.failures + 1
            &&& final(pool)@.breaker.last_failure == Some(now)
            &&& final(pool)@.counters.failed == old(pool)@.counters.failed + 1
            &&& final(pool)@.counters.timeouts == old(pool)@.counters.timeouts
        },
        outcome is TimedOut ==> {
            &&& told matches Err(ProtocolError::Timeout)
            &&& final(pool)@.breaker.failures == old(pool)@.breaker.failures + 1
            &&& final(pool)@.breaker.last_failure == Some(now)
            &&& final(pool)@.counters.failed == old(pool)@.counters.failed + 1
        },
{
}

/// A call is let in unless the pool was closed or its circuit is open and still pauses;
/// then it is told which.
pub proof fn law_started_call_is_let_in_or_told_why<C>(
    pool: &mut ProductionPool<C>,
    now: Instant,
    r: (CallStage, ProductionAction<C>),
)
    requires
        call_ensures(ProductionPool::<C>::start_at, (pool, now), r),
    ensures
        ({
            let b = old(pool)@.breaker;
            let paused = b.state == CircuitState::Open && !(b.last_failure is Some && now.nanos
                - b.last_failure->0.nanos > b.timeout);
            if old(pool)@.shutdown {
                &&& r.0 == CallStage::Over
                &&& r.1 matches ProductionAction::Finish(Err(ProtocolError::Server(why)))
                &&& why@ == "pool is shutting down"@
            } else if paused {
                &&& r.0 == CallStage::Over
                &&& r.1 matches ProductionAction::Finish(Err(ProtocolError::ConnectionFailed(why)))
                &&& why@ == "circuit breaker open"@
            } else {
                r.0 == CallStage::AwaitingPermit && r.1 is AcquirePermit
            }
        }),
        final(pool)@.idle == old(pool)@.idle,
        final(pool)@.breaker.failures == old(pool)@.breaker.failures,
{
}

/// A call that was let in goes to the client that came back last, and to a new one if
/// none waits.
pub proof fn law_granted_call_goes_to_the_last_client<C>(
    pool: &mut ProductionPool<C>,
    now: Instant,
    r: (CallStage, ProductionAction<C>),
)
    requires
        call_ensures(
            ProductionPool::<C>::advance_at,
            (pool, CallStage::AwaitingPermit, ProductionEvent::PermitGranted, now),
            r,
        ),
    ensures
        r.0 == CallStage::Calling,
        old(pool)@.idle.len() > 0 ==> r.1 == (ProductionAction::Call {
            client: Some(old(pool)@.idle.last()),
        }) && final(pool)@.idle == old(pool)@.idle.drop_last(),
        old(pool)@.idle.len() == 0 ==> r.1 == (ProductionAction::<C>::Call { client: None })
            && final(pool)@.idle == old(pool)@.idle,
        final(pool)@.counters == old(pool)@.counters,
        final(pool)@.breaker == old(pool)@.breaker,
{
}

/// A pool that is closed hands over the clients that wait, and lets nobody in.
pub proof fn law_closing_hands_over_the_clients<C>(
    pool: &mut ProductionPool<C>,
    clients: Vec<C>,
    closed: ProductionPool<C>,
    shutting_down: bool,
)
    requires
        call_ensures(ProductionPool::<C>::close, (pool,), clients),
        call_ensures(ProductionPool::<C>::is_shutting_down, (&closed,), shutting_down),
    ensures
        clients@ == old(pool)@.idle,
        final(pool)@.idle.len() == 0,
        final(pool)@.shutdown,
        final(pool)@.counters == old(pool)@.counters,
        shutting_down == closed@.shutdown,
{
}

/// What a pool reports is what it counted, and the state of its circuit.
pub proof fn law_pool_reports_what_it_counted<C>(pool: &mut ProductionPool<C>, m: PoolMetrics)
    requires
        call_ensures(ProductionPool::<C>::metrics, (pool,), m),
    ensures
        m.total_requests == old(pool)@.counters.total,
        m.successful_requests == old(pool)@.counters.successful,
        m.failed_requests == old(pool)@.counters.failed,
        m.timeout_errors == old(pool)@.counters.timeouts,
        m.active_requests == old(pool)@.counters.active,
        final(pool)@.breaker.state == CircuitState::Closed ==> m.circuit_breaker_state@
            == "Closed"@,
        final(pool)@.breaker.state == CircuitState::Open ==> m.circuit_breaker_state@ == "Open"@,
        final(pool)@.breaker.state == CircuitState::HalfOpen ==> m.circuit_breaker_state@
            == "HalfOpen"@,
        final(pool)@.counters == old(pool)@.counters,
        final(pool)@.idle == old(pool)@.idle,
{
}

/// A client that comes back to a pool of clients is kept just when there is room for it
/// and its call succeeded or lost its connection.
pub proof fn law_returned_client_is_kept_if_it_can_be_used<C>(
    pool: &mut UdsClientPool<C>,
    client: C,
    result: Result<ServiceResponse, ProtocolError>,
)
    requires
        call_ensures(UdsClientPool::<C>::return_client, (pool, client, &result), ()),
    ensures
        ({
            let usable = result is Ok || result matches Err(ProtocolError::ConnectionClosed)
                || result matches Err(ProtocolError::ConnectionFailed(_));
            let room = old(pool)@.idle.len() < old(pool)@.max_pool_size;
            &&& usable && room ==> final(pool)@.idle == old(pool)@.idle.push(client)
            &&& !(usable && room) ==> final(pool)@.idle == old(pool)@.idle
            &&& final(pool)@.created == old(pool)@.created
        }),
{
}

/// A call on a pool of clients ends with what its client said.
pub proof fn law_call_ends_with_what_its_client_said<C>(
    pool: &mut UdsClientPool<C>,
    client: C,
    result: Result<ServiceResponse, ProtocolError>,
    patient: bool,
    r: (CallStage, CallAction<C>),
    topics: &mut TopicBasedPool<C>,
    s: (CallStage, CallAction<C>),
)
    requires
        call_ensures(
            UdsClientPool::<C>::advance,
            (pool, CallStage::Calling, CallEvent::Called { client, result }, patient),
            r,
        ),
        call_ensures(
            TopicBasedPool::<C>::advance,
            (topics, CallStage::Calling, CallEvent::Called { client, result }),
            s,
        ),
    ensures
        r.0 == CallStage::Over && s.0 == CallStage::Over,
        result matches Ok(response) ==> (r.1 matches CallAction::Finish(Ok(given)) && given@
            == response@) && (s.1 matches CallAction::Finish(Ok(given)) && given@ == response@),
        result matches Err(e) ==> (r.1 matches CallAction::Finish(Err(given)) && given@ == e@) && (
        s.1 matches CallAction::Finish(Err(given)) && given@ == e@),
        final(topics)@.topics == old(topics)@.topics,
{
}

/// A pool of clients hands out the client that came back last; it has one made as long
/// as it may grow, and counts it; else it asks the call to wait.
pub proof fn law_acquired_client_is_the_last_or_new<C>(
    pool: &mut UdsClientPool<C>,
    r: Acquired<C>,
)
    requires
        call_ensures(UdsClientPool::<C>::acquire, (pool,), r),
    ensures
        old(pool)@.idle.len() > 0 ==> r == Acquired::Reused(old(pool)@.idle.last())
            && final(pool)@.idle == old(pool)@.idle.drop_last() && final(pool)@.created == old(
            pool,
        )@.created,
        old(pool)@.idle.len() == 0 && old(pool)@.created < old(pool)@.max_pool_size ==> r
            == Acquired::<C>::Create && final(pool)@.created == old(pool)@.created + 1,
        old(pool)@.idle.len() == 0 && old(pool)@.created >= old(pool)@.max_pool_size ==> r == (
        Acquired::<C>::Wait { retries: 3 }) && final(pool)@ == old(pool)@,
{
}

/// A pool of clients may hold as many as may be at work at once, unless it is told
/// otherwise.
pub proof fn law_new_pool_of_clients_is_empty<C>(
    path: &str,
    max_concurrent: usize,
    max_pool_size: usize,
    a: UdsClientPool<C>,
    b: UdsClientPool<C>,
    topics: TopicBasedPool<C>,
)
    requires
        call_ensures(UdsClientPool::<C>::new, (path, max_concurrent), a),
        call_ensures(
            UdsClientPool::<C>::with_max_pool_size,
            (path, max_concurrent, max_pool_size),
            b,
        ),
        call_ensures(TopicBasedPool::<C>::new, (path, max_concurrent), topics),
    ensures
        a@.path == path@ && a@.max_concurrent == max_concurrent && a@.max_pool_size
            == max_concurrent && a@.idle.len() == 0 && a@.created == 0,
        b@.path == path@ && b@.max_concurrent == max_concurrent && b@.max_pool_size
            == max_pool_size && b@.idle.len() == 0 && b@.created == 0,
        topics@.path == path@ && topics@.default_pool == a@ && topics@.topics.dom()
            =~= Set::empty(),
{
}

/// A call with a topic goes to the topic's client, which is the first that the topic was
/// given.
pub proof fn law_topic_is_routed_to_its_client<C>(
    topic: Option<String>,
    route: Route,
    pool: &mut TopicBasedPool<C>,
    name: &str,
    client: C,
)
    requires
        call_ensures(TopicBasedPool::<C>::route, (&topic,), route),
        call_ensures(TopicBasedPool::<C>::ensure_topic, (pool, name, client), ()),
    ensures
        topic matches Some(t) ==> t@.len() > 0 ==> (route matches Route::Serial(to) && to@ == t@),
        (topic is None || topic->0@.len() == 0) ==> route is Shared,
        final(pool)@.topics[name@] == if old(pool)@.topics.dom().contains(name@) {
            old(pool)@.topics[name@]
        } else {
            client
        },
        forall|t: Seq<char>|
            t != name@ && #[trigger] old(pool)@.topics.dom().contains(t)
                ==> final(pool)@.topics.dom().contains(t) && final(pool)@.topics[t]
                == old(pool)@.topics[t],
        final(pool)@.default_pool == old(pool)@.default_pool,
{
}

/// A new production pool goes by the settings that it is given.
pub proof fn law_new_production_pool_takes_its_settings<C>(
    path: &str,
    config: PoolConfig,
    pool: ProductionPool<C>,
)
    requires
        call_ensures(ProductionPool::<C>::with_config, (path, config), pool),
    ensures
        pool@.path == path@,
        pool@.config == config,
        pool@.breaker.threshold == config.circuit_breaker_threshold,
        pool@.breaker.timeout == config.circuit_breaker_timeout@,
        pool@.breaker.state == CircuitState::Closed,
        pool@.idle.len() == 0,
        !pool@.shutdown,
        pool@.counters.total == 0,
{
}

/// A reply is taken for a response just when it is one; the error tells which type was
/// due and which came.
pub proof fn law_reply_has_to_be_a_response(msg_type: u8, r: Result<(), ProtocolError>)
    requires
        call_ensures(check_reply, (msg_type,), r),
    ensures
        r is Ok <==> msg_type == 0x11,
        r matches Err(e) ==> e@ == ErrorView::Protocol(
            "invalid response type: expected "@ + text::decimal(17) + ", got "@ + text::decimal(
                msg_type as nat,
            ),
        ),
{
}

/// A call that asks to be let in is let in unless the pool shuts down or the breaker
/// pauses. The look ends a pause that is over.
pub proof fn law_begun_call_looks_at_the_breaker<C>(
    pool: &mut ProductionPool<C>,
    now: Instant,
    r: Result<(), ProtocolError>,
    other: &mut ProductionPool<C>,
    taken: Option<C>,
)
    requires
        call_ensures(ProductionPool::<C>::begin_call_at, (pool, now), r),
        call_ensures(ProductionPool::<C>::take_client, (other,), taken),
        old(pool)@.counters.active < usize::MAX,
        old(pool)@.counters.total < u64::MAX,
    ensures
        ({
            let b = old(pool)@.breaker;
            let over = b.last_failure is Some && now.nanos - b.last_failure->0.nanos > b.timeout;
            let paused = b.state == CircuitState::Open && !over;
            &&& r is Ok <==> !old(pool)@.shutdown && !paused
            &&& r is Ok && b.state == CircuitState::Open ==> final(pool)@.breaker.state
                == CircuitState::HalfOpen
            &&& r is Ok && b.state != CircuitState::Open ==> final(pool)@.breaker.state == b.state
            &&& r is Ok ==> final(pool)@.counters.total == old(pool)@.counters.total + 1
                && final(pool)@.counters.active == old(pool)@.counters.active + 1
            &&& r is Err ==> final(pool)@.counters == old(pool)@.counters
        }),
        old(other)@.idle.len() == 0 ==> taken is None,
        old(other)@.idle.len() > 0 ==> taken == Some(old(other)@.idle.last())
            && final(other)@.idle == old(other)@.idle.drop_last(),
        final(other)@.counters == old(other)@.counters && final(other)@.breaker == old(
            other,
        )@.breaker,
{
}

/// A call on the shared pool waits for a client when all are at work.
pub proof fn law_shared_pool_is_patient<C>(
    pool: &mut TopicBasedPool<C>,
    r: (CallStage, CallAction<C>),
)
    requires
        call_ensures(
            TopicBasedPool::<C>::advance,
            (pool, CallStage::AwaitingPermit, CallEvent::PermitGranted),
            r,
        ),
        old(pool)@.default_pool.idle.len() == 0,
        old(pool)@.default_pool.created >= old(pool)@.default_pool.max_pool_size,
    ensures
        r.1 is Pause,
        r.0 is Pausing,
{
}

/// A connection is taken out just when one waits, and then it waits no more.
pub proof fn law_waiting_connection_is_taken_out(
    pool: &mut UdsConnectionPool,
    r: Option<tokio::net::UnixStream>,
    other: &mut UdsConnectionPool,
    s: Option<tokio::net::UnixStream>,
)
    requires
        call_ensures(UdsConnectionPool::get, (pool,), r),
        call_ensures(UdsConnectionPool::begin_call, (other,), s),
    ensures
        r is Some <==> exists|id: i32| #[trigger] old(pool)@.idle.contains((GROUP, id)),
        s is Some <==> exists|id: i32| #[trigger] old(other)@.idle.contains((GROUP, id)),
        r is None ==> final(pool)@.idle == old(pool)@.idle,
        r is Some ==> final(pool)@.idle.len() == old(pool)@.idle.len() - 1,
        s is None ==> final(other)@.idle == old(other)@.idle,
        s is Some ==> final(other)@.idle.len() == old(other)@.idle.len() - 1,
{
}

/// A pool of which nothing else is said has these settings.
pub proof fn law_default_settings_are_these(config: PoolConfig)
    requires
        call_ensures(PoolConfig::default, (), config),
    ensures
        config.max_concurrent == 100,
        config.request_timeout@ == 30 * 1_000_000_000,
        config.circuit_breaker_threshold == 5,
        config.circuit_breaker_timeout@ == 30 * 1_000_000_000,
        config.connection_timeout@ == 5 * 1_000_000_000,
{
}

/// A new pool of connections is for its path and holds none; one that waits may be idle
/// for five minutes.
pub proof fn law_new_pool_of_connections_is_empty(path: &str, max: usize, pool: UdsConnectionPool)
    requires
        max <= isize::MAX / 64,
        call_ensures(UdsConnectionPool::new, (path, max), pool),
    ensures
        pool@.path == path@ && pool@.max_connections == max && pool@.max_idle_secs == 5 * 60,
        pool@.idle.len() == 0 && pool@.connection_id == 0,
{
}

} // verus!
