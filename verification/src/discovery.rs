//! The registry of services, and the choice of a balancer among their endpoints.

use crate::map::StrMap;
use crate::protocol;
use crate::text;
use crate::time::Duration;
use vstd::prelude::*;

verus! {

#[derive(Debug)]
pub struct ServiceEndpoint {
    pub name: String,
    pub address: String,
    pub weight: usize,
    pub metadata: StrMap<String>,
}

/// The mathematical model of a [`ServiceEndpoint`].
pub struct EndpointView {
    pub name: Seq<char>,
    pub address: Seq<char>,
    pub weight: usize,
    pub metadata: Map<Seq<char>, Seq<char>>,
}

impl View for ServiceEndpoint {
    type V = EndpointView;

    open spec fn view(&self) -> EndpointView {
        EndpointView {
            name: self.name@,
            address: self.address@,
            weight: self.weight,
            metadata: crate::map::text_map(self.metadata@),
        }
    }
}

impl Clone for ServiceEndpoint {
    fn clone(&self) -> (r: ServiceEndpoint)
        ensures
            r@ == self@,
    {
        ServiceEndpoint {
            name: self.name.clone(),
            address: self.address.clone(),
            weight: self.weight,
            metadata: crate::map::copy_text_map(&self.metadata),
        }
    }
}

impl ServiceEndpoint {
    pub fn new(name: &str, address: &str) -> (r: ServiceEndpoint)
        ensures
            r@ == (EndpointView {
                name: name@,
                address: address@,
                weight: 1,
                metadata: Map::empty(),
            }),
    {
        let r = ServiceEndpoint {
            name: name.to_string(),
            address: address.to_string(),
            weight: 1,
            metadata: StrMap::new(),
        };
        assert(r@.metadata =~= Map::empty());
        r
    }

    pub fn with_weight(self, weight: usize) -> (r: ServiceEndpoint)
        ensures
            r@ == (EndpointView { weight, ..self@ }),
    {
        ServiceEndpoint { weight, ..self }
    }

    pub fn with_metadata(self, key: &str, value: &str) -> (r: ServiceEndpoint)
        ensures
            r@ == (EndpointView { metadata: self@.metadata.insert(key@, value@), ..self@ }),
    {
        let mut metadata = self.metadata;
        metadata.insert(key.to_string(), value.to_string());
        let r = ServiceEndpoint { metadata, ..self };
        assert(r@.metadata =~= self@.metadata.insert(key@, value@));
        r
    }
}

#[derive(Debug, Clone, Copy, PartialEq, Eq, Structural)]
pub enum LoadBalancingStrategy {
    RoundRobin,
    Random,
    ConsistentHash,
}

impl Default for LoadBalancingStrategy {
    fn default() -> (r: LoadBalancingStrategy)
        ensures
            r == LoadBalancingStrategy::RoundRobin,
    {
        LoadBalancingStrategy::RoundRobin
    }
}

/// The balancer that a selection goes through.
#[derive(Debug)]
pub enum Balancer<R, N, H> {
    RoundRobin(R),
    Random(N),
    ConsistentHash(H),
}

/// How many backends a selection looks at before it gives up.
pub const MAX_SELECT_ITERATIONS: usize = 256;

/// How a backend is to be selected.
#[derive(Debug)]
pub struct Selection<R, N, H> {
    pub balancer: Balancer<R, N, H>,
    /// What the choice goes by, if the balancer goes by anything.
    pub key: Vec<u8>,
    pub max_iterations: usize,
}

/// The registry of services. `R`, `N` and `H` stand for balancers that go round,
/// choose at random and go by a hash.
#[derive(Debug)]
pub struct ServiceDiscovery<R, N, H> {
    endpoints: StrMap<Vec<ServiceEndpoint>>,
    round_robin_lbs: StrMap<R>,
    random_lbs: StrMap<N>,
    consistent_lbs: StrMap<H>,
    strategy: LoadBalancingStrategy,
}

/// The mathematical model of a [`ServiceDiscovery`].
pub struct DiscoveryView<R, N, H> {
    /// The endpoints of each service, in the order in which they came.
    pub endpoints: Map<Seq<char>, Seq<EndpointView>>,
    pub round_robin: Map<Seq<char>, R>,
    pub random: Map<Seq<char>, N>,
    pub consistent: Map<Seq<char>, H>,
    pub strategy: LoadBalancingStrategy,
}

pub open spec fn endpoint_views(endpoints: Seq<ServiceEndpoint>) -> Seq<EndpointView> {
    endpoints.map_values(|e: ServiceEndpoint| e@)
}

/// The addresses of endpoints.
pub open spec fn addresses(endpoints: Seq<EndpointView>) -> Seq<Seq<char>> {
    endpoints.map_values(|e: EndpointView| e.address)
}

/// The probes of the endpoints of one service.
pub open spec fn probes_of(name: Seq<char>, endpoints: Seq<EndpointView>) -> Seq<
    (Seq<char>, Seq<char>),
> {
    endpoints.map_values(|e: EndpointView| (name, e.address))
}

/// The endpoints at other addresses.
pub open spec fn elsewhere(endpoints: Seq<EndpointView>, address: Seq<char>) -> Seq<EndpointView> {
    endpoints.filter(|e: EndpointView| e.address != address)
}

impl<R, N, H> View for ServiceDiscovery<R, N, H> {
    type V = DiscoveryView<R, N, H>;

    closed spec fn view(&self) -> DiscoveryView<R, N, H> {
        DiscoveryView {
            endpoints: self.endpoints@.map_values(|v: Vec<ServiceEndpoint>| endpoint_views(v@)),
            round_robin: self.round_robin_lbs@,
            random: self.random_lbs@,
            consistent: self.consistent_lbs@,
            strategy: self.strategy,
        }
    }
}

impl<R, N, H> DiscoveryView<R, N, H> {
    pub open spec fn empty() -> Self {
        DiscoveryView {
            endpoints: Map::empty(),
            round_robin: Map::empty(),
            random: Map::empty(),
            consistent: Map::empty(),
            strategy: LoadBalancingStrategy::RoundRobin,
        }
    }

    /// The endpoints of a service; none if it is not known.
    pub open spec fn of(self, name: Seq<char>) -> Seq<EndpointView> {
        if self.endpoints.dom().contains(name) {
            self.endpoints[name]
        } else {
            Seq::empty()
        }
    }

    /// The probes of these services, one after the other.
    pub open spec fn probed(self, names: Seq<Seq<char>>) -> Seq<(Seq<char>, Seq<char>)>
        decreases names.len(),
    {
        if names.len() == 0 {
            Seq::empty()
        } else {
            self.probed(names.drop_last()) + probes_of(names.last(), self.of(names.last()))
        }
    }

    pub open spec fn registered(self, endpoint: EndpointView) -> Self {
        DiscoveryView {
            endpoints: self.endpoints.insert(
                endpoint.name,
                self.of(endpoint.name).push(endpoint),
            ),
            ..self
        }
    }

    /// A service that has lost its last endpoint is still known.
    pub open spec fn unregistered(self, name: Seq<char>, address: Seq<char>) -> Self {
        if self.endpoints.dom().contains(name) {
            DiscoveryView {
                endpoints: self.endpoints.insert(
                    name,
                    elsewhere(self.endpoints[name], address),
                ),
                ..self
            }
        } else {
            self
        }
    }

    /// The registry with new balancers for a service, as far as they could be
    /// built; the others stay.
    pub open spec fn rebalanced(
        self,
        name: Seq<char>,
        round_robin: Option<R>,
        random: Option<N>,
        consistent: Option<H>,
    ) -> Self {
        DiscoveryView {
            round_robin: match round_robin {
                Some(lb) => self.round_robin.insert(name, lb),
                None => self.round_robin,
            },
            random: match random {
                Some(lb) => self.random.insert(name, lb),
                None => self.random,
            },
            consistent: match consistent {
                Some(lb) => self.consistent.insert(name, lb),
                None => self.consistent,
            },
            ..self
        }
    }

    /// The balancer of a service under the strategy that is in force.
    pub open spec fn balancer(self, name: Seq<char>) -> Option<Balancer<R, N, H>> {
        match self.strategy {
            LoadBalancingStrategy::RoundRobin => if self.round_robin.dom().contains(name) {
                Some(Balancer::RoundRobin(self.round_robin[name]))
            } else {
                None
            },
            LoadBalancingStrategy::Random => if self.random.dom().contains(name) {
                Some(Balancer::Random(self.random[name]))
            } else {
                None
            },
            LoadBalancingStrategy::ConsistentHash => if self.consistent.dom().contains(name) {
                Some(Balancer::ConsistentHash(self.consistent[name]))
            } else {
                None
            },
        }
    }
}

/// The balancer behind a reference.
pub open spec fn referred<R, N, H>(b: Balancer<&R, &N, &H>) -> Balancer<R, N, H> {
    match b {
        Balancer::RoundRobin(lb) => Balancer::RoundRobin(*lb),
        Balancer::Random(lb) => Balancer::Random(*lb),
        Balancer::ConsistentHash(lb) => Balancer::ConsistentHash(*lb),
    }
}

/// The addresses of endpoints, from which balancers are built.
fn addresses_of(endpoints: &Vec<ServiceEndpoint>) -> (r: Vec<String>)
    ensures
        protocol::texts(r@) == addresses(endpoint_views(endpoints@)),
{
    let mut all: Vec<String> = Vec::new();
    let mut i: usize = 0;
    while i < endpoints.len()
        invariant
            i <= endpoints@.len(),
            all@.len() == i,
            forall|j: int| 0 <= j < i ==> (#[trigger] all@[j])@ == endpoints@[j].address@,
        decreases endpoints.len() - i,
    {
        all.push(endpoints[i].address.clone());
        i = i + 1;
    }
    assert(protocol::texts(all@) =~= addresses(endpoint_views(endpoints@)));
    all
}

/// Keeps the endpoints at other addresses.
fn drop_address(endpoints: Vec<ServiceEndpoint>, address: &str) -> (r: Vec<ServiceEndpoint>)
    ensures
        endpoint_views(r@) == elsewhere(endpoint_views(endpoints@), address@),
{
    let mut kept: Vec<ServiceEndpoint> = Vec::new();
    let mut i: usize = 0;
    let ghost views = endpoint_views(endpoints@);
    let ghost p = |e: EndpointView| e.address != address@;
    assert(endpoint_views(kept@) =~= views.take(0).filter(p)) by {
        reveal(Seq::filter);
    }
    while i < endpoints.len()
        invariant
            i <= endpoints@.len(),
            views == endpoint_views(endpoints@),
            p == (|e: EndpointView| e.address != address@),
            endpoint_views(kept@) == views.take(i as int).filter(p),
        decreases endpoints.len() - i,
    {
        let ghost before = kept@;
        let ghost e = views[i as int];
        assert(views.take(i + 1).drop_last() =~= views.take(i as int));
        assert(views.take(i + 1).last() == e);
        if !text::str_eq(endpoints[i].address.as_str(), address) {
            kept.push(endpoints[i].clone());
            assert(endpoint_views(kept@) =~= endpoint_views(before).push(e));
        }
        assert(endpoint_views(kept@) == views.take(i + 1).filter(p)) by {
            reveal(Seq::filter);
        }
        i = i + 1;
    }
    assert(views.take(views.len() as int) =~= views);
    kept
}

impl<R, N, H> ServiceDiscovery<R, N, H> {
    pub fn new() -> (r: ServiceDiscovery<R, N, H>)
        ensures
            r@ == DiscoveryView::<R, N, H>::empty(),
    {
        let r = ServiceDiscovery {
            endpoints: StrMap::new(),
            round_robin_lbs: StrMap::new(),
            random_lbs: StrMap::new(),
            consistent_lbs: StrMap::new(),
            strategy: LoadBalancingStrategy::RoundRobin,
        };
        assert(r@.endpoints =~= Map::empty());
        r
    }

    pub fn with_strategy(self, strategy: LoadBalancingStrategy) -> (r: ServiceDiscovery<R, N, H>)
        ensures
            r@ == (DiscoveryView { strategy, ..self@ }),
    {
        ServiceDiscovery { strategy, ..self }
    }

    /// Registers an endpoint, and gives the addresses that the service's
    /// balancers are to be built from.
    pub fn register(&mut self, endpoint: ServiceEndpoint) -> (r: Vec<String>)
        ensures
            final(self)@ == old(self)@.registered(endpoint@),
            protocol::texts(r@) == addresses(final(self)@.of(endpoint@.name)),
    {
        let name = endpoint.name.clone();
        let mut endpoints = match self.endpoints.remove(name.as_str()) {
            Some(endpoints) => endpoints,
            None => Vec::new(),
        };
        let ghost before = endpoints@;
        assert(endpoint_views(before) =~= old(self)@.of(endpoint@.name));
        endpoints.push(endpoint);
        assert(endpoint_views(endpoints@) =~= endpoint_views(before).push(endpoint@));
        let all = addresses_of(&endpoints);
        self.endpoints.insert(name, endpoints);
        assert(self@.endpoints =~= old(self)@.registered(endpoint@).endpoints);
        all
    }

    /// Takes the endpoints at an address out, and gives the addresses that the
    /// service's balancers are to be built from, if the service is known.
    pub fn unregister(&mut self, name: &str, address: &str) -> (r: Option<Vec<String>>)
        ensures
            final(self)@ == old(self)@.unregistered(name@, address@),
            r is Some <==> old(self)@.endpoints.dom().contains(name@),
            r matches Some(all) ==> protocol::texts(all@) == addresses(
                final(self)@.endpoints[name@],
            ),
    {
        match self.endpoints.remove(name) {
            Some(endpoints) => {
                let kept = drop_address(endpoints, address);
                let all = addresses_of(&kept);
                self.endpoints.insert(name.to_string(), kept);
                assert(self@.endpoints =~= old(self)@.unregistered(name@, address@).endpoints);
                Some(all)
            },
            None => {
                assert(self@.endpoints =~= old(self)@.endpoints);
                None
            },
        }
    }

    /// Puts in the balancers that could be built for a service.
    pub fn rebuild_load_balancers(
        &mut self,
        name: &str,
        round_robin: Option<R>,
        random: Option<N>,
        consistent: Option<H>,
    )
        ensures
            final(self)@ == old(self)@.rebalanced(name@, round_robin, random, consistent),
    {
        if let Some(lb) = round_robin {
            self.round_robin_lbs.insert(name.to_string(), lb);
        }
        if let Some(lb) = random {
            self.random_lbs.insert(name.to_string(), lb);
        }
        if let Some(lb) = consistent {
            self.consistent_lbs.insert(name.to_string(), lb);
        }
    }

    /// The endpoints of a service; none if it is not known.
    pub fn discover(&self, name: &str) -> (r: Vec<ServiceEndpoint>)
        ensures
            endpoint_views(r@) == self@.of(name@),
    {
        let mut found: Vec<ServiceEndpoint> = Vec::new();
        match self.endpoints.get(name) {
            Some(endpoints) => {
                let mut i: usize = 0;
                while i < endpoints.len()
                    invariant
                        i <= endpoints@.len(),
                        found@.len() == i,
                        forall|j: int| 0 <= j < i ==> (#[trigger] found@[j])@ == endpoints@[j]@,
                    decreases endpoints.len() - i,
                {
                    found.push(endpoints[i].clone());
                    i = i + 1;
                }
                assert(endpoint_views(found@) =~= endpoint_views(endpoints@));
            },
            None => {
                assert(endpoint_views(found@) =~= Seq::empty());
            },
        }
        found
    }

    /// The balancer of a service that goes round.
    pub fn get_load_balancer(&self, name: &str) -> (r: Option<&R>)
        ensures
            match r {
                Some(lb) => self@.round_robin.dom().contains(name@) && *lb
                    == self@.round_robin[name@],
                None => !self@.round_robin.dom().contains(name@),
            },
    {
        self.round_robin_lbs.get(name)
    }

    /// The balancer of a service under the strategy that is in force.
    fn balancer(&self, name: &str) -> (r: Option<Balancer<&R, &N, &H>>)
        ensures
            match r {
                Some(b) => self@.balancer(name@) == Some(referred(b)),
                None => self@.balancer(name@) is None,
            },
    {
        match self.strategy {
            LoadBalancingStrategy::RoundRobin => match self.round_robin_lbs.get(name) {
                Some(lb) => Some(Balancer::RoundRobin(lb)),
                None => None,
            },
            LoadBalancingStrategy::Random => match self.random_lbs.get(name) {
                Some(lb) => Some(Balancer::Random(lb)),
                None => None,
            },
            LoadBalancingStrategy::ConsistentHash => match self.consistent_lbs.get(name) {
                Some(lb) => Some(Balancer::ConsistentHash(lb)),
                None => None,
            },
        }
    }

    /// How a backend of the service is to be selected, without a key.
    pub fn select(&self, name: &str) -> (r: Option<Selection<&R, &N, &H>>)
        ensures
            match r {
                Some(s) => self@.balancer(name@) == Some(referred(s.balancer)) && s.key@.len() == 0
                    && s.max_iterations == MAX_SELECT_ITERATIONS,
                None => self@.balancer(name@) is None,
            },
    {
        self.select_with_key(name, &[])
    }

    /// How a backend of the service is to be selected by a key.
    pub fn select_with_key(&self, name: &str, key: &[u8]) -> (r: Option<Selection<&R, &N, &H>>)
        ensures
            match r {
                Some(s) => self@.balancer(name@) == Some(referred(s.balancer)) && s.key@ == key@
                    && s.max_iterations == MAX_SELECT_ITERATIONS,
                None => self@.balancer(name@) is None,
            },
    {
        match self.balancer(name) {
            Some(balancer) => {
                let mut copy: Vec<u8> = Vec::new();
                copy.extend_from_slice(key);
                assert(copy@ =~= key@);
                Some(Selection { balancer, key: copy, max_iterations: MAX_SELECT_ITERATIONS })
            },
            None => None,
        }
    }

    /// Takes note of the health of a backend. It has no effect yet.
    pub fn set_backend_health(&mut self, name: &str, address: &str, healthy: bool)
        ensures
            final(self)@ == old(self)@,
    {
    }

    /// Every backend counts as healthy.
    pub fn get_backend_health(&self, name: &str, address: &str) -> (r: bool)
        ensures
            r,
    {
        true
    }

    pub fn strategy(&self) -> (r: LoadBalancingStrategy)
        ensures
            r == self@.strategy,
    {
        self.strategy
    }

    /// The services that are known.
    pub fn list_services(&self) -> (r: Vec<String>)
        ensures
            protocol::texts(r@).no_duplicates(),
            protocol::texts(r@).to_set() == self@.endpoints.dom(),
    {
        let keys = self.endpoints.keys();
        assert(self@.endpoints.dom() =~= self.endpoints@.dom());
        keys
    }

    /// What is to be probed: the services one after the other, in any order, and
    /// of each its endpoints in their order.
    pub fn probes(&self) -> (r: Vec<(String, String)>)
        ensures
            exists|names: Seq<Seq<char>>|
                names.no_duplicates() && names.to_set() == self@.endpoints.dom() && probe_views(r@)
                    == #[trigger] self@.probed(names),
    {
        let services = self.list_services();
        let ghost names = protocol::texts(services@);
        let mut probes: Vec<(String, String)> = Vec::new();
        let mut i: usize = 0;
        assert(probe_views(probes@) =~= self@.probed(names.take(0)));
        while i < services.len()
            invariant
                i <= services@.len(),
                names == protocol::texts(services@),
                probe_views(probes@) == self@.probed(names.take(i as int)),
            decreases services.len() - i,
        {
            let endpoints = self.discover(services[i].as_str());
            let ghost name = names[i as int];
            assert(name == services@[i as int]@);
            let ghost found = self@.of(name);
            let ghost before = probe_views(probes@);
            let mut j: usize = 0;
            assert(before =~= before + probes_of(name, found.take(0)));
            while j < endpoints.len()
                invariant
                    j <= endpoints@.len(),
                    i < services@.len(),
                    name == services@[i as int]@,
                    found == endpoint_views(endpoints@),
                    probe_views(probes@) == before + probes_of(name, found.take(j as int)),
                decreases endpoints.len() - j,
            {
                let ghost mid = probe_views(probes@);
                let ghost probe = (name, found[j as int].address);
                probes.push((services[i].clone(), endpoints[j].address.clone()));
                assert(probe_views(probes@) =~= mid.push(probe));
                assert(probes_of(name, found.take(j + 1)) =~= probes_of(
                    name,
                    found.take(j as int),
                ).push(probe));
                assert(probe_views(probes@) =~= before + probes_of(name, found.take(j + 1)));
                j = j + 1;
            }
            assert(found.take(found.len() as int) =~= found);
            assert(names.take(i + 1).drop_last() =~= names.take(i as int));
            i = i + 1;
        }
        assert(names.take(names.len() as int) =~= names);
        probes
    }
}

/// Every endpoint of every service is probed, and nothing else, whatever order
/// the services come in.
pub proof fn law_every_endpoint_is_probed<R, N, H>(
    d: DiscoveryView<R, N, H>,
    names: Seq<Seq<char>>,
    name: Seq<char>,
    address: Seq<char>,
)
    requires
        names.to_set() == d.endpoints.dom(),
    ensures
        d.probed(names).contains((name, address)) <==> addresses(d.of(name)).contains(address),
{
    lemma_probed(d, names, name, address);
    if addresses(d.of(name)).contains(address) {
        assert(names.to_set().contains(name));
    }
}

proof fn lemma_probed<R, N, H>(
    d: DiscoveryView<R, N, H>,
    names: Seq<Seq<char>>,
    name: Seq<char>,
    address: Seq<char>,
)
    ensures
        d.probed(names).contains((name, address)) <==> names.contains(name) && addresses(
            d.of(name),
        ).contains(address),
    decreases names.len(),
{
    if names.len() > 0 {
        let before = names.drop_last();
        let last = names.last();
        let found = d.of(last);
        lemma_probed(d, before, name, address);
        assert(before.push(last) =~= names);
        lemma_contains_push(before, last, name);
        if probes_of(last, found).contains((name, address)) {
            let j = choose|j: int|
                0 <= j < found.len() && probes_of(last, found)[j] == (name, address);
            assert(addresses(found)[j] == address);
        }
        if name == last && addresses(found).contains(address) {
            let j = choose|j: int| 0 <= j < found.len() && addresses(found)[j] == address;
            assert(probes_of(last, found)[j] == (name, address));
        }
        lemma_contains_both(d.probed(before), probes_of(last, found), (name, address));
    }
}

/// Two sequences in a row contain what either contains.
proof fn lemma_contains_both<A>(s: Seq<A>, t: Seq<A>, x: A)
    ensures
        (s + t).contains(x) <==> s.contains(x) || t.contains(x),
{
    if s.contains(x) {
        let i = choose|i: int| 0 <= i < s.len() && s[i] == x;
        assert((s + t)[i] == x);
    }
    if t.contains(x) {
        let i = choose|i: int| 0 <= i < t.len() && t[i] == x;
        assert((s + t)[s.len() + i] == x);
    }
}

/// A sequence contains what it contained before a push, and what was pushed.
proof fn lemma_contains_push<A>(s: Seq<A>, a: A, x: A)
    ensures
        s.push(a).contains(x) <==> s.contains(x) || x == a,
{
    if s.contains(x) {
        let i = choose|i: int| 0 <= i < s.len() && s[i] == x;
        assert(s.push(a)[i] == x);
    }
    assert(s.push(a)[s.len() as int] == a);
}

pub open spec fn probe_views(probes: Seq<(String, String)>) -> Seq<(Seq<char>, Seq<char>)> {
    probes.map_values(|p: (String, String)| (p.0@, p.1@))
}

impl<R, N, H> Default for ServiceDiscovery<R, N, H> {
    fn default() -> (r: ServiceDiscovery<R, N, H>)
        ensures
            r@ == DiscoveryView::<R, N, H>::empty(),
    {
        ServiceDiscovery::new()
    }
}

/// An endpoint that was registered is found, after those that were there; other
/// services are as they were.
pub proof fn law_registered_is_discovered<R, N, H>(
    d: DiscoveryView<R, N, H>,
    e: EndpointView,
    other: Seq<char>,
)
    ensures
        d.registered(e).of(e.name) == d.of(e.name).push(e),
        other != e.name ==> d.registered(e).of(other) == d.of(other),
{
}

/// An address that was unregistered is found no more; the endpoints at other
/// addresses stay in their order.
pub proof fn law_unregistered_is_gone<R, N, H>(
    d: DiscoveryView<R, N, H>,
    name: Seq<char>,
    address: Seq<char>,
)
    ensures
        !addresses(d.unregistered(name, address).of(name)).contains(address),
        d.unregistered(name, address).of(name) == elsewhere(d.of(name), address),
{
    let p = |e: EndpointView| e.address != address;
    let all = d.of(name);
    let kept = d.unregistered(name, address).of(name);
    if !d.endpoints.dom().contains(name) {
        assert(all.filter(p) =~= Seq::empty()) by {
            reveal(Seq::filter);
        }
    }
    assert forall|i: int| 0 <= i < kept.len() implies (#[trigger] kept[i]).address != address by {
        lemma_filtered(all, p, i);
    }
    if addresses(kept).contains(address) {
        let i = choose|i: int| 0 <= i < kept.len() && addresses(kept)[i] == address;
        assert(kept[i].address == address);
    }
}

/// What a filter lets through meets its condition.
proof fn lemma_filtered(s: Seq<EndpointView>, p: spec_fn(EndpointView) -> bool, i: int)
    requires
        0 <= i < s.filter(p).len(),
    ensures
        p(s.filter(p)[i]),
    decreases s.len(),
{
    reveal(Seq::filter);
    if s.len() > 0 {
        let rest = s.drop_last().filter(p);
        if i < rest.len() {
            lemma_filtered(s.drop_last(), p, i);
        }
    }
}

/// A balancer that could not be built anew stays in place, and a selection
/// depends on the balancer of its own service and strategy alone.
pub proof fn law_selection_is_by_strategy<R, N, H>(
    d: DiscoveryView<R, N, H>,
    name: Seq<char>,
    other: Seq<char>,
    rr: Option<R>,
    rnd: Option<N>,
    ch: Option<H>,
)
    ensures
        other != name ==> d.rebalanced(name, rr, rnd, ch).balancer(other) == d.balancer(other),
        d.strategy == LoadBalancingStrategy::RoundRobin && rr is Some ==> d.rebalanced(
            name,
            rr,
            rnd,
            ch,
        ).balancer(name) == Some(Balancer::<R, N, H>::RoundRobin(rr->0)),
        d.strategy == LoadBalancingStrategy::Random && rnd is Some ==> d.rebalanced(
            name,
            rr,
            rnd,
            ch,
        ).balancer(name) == Some(Balancer::<R, N, H>::Random(rnd->0)),
        d.strategy == LoadBalancingStrategy::ConsistentHash && ch is Some ==> d.rebalanced(
            name,
            rr,
            rnd,
            ch,
        ).balancer(name) == Some(Balancer::<R, N, H>::ConsistentHash(ch->0)),
        d.rebalanced(name, None, None, None) == d,
{
}

/// When, and how patiently, the endpoints of a registry are probed.
#[derive(Debug)]
pub struct BackgroundHealthChecker {
    interval: Duration,
    timeout: Duration,
    running: bool,
}

/// The mathematical model of a [`BackgroundHealthChecker`].
pub struct HealthCheckerView {
    /// In nanoseconds.
    pub interval: nat,
    /// In nanoseconds.
    pub timeout: nat,
    pub running: bool,
}

impl View for BackgroundHealthChecker {
    type V = HealthCheckerView;

    closed spec fn view(&self) -> HealthCheckerView {
        HealthCheckerView {
            interval: self.interval@,
            timeout: self.timeout@,
            running: self.running,
        }
    }
}

impl BackgroundHealthChecker {
    pub fn new() -> (r: BackgroundHealthChecker)
        ensures
            r@ == (HealthCheckerView {
                interval: 30_000_000_000,
                timeout: 5_000_000_000,
                running: false,
            }),
    {
        BackgroundHealthChecker {
            interval: Duration::from_secs(30),
            timeout: Duration::from_secs(5),
            running: false,
        }
    }

    pub fn with_interval(self, interval: Duration) -> (r: BackgroundHealthChecker)
        ensures
            r@ == (HealthCheckerView { interval: interval@, ..self@ }),
    {
        BackgroundHealthChecker { interval, ..self }
    }

    pub fn with_timeout(self, timeout: Duration) -> (r: BackgroundHealthChecker)
        ensures
            r@ == (HealthCheckerView { timeout: timeout@, ..self@ }),
    {
        BackgroundHealthChecker { timeout, ..self }
    }

    /// Starts the checker. Only the first start has an effect: the result says
    /// whether the probes are to be begun.
    pub fn start(&mut self) -> (r: bool)
        ensures
            r == !old(self)@.running,
            final(self)@ == (HealthCheckerView { running: true, ..old(self)@ }),
    {
        let first = !self.running;
        self.running = true;
        first
    }

    /// What a probe tells: a backend is healthy if it could be connected to in
    /// time. `connected` is none if the time ran out.
    pub fn verdict(&self, connected: Option<bool>) -> (r: bool)
        ensures
            r == (connected == Some(true)),
    {
        match connected {
            Some(c) => c,
            None => false,
        }
    }

    pub fn interval(&self) -> (r: Duration)
        ensures
            r@ == self@.interval,
    {
        self.interval
    }

    pub fn timeout(&self) -> (r: Duration)
        ensures
            r@ == self@.timeout,
    {
        self.timeout
    }

    pub fn is_running(&self) -> (r: bool)
        ensures
            r == self@.running,
    {
        self.running
    }
}

/// The endpoints that are left after an address was unregistered are those at other
/// addresses, each of them, and other services stay as they are.
pub proof fn law_other_endpoints_stay<R, N, H>(
    d: DiscoveryView<R, N, H>,
    name: Seq<char>,
    address: Seq<char>,
    e: EndpointView,
    other: Seq<char>,
)
    ensures
        d.unregistered(name, address).of(name).contains(e) <==> d.of(name).contains(e) && e.address
            != address,
        other != name ==> d.unregistered(name, address).of(other) == d.of(other),
        d.unregistered(name, address).strategy == d.strategy,
        d.unregistered(name, address).round_robin == d.round_robin,
        d.unregistered(name, address).random == d.random,
        d.unregistered(name, address).consistent == d.consistent,
{
    let p = |e: EndpointView| e.address != address;
    let all = d.of(name);
    law_unregistered_is_gone(d, name, address);
    lemma_filter_contains(all, p, e);
}

proof fn lemma_filter_contains(s: Seq<EndpointView>, p: spec_fn(EndpointView) -> bool, e: EndpointView)
    ensures
        s.filter(p).contains(e) <==> s.contains(e) && p(e),
    decreases s.len(),
{
    reveal(Seq::filter);
    if s.len() > 0 {
        let before = s.drop_last();
        lemma_filter_contains(before, p, e);
        assert(before.push(s.last()) =~= s);
        lemma_contains_push(before, s.last(), e);
        if p(s.last()) {
            lemma_contains_push(before.filter(p), s.last(), e);
        }
    }
}

/// A registry that is empty knows no service, and a service that nobody registered has
/// no endpoints.
pub proof fn law_unknown_service_has_no_endpoints<R, N, H>(
    d: DiscoveryView<R, N, H>,
    name: Seq<char>,
)
    ensures
        DiscoveryView::<R, N, H>::empty().of(name).len() == 0,
        DiscoveryView::<R, N, H>::empty().balancer(name) is None,
        DiscoveryView::<R, N, H>::empty().strategy == LoadBalancingStrategy::RoundRobin,
        !d.endpoints.dom().contains(name) ==> d.of(name).len() == 0,
        d.endpoints.dom().contains(name) ==> d.of(name) == d.endpoints[name],
{
}

/// A selection goes to the balancer of the service for the strategy in use, and to
/// none if there is none.
pub proof fn law_balancer_is_of_service_and_strategy<R, N, H>(
    d: DiscoveryView<R, N, H>,
    name: Seq<char>,
    e: EndpointView,
)
    ensures
        d.strategy == LoadBalancingStrategy::RoundRobin ==> d.balancer(name)
            == if d.round_robin.dom().contains(name) {
            Some(Balancer::<R, N, H>::RoundRobin(d.round_robin[name]))
        } else {
            None
        },
        d.strategy == LoadBalancingStrategy::Random ==> d.balancer(name)
            == if d.random.dom().contains(name) {
            Some(Balancer::<R, N, H>::Random(d.random[name]))
        } else {
            None
        },
        d.strategy == LoadBalancingStrategy::ConsistentHash ==> d.balancer(name)
            == if d.consistent.dom().contains(name) {
            Some(Balancer::<R, N, H>::ConsistentHash(d.consistent[name]))
        } else {
            None
        },
        d.registered(e).balancer(name) == d.balancer(name),
{
}

/// The addresses of endpoints are those of each of them, in their order.
pub proof fn law_addresses_keep_the_order(endpoints: Seq<EndpointView>, i: int)
    ensures
        addresses(endpoints).len() == endpoints.len(),
        0 <= i < endpoints.len() ==> addresses(endpoints)[i] == endpoints[i].address,
{
}

/// An endpoint and its model hold the same.
pub proof fn law_endpoint_model_keeps_everything(e: ServiceEndpoint, key: Seq<char>)
    ensures
        e@.name == e.name@,
        e@.address == e.address@,
        e@.weight == e.weight,
        e@.metadata.dom().contains(key) == e.metadata@.dom().contains(key),
        e.metadata@.dom().contains(key) ==> e@.metadata[key] == e.metadata@[key]@,
{
}

/// An endpoint that is registered is listed after those that were there, and an address
/// that is unregistered is listed no more.
pub proof fn law_registry_lists_its_endpoints<R, N, H>(
    a: &mut ServiceDiscovery<R, N, H>,
    endpoint: ServiceEndpoint,
    listed: Vec<String>,
    after: ServiceDiscovery<R, N, H>,
    found: Vec<ServiceEndpoint>,
    name: &str,
)
    requires
        call_ensures(ServiceDiscovery::<R, N, H>::register, (a, endpoint), listed),
        after == *final(a),
        call_ensures(ServiceDiscovery::<R, N, H>::discover, (&after, name), found),
        name@ == endpoint.name@,
    ensures
        listed@.len() == old(a)@.of(name@).len() + 1,
        listed@.last()@ == endpoint.address@,
        found@.len() == listed@.len(),
        found@.last()@ == endpoint@,
        forall|i: int|
            0 <= i < old(a)@.of(name@).len() ==> (#[trigger] found@[i])@ == old(a)@.of(name@)[i],
        final(a)@.strategy == old(a)@.strategy,
{
    let n = old(a)@.of(name@).len() as int;
    let views = endpoint_views(found@);
    assert(views.len() == found@.len());
    assert(views[n] == found@[n]@);
    assert forall|i: int| 0 <= i < n implies (#[trigger] found@[i])@ == old(a)@.of(name@)[i] by {
        assert(views[i] == found@[i]@);
    }
    let texts = protocol::texts(listed@);
    assert(texts.len() == listed@.len());
    assert(texts[n] == listed@[n]@);
    assert(addresses(final(a)@.of(endpoint@.name))[n] == endpoint@.address);
}

/// A selection goes to the balancer of the service for the strategy in use, with the very
/// key, and looks at no more than 256 backends.
pub proof fn law_selection_is_made_by_strategy<R, N, H>(
    d: ServiceDiscovery<R, N, H>,
    name: &str,
    key: &[u8],
    chosen: Option<Selection<&R, &N, &H>>,
    connected: Option<bool>,
    checker: BackgroundHealthChecker,
    healthy: bool,
)
    requires
        call_ensures(ServiceDiscovery::<R, N, H>::select_with_key, (&d, name, key), chosen),
        call_ensures(BackgroundHealthChecker::verdict, (&checker, connected), healthy),
    ensures
        chosen is Some <==> d@.balancer(name@) is Some,
        chosen matches Some(s) ==> {
            &&& s.key@ == key@
            &&& s.max_iterations == 256
            &&& d@.strategy == LoadBalancingStrategy::RoundRobin ==> (s.balancer
                matches Balancer::RoundRobin(lb) && *lb == d@.round_robin[name@])
            &&& d@.strategy == LoadBalancingStrategy::Random ==> (s.balancer
                matches Balancer::Random(lb) && *lb == d@.random[name@])
            &&& d@.strategy == LoadBalancingStrategy::ConsistentHash ==> (s.balancer
                matches Balancer::ConsistentHash(lb) && *lb == d@.consistent[name@])
        },
        healthy <==> connected == Some(true),
{
}

/// An endpoint is made of its name and address, weighs one, and takes the weight and the
/// metadata that it is given.
pub proof fn law_endpoint_is_made_of_what_it_is_given(
    name: &str,
    address: &str,
    e: ServiceEndpoint,
    weight: usize,
    key: &str,
    value: &str,
    heavy: ServiceEndpoint,
    noted: ServiceEndpoint,
    other: Seq<char>,
)
    requires
        call_ensures(ServiceEndpoint::new, (name, address), e),
        call_ensures(ServiceEndpoint::with_weight, (e, weight), heavy),
        call_ensures(ServiceEndpoint::with_metadata, (heavy, key, value), noted),
        other != key@,
    ensures
        e@.name == name@ && e@.address == address@ && e@.weight == 1,
        noted@.name == name@ && noted@.address == address@ && noted@.weight == weight,
        noted@.metadata.dom().contains(key@) && noted@.metadata[key@] == value@,
        !noted@.metadata.dom().contains(other),
{
}

/// The balancers that could be built are put in, the others stay, and an address that was
/// unregistered is listed no more.
pub proof fn law_registry_follows_its_changes<R, N, H>(
    a: &mut ServiceDiscovery<R, N, H>,
    name: &str,
    round_robin: Option<R>,
    random: Option<N>,
    consistent: Option<H>,
    b: &mut ServiceDiscovery<R, N, H>,
    address: &str,
    kept: Option<Vec<String>>,
    i: int,
)
    requires
        call_ensures(
            ServiceDiscovery::<R, N, H>::rebuild_load_balancers,
            (a, name, round_robin, random, consistent),
            (),
        ),
        call_ensures(ServiceDiscovery::<R, N, H>::unregister, (b, name, address), kept),
    ensures
        round_robin matches Some(lb) ==> final(a)@.round_robin.dom().contains(name@)
            && final(a)@.round_robin[name@] == lb,
        random matches Some(lb) ==> final(a)@.random.dom().contains(name@)
            && final(a)@.random[name@] == lb,
        consistent matches Some(lb) ==> final(a)@.consistent.dom().contains(name@)
            && final(a)@.consistent[name@] == lb,
        round_robin is None ==> final(a)@.round_robin == old(a)@.round_robin,
        random is None ==> final(a)@.random == old(a)@.random,
        consistent is None ==> final(a)@.consistent == old(a)@.consistent,
        final(a)@.endpoints == old(a)@.endpoints,
        kept is Some <==> old(b)@.endpoints.dom().contains(name@),
        kept matches Some(all) ==> 0 <= i < all@.len() ==> all@[i]@ != address@,
        final(b)@.round_robin == old(b)@.round_robin,
{
    if let Some(all) = kept {
        if 0 <= i < all@.len() {
            let listed = protocol::texts(all@);
            assert(listed[i] == all@[i]@);
            assert(listed.contains(listed[i]));
            law_unregistered_is_gone(old(b)@, name@, address@);
        }
    }
}

/// Only the first start of a checker begins the probes; its settings stay, or become what
/// it is given.
pub proof fn law_checker_starts_once(
    a: &mut BackgroundHealthChecker,
    first: bool,
    b: &mut BackgroundHealthChecker,
    second: bool,
    c: BackgroundHealthChecker,
    span: Duration,
    d: BackgroundHealthChecker,
    e: BackgroundHealthChecker,
)
    requires
        call_ensures(BackgroundHealthChecker::start, (a,), first),
        *old(b) == *final(a),
        call_ensures(BackgroundHealthChecker::start, (b,), second),
        call_ensures(BackgroundHealthChecker::with_interval, (c, span), d),
        call_ensures(BackgroundHealthChecker::with_timeout, (c, span), e),
    ensures
        first <==> !old(a)@.running,
        !second,
        final(b)@.interval == old(a)@.interval && final(b)@.timeout == old(a)@.timeout,
        d@.interval == span@ && d@.timeout == c@.timeout && d@.running == c@.running,
        e@.timeout == span@ && e@.interval == c@.interval && e@.running == c@.running,
{
}

/// A checker of which nothing is said probes every half minute, waits five seconds and is
/// not running; a selection without a key has an empty one.
pub proof fn law_plain_checker_and_selection<R, N, H>(
    c: BackgroundHealthChecker,
    d: ServiceDiscovery<R, N, H>,
    name: &str,
    chosen: Option<Selection<&R, &N, &H>>,
)
    requires
        call_ensures(BackgroundHealthChecker::new, (), c),
        call_ensures(ServiceDiscovery::<R, N, H>::select, (&d, name), chosen),
    ensures
        c@.interval == 30 * 1_000_000_000 && c@.timeout == 5 * 1_000_000_000 && !c@.running,
        chosen is Some <==> match d@.strategy {
            LoadBalancingStrategy::RoundRobin => d@.round_robin.dom().contains(name@),
            LoadBalancingStrategy::Random => d@.random.dom().contains(name@),
            LoadBalancingStrategy::ConsistentHash => d@.consistent.dom().contains(name@),
        },
        chosen matches Some(s) ==> s.key@.len() == 0 && s.max_iterations == 256,
{
}

} // verus!
