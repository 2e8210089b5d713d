//! Routing of a failover pool: which node a request goes to, how a retry or a
//! redirect moves it, and how the set of nodes is replaced.
use vstd::prelude::*;
use crate::text::str_eq;
use ahash::{AHashMap, RandomState};
use vstd::arithmetic::div_mod::{lemma_add_mod_noop, lemma_mod_add_multiples_vanish, lemma_small_mod};

verus! {

/// The nodes of a cluster, in routing order, and the version of this
/// configuration.
pub struct ClusterConfig {
    pub addrs: Vec<String>,
    pub ver: u64,
}

/// The first node at or after position `seed + k` (counting cyclically over
/// the `health.len()` nodes, and looking at most at `seed + health.len() - 1`)
/// that is healthy, as an unreduced position.
pub open spec fn first_healthy_from(health: Seq<bool>, seed: int, k: int) -> Option<int>
    decreases health.len() - k,
{
    if k < 0 || k >= health.len() {
        None
    } else if health[(seed + k) % (health.len() as int)] {
        Some(seed + k)
    } else {
        first_healthy_from(health, seed, k + 1)
    }
}

/// Selection of a node from position `seed`: the first healthy node among
/// the positions `seed .. seed + n` taken modulo the number of nodes `n`.
/// There is none when the cluster is empty, when no node is healthy, or when
/// `seed + n` does not fit in a `usize`.
pub open spec fn spec_select(health: Seq<bool>, seed: int) -> Option<int> {
    if health.len() == 0 || seed + health.len() > usize::MAX {
        None
    } else {
        first_healthy_from(health, seed, 0)
    }
}

/// The positions that `first_healthy_from` passes over are unhealthy, and the
/// one it stops at is healthy.
pub proof fn lemma_first_healthy_from(health: Seq<bool>, seed: int, k: int)
    requires
        0 <= k,
        health.len() > 0,
    ensures
        first_healthy_from(health, seed, k) matches Some(i) ==> {
            &&& seed + k <= i < seed + health.len()
            &&& health[i % (health.len() as int)]
            &&& forall|j: int| seed + k <= j < i ==> !health[#[trigger] (j % (health.len() as int))]
        },
        first_healthy_from(health, seed, k) is None ==> forall|j: int|
            seed + k <= j < seed + health.len() ==> !health[#[trigger] (j % (health.len() as int))],
    decreases health.len() - k,
{
    if k < health.len() {
        lemma_first_healthy_from(health, seed, k + 1);
    }
}

/// Among `n` consecutive positions from `seed`, one has each residue modulo `n`.
pub proof fn lemma_position_with_residue(seed: int, n: int, k: int) -> (j: int)
    requires
        0 <= seed,
        0 <= k < n,
    ensures
        seed <= j < seed + n,
        j % n == k,
{
    let r = seed % n;
    let d = if k >= r { k - r } else { k + n - r };
    lemma_add_mod_noop(seed, d, n);
    lemma_small_mod(d as nat, n as nat);
    lemma_small_mod(k as nat, n as nat);
    lemma_mod_add_multiples_vanish(k, n);
    seed + d
}

/// A selection only ever lands on a healthy node, no earlier candidate
/// position was healthy, and when some node is healthy (and the positions
/// fit in a `usize`) a node is selected.
pub proof fn lemma_select_properties(health: Seq<bool>, seed: int)
    requires
        0 <= seed,
    ensures
        spec_select(health, seed) matches Some(i) ==> {
            &&& seed <= i < seed + health.len()
            &&& health[i % (health.len() as int)]
            &&& forall|j: int| seed <= j < i ==> !health[#[trigger] (j % (health.len() as int))]
        },
        (exists|k: int| 0 <= k < health.len() && health[k]) && seed + health.len() <= usize::MAX
            ==> spec_select(health, seed) is Some,
{
    if health.len() > 0 {
        lemma_first_healthy_from(health, seed, 0);
        if (exists|k: int| 0 <= k < health.len() && health[k]) && seed + health.len() <= usize::MAX {
            let k = choose|k: int| 0 <= k < health.len() && health[k];
            let j = lemma_position_with_residue(seed, health.len() as int, k);
            if first_healthy_from(health, seed, 0) is None {
                assert(!health[j % (health.len() as int)]);
            }
        }
    }
}

impl ClusterConfig {
    /// The number of nodes.
    pub open spec fn len(&self) -> nat {
        self.addrs@.len()
    }

    /// The first healthy node at or after position `seed`, going round the
    /// nodes once; `health[k]` tells whether node `k` is healthy. The
    /// position is returned unreduced: the node is `position % len`.
    pub fn select(&self, seed: usize, health: &[bool]) -> (r: Option<usize>)
        requires
            health@.len() == self.len(),
        ensures
            r matches Some(i) ==> spec_select(health@, seed as int) == Some(i as int),
            r is None ==> spec_select(health@, seed as int) is None,
    {
        let l = self.addrs.len();
        if l == 0 {
            return None;
        }
        if seed > usize::MAX - l {
            return None;
        }
        let end = seed + l;
        let mut i = seed;
        while i < end
            invariant
                l == health@.len(),
                l > 0,
                end == seed + l,
                seed <= i <= end,
                first_healthy_from(health@, seed as int, 0) == first_healthy_from(
                    health@,
                    seed as int,
                    i - seed,
                ),
            decreases end - i,
        {
            if health[i % l] {
                return Some(i);
            }
            i = i + 1;
        }
        None
    }

    /// The position of the first node whose address is `addr`, whatever its
    /// health.
    pub fn get_by_addr(&self, addr: &str) -> (r: Option<usize>)
        ensures
            r == spec_index_of(self.addrs@, addr@),
    {
        let mut i: usize = 0;
        while i < self.addrs.len()
            invariant
                i <= self.addrs@.len(),
                forall|j: int| 0 <= j < i ==> self.addrs@[j]@ != addr@,
            decreases self.addrs@.len() - i,
        {
            if str_eq(self.addrs[i].as_str(), addr) {
                return Some(i);
            }
            i = i + 1;
        }
        None
    }
}

/// The position of the first address in `addrs` equal to `addr`.
pub open spec fn spec_index_of(addrs: Seq<String>, addr: Seq<char>) -> Option<usize> {
    if exists|i: int| 0 <= i < addrs.len() && addrs[i]@ == addr {
        let i = choose|i: int|
            0 <= i < addrs.len() && addrs[i]@ == addr && forall|j: int| 0 <= j < i ==> addrs[j]@ != addr;
        Some(i as usize)
    } else {
        None
    }
}

#[verifier::external_type_specification]
#[verifier::external_body]
pub struct ExRandomState(RandomState);

#[verifier::external_type_specification]
#[verifier::external_body]
#[verifier::reject_recursive_types(K)]
#[verifier::reject_recursive_types(V)]
#[verifier::reject_recursive_types(S)]
pub struct ExAHashMap<K, V, S>(AHashMap<K, V, S>);

/// What a map from addresses to node positions holds: the text of each key
/// and its position.
pub uninterp spec fn addr_map_contents(m: AHashMap<String, usize>) -> Map<Seq<char>, usize>;

/// The map from addresses to positions that holds nothing.
pub open spec fn no_addrs() -> Map<Seq<char>, usize> {
    Map::empty()
}

/// `AHashMap::with_capacity`: an empty map.
#[verifier::external_body]
fn addr_map_with_capacity(capacity: usize) -> (r: AHashMap<String, usize>)
    ensures
        addr_map_contents(r) == no_addrs(),
{
    AHashMap::with_capacity(capacity)
}

/// `AHashMap::insert`: the key now maps to the value, replacing any earlier
/// value (keys are `String`s, compared and hashed by their text).
#[verifier::external_body]
fn addr_map_insert(m: &mut AHashMap<String, usize>, k: String, v: usize)
    ensures
        addr_map_contents(*final(m)) == addr_map_contents(*old(m)).insert(k@, v),
{
    m.insert(k, v);
}

/// `AHashMap::remove`: takes the key out, and gives back the value it had.
#[verifier::external_body]
fn addr_map_remove(m: &mut AHashMap<String, usize>, k: &String) -> (r: Option<usize>)
    ensures
        addr_map_contents(*final(m)) == addr_map_contents(*old(m)).remove(k@),
        r == (if addr_map_contents(*old(m)).contains_key(k@) {
            Some(addr_map_contents(*old(m))[k@])
        } else {
            None::<usize>
        }),
{
    m.remove(k)
}

/// The position `spec_index_of` finds holds the address.
pub proof fn lemma_index_of(addrs: Seq<String>, addr: Seq<char>)
    requires
        addrs.len() <= usize::MAX,
    ensures
        spec_index_of(addrs, addr) matches Some(i) ==> i < addrs.len() && addrs[i as int]@ == addr,
        spec_index_of(addrs, addr) is None ==> forall|j: int| 0 <= j < addrs.len() ==> addrs[j]@ != addr,
{
    if exists|i: int| 0 <= i < addrs.len() && addrs[i]@ == addr {
        let w = choose|i: int| 0 <= i < addrs.len() && addrs[i]@ == addr;
        lemma_first_index(addrs, addr, w);
        let i = choose|i: int|
            0 <= i < addrs.len() && addrs[i]@ == addr && forall|j: int| 0 <= j < i ==> addrs[j]@ != addr;
        assert(0 <= i < addrs.len() && addrs[i]@ == addr);
        assert(spec_index_of(addrs, addr) == Some(i as usize));
    }
}

/// Below any position holding `addr` there is a first one.
proof fn lemma_first_index(addrs: Seq<String>, addr: Seq<char>, w: int)
    requires
        0 <= w < addrs.len(),
        addrs[w]@ == addr,
    ensures
        exists|i: int| 0 <= i < addrs.len() && addrs[i]@ == addr && forall|j: int| 0 <= j < i ==> addrs[j]@ != addr,
    decreases w,
{
    if exists|j: int| 0 <= j < w && addrs[j]@ == addr {
        let j = choose|j: int| 0 <= j < w && addrs[j]@ == addr;
        lemma_first_index(addrs, addr, j);
    } else {
        assert(0 <= w < addrs.len() && addrs[w]@ == addr && forall|j: int| 0 <= j < w ==> addrs[j]@ != addr);
    }
}

/// The last position among the first `n` addresses whose text is `a`.
pub open spec fn last_pos(addrs: Seq<String>, n: int, a: Seq<char>) -> Option<int>
    decreases n,
{
    if n <= 0 {
        None
    } else if addrs[n - 1]@ == a {
        Some(n - 1)
    } else {
        last_pos(addrs, n - 1, a)
    }
}

/// Whether one of the first `k` addresses has the text `a`.
pub open spec fn seen_before(addrs: Seq<String>, k: int, a: Seq<char>) -> bool {
    exists|j: int| 0 <= j < k && addrs[j]@ == a
}

/// Which old node the `k`-th new address takes over when the addresses are
/// replaced: the last old node with that address, unless an earlier new
/// address already took it; `None` means that a new node is created.
pub open spec fn spec_reuse(old: Seq<String>, new: Seq<String>, k: int) -> Option<usize> {
    if seen_before(new, k, new[k]@) {
        None
    } else {
        match last_pos(old, old.len() as int, new[k]@) {
            Some(i) => Some(i as usize),
            None => None,
        }
    }
}

proof fn lemma_last_pos_bounds(addrs: Seq<String>, n: int, a: Seq<char>)
    requires
        0 <= n <= addrs.len(),
    ensures
        last_pos(addrs, n, a) matches Some(i) ==> 0 <= i < n && addrs[i]@ == a,
        last_pos(addrs, n, a) is None ==> forall|j: int| 0 <= j < n ==> addrs[j]@ != a,
    decreases n,
{
    if n > 0 {
        lemma_last_pos_bounds(addrs, n - 1, a);
    }
}

/// The version that follows `v`, wrapping round as an atomic counter does.
pub open spec fn next_ver(v: u64) -> u64 {
    if v == u64::MAX {
        0
    } else {
        (v + 1) as u64
    }
}

/// The position that follows `n`, wrapping round as an atomic counter does.
pub open spec fn next_pos(n: usize) -> usize {
    if n == usize::MAX {
        0
    } else {
        (n + 1) as usize
    }
}

/// Where a resubmitted request goes.
pub enum ResubmitRoute {
    /// To the node at this position, which was already in the cluster.
    Known { index: usize, config_ver: u64 },
    /// To a node that was added for the redirect address, at this position.
    Added { index: usize, config_ver: u64 },
    /// To the next healthy node, at this (unreduced) position.
    Next { index: usize, config_ver: u64 },
    /// Nowhere: no node is available.
    Unreachable,
}

/// The routing state of a failover pool.
///
/// In stateless mode requests go round the nodes in turn (`next_node` is a
/// round-robin counter); in stateful mode they go to the leader
/// (`next_node` is its position) unless it is unhealthy.
pub struct FailoverState {
    /// The current nodes and the version of that configuration.
    pub cluster: ClusterConfig,
    /// Round-robin (`true`) or leader-based (`false`) routing.
    pub stateless: bool,
    /// The counter that configuration versions are drawn from.
    pub ver: u64,
    /// The round-robin counter, or the leader's position.
    pub next_node: usize,
    /// How many times a request may be retried by default.
    pub retry_limit: usize,
    /// The channel size of each node's connection pool.
    pub pool_channel_size: usize,
}

impl FailoverState {
    /// A pool over `addrs`, with the first node as the initial leader.
    pub fn new(addrs: Vec<String>, stateless: bool, retry_limit: usize, pool_channel_size: usize) -> (r: FailoverState)
        ensures
            r.cluster.addrs@ == addrs@,
            r.cluster.ver == 0,
            r.stateless == stateless,
            r.ver == 1,
            r.next_node == 0,
            r.retry_limit == retry_limit,
            r.pool_channel_size == pool_channel_size,
            r.versions_in_order(),
    {
        FailoverState {
            cluster: ClusterConfig { addrs, ver: 0 },
            stateless,
            ver: 1,
            next_node: 0,
            retry_limit,
            pool_channel_size,
        }
    }

    /// The default number of retries.
    pub fn get_retry_limit(&self) -> (r: usize)
        ensures
            r == self.retry_limit,
    {
        self.retry_limit
    }

    /// The position selection starts from for a fresh request, and the
    /// counter after it: round-robin advances the counter, leader routing
    /// keeps it.
    pub open spec fn fresh_seed(self) -> usize {
        self.next_node
    }

    /// The counter after a fresh selection: round-robin advances it when
    /// there is a node to select from; over no nodes, and in leader mode, it
    /// stays.
    pub open spec fn counter_after_fresh(self) -> usize {
        if self.stateless && self.cluster.len() > 0 {
            next_pos(self.next_node)
        } else {
            self.next_node
        }
    }

    /// The configuration version in force was drawn from the version counter,
    /// so it is not above the counter. Every constructor and every operation
    /// that changes the versions keeps this, as long as the counter does not
    /// wrap round.
    pub open spec fn versions_in_order(self) -> bool {
        self.cluster.ver <= self.ver
    }

    /// Takes the seed for a fresh selection, advancing the round-robin counter
    /// when there is a node to select from.
    fn take_fresh_seed(&mut self) -> (seed: usize)
        ensures
            seed == old(self).fresh_seed(),
            final(self).next_node == old(self).counter_after_fresh(),
            final(self).cluster == old(self).cluster,
            final(self).stateless == old(self).stateless,
            final(self).ver == old(self).ver,
            final(self).retry_limit == old(self).retry_limit,
            final(self).pool_channel_size == old(self).pool_channel_size,
    {
        let seed = self.next_node;
        if self.stateless && self.cluster.addrs.len() > 0 {
            self.next_node = if self.next_node == usize::MAX {
                0
            } else {
                self.next_node + 1
            };
        }
        seed
    }

    /// Routes a new request: the node it goes to (as an unreduced position)
    /// and the configuration version it is routed under, or `None` when no
    /// node is available.
    pub fn route_new(&mut self, health: &[bool]) -> (r: Option<(usize, u64)>)
        requires
            health@.len() == old(self).cluster.len(),
        ensures
            r matches Some((i, v)) ==> spec_select(health@, old(self).fresh_seed() as int) == Some(i as int)
                && v == old(self).cluster.ver,
            r is None ==> spec_select(health@, old(self).fresh_seed() as int) is None,
            final(self).next_node == old(self).counter_after_fresh(),
            final(self).cluster == old(self).cluster,
            final(self).stateless == old(self).stateless,
            final(self).ver == old(self).ver,
            final(self).retry_limit == old(self).retry_limit,
            final(self).pool_channel_size == old(self).pool_channel_size,
    {
        let seed = self.take_fresh_seed();
        match self.cluster.select(seed, health) {
            Some(i) => Some((i, self.cluster.ver)),
            None => None,
        }
    }

    /// Routes a retry of a request that was last sent to position
    /// `last_index` under configuration `config_ver`: under the same
    /// configuration it moves on to the next healthy node; under a changed
    /// configuration selection starts afresh. Gives the new position and
    /// configuration version, or `None` when no node is available.
    pub fn route_retry(&mut self, config_ver: u64, last_index: usize, health: &[bool]) -> (r: Option<(usize, u64)>)
        requires
            health@.len() == old(self).cluster.len(),
            last_index < usize::MAX,
        ensures
            config_ver == old(self).cluster.ver ==> {
                &&& *final(self) == *old(self)
                &&& r matches Some((i, v)) ==> spec_select(health@, last_index + 1) == Some(i as int)
                    && v == config_ver
                &&& r is None ==> spec_select(health@, last_index + 1) is None
            },
            config_ver != old(self).cluster.ver ==> {
                &&& final(self).next_node == old(self).counter_after_fresh()
                &&& final(self).cluster == old(self).cluster
                &&& final(self).stateless == old(self).stateless
                &&& final(self).ver == old(self).ver
                &&& final(self).retry_limit == old(self).retry_limit
                &&& final(self).pool_channel_size == old(self).pool_channel_size
                &&& r matches Some((i, v)) ==> spec_select(health@, old(self).fresh_seed() as int) == Some(
                    i as int,
                ) && v == old(self).cluster.ver
                &&& r is None ==> spec_select(health@, old(self).fresh_seed() as int) is None
            },
    {
        if self.cluster.ver == config_ver {
            match self.cluster.select(last_index + 1, health) {
                Some(i) => Some((i, config_ver)),
                None => None,
            }
        } else {
            self.route_new(health)
        }
    }

    /// Routes a resubmitted request: to the address a redirect named
    /// (`Ok(addr)`), which becomes the leader and is added to the cluster if
    /// it is not there yet, or past the position it was last sent to
    /// (`Err(last_index)`).
    pub fn resubmit_route(&mut self, addr_or_retry: Result<String, usize>, health: &[bool]) -> (r: ResubmitRoute)
        requires
            health@.len() == old(self).cluster.len(),
            addr_or_retry matches Err(last) ==> last < usize::MAX,
        ensures
            final(self).stateless == old(self).stateless,
            final(self).retry_limit == old(self).retry_limit,
            final(self).pool_channel_size == old(self).pool_channel_size,
            old(self).versions_in_order() && old(self).ver < u64::MAX ==> final(self).versions_in_order(),
            match addr_or_retry {
                Ok(addr) => match spec_index_of(old(self).cluster.addrs@, addr@) {
                    Some(i) => {
                        &&& r == ResubmitRoute::Known { index: i, config_ver: old(self).cluster.ver }
                        &&& final(self).next_node == i
                        &&& final(self).cluster == old(self).cluster
                        &&& final(self).ver == old(self).ver
                    },
                    None => {
                        &&& r == ResubmitRoute::Added {
                            index: old(self).cluster.addrs@.len() as usize,
                            config_ver: next_ver(old(self).ver),
                        }
                        &&& final(self).next_node == old(self).cluster.addrs@.len()
                        &&& final(self).cluster.addrs@ == old(self).cluster.addrs@.push(addr)
                        &&& final(self).cluster.ver == next_ver(old(self).ver)
                        &&& final(self).ver == next_ver(old(self).ver)
                    },
                },
                Err(last) => {
                    &&& *final(self) == *old(self)
                    &&& match spec_select(health@, last + 1) {
                        Some(i) => r == ResubmitRoute::Next { index: i as usize, config_ver: old(self).cluster.ver },
                        None => r == ResubmitRoute::Unreachable,
                    }
                },
            },
    {
        match addr_or_retry {
            Ok(addr) => {
                match self.cluster.get_by_addr(addr.as_str()) {
                    Some(i) => {
                        self.next_node = i;
                        ResubmitRoute::Known { index: i, config_ver: self.cluster.ver }
                    },
                    None => {
                        let index = self.cluster.addrs.len();
                        let ver = if self.ver == u64::MAX {
                            0
                        } else {
                            self.ver + 1
                        };
                        self.ver = ver;
                        self.cluster.addrs.push(addr);
                        self.cluster.ver = ver;
                        self.next_node = index;
                        ResubmitRoute::Added { index, config_ver: ver }
                    },
                }
            },
            Err(last) => {
                match self.cluster.select(last + 1, health) {
                    Some(i) => ResubmitRoute::Next { index: i, config_ver: self.cluster.ver },
                    None => ResubmitRoute::Unreachable,
                }
            },
        }
    }

    /// Replaces the nodes with `addrs`, under a new configuration version.
    /// Gives, for each new address, the position of the old node whose
    /// connection pool it takes over, or `None` where a new pool is needed.
    pub fn update_addrs(&mut self, addrs: Vec<String>) -> (plan: Vec<Option<usize>>)
        ensures
            plan@.len() == addrs@.len(),
            forall|k: int| 0 <= k < addrs@.len() ==> plan@[k] == spec_reuse(old(self).cluster.addrs@, addrs@, k),
            final(self).cluster.addrs@ == addrs@,
            final(self).ver == next_ver(old(self).ver),
            final(self).cluster.ver == next_ver(old(self).ver),
            old(self).versions_in_order() && old(self).ver < u64::MAX ==> final(self).versions_in_order()
                && final(self).cluster.ver > old(self).cluster.ver,
            final(self).next_node == old(self).next_node,
            final(self).stateless == old(self).stateless,
            final(self).retry_limit == old(self).retry_limit,
            final(self).pool_channel_size == old(self).pool_channel_size,
    {
        let ghost old_addrs = self.cluster.addrs@;
        let n = self.cluster.addrs.len();
        let mut old_map = addr_map_with_capacity(n);
        let mut i: usize = 0;
        while i < n
            invariant
                n == old_addrs.len(),
                old_addrs == self.cluster.addrs@,
                i <= n,
                forall|a: Seq<char>|
                    #![trigger addr_map_contents(old_map).contains_key(a)]
                    addr_map_contents(old_map).contains_key(a) == (last_pos(old_addrs, i as int, a) is Some),
                forall|a: Seq<char>|
                    #![trigger addr_map_contents(old_map)[a]]
                    addr_map_contents(old_map).contains_key(a) ==> addr_map_contents(old_map)[a]
                        == last_pos(old_addrs, i as int, a)->0,
            decreases n - i,
        {
            let a = self.cluster.addrs[i].clone();
            addr_map_insert(&mut old_map, a, i);
            i = i + 1;
        }
        let mut plan: Vec<Option<usize>> = Vec::with_capacity(addrs.len());
        let mut k: usize = 0;
        while k < addrs.len()
            invariant
                n == old_addrs.len(),
                k <= addrs@.len(),
                plan@.len() == k,
                forall|q: int| 0 <= q < k ==> plan@[q] == spec_reuse(old_addrs, addrs@, q),
                forall|a: Seq<char>|
                    #![trigger addr_map_contents(old_map).contains_key(a)]
                    addr_map_contents(old_map).contains_key(a) == (last_pos(old_addrs, n as int, a) is Some
                        && !seen_before(addrs@, k as int, a)),
                forall|a: Seq<char>|
                    #![trigger addr_map_contents(old_map)[a]]
                    addr_map_contents(old_map).contains_key(a) ==> addr_map_contents(old_map)[a]
                        == last_pos(old_addrs, n as int, a)->0,
            decreases addrs@.len() - k,
        {
            let ghost a = addrs@[k as int]@;
            let reused = addr_map_remove(&mut old_map, &addrs[k]);
            proof {
                lemma_last_pos_bounds(old_addrs, n as int, a);
                assert forall|b: Seq<char>| seen_before(addrs@, k + 1, b) == (seen_before(addrs@, k as int, b) || b == a) by {
                    if b == a {
                        assert(addrs@[k as int]@ == b);
                    }
                    if seen_before(addrs@, k + 1, b) && !seen_before(addrs@, k as int, b) {
                        let j = choose|j: int| 0 <= j < k + 1 && addrs@[j]@ == b;
                        assert(j == k);
                    }
                }
            }
            plan.push(reused);
            k = k + 1;
        }
        let ver = if self.ver == u64::MAX {
            0
        } else {
            self.ver + 1
        };
        self.ver = ver;
        self.cluster = ClusterConfig { addrs, ver };
        plan
    }
}

/// A healthy node at the starting position is the one selected: in
/// round-robin mode each request goes to the node whose turn it is, and in
/// leader mode to the leader, as long as that node is healthy.
pub proof fn lemma_select_healthy_seed(health: Seq<bool>, seed: int)
    requires
        0 <= seed,
        health.len() > 0,
        seed + health.len() <= usize::MAX,
        health[seed % (health.len() as int)],
    ensures
        spec_select(health, seed) == Some(seed),
{
}

/// In round-robin mode a fresh selection over at least one node advances the
/// counter by one, so successive requests start from successive positions
/// (until the counter wraps round).
pub proof fn lemma_round_robin_advances(s: FailoverState)
    requires
        s.stateless,
        s.cluster.len() > 0,
        s.next_node < usize::MAX,
    ensures
        s.counter_after_fresh() == s.fresh_seed() + 1,
{
}

/// Over a cluster with no nodes nothing is selected, and the counter stays
/// where it was, in either mode.
pub proof fn lemma_no_nodes_keeps_counter(s: FailoverState, health: Seq<bool>)
    requires
        s.cluster.len() == 0,
        health.len() == 0,
    ensures
        s.counter_after_fresh() == s.fresh_seed(),
        spec_select(health, s.fresh_seed() as int) is None,
{
}

/// In leader mode a fresh selection leaves the leader in place, so every
/// request starts from the leader.
pub proof fn lemma_leader_kept(s: FailoverState)
    requires
        !s.stateless,
    ensures
        s.counter_after_fresh() == s.fresh_seed(),
{
}

/// When the addresses are replaced, an address takes over an old node only
/// if that node has the same address, and no old node is taken over twice.
pub proof fn lemma_reuse_sound(old: Seq<String>, new: Seq<String>, k1: int, k2: int)
    requires
        0 <= k1 < new.len(),
        0 <= k2 < new.len(),
        old.len() <= usize::MAX,
    ensures
        spec_reuse(old, new, k1) matches Some(i) ==> i < old.len() && old[i as int]@ == new[k1]@,
        k1 != k2 && spec_reuse(old, new, k1) is Some && spec_reuse(old, new, k2) is Some
            ==> spec_reuse(old, new, k1) != spec_reuse(old, new, k2),
        (!seen_before(new, k1, new[k1]@) && exists|i: int| 0 <= i < old.len() && old[i]@ == new[k1]@)
            ==> spec_reuse(old, new, k1) is Some,
{
    lemma_last_pos_bounds(old, old.len() as int, new[k1]@);
    lemma_last_pos_bounds(old, old.len() as int, new[k2]@);
    if k1 != k2 && spec_reuse(old, new, k1) is Some && spec_reuse(old, new, k2) is Some {
        if new[k1]@ == new[k2]@ {
            if k1 < k2 {
                assert(seen_before(new, k2, new[k2]@));
            } else {
                assert(seen_before(new, k1, new[k1]@));
            }
        }
    }
}

} // verus!
