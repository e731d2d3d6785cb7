//! The quorum consensus engine: aggregates observations from several RPC
//! providers, votes by provider weight, watches for Byzantine providers and
//! tracks provider health. It never falls back to the fastest, the first or
//! the highest provider.

use vstd::prelude::*;
use vstd::string::StringExecFns;

use crate::rpc::quorum_client::copy_string;
use crate::rpc::quorum_types::{
    failure_step, score_of, success_step, ByzantineConfig, ConsensusRound, FinalityGrade,
    HealthCounters, ProviderHealth, ProviderWeight, QuorumError, QuorumGroup, QuorumGroupView,
    QuorumResult, QuorumThreshold, RpcObservation,
};
use crate::strmap::{entries_to_map, keys_ascending, lemma_last_key_fresh, StrMap};

verus! {

/// Quorum consensus engine.
pub struct QuorumEngine {
    threshold: QuorumThreshold,
    byzantine: Option<ByzantineConfig>,
    weights: StrMap<ProviderWeight>,
    health: StrMap<ProviderHealth>,
    round_counter: u64,
}

/// The weight of an endpoint: its registered weight, or one (1000).
pub open spec fn weight_of(weights: Map<Seq<char>, ProviderWeight>, endpoint: Seq<char>) -> nat {
    if weights.contains_key(endpoint) {
        weights[endpoint].value()
    } else {
        1000
    }
}

/// The health counters of the registered providers.
pub open spec fn counters_of(health: Map<Seq<char>, ProviderHealth>) -> Map<Seq<char>, HealthCounters> {
    health.map_values(|h: ProviderHealth| h.counters())
}

/// How many records are not suspended.
pub open spec fn active_count(entries: Seq<(String, ProviderHealth)>) -> nat
    decreases entries.len(),
{
    if entries.len() == 0 {
        0
    } else {
        active_count(entries.drop_last()) + if entries.last().1.suspended {
            0nat
        } else {
            1nat
        }
    }
}

/// The endpoints whose health record is not suspended.
pub open spec fn active_endpoints(health: Map<Seq<char>, ProviderHealth>) -> Set<Seq<char>> {
    health.dom().filter(|k: Seq<char>| !health[k].suspended)
}

proof fn lemma_active_count(s: Seq<(String, ProviderHealth)>)
    requires
        keys_ascending(s),
    ensures
        active_endpoints(entries_to_map(s)).finite(),
        active_count(s) == active_endpoints(entries_to_map(s)).len(),
    decreases s.len(),
{
    if s.len() == 0 {
        assert(active_endpoints(entries_to_map(s)) =~= Set::<Seq<char>>::empty());
    } else {
        let pre = s.drop_last();
        lemma_last_key_fresh(s);
        lemma_active_count(pre);
        let k = s.last().0@;
        let m0 = entries_to_map(pre);
        assert(entries_to_map(s) == m0.insert(k, s.last().1));
        if s.last().1.suspended {
            assert(active_endpoints(entries_to_map(s)) =~= active_endpoints(m0));
        } else {
            assert(active_endpoints(entries_to_map(s)) =~= active_endpoints(m0).insert(k));
        }
    }
}

/// A call on an engine, as far as the set of providers goes: registering
/// an endpoint, removing one, or any other call.
pub enum EngineCall {
    /// `register_provider` or `register_default_provider` of the endpoint.
    Register(Seq<char>),
    /// `remove_provider` of the endpoint.
    Remove(Seq<char>),
    /// Any other call.
    Other,
}

/// The endpoints registered and not since removed, after `calls` on an
/// engine that started with none.
pub open spec fn registered_by(calls: Seq<EngineCall>) -> Set<Seq<char>>
    decreases calls.len(),
{
    if calls.len() == 0 {
        Set::empty()
    } else {
        let before = registered_by(calls.drop_last());
        match calls.last() {
            EngineCall::Register(k) => before.insert(k),
            EngineCall::Remove(k) => before.remove(k),
            EngineCall::Other => before,
        }
    }
}

/// What a call does to the registered providers and to the providers with
/// a health record.
pub open spec fn call_effect(before: QuorumEngine, call: EngineCall, after: QuorumEngine) -> bool {
    match call {
        EngineCall::Register(k) => {
            &&& after.weights_spec().dom() == before.weights_spec().dom().insert(k)
            &&& after.health_spec().dom() == before.health_spec().dom().insert(k)
        },
        EngineCall::Remove(k) => {
            &&& after.weights_spec().dom() == before.weights_spec().dom().remove(k)
            &&& after.health_spec().dom() == before.health_spec().dom().remove(k)
        },
        EngineCall::Other => {
            &&& after.weights_spec().dom() == before.weights_spec().dom()
            &&& after.health_spec().dom() == before.health_spec().dom()
        },
    }
}

/// Whether every registered weight is positive.
pub open spec fn weights_positive(weights: Map<Seq<char>, ProviderWeight>) -> bool {
    forall|k: Seq<char>| weights.contains_key(k) ==> #[trigger] weights[k].value() > 0
}

impl QuorumEngine {
    /// Every registered weight is positive, and the providers with a health
    /// record are exactly the registered ones.
    #[verifier::type_invariant]
    spec fn inv(self) -> bool {
        &&& weights_positive(self.weights.as_map())
        &&& self.health.as_map().dom() == self.weights.as_map().dom()
    }

    /// The thresholds in force.
    pub closed spec fn threshold_spec(self) -> QuorumThreshold {
        self.threshold
    }

    /// The fault-tolerance configuration, if any.
    pub closed spec fn byzantine_spec(self) -> Option<ByzantineConfig> {
        self.byzantine
    }

    /// The registered weights.
    pub closed spec fn weights_spec(self) -> Map<Seq<char>, ProviderWeight> {
        self.weights.as_map()
    }

    /// The health records, by endpoint.
    pub closed spec fn health_spec(self) -> Map<Seq<char>, ProviderHealth> {
        self.health.as_map()
    }

    /// The health records in ascending endpoint order.
    pub closed spec fn health_entries(self) -> Seq<(String, ProviderHealth)> {
        self.health.entries()
    }

    /// The number of rounds started.
    pub closed spec fn rounds(self) -> u64 {
        self.round_counter
    }

    /// Whether the providers with a health record are exactly the
    /// registered ones.
    pub open spec fn tracks_registered(self) -> bool {
        self.health_spec().dom() == self.weights_spec().dom()
    }

    /// An engine with the given thresholds and no providers.
    pub fn new(threshold: QuorumThreshold) -> (e: QuorumEngine)
        ensures
            e.threshold_spec() == threshold,
            e.byzantine_spec() is None,
            e.tracks_registered(),
            e.weights_spec() == Map::<Seq<char>, ProviderWeight>::empty(),
            e.health_spec() == Map::<Seq<char>, ProviderHealth>::empty(),
            e.health_entries().len() == 0,
            e.rounds() == 0,
    {
        QuorumEngine {
            threshold,
            byzantine: None,
            weights: StrMap::new(),
            health: StrMap::new(),
            round_counter: 0,
        }
    }

    /// An engine with the given thresholds and fault tolerance.
    pub fn with_bft(threshold: QuorumThreshold, byzantine: ByzantineConfig) -> (e: QuorumEngine)
        ensures
            e.threshold_spec() == threshold,
            e.byzantine_spec() == Some(byzantine),
            e.tracks_registered(),
            e.weights_spec() == Map::<Seq<char>, ProviderWeight>::empty(),
            e.health_spec() == Map::<Seq<char>, ProviderHealth>::empty(),
            e.health_entries().len() == 0,
            e.rounds() == 0,
    {
        QuorumEngine {
            threshold,
            byzantine: Some(byzantine),
            weights: StrMap::new(),
            health: StrMap::new(),
            round_counter: 0,
        }
    }

    /// The same engine with other thresholds.
    pub fn with_threshold(self, threshold: QuorumThreshold) -> (e: QuorumEngine)
        ensures
            call_effect(self, EngineCall::Other, e),
            e.threshold_spec() == threshold,
            e.byzantine_spec() == self.byzantine_spec(),
            e.tracks_registered(),
            e.weights_spec() == self.weights_spec(),
            e.health_spec() == self.health_spec(),
            e.health_entries() == self.health_entries(),
            e.rounds() == self.rounds(),
    {
        proof {
            use_type_invariant(&self);
        }
        QuorumEngine { threshold, ..self }
    }

    /// Registers a provider with a weight; a new provider starts healthy,
    /// a known one keeps its health.
    pub fn register_provider(&mut self, endpoint: String, weight: ProviderWeight)
        ensures
            call_effect(*old(self), EngineCall::Register(endpoint@), *final(self)),
            final(self).tracks_registered(),
            final(self).weights_spec() == old(self).weights_spec().insert(endpoint@, weight),
            old(self).health_spec().contains_key(endpoint@) ==> final(self).health_spec()
                == old(self).health_spec(),
            !old(self).health_spec().contains_key(endpoint@) ==> final(self).health_spec().contains_key(
                endpoint@,
            ) && final(self).health_spec()[endpoint@].counters() == (0u32, 0u64, 0u64, false, 0u64)
                && final(self).health_spec()[endpoint@].endpoint@ == endpoint@
                && final(self).health_spec().remove(endpoint@) == old(self).health_spec(),
            final(self).threshold_spec() == old(self).threshold_spec(),
            final(self).byzantine_spec() == old(self).byzantine_spec(),
            final(self).rounds() == old(self).rounds(),
    {
        let key = copy_string(&endpoint);
        let _ = weight.raw();
        let mut engine = QuorumEngine::new(self.threshold);
        std::mem::swap(&mut engine, self);
        proof {
            use_type_invariant(&engine);
        }
        let QuorumEngine { threshold, byzantine, mut weights, mut health, round_counter } = engine;
        let ghost w0 = weights.as_map();
        let ghost h0 = health.as_map();
        weights.set(key, weight);
        if health.position(endpoint.as_str()).is_none() {
            let record = ProviderHealth::new(copy_string(&endpoint));
            let ghost key = endpoint@;
            let ghost before = health.as_map();
            assert(!before.contains_key(key));
            health.set(endpoint, record);
            proof {
                assert(health.as_map() == before.insert(key, record));
                assert(health.as_map().remove(key) =~= before);
            }
        }
        proof {
            assert(health.as_map().dom() =~= weights.as_map().dom()) by {
                assert(weights.as_map().dom() =~= w0.dom().insert(endpoint@));
                if h0.contains_key(endpoint@) {
                    assert(health.as_map().dom() =~= h0.dom());
                } else {
                    assert(health.as_map().dom() =~= h0.dom().insert(endpoint@));
                }
            }
        }
        *self = QuorumEngine { threshold, byzantine, weights, health, round_counter };
        proof {
            use_type_invariant(&*self);
        }
    }

    /// Registers a provider with the default weight (1000).
    pub fn register_default_provider(&mut self, endpoint: String)
        ensures
            call_effect(*old(self), EngineCall::Register(endpoint@), *final(self)),
            final(self).tracks_registered(),
            final(self).weights_spec().contains_key(endpoint@),
            final(self).weights_spec()[endpoint@].value() == 1000,
            final(self).weights_spec().remove(endpoint@) == old(self).weights_spec().remove(endpoint@),
            final(self).health_spec().contains_key(endpoint@),
            old(self).health_spec().contains_key(endpoint@) ==> final(self).health_spec()
                == old(self).health_spec(),
            !old(self).health_spec().contains_key(endpoint@) ==> final(self).health_spec()[endpoint@].counters()
                == (0u32, 0u64, 0u64, false, 0u64) && final(self).health_spec().remove(endpoint@)
                == old(self).health_spec(),
            final(self).threshold_spec() == old(self).threshold_spec(),
            final(self).byzantine_spec() == old(self).byzantine_spec(),
            final(self).rounds() == old(self).rounds(),
    {
        self.register_provider(endpoint, ProviderWeight::default());
        assert(self.weights_spec().remove(endpoint@) =~= old(self).weights_spec().remove(endpoint@));
    }

    /// Removes a provider and its health record.
    pub fn remove_provider(&mut self, endpoint: &str)
        ensures
            call_effect(*old(self), EngineCall::Remove(endpoint@), *final(self)),
            final(self).tracks_registered(),
            final(self).weights_spec() == old(self).weights_spec().remove(endpoint@),
            final(self).health_spec() == old(self).health_spec().remove(endpoint@),
            final(self).threshold_spec() == old(self).threshold_spec(),
            final(self).byzantine_spec() == old(self).byzantine_spec(),
            final(self).rounds() == old(self).rounds(),
    {
        proof {
            use_type_invariant(&*self);
        }
        let mut engine = QuorumEngine::new(self.threshold);
        std::mem::swap(&mut engine, self);
        proof {
            use_type_invariant(&engine);
        }
        let QuorumEngine { threshold, byzantine, mut weights, mut health, round_counter } = engine;
        let ghost w0 = weights.as_map();
        weights.remove(endpoint);
        health.remove(endpoint);
        proof {
            assert(health.as_map().dom() =~= weights.as_map().dom()) by {
                assert(weights.as_map().dom() =~= w0.dom().remove(endpoint@));
            }
        }
        *self = QuorumEngine { threshold, byzantine, weights, health, round_counter };
        proof {
            use_type_invariant(&*self);
        }
    }

    /// The number of registered providers.
    pub fn provider_count(&self) -> (n: usize)
        ensures
            n == self.weights_spec().dom().len(),
            n == self.health_spec().dom().len(),
    {
        proof {
            use_type_invariant(self);
        }
        self.weights.lemma_len();
        self.weights.len()
    }

    /// Starts a new round, numbered one past the last, with a snapshot of
    /// provider health in endpoint order.
    pub fn start_round(&mut self, chain_id: String) -> (r: ConsensusRound)
        requires
            old(self).rounds() < u64::MAX,
        ensures
            call_effect(*old(self), EngineCall::Other, *final(self)),
            final(self).rounds() == old(self).rounds() + 1,
            final(self).tracks_registered(),
            r.round_id == final(self).rounds(),
            r.chain_id@ == chain_id@,
            r.observations@.len() == 0,
            r.decision is None,
            r.health_snapshot@.len() == old(self).health_entries().len(),
            forall|i: int|
                0 <= i < r.health_snapshot@.len() ==> (#[trigger] r.health_snapshot@[i]).counters()
                    == old(self).health_entries()[i].1.counters()
                    && r.health_snapshot@[i].endpoint@ == old(self).health_entries()[i].1.endpoint@,
            final(self).weights_spec() == old(self).weights_spec(),
            final(self).health_spec() == old(self).health_spec(),
            final(self).health_entries() == old(self).health_entries(),
            final(self).threshold_spec() == old(self).threshold_spec(),
            final(self).byzantine_spec() == old(self).byzantine_spec(),
    {
        proof {
            use_type_invariant(&*self);
        }
        self.round_counter = self.round_counter + 1;
        let mut round = ConsensusRound::new(self.round_counter, chain_id);
        let n = self.health.len();
        let mut i: usize = 0;
        while i < n
            invariant
                n == self.health.entries().len(),
                i <= n,
                round.round_id == self.round_counter,
                round.chain_id@ == chain_id@,
                round.observations@.len() == 0,
                round.decision is None,
                round.health_snapshot@.len() == i,
                forall|k: int|
                    0 <= k < i ==> (#[trigger] round.health_snapshot@[k]).counters()
                        == self.health.entries()[k].1.counters()
                        && round.health_snapshot@[k].endpoint@ == self.health.entries()[k].1.endpoint@,
            decreases n - i,
        {
            let record = self.health.entry_at(i).1.duplicate();
            round.add_health(record);
            i = i + 1;
        }
        round
    }

    /// Adds an observation to a round.
    pub fn add_observation(&mut self, round: &mut ConsensusRound, obs: RpcObservation)
        ensures
            call_effect(*old(self), EngineCall::Other, *final(self)),
            final(round).observations@ == old(round).observations@.push(obs),
            final(round).round_id == old(round).round_id,
            final(round).decision == old(round).decision,
            *final(self) == *old(self),
    {
        round.add_observation(obs);
    }

    /// The health record of a provider.
    pub fn get_provider_health(&self, endpoint: &str) -> (r: Option<&ProviderHealth>)
        ensures
            match r {
                Some(h) => self.health_spec().contains_key(endpoint@) && *h == self.health_spec()[endpoint@],
                None => !self.health_spec().contains_key(endpoint@),
            },
            r is Some <==> self.weights_spec().contains_key(endpoint@),
    {
        proof {
            use_type_invariant(self);
        }
        self.health.get(endpoint)
    }

    /// All health records, in endpoint order.
    pub fn all_health(&self) -> (h: &StrMap<ProviderHealth>)
        ensures
            h.as_map() == self.health_spec(),
            h.entries() == self.health_entries(),
            h.as_map().dom() == self.weights_spec().dom(),
    {
        proof {
            use_type_invariant(self);
        }
        &self.health
    }

    /// The weight of a provider scaled by its health score, in thousandths.
    pub fn health_adjusted_weight(&self, endpoint: &str) -> (w: u64)
        ensures
            w == weight_of(self.weights_spec(), endpoint@) * (if self.health_spec().contains_key(
                endpoint@,
            ) {
                score_of(
                    self.health_spec()[endpoint@].total_successes as nat,
                    self.health_spec()[endpoint@].total_failures as nat,
                )
            } else {
                1000
            }) / 1000,
    {
        let base: u64 = match self.weights.get(endpoint) {
            Some(wt) => wt.raw(),
            None => 1000,
        };
        let score: u64 = match self.health.get(endpoint) {
            Some(h) => h.health_score(),
            None => 1000,
        };
        proof {
            if self.health_spec().contains_key(endpoint@) {
                let h = self.health_spec()[endpoint@];
                lemma_score_at_most_one(h.total_successes as nat, h.total_failures as nat);
            }
        }
        assert(base as u128 * score as u128 <= 0xffff_ffff_ffff_ffff * 1000) by (nonlinear_arith)
            requires
                score <= 1000,
        ;
        let product = base as u128 * score as u128;
        (product / 1000) as u64
    }

    /// Whether enough providers are active (not suspended) to reach quorum.
    pub fn is_quorum_achievable(&self) -> (b: bool)
        ensures
            b == (active_endpoints(self.health_spec()).len() >= self.threshold_spec().min_provider_count),
    {
        self.health.lemma_well_formed();
        proof {
            lemma_active_count(self.health.entries());
        }
        let n = self.health.len();
        let mut active: usize = 0;
        let mut i: usize = 0;
        while i < n
            invariant
                n == self.health.entries().len(),
                i <= n,
                active == active_count(self.health.entries().subrange(0, i as int)),
                active <= i,
            decreases n - i,
        {
            proof {
                assert(self.health.entries().subrange(0, i + 1).drop_last() =~= self.health.entries().subrange(
                    0,
                    i as int,
                ));
            }
            if !self.health.entry_at(i).1.suspended {
                active = active + 1;
            }
            i = i + 1;
        }
        assert(self.health.entries().subrange(0, i as int) =~= self.health.entries());
        active >= self.threshold.min_provider_count
    }

    /// The minimum number of providers for quorum.
    pub fn min_providers_needed(&self) -> (n: usize)
        ensures
            n == self.threshold_spec().min_provider_count,
    {
        self.threshold.min_provider_count
    }

    /// The thresholds in force.
    pub fn threshold(&self) -> (t: &QuorumThreshold)
        ensures
            *t == self.threshold_spec(),
    {
        &self.threshold
    }
}

proof fn lemma_score_at_most_one(successes: nat, failures: nat)
    ensures
        score_of(successes, failures) <= 1000,
{
    if successes + failures > 0 {
        assert((successes * 1000) / (successes + failures) <= 1000) by (nonlinear_arith)
            requires
                successes + failures > 0,
        ;
    }
}

impl Default for QuorumEngine {
    fn default() -> (e: QuorumEngine)
        ensures
            e.threshold_spec() == QuorumThreshold::majority_spec(),
            e.byzantine_spec() is None,
            e.weights_spec() == Map::<Seq<char>, ProviderWeight>::empty(),
            e.health_spec() == Map::<Seq<char>, ProviderHealth>::empty(),
            e.tracks_registered(),
            e.rounds() == 0,
    {
        QuorumEngine::new(QuorumThreshold::default())
    }
}

/// Whether `a` comes strictly before `b` in byte order.
pub open spec fn bytes_lt(a: Seq<u8>, b: Seq<u8>) -> bool
    decreases a.len(),
{
    if a.len() == 0 {
        b.len() > 0
    } else if b.len() == 0 {
        false
    } else if a[0] != b[0] {
        a[0] < b[0]
    } else {
        bytes_lt(a.subrange(1, a.len() as int), b.subrange(1, b.len() as int))
    }
}

/// The position of the first group with hash `h`, or the length.
pub open spec fn hash_index(gs: Seq<QuorumGroupView>, h: Seq<u8>) -> int
    decreases gs.len(),
{
    if gs.len() == 0 {
        0
    } else if gs[0].0 == h {
        0
    } else {
        1 + hash_index(gs.subrange(1, gs.len() as int), h)
    }
}

/// The position of the first group whose hash does not come before `h`, or the length.
pub open spec fn insert_point(gs: Seq<QuorumGroupView>, h: Seq<u8>) -> int
    decreases gs.len(),
{
    if gs.len() == 0 {
        0
    } else if !bytes_lt(gs[0].0, h) {
        0
    } else {
        1 + insert_point(gs.subrange(1, gs.len() as int), h)
    }
}

/// Counts an observation of `h` by `e` with weight `w`: a provider counts
/// once per hash; a new hash opens a group in hash order.
pub open spec fn add_to_groups(gs: Seq<QuorumGroupView>, e: Seq<char>, h: Seq<u8>, w: nat) -> Seq<
    QuorumGroupView,
> {
    let i = hash_index(gs, h);
    if i < gs.len() {
        if gs[i].3.contains(e) {
            gs
        } else {
            gs.update(i, (gs[i].0, gs[i].1 + w, gs[i].2 + 1, gs[i].3.push(e)))
        }
    } else {
        let p = insert_point(gs, h);
        gs.subrange(0, p).push((h, w, 1nat, seq![e])) + gs.subrange(p, gs.len() as int)
    }
}

/// The groups of the observations, in hash order.
pub open spec fn groups_by_hash(obs: Seq<RpcObservation>, weights: Map<Seq<char>, ProviderWeight>) -> Seq<
    QuorumGroupView,
>
    decreases obs.len(),
{
    if obs.len() == 0 {
        Seq::empty()
    } else {
        let o = obs.last();
        add_to_groups(
            groups_by_hash(obs.drop_last(), weights),
            o.endpoint@,
            o.observed_hash@,
            weight_of(weights, o.endpoint@),
        )
    }
}

/// The summed weight of the groups.
pub open spec fn group_weight_sum(gs: Seq<QuorumGroupView>) -> nat
    decreases gs.len(),
{
    if gs.len() == 0 {
        0
    } else {
        group_weight_sum(gs.drop_last()) + gs.last().1
    }
}

/// The summed weight of the observations' providers.
pub open spec fn observation_weight(obs: Seq<RpcObservation>, weights: Map<Seq<char>, ProviderWeight>) -> nat
    decreases obs.len(),
{
    if obs.len() == 0 {
        0
    } else {
        observation_weight(obs.drop_last(), weights) + weight_of(weights, obs.last().endpoint@)
    }
}

/// The groups ordered heaviest first, hash order among equals.
pub open spec fn ranked_quorum_groups(gs: Seq<QuorumGroupView>) -> Seq<QuorumGroupView> {
    crate::ranking::rank_desc(gs.map_values(|g: QuorumGroupView| g.1 as u128), gs.len()).map_values(
        |i: int| gs[i],
    )
}

/// The number of distinct endpoints among the observations.
pub open spec fn distinct_endpoints(obs: Seq<RpcObservation>) -> nat
    decreases obs.len(),
{
    if obs.len() == 0 {
        0
    } else {
        distinct_endpoints(obs.drop_last()) + if (exists|i: int|
            0 <= i < obs.len() - 1 && (#[trigger] obs[i]).endpoint@ == obs.last().endpoint@) {
            0nat
        } else {
            1nat
        }
    }
}

/// The providers of groups after the first whose weight exceeds a tenth
/// of the total, among the first `n` groups.
pub open spec fn heavy_minority(gs: Seq<QuorumGroupView>, total: nat, n: nat) -> Seq<Seq<char>>
    decreases n,
{
    if n <= 1 {
        Seq::empty()
    } else {
        heavy_minority(gs, total, (n - 1) as nat) + if gs[n - 1].1 * 10 > total {
            gs[n - 1].3
        } else {
            Seq::empty()
        }
    }
}

/// `base` followed by the suspended endpoints among the first `n` health
/// records that it does not hold yet.
pub open spec fn with_suspended(entries: Seq<(String, ProviderHealth)>, base: Seq<Seq<char>>, n: nat) -> Seq<
    Seq<char>,
>
    decreases n,
{
    if n == 0 {
        base
    } else {
        let acc = with_suspended(entries, base, (n - 1) as nat);
        let e = entries[n - 1];
        if e.1.suspended && !acc.contains(e.0@) {
            acc.push(e.0@)
        } else {
            acc
        }
    }
}

/// The providers suspected of Byzantine behaviour.
pub open spec fn suspects(
    gs: Seq<QuorumGroupView>,
    total: nat,
    entries: Seq<(String, ProviderHealth)>,
) -> Seq<Seq<char>> {
    with_suspended(entries, heavy_minority(gs, total, gs.len()), entries.len())
}

/// The best finality after seeing `f`.
pub open spec fn finality_step(best: FinalityGrade, f: FinalityGrade) -> FinalityGrade {
    match (best, f) {
        (FinalityGrade::Unknown, _) => f,
        (_, FinalityGrade::Unknown) => best,
        (FinalityGrade::Deterministic, _) => FinalityGrade::Deterministic,
        (FinalityGrade::Optimistic, FinalityGrade::Deterministic) => FinalityGrade::Deterministic,
        (FinalityGrade::Optimistic, _) => best,
        (FinalityGrade::Probabilistic { .. }, FinalityGrade::Optimistic) => FinalityGrade::Optimistic,
        (
            FinalityGrade::Probabilistic { confirmations: a },
            FinalityGrade::Probabilistic { confirmations: b },
        ) => if b > a {
            f
        } else {
            best
        },
        _ => best,
    }
}

/// The best finality grade among the observations.
pub open spec fn best_finality(obs: Seq<RpcObservation>) -> FinalityGrade
    decreases obs.len(),
{
    if obs.len() == 0 {
        FinalityGrade::Unknown
    } else {
        finality_step(best_finality(obs.drop_last()), obs.last().observed_finality)
    }
}

/// The height of the first observation by one of `providers`, or zero.
pub open spec fn first_height(obs: Seq<RpcObservation>, providers: Seq<Seq<char>>) -> u64
    decreases obs.len(),
{
    if obs.len() == 0 {
        0
    } else if providers.contains(obs[0].endpoint@) {
        obs[0].observed_height
    } else {
        first_height(obs.subrange(1, obs.len() as int), providers)
    }
}

/// `n / d` in thousandths, rounded half up.
pub open spec fn rounded_ratio(n: nat, d: nat) -> nat {
    (2000 * n + d) / (2 * d)
}

/// A value in thousandths written with three decimals.
pub open spec fn permille_text(p: nat) -> Seq<char> {
    crate::text::decimal(p / 1000) + "."@ + crate::text::decimal((p / 100) % 10) + crate::text::decimal(
        (p / 10) % 10,
    ) + crate::text::decimal(p % 10)
}

/// The outcome of a consensus decision, as plain values.
pub enum QuorumOutcome {
    /// Hash, height, providers, weight, confidence, finality.
    Consensus(Seq<u8>, u64, Seq<Seq<char>>, nat, nat, FinalityGrade),
    /// Groups heaviest first, total weight, reason.
    NoConsensus(Seq<QuorumGroupView>, nat, Seq<char>),
    /// Suspicious providers and reason.
    Byzantine(Seq<Seq<char>>, Seq<char>),
    /// Too few providers: required and available.
    Insufficient(nat, nat),
}

/// The outcome that a result reports.
pub open spec fn outcome_of(r: QuorumResult) -> QuorumOutcome {
    match r {
        QuorumResult::Consensus {
            canonical_hash,
            canonical_height,
            supporting_providers,
            total_weight,
            confidence,
            finality_grade,
        } => QuorumOutcome::Consensus(
            canonical_hash@,
            canonical_height,
            supporting_providers@.map_values(|s: String| s@),
            total_weight as nat,
            confidence as nat,
            finality_grade,
        ),
        QuorumResult::NoConsensus { groups, total_weight, reason } => QuorumOutcome::NoConsensus(
            groups@.map_values(|g: QuorumGroup| g@),
            total_weight as nat,
            reason@,
        ),
        QuorumResult::ByzantineDetected { suspicious_providers, reason } => QuorumOutcome::Byzantine(
            suspicious_providers@.map_values(|s: String| s@),
            reason@,
        ),
    }
}

/// The decision over a round's observations.
pub open spec fn quorum_outcome(
    t: QuorumThreshold,
    byzantine: Option<ByzantineConfig>,
    weights: Map<Seq<char>, ProviderWeight>,
    entries: Seq<(String, ProviderHealth)>,
    obs: Seq<RpcObservation>,
) -> QuorumOutcome {
    let unique = distinct_endpoints(obs);
    let grouped = groups_by_hash(obs, weights);
    let gs = ranked_quorum_groups(grouped);
    let total = group_weight_sum(grouped);
    if obs.len() == 0 {
        QuorumOutcome::Insufficient(1, 0)
    } else if unique < t.min_provider_count {
        QuorumOutcome::Insufficient(t.min_provider_count as nat, unique)
    } else if gs.len() == 0 {
        QuorumOutcome::Insufficient(1, 0)
    } else if byzantine is Some && suspects(gs, total, entries).len() > 0 && suspects(
        gs,
        total,
        entries,
    ).len() <= byzantine->0.faulty() {
        QuorumOutcome::Byzantine(
            suspects(gs, total, entries),
            "Byzantine behavior detected in RPC providers"@,
        )
    } else {
        let best = gs[0];
        if best.1 * 1000 < t.min_agreement_ratio * total {
            QuorumOutcome::NoConsensus(
                gs,
                total,
                "Agreement ratio "@ + permille_text(rounded_ratio(best.1, total)) + " below threshold "@
                    + permille_text(t.min_agreement_ratio as nat),
            )
        } else if gs.len() > 1 && gs[1].1 * 1000 > t.max_divergence_ratio * best.1 {
            QuorumOutcome::NoConsensus(
                gs,
                total,
                "Divergence ratio "@ + permille_text(rounded_ratio(gs[1].1, best.1)) + " exceeds max "@
                    + permille_text(t.max_divergence_ratio as nat),
            )
        } else if best.2 < t.min_provider_count {
            QuorumOutcome::NoConsensus(
                gs,
                total,
                "Provider count "@ + crate::text::decimal(best.2) + " below minimum "@
                    + crate::text::decimal(t.min_provider_count as nat),
            )
        } else {
            QuorumOutcome::Consensus(
                best.0,
                first_height(obs, best.3),
                best.3,
                best.1,
                rounded_ratio(best.1, total),
                best_finality(obs),
            )
        }
    }
}

/// The health counters after a round with the given outcome: every
/// observation by a registered provider counts a success when the provider
/// supported a consensus, else a failure.
pub open spec fn health_after(
    counters: Map<Seq<char>, HealthCounters>,
    obs: Seq<RpcObservation>,
    supporters: Option<Seq<Seq<char>>>,
) -> Map<Seq<char>, HealthCounters>
    decreases obs.len(),
{
    if obs.len() == 0 {
        counters
    } else {
        let before = health_after(counters, obs.drop_last(), supporters);
        let o = obs.last();
        let e = o.endpoint@;
        if before.contains_key(e) {
            if supporters matches Some(s) && s.contains(e) {
                before.insert(e, success_step(before[e], o.latency_ms))
            } else {
                before.insert(e, failure_step(before[e]))
            }
        } else {
            before
        }
    }
}

/// The supporters that health tracking credits for an outcome.
pub open spec fn credited(outcome: QuorumOutcome) -> Option<Seq<Seq<char>>> {
    match outcome {
        QuorumOutcome::Consensus(_, _, providers, _, _, _) => Some(providers),
        _ => None,
    }
}

/// The plain views of a list of groups.
pub open spec fn group_views(gs: Seq<QuorumGroup>) -> Seq<QuorumGroupView> {
    gs.map_values(|g: QuorumGroup| g@)
}

/// The plain views of a list of strings.
pub open spec fn string_views(v: Seq<String>) -> Seq<Seq<char>> {
    v.map_values(|s: String| s@)
}

/// Whether hash `a` comes before hash `b` in byte order.
pub fn hash_before(a: &crate::hash::Hash, b: &crate::hash::Hash) -> (r: bool)
    ensures
        r == bytes_lt(a@, b@),
{
    let mut i: usize = 0;
    assert(a@.subrange(0, 32) =~= a@);
    assert(b@.subrange(0, 32) =~= b@);
    while i < 32 && a.0[i] == b.0[i]
        invariant
            i <= 32,
            a@.len() == 32,
            b@.len() == 32,
            bytes_lt(a@, b@) == bytes_lt(a@.subrange(i as int, 32), b@.subrange(i as int, 32)),
        decreases 32 - i,
    {
        proof {
            let (sa, sb) = (a@.subrange(i as int, 32), b@.subrange(i as int, 32));
            assert(sa.subrange(1, sa.len() as int) =~= a@.subrange(i + 1, 32));
            assert(sb.subrange(1, sb.len() as int) =~= b@.subrange(i + 1, 32));
        }
        i = i + 1;
    }
    if i == 32 {
        false
    } else {
        a.0[i] < b.0[i]
    }
}

/// Whether `v` holds a string equal to `s`.
pub fn holds_string(v: &Vec<String>, s: &String) -> (r: bool)
    ensures
        r == string_views(v@).contains(s@),
{
    let mut i: usize = 0;
    while i < v.len()
        invariant
            i <= v@.len(),
            forall|j: int| 0 <= j < i ==> (#[trigger] v@[j])@ != s@,
        decreases v@.len() - i,
    {
        if v[i] == *s {
            assert(string_views(v@)[i as int] == s@);
            return true;
        }
        i = i + 1;
    }
    proof {
        if string_views(v@).contains(s@) {
            let j = choose|j: int| 0 <= j < string_views(v@).len() && string_views(v@)[j] == s@;
            assert(v@[j]@ == s@);
        }
    }
    false
}

/// The number of distinct endpoints among the observations.
pub fn distinct_endpoint_count(obs: &Vec<RpcObservation>) -> (n: usize)
    ensures
        n == distinct_endpoints(obs@),
{
    let mut n: usize = 0;
    let mut i: usize = 0;
    while i < obs.len()
        invariant
            i <= obs@.len(),
            n == distinct_endpoints(obs@.subrange(0, i as int)),
            n <= i,
        decreases obs@.len() - i,
    {
        let mut j: usize = 0;
        let mut seen = false;
        while j < i
            invariant
                j <= i < obs@.len(),
                seen == exists|k: int| 0 <= k < j && (#[trigger] obs@[k]).endpoint@ == obs@[i as int].endpoint@,
            decreases i - j,
        {
            if obs[j].endpoint == obs[i].endpoint {
                seen = true;
            }
            j = j + 1;
        }
        proof {
            let pre = obs@.subrange(0, i + 1);
            assert(pre.drop_last() =~= obs@.subrange(0, i as int));
            assert(pre.last() == obs@[i as int]);
            assert(seen == exists|k: int| 0 <= k < pre.len() - 1 && (#[trigger] pre[k]).endpoint@ == pre.last().endpoint@) by {
                if seen {
                    let k = choose|k: int| 0 <= k < j && (#[trigger] obs@[k]).endpoint@ == obs@[i as int].endpoint@;
                    assert(pre[k] == obs@[k]);
                }
                if exists|k: int| 0 <= k < pre.len() - 1 && (#[trigger] pre[k]).endpoint@ == pre.last().endpoint@ {
                    let k = choose|k: int| 0 <= k < pre.len() - 1 && (#[trigger] pre[k]).endpoint@ == pre.last().endpoint@;
                    assert(pre[k] == obs@[k]);
                }
            }
        }
        if !seen {
            n = n + 1;
        }
        i = i + 1;
    }
    assert(obs@.subrange(0, i as int) =~= obs@);
    n
}

proof fn lemma_hash_index_bounds(gs: Seq<QuorumGroupView>, h: Seq<u8>)
    ensures
        0 <= hash_index(gs, h) <= gs.len(),
        hash_index(gs, h) < gs.len() ==> gs[hash_index(gs, h)].0 == h,
    decreases gs.len(),
{
    if gs.len() > 0 && gs[0].0 != h {
        let t = gs.subrange(1, gs.len() as int);
        lemma_hash_index_bounds(t, h);
        if hash_index(t, h) < t.len() {
            assert(gs[hash_index(gs, h)] == t[hash_index(t, h)]);
        }
    }
}

proof fn lemma_hash_index_at(gs: Seq<QuorumGroupView>, h: Seq<u8>, k: int)
    requires
        0 <= k <= gs.len(),
        k < gs.len() ==> gs[k].0 == h,
        forall|j: int| 0 <= j < k ==> (#[trigger] gs[j]).0 != h,
    ensures
        hash_index(gs, h) == k,
    decreases gs.len(),
{
    if gs.len() > 0 && k > 0 {
        let t = gs.subrange(1, gs.len() as int);
        assert forall|j: int| 0 <= j < k - 1 implies (#[trigger] t[j]).0 != h by {
            assert(t[j] == gs[j + 1]);
        }
        if k - 1 < t.len() {
            assert(t[k - 1] == gs[k]);
        }
        lemma_hash_index_at(t, h, k - 1);
    }
}

proof fn lemma_insert_point_at(gs: Seq<QuorumGroupView>, h: Seq<u8>, k: int)
    requires
        0 <= k <= gs.len(),
        k < gs.len() ==> !bytes_lt(gs[k].0, h),
        forall|j: int| 0 <= j < k ==> bytes_lt((#[trigger] gs[j]).0, h),
    ensures
        insert_point(gs, h) == k,
    decreases gs.len(),
{
    if gs.len() > 0 && k > 0 {
        let t = gs.subrange(1, gs.len() as int);
        assert forall|j: int| 0 <= j < k - 1 implies bytes_lt((#[trigger] t[j]).0, h) by {
            assert(t[j] == gs[j + 1]);
        }
        if k - 1 < t.len() {
            assert(t[k - 1] == gs[k]);
        }
        lemma_insert_point_at(t, h, k - 1);
    }
}

proof fn lemma_group_weight_sum_concat(a: Seq<QuorumGroupView>, b: Seq<QuorumGroupView>)
    ensures
        group_weight_sum(a + b) == group_weight_sum(a) + group_weight_sum(b),
    decreases b.len(),
{
    if b.len() == 0 {
        assert(a + b =~= a);
    } else {
        lemma_group_weight_sum_concat(a, b.drop_last());
        assert((a + b).drop_last() =~= a + b.drop_last());
    }
}

proof fn lemma_group_weight_le_sum(gs: Seq<QuorumGroupView>, k: int)
    requires
        0 <= k < gs.len(),
    ensures
        gs[k].1 <= group_weight_sum(gs),
    decreases gs.len(),
{
    if k < gs.len() - 1 {
        lemma_group_weight_le_sum(gs.drop_last(), k);
    }
}

proof fn lemma_group_weight_sum_update(gs: Seq<QuorumGroupView>, i: int, g: QuorumGroupView)
    requires
        0 <= i < gs.len(),
    ensures
        group_weight_sum(gs.update(i, g)) + gs[i].1 == group_weight_sum(gs) + g.1,
{
    let pre = gs.subrange(0, i);
    let post = gs.subrange(i + 1, gs.len() as int);
    assert(gs =~= pre.push(gs[i]) + post);
    assert(gs.update(i, g) =~= pre.push(g) + post);
    lemma_group_weight_sum_concat(pre.push(gs[i]), post);
    lemma_group_weight_sum_concat(pre.push(g), post);
    assert(pre.push(gs[i]).drop_last() =~= pre);
    assert(pre.push(g).drop_last() =~= pre);
}

/// The summed weight of the observations fits in 128 bits: each provider
/// weighs at most `u64::MAX` thousandths, and there are at most `usize::MAX`
/// observations.
proof fn lemma_observation_weight_bound(obs: Seq<RpcObservation>, w: Map<Seq<char>, ProviderWeight>)
    requires
        obs.len() <= usize::MAX,
    ensures
        observation_weight(obs, w) <= obs.len() * 0xffff_ffff_ffff_ffff,
        observation_weight(obs, w) <= 0xffff_ffff_ffff_ffff_ffff_ffff_ffff_ffff,
    decreases obs.len(),
{
    if obs.len() > 0 {
        lemma_observation_weight_bound(obs.drop_last(), w);
        let e = obs.last().endpoint@;
        if w.contains_key(e) {
            w[e].lemma_value_fits();
        }
    }
    assert(obs.len() * 0xffff_ffff_ffff_ffff <= 0xffff_ffff_ffff_ffff_ffff_ffff_ffff_ffff) by (nonlinear_arith)
        requires
            obs.len() <= 0xffff_ffff_ffff_ffff,
    ;
}

proof fn lemma_observation_weight_prefix(obs: Seq<RpcObservation>, w: Map<Seq<char>, ProviderWeight>, i: int)
    requires
        0 <= i <= obs.len(),
    ensures
        observation_weight(obs.subrange(0, i), w) <= observation_weight(obs, w),
    decreases obs.len() - i,
{
    if i < obs.len() {
        lemma_observation_weight_prefix(obs, w, i + 1);
        assert(obs.subrange(0, i + 1).drop_last() =~= obs.subrange(0, i));
    } else {
        assert(obs.subrange(0, i) =~= obs);
    }
}

impl QuorumEngine {
    fn weight_for(&self, endpoint: &String) -> (w: u64)
        ensures
            w == weight_of(self.weights_spec(), endpoint@),
            w > 0,
    {
        match self.weights.get(endpoint.as_str()) {
            Some(wt) => wt.raw(),
            None => 1000,
        }
    }

    /// Groups the observations by block hash, in hash order; each provider
    /// counts once per hash.
    pub fn group_observations(&self, obs: &Vec<RpcObservation>) -> (gs: Vec<QuorumGroup>)
        requires
            observation_weight(obs@, self.weights_spec()) <= u128::MAX,
        ensures
            group_views(gs@) == groups_by_hash(obs@, self.weights_spec()),
            group_weight_sum(group_views(gs@)) <= observation_weight(obs@, self.weights_spec()),
            forall|k: int| 0 <= k < gs@.len() ==> (#[trigger] gs@[k]).weight > 0,
    {
        proof {
            use_type_invariant(self);
        }
        let ghost wm = self.weights_spec();
        let mut gs: Vec<QuorumGroup> = Vec::new();
        let mut i: usize = 0;
        let n = obs.len();
        while i < obs.len()
            invariant
                n == obs@.len(),
                i <= n,
                wm == self.weights_spec(),
                observation_weight(obs@, wm) <= u128::MAX,
                group_views(gs@) == groups_by_hash(obs@.subrange(0, i as int), wm),
                group_weight_sum(group_views(gs@)) <= observation_weight(obs@.subrange(0, i as int), wm),
                forall|k: int| 0 <= k < gs@.len() ==> (#[trigger] gs@[k]).provider_count <= i,
                forall|k: int| 0 <= k < gs@.len() ==> (#[trigger] gs@[k]).weight > 0,
                weights_positive(wm),
            decreases n - i,
        {
            let ghost before = group_views(gs@);
            let ghost pre = obs@.subrange(0, i + 1);
            proof {
                assert(pre.drop_last() =~= obs@.subrange(0, i as int));
                assert(pre.last() == obs@[i as int]);
                lemma_observation_weight_prefix(obs@, wm, i + 1);
            }
            let o = &obs[i];
            let w = self.weight_for(&o.endpoint);
            let mut k: usize = 0;
            while k < gs.len() && !(gs[k].hash == o.observed_hash)
                invariant
                    k <= gs@.len(),
                    before == group_views(gs@),
                    forall|j: int| 0 <= j < k ==> (#[trigger] before[j]).0 != o.observed_hash@,
                decreases gs@.len() - k,
            {
                k = k + 1;
            }
            proof {
                lemma_hash_index_at(before, o.observed_hash@, k as int);
            }
            if k < gs.len() {
                if !holds_string(&gs[k].providers, &o.endpoint) {
                    proof {
                        lemma_group_weight_le_sum(before, k as int);
                        assert(observation_weight(pre, wm) == observation_weight(obs@.subrange(0, i as int), wm) + w);
                    }
                    let mut g = gs[k].duplicate();
                    g.weight = g.weight + w as u128;
                    g.provider_count = g.provider_count + 1;
                    let ghost gp = g.providers@;
                    g.providers.push(copy_string(&o.endpoint));
                    proof {
                        assert(string_views(g.providers@) =~= string_views(gp).push(o.endpoint@));
                        lemma_group_weight_sum_update(before, k as int, g@);
                    }
                    let ghost prev = gs@;
                    gs.set(k, g);
                    proof {
                        assert(gs@ == prev.update(k as int, g));
                        assert(group_views(gs@) =~= before.update(k as int, g@));
                    }
                }
            } else {
                let mut p: usize = 0;
                while p < gs.len() && hash_before(&gs[p].hash, &o.observed_hash)
                    invariant
                        p <= gs@.len(),
                        before == group_views(gs@),
                        forall|j: int| 0 <= j < p ==> bytes_lt((#[trigger] before[j]).0, o.observed_hash@),
                    decreases gs@.len() - p,
                {
                    p = p + 1;
                }
                proof {
                    lemma_insert_point_at(before, o.observed_hash@, p as int);
                }
                let mut ps: Vec<String> = Vec::new();
                ps.push(copy_string(&o.endpoint));
                let g = QuorumGroup { hash: o.observed_hash, weight: w as u128, provider_count: 1, providers: ps };
                assert(string_views(g.providers@) =~= seq![o.endpoint@]);
                let ghost prev = gs@;
                gs.insert(p, g);
                proof {
                    assert(group_views(gs@) =~= before.subrange(0, p as int).push(g@) + before.subrange(
                        p as int,
                        before.len() as int,
                    ));
                    assert(before =~= before.subrange(0, p as int) + before.subrange(p as int, before.len() as int));
                    lemma_group_weight_sum_concat(before.subrange(0, p as int), before.subrange(p as int, before.len() as int));
                    lemma_group_weight_sum_concat(before.subrange(0, p as int).push(g@), before.subrange(p as int, before.len() as int));
                    assert(before.subrange(0, p as int).push(g@).drop_last() =~= before.subrange(0, p as int));
                    assert forall|j: int| 0 <= j < gs@.len() implies (#[trigger] gs@[j]).provider_count <= i + 1 && gs@[j].weight > 0 by {
                        if j < p {
                            assert(gs@[j] == prev[j]);
                        } else if j > p {
                            assert(gs@[j] == prev[j - 1]);
                        }
                    }
                }
            }
            assert(group_views(gs@) == groups_by_hash(pre, wm));
            i = i + 1;
        }
        assert(obs@.subrange(0, i as int) =~= obs@);
        gs
    }
}

/// The group weights as ranking keys.
pub open spec fn group_keys(gs: Seq<QuorumGroupView>) -> Seq<u128> {
    gs.map_values(|g: QuorumGroupView| g.1 as u128)
}

proof fn lemma_sum_at_positions(gs: Seq<QuorumGroupView>, order: Seq<int>)
    requires
        forall|j: int| 0 <= j < order.len() ==> 0 <= #[trigger] order[j] < gs.len(),
        forall|k: int| 0 <= k < gs.len() ==> (#[trigger] gs[k]).1 <= u128::MAX,
    ensures
        group_weight_sum(order.map_values(|i: int| gs[i])) == crate::ranking::weight_at(group_keys(gs), order),
    decreases order.len(),
{
    if order.len() > 0 {
        let pre = order.drop_last();
        lemma_sum_at_positions(gs, pre);
        assert(order.map_values(|i: int| gs[i]).drop_last() =~= pre.map_values(|i: int| gs[i]));
        assert(gs[order.last()].1 <= u128::MAX);
    }
}

proof fn lemma_prefix_is_sum(gs: Seq<QuorumGroupView>, n: nat)
    requires
        n <= gs.len(),
        forall|k: int| 0 <= k < gs.len() ==> (#[trigger] gs[k]).1 <= u128::MAX,
    ensures
        crate::ranking::weight_prefix(group_keys(gs), n) == group_weight_sum(gs.subrange(0, n as int)),
    decreases n,
{
    if n > 0 {
        lemma_prefix_is_sum(gs, (n - 1) as nat);
        assert(gs.subrange(0, n as int).drop_last() =~= gs.subrange(0, n - 1));
        assert(gs[n - 1].1 <= u128::MAX);
    }
}

/// Ranking the groups keeps their summed weight.
proof fn lemma_ranked_total(gs: Seq<QuorumGroupView>)
    requires
        group_weight_sum(gs) <= u128::MAX,
    ensures
        group_weight_sum(ranked_quorum_groups(gs)) == group_weight_sum(gs),
        ranked_quorum_groups(gs).len() == gs.len(),
{
    assert forall|k: int| 0 <= k < gs.len() implies (#[trigger] gs[k]).1 <= u128::MAX by {
        lemma_group_weight_le_sum(gs, k);
    }
    crate::ranking::lemma_rank_desc_in_range(group_keys(gs), gs.len());
    lemma_sum_at_positions(gs, crate::ranking::rank_desc(group_keys(gs), gs.len()));
    crate::ranking::lemma_rank_desc_total(group_keys(gs), gs.len());
    lemma_prefix_is_sum(gs, gs.len());
    assert(gs.subrange(0, gs.len() as int) =~= gs);
}

/// Reorders groups by the given positions.
fn reorder_quorum_groups(gs: &Vec<QuorumGroup>, order: &Vec<usize>) -> (out: Vec<QuorumGroup>)
    requires
        forall|j: int| 0 <= j < order@.len() ==> #[trigger] order@[j] < gs@.len(),
    ensures
        group_views(out@) == order@.map_values(|x: usize| x as int).map_values(
            |i: int| group_views(gs@)[i],
        ),
{
    let mut out: Vec<QuorumGroup> = Vec::new();
    let mut j: usize = 0;
    while j < order.len()
        invariant
            j <= order@.len(),
            forall|t: int| 0 <= t < order@.len() ==> #[trigger] order@[t] < gs@.len(),
            group_views(out@) == order@.subrange(0, j as int).map_values(|x: usize| x as int).map_values(
                |i: int| group_views(gs@)[i],
            ),
        decreases order@.len() - j,
    {
        let g = gs[order[j]].duplicate();
        let ghost prev = out@;
        out.push(g);
        proof {
            assert(out@ == prev.push(g));
            assert(group_views(out@) =~= group_views(prev).push(g@));
            assert(order@.subrange(0, j + 1).map_values(|x: usize| x as int) =~= order@.subrange(
                0,
                j as int,
            ).map_values(|x: usize| x as int).push(order@[j as int] as int));
        }
        j = j + 1;
    }
    assert(order@.subrange(0, j as int) =~= order@);
    out
}

/// Ranks groups heaviest first, keeping the given order among equals.
pub fn rank_quorum_groups(gs: &Vec<QuorumGroup>) -> (ranked: Vec<QuorumGroup>)
    requires
        group_weight_sum(group_views(gs@)) <= u128::MAX,
    ensures
        group_views(ranked@) == ranked_quorum_groups(group_views(gs@)),
{
    let ghost gv = group_views(gs@);
    let mut ws: Vec<u128> = Vec::new();
    let mut k: usize = 0;
    while k < gs.len()
        invariant
            k <= gs@.len(),
            gv == group_views(gs@),
            group_weight_sum(gv) <= u128::MAX,
            ws@ == group_keys(gv).subrange(0, k as int),
        decreases gs@.len() - k,
    {
        proof {
            lemma_group_weight_le_sum(gv, k as int);
        }
        ws.push(gs[k].weight);
        k = k + 1;
        assert(ws@ =~= group_keys(gv).subrange(0, k as int));
    }
    assert(ws@ =~= group_keys(gv));
    let order = crate::ranking::rank_by_weight_desc(&ws);
    proof {
        crate::ranking::lemma_rank_desc_in_range(ws@, ws@.len());
        assert forall|j: int| 0 <= j < order@.len() implies #[trigger] order@[j] < gs@.len() by {
            assert(order@.map_values(|x: usize| x as int)[j] == order@[j] as int);
        }
    }
    let ranked = reorder_quorum_groups(gs, &order);
    assert(group_views(ranked@) =~= ranked_quorum_groups(gv));
    ranked
}

/// The summed weight of the groups.
pub fn total_group_weight(gs: &Vec<QuorumGroup>) -> (t: u128)
    requires
        group_weight_sum(group_views(gs@)) <= u128::MAX,
    ensures
        t == group_weight_sum(group_views(gs@)),
{
    let ghost gv = group_views(gs@);
    let mut t: u128 = 0;
    let mut k: usize = 0;
    while k < gs.len()
        invariant
            k <= gs@.len(),
            gv == group_views(gs@),
            group_weight_sum(gv) <= u128::MAX,
            t == group_weight_sum(gv.subrange(0, k as int)),
        decreases gs@.len() - k,
    {
        proof {
            assert(gv.subrange(0, k + 1).drop_last() =~= gv.subrange(0, k as int));
            lemma_group_weight_sum_concat(gv.subrange(0, k + 1), gv.subrange(k + 1, gv.len() as int));
            assert(gv.subrange(0, k + 1) + gv.subrange(k + 1, gv.len() as int) =~= gv);
        }
        t = t + gs[k].weight;
        k = k + 1;
    }
    assert(gv.subrange(0, k as int) =~= gv);
    t
}

/// The best finality grade among the observations.
pub fn determine_finality(observations: &Vec<RpcObservation>) -> (f: FinalityGrade)
    ensures
        f == best_finality(observations@),
{
    let mut best = FinalityGrade::Unknown;
    let mut i: usize = 0;
    while i < observations.len()
        invariant
            i <= observations@.len(),
            best == best_finality(observations@.subrange(0, i as int)),
        decreases observations@.len() - i,
    {
        proof {
            assert(observations@.subrange(0, i + 1).drop_last() =~= observations@.subrange(0, i as int));
        }
        let f = observations[i].observed_finality;
        best = match (best, f) {
            (FinalityGrade::Unknown, _) => f,
            (_, FinalityGrade::Unknown) => best,
            (FinalityGrade::Deterministic, _) => FinalityGrade::Deterministic,
            (FinalityGrade::Optimistic, FinalityGrade::Deterministic) => FinalityGrade::Deterministic,
            (FinalityGrade::Optimistic, _) => best,
            (FinalityGrade::Probabilistic { .. }, FinalityGrade::Optimistic) => FinalityGrade::Optimistic,
            (
                FinalityGrade::Probabilistic { confirmations: a },
                FinalityGrade::Probabilistic { confirmations: b },
            ) => if b > a {
                f
            } else {
                best
            },
            _ => best,
        };
        i = i + 1;
    }
    assert(observations@.subrange(0, i as int) =~= observations@);
    best
}

/// The height of the first observation by one of `providers`, or zero.
pub fn first_supported_height(observations: &Vec<RpcObservation>, providers: &Vec<String>) -> (h: u64)
    ensures
        h == first_height(observations@, string_views(providers@)),
{
    let mut i: usize = 0;
    assert(observations@.subrange(0, observations@.len() as int) =~= observations@);
    while i < observations.len()
        invariant
            i <= observations@.len(),
            first_height(observations@, string_views(providers@)) == first_height(
                observations@.subrange(i as int, observations@.len() as int),
                string_views(providers@),
            ),
        decreases observations@.len() - i,
    {
        let ghost rest = observations@.subrange(i as int, observations@.len() as int);
        proof {
            assert(rest.subrange(1, rest.len() as int) =~= observations@.subrange(i + 1, observations@.len() as int));
            assert(rest[0] == observations@[i as int]);
        }
        if holds_string(providers, &observations[i].endpoint) {
            return observations[i].observed_height;
        }
        i = i + 1;
    }
    0
}

fn push_permille(s: &mut String, p: u64)
    ensures
        final(s)@ == old(s)@ + permille_text(p as nat),
{
    let ghost start = s@;
    crate::text::push_decimal(s, p / 1000);
    s.append(".");
    crate::text::push_decimal(s, (p / 100) % 10);
    crate::text::push_decimal(s, (p / 10) % 10);
    crate::text::push_decimal(s, p % 10);
    assert(s@ =~= start + permille_text(p as nat));
}

/// The product of a 128-bit and a 64-bit value, as its high part and its
/// low 64 bits.
fn wide_mul(a: u128, b: u64) -> (r: (u128, u64))
    ensures
        r.0 * 0x1_0000_0000_0000_0000 + r.1 == a * b,
{
    let ah: u128 = a / 0x1_0000_0000_0000_0000u128;
    let al: u128 = a % 0x1_0000_0000_0000_0000u128;
    assert(ah <= 0xffff_ffff_ffff_ffff && al <= 0xffff_ffff_ffff_ffff) by (nonlinear_arith)
        requires
            ah == a / 0x1_0000_0000_0000_0000u128,
            al == a % 0x1_0000_0000_0000_0000u128,
            a <= 0xffff_ffff_ffff_ffff_ffff_ffff_ffff_ffffu128,
    ;
    assert(al * (b as u128) <= 0xffff_ffff_ffff_ffff * 0xffff_ffff_ffff_ffff) by (nonlinear_arith)
        requires
            al <= 0xffff_ffff_ffff_ffff,
            b <= 0xffff_ffff_ffff_ffffu64,
    ;
    let p: u128 = al * (b as u128);
    let c1: u128 = p / 0x1_0000_0000_0000_0000u128;
    let c0: u128 = p % 0x1_0000_0000_0000_0000u128;
    assert(c1 <= 0xffff_ffff_ffff_ffff && c0 <= 0xffff_ffff_ffff_ffff && p == c1 * 0x1_0000_0000_0000_0000 + c0) by (nonlinear_arith)
        requires
            c1 == p / 0x1_0000_0000_0000_0000u128,
            c0 == p % 0x1_0000_0000_0000_0000u128,
            p <= 0xffff_ffff_ffff_ffff * 0xffff_ffff_ffff_ffff,
    ;
    assert(ah * (b as u128) + c1 <= 0xffff_ffff_ffff_ffff * 0xffff_ffff_ffff_ffff + 0xffff_ffff_ffff_ffff) by (nonlinear_arith)
        requires
            ah <= 0xffff_ffff_ffff_ffff,
            b <= 0xffff_ffff_ffff_ffffu64,
            c1 <= 0xffff_ffff_ffff_ffff,
    ;
    let hi: u128 = ah * (b as u128) + c1;
    assert(hi * 0x1_0000_0000_0000_0000 + c0 == a * b) by (nonlinear_arith)
        requires
            a == ah * 0x1_0000_0000_0000_0000 + al,
            p == al * b,
            p == c1 * 0x1_0000_0000_0000_0000 + c0,
            hi == ah * b + c1,
    {
    }
    (hi, c0 as u64)
}

/// Whether `a * b < c * d`, computed without overflow.
pub fn product_lt(a: u128, b: u64, c: u128, d: u64) -> (r: bool)
    ensures
        r == (a * b < c * d),
{
    let (h1, l1) = wide_mul(a, b);
    let (h2, l2) = wide_mul(c, d);
    assert((h1 * 0x1_0000_0000_0000_0000 + l1 < h2 * 0x1_0000_0000_0000_0000 + l2) == (h1 < h2 || (
    h1 == h2 && l1 < l2))) by (nonlinear_arith)
        requires
            l1 <= 0xffff_ffff_ffff_ffffu64,
            l2 <= 0xffff_ffff_ffff_ffffu64,
            h1 >= 0,
            h2 >= 0,
    ;
    h1 < h2 || (h1 == h2 && l1 < l2)
}

fn ratio_permille(n: u128, d: u128) -> (r: u64)
    requires
        d > 0,
        n <= d,
    ensures
        r == rounded_ratio(n as nat, d as nat),
{
    let mut c: u64 = 0;
    while c < 1000 && !product_lt(n, 2000, d, 2 * c + 1)
        invariant
            c <= 1000,
            d > 0,
            n <= d,
            2 * d * c <= 2000 * n + d,
        decreases 1000 - c,
    {
        assert(2 * d * (c + 1) <= 2000 * n + d) by (nonlinear_arith)
            requires
                !(n * 2000 < d * (2 * c + 1)),
        ;
        c = c + 1;
    }
    assert((2000 * n + d) < 2 * d * (c + 1)) by (nonlinear_arith)
        requires
            c == 1000 || n * 2000 < d * (2 * c + 1),
            n <= d,
            d > 0,
    ;
    assert((2000 * n + d) / (2 * d) == c) by (nonlinear_arith)
        requires
            2 * d * c <= 2000 * n + d,
            2000 * n + d < 2 * d * (c + 1),
            d > 0,
    ;
    c
}

fn append_strings(out: &mut Vec<String>, v: &Vec<String>)
    ensures
        string_views(final(out)@) == string_views(old(out)@) + string_views(v@),
{
    let ghost start = string_views(out@);
    let mut i: usize = 0;
    while i < v.len()
        invariant
            i <= v@.len(),
            string_views(out@) == start + string_views(v@).subrange(0, i as int),
        decreases v@.len() - i,
    {
        let ghost prev = out@;
        let x = copy_string(&v[i]);
        out.push(x);
        proof {
            assert(out@ == prev.push(x));
            assert(string_views(out@) =~= string_views(prev).push(x@));
            assert(string_views(v@).subrange(0, i + 1) =~= string_views(v@).subrange(0, i as int).push(v@[i as int]@));
        }
        i = i + 1;
    }
    assert(string_views(v@).subrange(0, i as int) =~= string_views(v@));
}

impl QuorumEngine {
    /// Looks for Byzantine providers: those of every group after the first
    /// whose weight exceeds a tenth of the total, then every suspended
    /// provider not listed yet, in endpoint order. Reports them when there
    /// are some and no more than the configuration tolerates.
    pub fn detect_byzantine(&self, groups: &Vec<QuorumGroup>, byzantine: &ByzantineConfig) -> (r: Option<
        QuorumResult,
    >)
        requires
            group_weight_sum(group_views(groups@)) <= u128::MAX,
        ensures
            ({
                let sus = suspects(
                    group_views(groups@),
                    group_weight_sum(group_views(groups@)),
                    self.health_entries(),
                );
                if sus.len() > 0 && sus.len() <= byzantine.faulty() {
                    r matches Some(res) && outcome_of(res) == QuorumOutcome::Byzantine(
                        sus,
                        "Byzantine behavior detected in RPC providers"@,
                    )
                } else {
                    r is None
                }
            }),
    {
        let ghost gv = group_views(groups@);
        let total = total_group_weight(groups);
        let mut suspicious: Vec<String> = Vec::new();
        if groups.len() > 1 {
            let mut k: usize = 1;
            while k < groups.len()
                invariant
                    1 <= k <= groups@.len(),
                    gv == group_views(groups@),
                    total == group_weight_sum(gv),
                    string_views(suspicious@) == heavy_minority(gv, total as nat, k as nat),
                decreases groups@.len() - k,
            {
                let g = &groups[k];
                if product_lt(total, 1, g.weight, 10) {
                    append_strings(&mut suspicious, &g.providers);
                }
                proof {
                    assert(gv[k as int] == g@);
                    if !(g.weight * 10 > total) {
                        assert(string_views(suspicious@) =~= heavy_minority(gv, total as nat, k as nat) + Seq::<Seq<char>>::empty());
                    }
                }
                k = k + 1;
            }
        }
        let ghost base = string_views(suspicious@);
        assert(base == heavy_minority(gv, total as nat, gv.len()));
        let n = self.health.len();
        let mut i: usize = 0;
        while i < n
            invariant
                n == self.health.entries().len(),
                i <= n,
                string_views(suspicious@) == with_suspended(self.health.entries(), base, i as nat),
            decreases n - i,
        {
            let entry = self.health.entry_at(i);
            if entry.1.suspended && !holds_string(&suspicious, &entry.0) {
                let ghost prev = suspicious@;
                let x = copy_string(&entry.0);
                suspicious.push(x);
                proof {
                    assert(suspicious@ == prev.push(x));
                    assert(string_views(suspicious@) =~= string_views(prev).push(x@));
                }
            }
            i = i + 1;
        }
        if suspicious.len() > 0 && suspicious.len() <= byzantine.max_faulty() {
            Some(
                QuorumResult::ByzantineDetected {
                    suspicious_providers: suspicious,
                    reason: String::from_str("Byzantine behavior detected in RPC providers"),
                },
            )
        } else {
            None
        }
    }
}

/// Facts about the ranked groups: the same total, positive weights, and
/// the heaviest first.
proof fn lemma_ranked_facts(gs: Seq<QuorumGroupView>)
    requires
        group_weight_sum(gs) <= u128::MAX,
        forall|k: int| 0 <= k < gs.len() ==> (#[trigger] gs[k]).1 > 0,
    ensures
        group_weight_sum(ranked_quorum_groups(gs)) == group_weight_sum(gs),
        ranked_quorum_groups(gs).len() == gs.len(),
        forall|k: int| 0 <= k < gs.len() ==> (#[trigger] ranked_quorum_groups(gs)[k]).1 > 0,
        gs.len() > 0 ==> ranked_quorum_groups(gs)[0].1 <= group_weight_sum(gs),
        gs.len() > 1 ==> ranked_quorum_groups(gs)[1].1 <= ranked_quorum_groups(gs)[0].1,
{
    lemma_ranked_total(gs);
    let keys = group_keys(gs);
    let order = crate::ranking::rank_desc(keys, gs.len());
    crate::ranking::lemma_rank_desc_in_range(keys, gs.len());
    crate::ranking::lemma_rank_desc_descending(keys, gs.len());
    let ranked = ranked_quorum_groups(gs);
    assert forall|k: int| 0 <= k < gs.len() implies (#[trigger] ranked[k]).1 > 0 by {
        assert(ranked[k] == gs[order[k]]);
    }
    if gs.len() > 0 {
        lemma_group_weight_le_sum(ranked, 0);
    }
    if gs.len() > 1 {
        assert(keys[order[0]] >= keys[order[1]]);
        lemma_group_weight_le_sum(gs, order[0]);
        lemma_group_weight_le_sum(gs, order[1]);
        assert(ranked[0] == gs[order[0]]);
        assert(ranked[1] == gs[order[1]]);
    }
}

impl QuorumEngine {
    /// Computes a consensus decision for a round without recording it.
    ///
    /// No observations, or fewer distinct providers than the threshold,
    /// is an error. Otherwise the observations are grouped by hash and
    /// ranked heaviest first; suspected Byzantine providers are reported
    /// when fault tolerance is configured; then the best group must carry
    /// the agreement ratio of the total weight, the runner-up must stay
    /// within the divergence ratio of the best, and the best must have the
    /// minimum number of providers.
    pub fn compute_decision(&self, round: &ConsensusRound) -> (r: Result<QuorumResult, QuorumError>)
        ensures
            match quorum_outcome(
                self.threshold_spec(),
                self.byzantine_spec(),
                self.weights_spec(),
                self.health_entries(),
                round.observations@,
            ) {
                QuorumOutcome::Insufficient(req, avail) => r matches Err(
                    QuorumError::InsufficientProviders { required, available },
                ) && required == req && available == avail,
                o => r matches Ok(res) && outcome_of(res) == o,
            },
    {
        let obs = &round.observations;
        if obs.len() == 0 {
            return Err(QuorumError::InsufficientProviders { required: 1, available: 0 });
        }
        let unique = distinct_endpoint_count(obs);
        if unique < self.threshold.min_provider_count {
            return Err(
                QuorumError::InsufficientProviders {
                    required: self.threshold.min_provider_count,
                    available: unique,
                },
            );
        }
        proof {
            lemma_observation_weight_bound(obs@, self.weights_spec());
        }
        let grouped = self.group_observations(obs);
        proof {
            lemma_ranked_facts(group_views(grouped@));
        }
        let gs = rank_quorum_groups(&grouped);
        if gs.len() == 0 {
            return Err(QuorumError::InsufficientProviders { required: 1, available: 0 });
        }
        match &self.byzantine {
            Some(byzantine) => {
                match self.detect_byzantine(&gs, byzantine) {
                    Some(res) => {
                        return Ok(res);
                    },
                    None => {},
                }
            },
            None => {},
        }
        let total = total_group_weight(&gs);
        let best_weight = gs[0].weight;
        let best_count = gs[0].provider_count;
        let best_hash = gs[0].hash;
        let below = product_lt(best_weight, 1000, total, self.threshold.min_agreement_ratio);
        assert(total * self.threshold.min_agreement_ratio == self.threshold.min_agreement_ratio * total) by (nonlinear_arith);
        if below {
            let mut reason = String::from_str("Agreement ratio ");
            push_permille(&mut reason, ratio_permille(best_weight, total));
            reason.append(" below threshold ");
            push_permille(&mut reason, self.threshold.min_agreement_ratio);
            return Ok(QuorumResult::NoConsensus { groups: gs, total_weight: total, reason });
        }
        if gs.len() > 1 {
            let second = gs[1].weight;
            let diverges = product_lt(best_weight, self.threshold.max_divergence_ratio, second, 1000);
            assert(best_weight * self.threshold.max_divergence_ratio == self.threshold.max_divergence_ratio
                * best_weight) by (nonlinear_arith);
            if diverges {
                let mut reason = String::from_str("Divergence ratio ");
                push_permille(&mut reason, ratio_permille(second, best_weight));
                reason.append(" exceeds max ");
                push_permille(&mut reason, self.threshold.max_divergence_ratio);
                return Ok(QuorumResult::NoConsensus { groups: gs, total_weight: total, reason });
            }
        }
        if best_count < self.threshold.min_provider_count {
            let mut reason = String::from_str("Provider count ");
            crate::text::push_decimal(&mut reason, best_count as u64);
            reason.append(" below minimum ");
            crate::text::push_decimal(&mut reason, self.threshold.min_provider_count as u64);
            return Ok(QuorumResult::NoConsensus { groups: gs, total_weight: total, reason });
        }
        let finality_grade = determine_finality(obs);
        let canonical_height = first_supported_height(obs, &gs[0].providers);
        let supporting_providers = crate::rpc::quorum_client::copy_strings(&gs[0].providers);
        Ok(
            QuorumResult::Consensus {
                canonical_hash: best_hash,
                canonical_height,
                supporting_providers,
                total_weight: best_weight,
                confidence: ratio_permille(best_weight, total),
                finality_grade,
            },
        )
    }
}

impl QuorumEngine {
    /// Updates provider health after a decided round: with a consensus,
    /// each observation by a supporting provider counts a success and every
    /// other a failure; with any other decision, every observation counts a
    /// failure. Unregistered providers are skipped; an undecided round
    /// changes nothing.
    pub fn update_health_after_round(&mut self, round: &ConsensusRound)
        ensures
            call_effect(*old(self), EngineCall::Other, *final(self)),
            match round.decision {
                Some(d) => counters_of(final(self).health_spec()) == health_after(
                    counters_of(old(self).health_spec()),
                    round.observations@,
                    credited(outcome_of(d)),
                ),
                None => final(self).health_spec() == old(self).health_spec(),
            },
            final(self).health_spec().dom() == old(self).health_spec().dom(),
            final(self).tracks_registered(),
            final(self).weights_spec() == old(self).weights_spec(),
            final(self).threshold_spec() == old(self).threshold_spec(),
            final(self).byzantine_spec() == old(self).byzantine_spec(),
            final(self).rounds() == old(self).rounds(),
    {
        proof {
            use_type_invariant(&*self);
        }
        let supporters: Option<&Vec<String>> = match &round.decision {
            Some(QuorumResult::Consensus { supporting_providers, .. }) => Some(supporting_providers),
            Some(_) => None,
            None => {
                return;
            },
        };
        let ghost sup: Option<Seq<Seq<char>>> = match supporters {
            Some(v) => Some(string_views(v@)),
            None => None,
        };
        assert(sup == credited(outcome_of(round.decision->0)));
        let mut engine = QuorumEngine::new(self.threshold);
        std::mem::swap(&mut engine, self);
        proof {
            use_type_invariant(&engine);
        }
        let QuorumEngine { threshold, byzantine, weights, mut health, round_counter } = engine;
        let ghost start = health.as_map();
        let obs = &round.observations;
        let mut i: usize = 0;
        while i < obs.len()
            invariant
                i <= obs@.len(),
                health.as_map().dom() == start.dom(),
                counters_of(health.as_map()) == health_after(
                    counters_of(start),
                    obs@.subrange(0, i as int),
                    sup,
                ),
                sup == (match supporters {
                    Some(v) => Some(string_views(v@)),
                    None => None::<Seq<Seq<char>>>,
                }),
            decreases obs@.len() - i,
        {
            let ghost before = health.as_map();
            proof {
                assert(obs@.subrange(0, i + 1).drop_last() =~= obs@.subrange(0, i as int));
                assert(obs@.subrange(0, i + 1).last() == obs@[i as int]);
            }
            let o = &obs[i];
            match health.position(o.endpoint.as_str()) {
                Some(k) => {
                    let mut h = health.entry_at(k).1.duplicate();
                    let ghost old_counters = health.entries()[k as int].1.counters();
                    let credited_now = match supporters {
                        Some(v) => holds_string(v, &o.endpoint),
                        None => false,
                    };
                    if credited_now {
                        h.record_success(o.latency_ms);
                    } else {
                        h.record_failure();
                    }
                    health.replace_at(k, h);
                    proof {
                        assert(counters_of(health.as_map()) =~= counters_of(before).insert(
                            o.endpoint@,
                            h.counters(),
                        ));
                        assert(health.as_map().dom() =~= before.dom());
                    }
                },
                None => {},
            }
            i = i + 1;
        }
        assert(obs@.subrange(0, i as int) =~= obs@);
        *self = QuorumEngine { threshold, byzantine, weights, health, round_counter };
    }

    /// Decides a round: refuses a round that already has a decision,
    /// records the decision in the round, and updates provider health.
    pub fn decide(&mut self, round: &mut ConsensusRound) -> (r: Result<QuorumResult, QuorumError>)
        ensures
            call_effect(*old(self), EngineCall::Other, *final(self)),
            final(round).observations == old(round).observations,
            final(round).round_id == old(round).round_id,
            final(self).weights_spec() == old(self).weights_spec(),
            final(self).threshold_spec() == old(self).threshold_spec(),
            final(self).byzantine_spec() == old(self).byzantine_spec(),
            final(self).rounds() == old(self).rounds(),
            final(self).health_spec().dom() == old(self).health_spec().dom(),
            final(self).tracks_registered(),
            old(round).decision is Some ==> (r matches Err(QuorumError::RoundComplete(id)) && id
                == old(round).round_id && final(round).decision == old(round).decision
                && final(self).health_spec() == old(self).health_spec()),
            old(round).decision is None ==> match quorum_outcome(
                old(self).threshold_spec(),
                old(self).byzantine_spec(),
                old(self).weights_spec(),
                old(self).health_entries(),
                old(round).observations@,
            ) {
                QuorumOutcome::Insufficient(req, avail) => r matches Err(
                    QuorumError::InsufficientProviders { required, available },
                ) && required == req && available == avail && final(round).decision is None
                    && final(self).health_spec() == old(self).health_spec(),
                o => (r matches Ok(res) && outcome_of(res) == o) && (final(round).decision matches Some(
                    d,
                ) && outcome_of(d) == o) && counters_of(final(self).health_spec()) == health_after(
                    counters_of(old(self).health_spec()),
                    old(round).observations@,
                    credited(o),
                ),
            },
    {
        proof {
            use_type_invariant(&*self);
        }
        if round.decision.is_some() {
            return Err(QuorumError::RoundComplete(round.round_id));
        }
        let decision = match self.compute_decision(round) {
            Ok(d) => d,
            Err(e) => {
                return Err(e);
            },
        };
        let recorded = decision.duplicate();
        proof {
            lemma_outcome_of_copy(decision, recorded);
        }
        round.decision = Some(recorded);
        self.update_health_after_round(round);
        Ok(decision)
    }
}

proof fn lemma_outcome_of_copy(a: QuorumResult, b: QuorumResult)
    requires
        match (a, b) {
            (
                QuorumResult::Consensus {
                    canonical_hash: h1,
                    canonical_height: c1,
                    supporting_providers: p1,
                    total_weight: w1,
                    confidence: f1,
                    finality_grade: g1,
                },
                QuorumResult::Consensus {
                    canonical_hash: h2,
                    canonical_height: c2,
                    supporting_providers: p2,
                    total_weight: w2,
                    confidence: f2,
                    finality_grade: g2,
                },
            ) => h1 == h2 && c1 == c2 && p1@.map_values(|s: String| s@) == p2@.map_values(
                |s: String| s@,
            ) && w1 == w2 && f1 == f2 && g1 == g2,
            (
                QuorumResult::NoConsensus { groups: a1, total_weight: t1, reason: r1 },
                QuorumResult::NoConsensus { groups: a2, total_weight: t2, reason: r2 },
            ) => crate::rpc::quorum_types::quorum_group_views(a1@)
                == crate::rpc::quorum_types::quorum_group_views(a2@) && t1 == t2 && r1@ == r2@,
            (
                QuorumResult::ByzantineDetected { suspicious_providers: s1, reason: r1 },
                QuorumResult::ByzantineDetected { suspicious_providers: s2, reason: r2 },
            ) => s1@.map_values(|s: String| s@) == s2@.map_values(|s: String| s@) && r1@ == r2@,
            _ => false,
        },
    ensures
        outcome_of(a) == outcome_of(b),
{
}

proof fn lemma_groups_well_formed(obs: Seq<RpcObservation>, weights: Map<Seq<char>, ProviderWeight>)
    ensures
        group_weight_sum(groups_by_hash(obs, weights)) <= observation_weight(obs, weights),
        forall|k: int|
            0 <= k < groups_by_hash(obs, weights).len() ==> (#[trigger] groups_by_hash(obs, weights)[k]).2
                == groups_by_hash(obs, weights)[k].3.len(),
    decreases obs.len(),
{
    if obs.len() > 0 {
        let pre = obs.drop_last();
        lemma_groups_well_formed(pre, weights);
        let gs = groups_by_hash(pre, weights);
        let o = obs.last();
        let (e, h, w) = (o.endpoint@, o.observed_hash@, weight_of(weights, o.endpoint@));
        lemma_hash_index_bounds(gs, h);
        let i = hash_index(gs, h);
        let out = add_to_groups(gs, e, h, w);
        if i < gs.len() {
            if !gs[i].3.contains(e) {
                lemma_group_weight_sum_update(gs, i, (gs[i].0, gs[i].1 + w, gs[i].2 + 1, gs[i].3.push(e)));
            }
        } else {
            let p = insert_point(gs, h);
            lemma_insert_point_bounds(gs, h);
            let (a, b) = (gs.subrange(0, p), gs.subrange(p, gs.len() as int));
            assert(gs =~= a + b);
            lemma_group_weight_sum_concat(a, b);
            lemma_group_weight_sum_concat(a.push((h, w, 1nat, seq![e])), b);
            assert(a.push((h, w, 1nat, seq![e])).drop_last() =~= a);
            assert forall|k: int| 0 <= k < out.len() implies (#[trigger] out[k]).2 == out[k].3.len() by {
                if k < p {
                    assert(out[k] == gs[k]);
                } else if k > p {
                    assert(out[k] == gs[k - 1]);
                }
            }
        }
    }
}

proof fn lemma_insert_point_bounds(gs: Seq<QuorumGroupView>, h: Seq<u8>)
    ensures
        0 <= insert_point(gs, h) <= gs.len(),
    decreases gs.len(),
{
    if gs.len() > 0 && bytes_lt(gs[0].0, h) {
        lemma_insert_point_bounds(gs.subrange(1, gs.len() as int), h);
    }
}

/// A consensus names the heaviest group: no group of the round weighs more
/// than the one whose hash becomes canonical, so neither the fastest, the
/// first nor the highest provider can decide on its own.
pub proof fn lemma_consensus_is_heaviest_group(
    t: QuorumThreshold,
    byzantine: Option<ByzantineConfig>,
    weights: Map<Seq<char>, ProviderWeight>,
    entries: Seq<(String, ProviderHealth)>,
    obs: Seq<RpcObservation>,
    k: int,
)
    requires
        obs.len() <= usize::MAX,
        quorum_outcome(t, byzantine, weights, entries, obs) is Consensus,
        0 <= k < groups_by_hash(obs, weights).len(),
    ensures
        ({
            let gs = groups_by_hash(obs, weights);
            match quorum_outcome(t, byzantine, weights, entries, obs) {
                QuorumOutcome::Consensus(hash, _, providers, weight, _, _) => gs[k].1 <= weight
                    && exists|j: int| 0 <= j < gs.len() && gs[j].0 == hash && gs[j].1 == weight && gs[j].3
                        == providers,
                _ => false,
            }
        }),
{
    let gs = groups_by_hash(obs, weights);
    lemma_observation_weight_bound(obs, weights);
    lemma_groups_well_formed(obs, weights);
    lemma_ranked_total(gs);
    let keys = group_keys(gs);
    let order = crate::ranking::rank_desc(keys, gs.len());
    crate::ranking::lemma_rank_desc_in_range(keys, gs.len());
    crate::ranking::lemma_rank_desc_descending(keys, gs.len());
    crate::ranking::lemma_rank_desc_complete(keys, gs.len(), k);
    let t_pos = choose|p: int| 0 <= p < order.len() && order[p] == k;
    let ranked = ranked_quorum_groups(gs);
    assert(ranked[0] == gs[order[0]]);
    lemma_group_weight_le_sum(gs, k);
    lemma_group_weight_le_sum(gs, order[0]);
    if t_pos > 0 {
        assert(keys[order[0]] >= keys[order[t_pos]]);
    }
    assert(0 <= order[0] < gs.len());
}

/// A consensus carries the thresholds: the agreeing weight is at least the
/// agreement ratio of the total, and at least the minimum number of
/// providers agree.
pub proof fn lemma_consensus_meets_thresholds(
    t: QuorumThreshold,
    byzantine: Option<ByzantineConfig>,
    weights: Map<Seq<char>, ProviderWeight>,
    entries: Seq<(String, ProviderHealth)>,
    obs: Seq<RpcObservation>,
)
    requires
        quorum_outcome(t, byzantine, weights, entries, obs) is Consensus,
    ensures
        match quorum_outcome(t, byzantine, weights, entries, obs) {
            QuorumOutcome::Consensus(_, _, providers, weight, _, _) => weight * 1000 >= t.min_agreement_ratio
                * group_weight_sum(groups_by_hash(obs, weights)) && providers.len() >= t.min_provider_count,
            _ => false,
        },
{
    let gs = groups_by_hash(obs, weights);
    lemma_groups_well_formed(obs, weights);
    let keys = group_keys(gs);
    crate::ranking::lemma_rank_desc_in_range(keys, gs.len());
    let order = crate::ranking::rank_desc(keys, gs.len());
    let ranked = ranked_quorum_groups(gs);
    assert(ranked[0] == gs[order[0]]);
}

/// A provider is suspended after `SUSPENSION_THRESHOLD` failures in a row,
/// whatever its record was, and a success reinstates it.
pub proof fn lemma_failures_suspend_success_reinstates(c: HealthCounters, latency_ms: u64)
    ensures
        failure_step(failure_step(failure_step(failure_step(failure_step(c))))).3,
        !success_step(c, latency_ms).3,
        success_step(c, latency_ms).0 == 0,
{
}

/// Whatever sequence of calls an engine goes through from an engine with
/// no providers (as `new`, `with_bft` and `default` make), the providers
/// with a health record are exactly those registered and not since removed,
/// and there are as many health records as registered providers.
pub proof fn lemma_health_keys_are_registered_providers(engines: Seq<QuorumEngine>, calls: Seq<EngineCall>)
    requires
        engines.len() == calls.len() + 1,
        engines[0].weights_spec().dom() == Set::<Seq<char>>::empty(),
        engines[0].health_spec().dom() == Set::<Seq<char>>::empty(),
        forall|i: int|
            #![trigger calls[i]]
            0 <= i < calls.len() ==> call_effect(engines[i], calls[i], engines[i + 1]),
    ensures
        engines.last().health_spec().dom() == registered_by(calls),
        engines.last().weights_spec().dom() == registered_by(calls),
        engines.last().health_spec().dom() == engines.last().weights_spec().dom(),
    decreases calls.len(),
{
    if calls.len() > 0 {
        let n = calls.len() - 1;
        let es = engines.drop_last();
        let cs = calls.drop_last();
        assert forall|i: int| #![trigger cs[i]] 0 <= i < cs.len() implies call_effect(es[i], cs[i], es[i + 1]) by {
            assert(calls[i] == cs[i]);
        }
        lemma_health_keys_are_registered_providers(es, cs);
        assert(calls[n] == calls.last());
        assert(call_effect(engines[n], calls[n], engines[n + 1]));
        assert(es.last() == engines[n]);
        assert(engines.last() == engines[n + 1]);
    }
}

/// The finality reported for a set of observations keeps the most
/// confirmations seen: a probabilistic grade counts at least as many
/// confirmations as every probabilistic observation, and is one of the
/// observed grades; and observations that are all probabilistic or
/// unknown, some of them probabilistic, give a probabilistic grade.
pub proof fn lemma_best_finality_keeps_most_confirmations(obs: Seq<RpcObservation>)
    ensures
        best_finality(obs) is Probabilistic ==> forall|i: int|
            0 <= i < obs.len() && (#[trigger] obs[i]).observed_finality is Probabilistic ==> best_finality(
                obs,
            )->confirmations >= obs[i].observed_finality->confirmations,
        best_finality(obs) is Probabilistic ==> exists|i: int|
            0 <= i < obs.len() && (#[trigger] obs[i]).observed_finality == best_finality(obs),
        (forall|i: int|
            0 <= i < obs.len() ==> (#[trigger] obs[i]).observed_finality is Probabilistic
                || obs[i].observed_finality is Unknown) && (exists|i: int|
            0 <= i < obs.len() && (#[trigger] obs[i]).observed_finality is Probabilistic)
            ==> best_finality(obs) is Probabilistic,
    decreases obs.len(),
{
    if obs.len() > 0 {
        let pre = obs.drop_last();
        lemma_best_finality_keeps_most_confirmations(pre);
        let b = best_finality(pre);
        let f = obs.last().observed_finality;
        assert(obs[obs.len() - 1] == obs.last());
        assert forall|i: int| 0 <= i < pre.len() implies #[trigger] pre[i] == obs[i] by {}
        if best_finality(obs) is Probabilistic {
            lemma_best_finality_unknown_or_observed(pre);
            assert(best_finality(obs) == finality_step(b, f));
            assert(b is Unknown || b is Probabilistic);
            if b is Probabilistic {
                assert(best_finality(obs)->confirmations >= b->confirmations);
            }
            if f is Probabilistic {
                assert(best_finality(obs)->confirmations >= f->confirmations);
            }
            assert forall|i: int|
                0 <= i < obs.len() && (#[trigger] obs[i]).observed_finality is Probabilistic implies best_finality(
                    obs,
                )->confirmations >= obs[i].observed_finality->confirmations by {
                if i < obs.len() - 1 {
                    assert(pre[i] == obs[i]);
                }
            }
            if f == best_finality(obs) {
                assert(obs[obs.len() - 1].observed_finality == best_finality(obs));
            } else {
                let j = choose|j: int| 0 <= j < pre.len() && (#[trigger] pre[j]).observed_finality == b;
                assert(obs[j] == pre[j]);
            }
        }
        if (forall|i: int|
            0 <= i < obs.len() ==> (#[trigger] obs[i]).observed_finality is Probabilistic
                || obs[i].observed_finality is Unknown) && (exists|i: int|
            0 <= i < obs.len() && (#[trigger] obs[i]).observed_finality is Probabilistic) {
            assert forall|i: int| 0 <= i < pre.len() implies (#[trigger] pre[i]).observed_finality is Probabilistic
                || pre[i].observed_finality is Unknown by {
                assert(pre[i] == obs[i]);
            }
            let k = choose|k: int| 0 <= k < obs.len() && (#[trigger] obs[k]).observed_finality is Probabilistic;
            if k < obs.len() - 1 {
                assert(pre[k] == obs[k]);
            }
            assert(b is Probabilistic || b is Unknown) by {
                lemma_best_finality_unknown_or_observed(pre);
            }
        }
    }
}

proof fn lemma_best_finality_unknown_or_observed(obs: Seq<RpcObservation>)
    ensures
        best_finality(obs) is Unknown || exists|i: int|
            0 <= i < obs.len() && (#[trigger] obs[i]).observed_finality == best_finality(obs),
        best_finality(obs) is Unknown ==> forall|i: int|
            0 <= i < obs.len() ==> (#[trigger] obs[i]).observed_finality is Unknown,
    decreases obs.len(),
{
    if obs.len() > 0 {
        let pre = obs.drop_last();
        lemma_best_finality_unknown_or_observed(pre);
        assert(obs[obs.len() - 1] == obs.last());
        assert forall|i: int| 0 <= i < pre.len() implies #[trigger] pre[i] == obs[i] by {}
        if best_finality(obs) is Unknown {
            assert(best_finality(obs) == finality_step(best_finality(pre), obs.last().observed_finality));
            assert(best_finality(pre) is Unknown);
            assert(obs.last().observed_finality is Unknown);
            assert forall|i: int| 0 <= i < obs.len() implies (#[trigger] obs[i]).observed_finality is Unknown by {
                if i < obs.len() - 1 {
                    assert(pre[i] == obs[i]);
                }
            }
        }
        if best_finality(obs) != obs.last().observed_finality && !(best_finality(obs) is Unknown) {
            let j = choose|j: int| 0 <= j < pre.len() && (#[trigger] pre[j]).observed_finality == best_finality(pre);
            assert(obs[j] == pre[j]);
        }
    }
}

/// A consensus reports the strongest probabilistic finality of its round:
/// when it reports a probabilistic grade, the grade counts at least as
/// many confirmations as every probabilistic observation of the round; and
/// when every observation is probabilistic or unknown, and some is
/// probabilistic, the grade is probabilistic.
pub proof fn lemma_consensus_reports_most_confirmations(
    t: QuorumThreshold,
    byzantine: Option<ByzantineConfig>,
    weights: Map<Seq<char>, ProviderWeight>,
    entries: Seq<(String, ProviderHealth)>,
    obs: Seq<RpcObservation>,
)
    requires
        quorum_outcome(t, byzantine, weights, entries, obs) is Consensus,
    ensures
        match quorum_outcome(t, byzantine, weights, entries, obs) {
            QuorumOutcome::Consensus(_, _, _, _, _, grade) => {
                &&& grade is Probabilistic ==> forall|i: int|
                    0 <= i < obs.len() && (#[trigger] obs[i]).observed_finality is Probabilistic
                        ==> grade->confirmations >= obs[i].observed_finality->confirmations
                &&& (forall|i: int|
                    0 <= i < obs.len() ==> (#[trigger] obs[i]).observed_finality is Probabilistic
                        || obs[i].observed_finality is Unknown) && (exists|i: int|
                    0 <= i < obs.len() && (#[trigger] obs[i]).observed_finality is Probabilistic)
                    ==> grade is Probabilistic
            },
            _ => false,
        },
{
    lemma_best_finality_keeps_most_confirmations(obs);
}

} // verus!
