//! Observation and decision types of the RPC quorum. Weights are in
//! thousandths of a unit and ratios in thousandths.

use vstd::prelude::*;
use vstd::string::StringExecFns;

use crate::rpc::quorum_client::{copy_string, copy_strings};

verus! {

/// Finality grade reported by an RPC observation.
#[derive(Debug, Clone, Copy, PartialEq, Eq, Structural)]
pub enum FinalityGrade {
    /// No finality information.
    Unknown,
    /// Probabilistic, with the number of confirmation blocks.
    Probabilistic {
        /// Confirmation blocks observed.
        confirmations: u64,
    },
    /// Deterministic (BFT) finality.
    Deterministic,
    /// Optimistic confirmation.
    Optimistic,
}

/// An observation captured from a single provider.
#[derive(Clone, Debug)]
pub struct RpcObservation {
    /// The RPC endpoint URL.
    pub endpoint: String,
    /// Chain identifier being observed.
    pub chain_id: String,
    /// Observed height.
    pub observed_height: u64,
    /// Observed block hash.
    pub observed_hash: crate::hash::Hash,
    /// Observed finality.
    pub observed_finality: FinalityGrade,
    /// Latency in milliseconds.
    pub latency_ms: u64,
    /// Seconds since the Unix epoch when the observation was made.
    pub timestamp: u64,
}

impl RpcObservation {
    /// Records an observation made now.
    pub fn new(
        endpoint: String,
        chain_id: String,
        observed_height: u64,
        observed_hash: crate::hash::Hash,
        observed_finality: FinalityGrade,
        latency_ms: u64,
    ) -> (o: RpcObservation)
        ensures
            o.endpoint@ == endpoint@,
            o.chain_id@ == chain_id@,
            o.observed_height == observed_height,
            o.observed_hash == observed_hash,
            o.observed_finality == observed_finality,
            o.latency_ms == latency_ms,
    {
        RpcObservation {
            endpoint,
            chain_id,
            observed_height,
            observed_hash,
            observed_finality,
            latency_ms,
            timestamp: crate::clock::unix_time_secs(),
        }
    }

    /// A copy of the observation.
    pub fn duplicate(&self) -> (o: RpcObservation)
        ensures
            o.endpoint@ == self.endpoint@,
            o.chain_id@ == self.chain_id@,
            o.observed_height == self.observed_height,
            o.observed_hash == self.observed_hash,
            o.observed_finality == self.observed_finality,
            o.latency_ms == self.latency_ms,
            o.timestamp == self.timestamp,
    {
        RpcObservation {
            endpoint: copy_string(&self.endpoint),
            chain_id: copy_string(&self.chain_id),
            observed_height: self.observed_height,
            observed_hash: self.observed_hash,
            observed_finality: self.observed_finality,
            latency_ms: self.latency_ms,
            timestamp: self.timestamp,
        }
    }
}

/// A quorum decision summary.
#[derive(Clone, Debug)]
pub struct QuorumDecision {
    /// The canonical hash.
    pub canonical_hash: crate::hash::Hash,
    /// Providers that agree on it.
    pub agreeing_nodes: usize,
    /// Providers that disagree.
    pub disagreeing_nodes: usize,
    /// Confidence, in thousandths.
    pub confidence: u64,
}

/// Errors of the quorum engine.
#[derive(Debug, Clone)]
pub enum QuorumError {
    /// Too few providers observed.
    InsufficientProviders {
        /// Providers required.
        required: usize,
        /// Providers available.
        available: usize,
    },
    /// The round already has a decision.
    RoundComplete(u64),
    /// A threshold outside its range.
    InvalidThreshold(String),
    /// A fault-tolerance configuration that cannot hold.
    InvalidByzantineConfig(String),
    /// A weight that is not positive.
    InvalidWeight(String),
}

/// Thresholds of a consensus decision.
#[derive(Debug, Clone, Copy, PartialEq, Eq, Structural)]
pub struct QuorumThreshold {
    /// Least share of the total weight the best group must carry, in thousandths.
    pub min_agreement_ratio: u64,
    /// Least number of distinct providers.
    pub min_provider_count: usize,
    /// Greatest weight of the runner-up relative to the best group, in thousandths.
    pub max_divergence_ratio: u64,
}

impl QuorumThreshold {
    /// Whether the thresholds are within range: an agreement ratio from one
    /// half to one, at least one provider, a divergence ratio of at most one.
    pub open spec fn valid(min_agreement_ratio: u64, min_provider_count: usize, max_divergence_ratio: u64) -> bool {
        500 <= min_agreement_ratio <= 1000 && min_provider_count >= 1 && max_divergence_ratio <= 1000
    }

    /// Checked thresholds.
    pub fn new(min_agreement_ratio: u64, min_provider_count: usize, max_divergence_ratio: u64) -> (r: Result<
        QuorumThreshold,
        QuorumError,
    >)
        ensures
            r is Ok <==> Self::valid(min_agreement_ratio, min_provider_count, max_divergence_ratio),
            r matches Ok(t) ==> t == (QuorumThreshold {
                min_agreement_ratio,
                min_provider_count,
                max_divergence_ratio,
            }),
            r matches Err(e) ==> e is InvalidThreshold,
    {
        if min_agreement_ratio < 500 || min_agreement_ratio > 1000 {
            return Err(
                QuorumError::InvalidThreshold(
                    String::from_str("agreement ratio must lie between 0.5 and 1.0"),
                ),
            );
        }
        if min_provider_count == 0 {
            return Err(
                QuorumError::InvalidThreshold(String::from_str("at least one provider is required")),
            );
        }
        if max_divergence_ratio > 1000 {
            return Err(
                QuorumError::InvalidThreshold(
                    String::from_str("divergence ratio must not exceed 1.0"),
                ),
            );
        }
        Ok(QuorumThreshold { min_agreement_ratio, min_provider_count, max_divergence_ratio })
    }

    /// Strict BFT thresholds: two thirds agreement (0.667), two providers,
    /// runner-up at most half the best.
    pub fn bft_strict() -> (t: QuorumThreshold)
        ensures
            t == (QuorumThreshold {
                min_agreement_ratio: 667,
                min_provider_count: 2,
                max_divergence_ratio: 500,
            }),
    {
        QuorumThreshold { min_agreement_ratio: 667, min_provider_count: 2, max_divergence_ratio: 500 }
    }

    /// Simple majority: 0.51 agreement, two providers, any divergence.
    pub fn majority() -> (t: QuorumThreshold)
        ensures
            t == (QuorumThreshold {
                min_agreement_ratio: 510,
                min_provider_count: 2,
                max_divergence_ratio: 1000,
            }),
    {
        QuorumThreshold { min_agreement_ratio: 510, min_provider_count: 2, max_divergence_ratio: 1000 }
    }
}

impl Default for QuorumThreshold {
    fn default() -> (t: QuorumThreshold)
        ensures
            t == QuorumThreshold::majority_spec(),
    {
        QuorumThreshold::majority()
    }
}

impl QuorumThreshold {
    /// The majority thresholds.
    pub open spec fn majority_spec() -> QuorumThreshold {
        QuorumThreshold { min_agreement_ratio: 510, min_provider_count: 2, max_divergence_ratio: 1000 }
    }
}

/// Byzantine fault tolerance: at most `max_faulty` of `total_providers`
/// may misbehave, which needs `total_providers >= 3 * max_faulty + 1`.
#[derive(Debug, Clone, Copy)]
pub struct ByzantineConfig {
    max_faulty: usize,
    total_providers: usize,
}

impl ByzantineConfig {
    #[verifier::type_invariant]
    spec fn inv(self) -> bool {
        self.total_providers >= 3 * self.max_faulty + 1
    }

    /// The most faulty providers tolerated.
    pub closed spec fn faulty(self) -> nat {
        self.max_faulty as nat
    }

    /// The number of providers.
    pub closed spec fn total(self) -> nat {
        self.total_providers as nat
    }

    /// A configuration for `max_faulty` faults among `total_providers`.
    pub fn new(max_faulty: usize, total_providers: usize) -> (r: Result<ByzantineConfig, QuorumError>)
        ensures
            r is Ok <==> total_providers >= 3 * max_faulty + 1,
            r matches Ok(c) ==> c.faulty() == max_faulty && c.total() == total_providers,
            r matches Err(e) ==> e is InvalidByzantineConfig,
    {
        if total_providers == 0 || (total_providers - 1) / 3 < max_faulty {
            return Err(
                QuorumError::InvalidByzantineConfig(
                    String::from_str("BFT needs at least 3f + 1 providers"),
                ),
            );
        }
        Ok(ByzantineConfig { max_faulty, total_providers })
    }

    /// The most faulty providers tolerated.
    pub fn max_faulty(&self) -> (f: usize)
        ensures
            f == self.faulty(),
    {
        self.max_faulty
    }

    /// The smallest quorum that outvotes every faulty coalition, `2f + 1`.
    pub fn min_quorum_size(&self) -> (n: usize)
        ensures
            n == 2 * self.faulty() + 1,
    {
        proof {
            use_type_invariant(self);
        }
        2 * self.max_faulty + 1
    }

    /// Whether `count` providers form a BFT quorum.
    pub fn satisfies_bft(&self, count: usize) -> (b: bool)
        ensures
            b == (count >= 2 * self.faulty() + 1),
    {
        count >= self.min_quorum_size()
    }
}

/// The weight of a provider, positive, in thousandths.
#[derive(Debug, Clone, Copy)]
pub struct ProviderWeight(u64);

impl ProviderWeight {
    #[verifier::type_invariant]
    spec fn inv(self) -> bool {
        self.0 > 0
    }

    /// The weight in thousandths.
    pub closed spec fn value(self) -> nat {
        self.0 as nat
    }

    /// A weight fits in 64 bits.
    pub proof fn lemma_value_fits(self)
        ensures
            self.value() <= u64::MAX,
    {
    }

    /// A weight of `thousandths`; it must be positive.
    pub fn new(thousandths: i64) -> (r: Result<ProviderWeight, QuorumError>)
        ensures
            r is Ok <==> thousandths > 0,
            r matches Ok(w) ==> w.value() == thousandths,
            r matches Err(e) ==> e is InvalidWeight,
    {
        if thousandths <= 0 {
            return Err(QuorumError::InvalidWeight(String::from_str("weight must be positive")));
        }
        Ok(ProviderWeight(thousandths as u64))
    }

    /// The weight in thousandths.
    pub fn raw(&self) -> (w: u64)
        ensures
            w == self.value(),
            w > 0,
    {
        proof {
            use_type_invariant(self);
        }
        self.0
    }
}

impl Default for ProviderWeight {
    fn default() -> (w: ProviderWeight)
        ensures
            w.value() == 1000,
    {
        ProviderWeight(1000)
    }
}

/// Consecutive failures after which a provider is suspended.
pub const SUSPENSION_THRESHOLD: u32 = 5;

/// Health of a provider over past rounds.
#[derive(Debug, Clone)]
pub struct ProviderHealth {
    /// The provider's endpoint.
    pub endpoint: String,
    /// Failures since the last success.
    pub consecutive_failures: u32,
    /// Successes recorded.
    pub total_successes: u64,
    /// Failures recorded.
    pub total_failures: u64,
    /// Whether the provider is suspended.
    pub suspended: bool,
    /// When the last success was recorded, in seconds since the Unix epoch.
    pub last_success: Option<u64>,
    /// Latency of the last success, in milliseconds.
    pub last_latency_ms: u64,
}

/// The counters of a health record: consecutive failures, successes,
/// failures, suspension, latency of the last success.
pub type HealthCounters = (u32, u64, u64, bool, u64);

impl ProviderHealth {
    /// The counters of the record.
    pub open spec fn counters(self) -> HealthCounters {
        (self.consecutive_failures, self.total_successes, self.total_failures, self.suspended, self.last_latency_ms)
    }

    /// A healthy record for `endpoint`.
    pub fn new(endpoint: String) -> (h: ProviderHealth)
        ensures
            h.endpoint@ == endpoint@,
            h.counters() == (0u32, 0u64, 0u64, false, 0u64),
            h.last_success is None,
    {
        ProviderHealth {
            endpoint,
            consecutive_failures: 0,
            total_successes: 0,
            total_failures: 0,
            suspended: false,
            last_success: None,
            last_latency_ms: 0,
        }
    }

    /// A copy of the record.
    pub fn duplicate(&self) -> (h: ProviderHealth)
        ensures
            h.endpoint@ == self.endpoint@,
            h.counters() == self.counters(),
            h.last_success == self.last_success,
    {
        ProviderHealth {
            endpoint: copy_string(&self.endpoint),
            consecutive_failures: self.consecutive_failures,
            total_successes: self.total_successes,
            total_failures: self.total_failures,
            suspended: self.suspended,
            last_success: self.last_success,
            last_latency_ms: self.last_latency_ms,
        }
    }

    /// Records a success: the failure streak ends and the provider is reinstated.
    pub fn record_success(&mut self, latency_ms: u64)
        ensures
            final(self).endpoint == old(self).endpoint,
            final(self).counters() == success_step(old(self).counters(), latency_ms),
            final(self).last_success is Some,
    {
        self.consecutive_failures = 0;
        self.total_successes = self.total_successes.saturating_add(1);
        self.suspended = false;
        self.last_latency_ms = latency_ms;
        self.last_success = Some(crate::clock::unix_time_secs());
    }

    /// Records a failure; `SUSPENSION_THRESHOLD` failures in a row suspend the provider.
    pub fn record_failure(&mut self)
        ensures
            final(self).endpoint == old(self).endpoint,
            final(self).counters() == failure_step(old(self).counters()),
            final(self).last_success == old(self).last_success,
    {
        self.consecutive_failures = self.consecutive_failures.saturating_add(1);
        self.total_failures = self.total_failures.saturating_add(1);
        if self.consecutive_failures >= SUSPENSION_THRESHOLD {
            self.suspended = true;
        }
    }

    /// The share of successful rounds, in thousandths; one (1000) before any round.
    pub fn health_score(&self) -> (s: u64)
        ensures
            s == score_of(self.total_successes as nat, self.total_failures as nat),
    {
        let total = self.total_successes as u128 + self.total_failures as u128;
        if total == 0 {
            return 1000;
        }
        assert(self.total_successes as u128 * 1000 <= total * 1000) by (nonlinear_arith)
            requires
                self.total_successes as u128 <= total,
        ;
        assert(total * 1000 < 0x1_0000_0000_0000_0000_0000 * 1000) by (nonlinear_arith)
            requires
                total < 0x1_0000_0000_0000_0000_0000,
        ;
        let num = self.total_successes as u128 * 1000;
        let q = num / total;
        let ghost succ = self.total_successes as int;
        assert(q <= 1000) by (nonlinear_arith)
            requires
                q == num / total,
                num == succ * 1000,
                succ <= total,
                total > 0,
        ;
        q as u64
    }
}

/// The share of successes, in thousandths, rounded down; one before any round.
pub open spec fn score_of(successes: nat, failures: nat) -> nat {
    if successes + failures == 0 {
        1000
    } else {
        (successes * 1000) / (successes + failures)
    }
}

/// The counters after a success.
pub open spec fn success_step(c: HealthCounters, latency_ms: u64) -> HealthCounters {
    (0, if c.1 == u64::MAX { c.1 } else { (c.1 + 1) as u64 }, c.2, false, latency_ms)
}

/// The counters after a failure.
pub open spec fn failure_step(c: HealthCounters) -> HealthCounters {
    let streak: u32 = if c.0 == u32::MAX { c.0 } else { (c.0 + 1) as u32 };
    (
        streak,
        c.1,
        if c.2 == u64::MAX { c.2 } else { (c.2 + 1) as u64 },
        c.3 || streak >= SUSPENSION_THRESHOLD,
        c.4,
    )
}

/// Observations that hashed to the same block.
#[derive(Debug, Clone)]
pub struct QuorumGroup {
    /// The shared hash.
    pub hash: crate::hash::Hash,
    /// Summed weight of the distinct providers, in thousandths.
    pub weight: u128,
    /// Number of distinct providers.
    pub provider_count: usize,
    /// The providers, in order of first observation.
    pub providers: Vec<String>,
}

/// A group as plain values: hash, weight, provider count, providers.
pub type QuorumGroupView = (Seq<u8>, nat, nat, Seq<Seq<char>>);

impl View for QuorumGroup {
    type V = QuorumGroupView;

    open spec fn view(&self) -> QuorumGroupView {
        (self.hash@, self.weight as nat, self.provider_count as nat, self.providers@.map_values(|s: String| s@))
    }
}

impl QuorumGroup {
    /// A copy of the group.
    pub fn duplicate(&self) -> (g: QuorumGroup)
        ensures
            g@ == self@,
    {
        QuorumGroup {
            hash: self.hash,
            weight: self.weight,
            provider_count: self.provider_count,
            providers: copy_strings(&self.providers),
        }
    }
}

/// The outcome of a consensus round.
#[derive(Debug, Clone)]
pub enum QuorumResult {
    /// The providers agree.
    Consensus {
        /// The agreed block hash.
        canonical_hash: crate::hash::Hash,
        /// Height of the first observation, in round order, made by any
        /// supporting provider (whatever hash that observation reported).
        canonical_height: u64,
        /// The agreeing providers.
        supporting_providers: Vec<String>,
        /// Their summed weight, in thousandths.
        total_weight: u128,
        /// Their share of the total weight, in thousandths, rounded.
        confidence: u64,
        /// The best finality grade observed.
        finality_grade: FinalityGrade,
    },
    /// The providers do not agree enough.
    NoConsensus {
        /// All groups, heaviest first.
        groups: Vec<QuorumGroup>,
        /// Summed weight of all groups.
        total_weight: u128,
        /// Why.
        reason: String,
    },
    /// Some providers look faulty.
    ByzantineDetected {
        /// The suspicious providers.
        suspicious_providers: Vec<String>,
        /// Why.
        reason: String,
    },
}

/// One consensus round over observations of a chain.
#[derive(Debug, Clone)]
pub struct ConsensusRound {
    /// Round number.
    pub round_id: u64,
    /// Chain observed.
    pub chain_id: String,
    /// Observations, in arrival order.
    pub observations: Vec<RpcObservation>,
    /// Provider health at the start of the round.
    pub health_snapshot: Vec<ProviderHealth>,
    /// The decision, once made.
    pub decision: Option<QuorumResult>,
}

impl ConsensusRound {
    /// A fresh round.
    pub fn new(round_id: u64, chain_id: String) -> (r: ConsensusRound)
        ensures
            r.round_id == round_id,
            r.chain_id@ == chain_id@,
            r.observations@.len() == 0,
            r.health_snapshot@.len() == 0,
            r.decision is None,
    {
        ConsensusRound {
            round_id,
            chain_id,
            observations: Vec::new(),
            health_snapshot: Vec::new(),
            decision: None,
        }
    }

    /// Adds an observation.
    pub fn add_observation(&mut self, obs: RpcObservation)
        ensures
            final(self).observations@ == old(self).observations@.push(obs),
            final(self).round_id == old(self).round_id,
            final(self).chain_id == old(self).chain_id,
            final(self).health_snapshot == old(self).health_snapshot,
            final(self).decision == old(self).decision,
    {
        self.observations.push(obs);
    }

    /// Adds a health record to the snapshot.
    pub fn add_health(&mut self, health: ProviderHealth)
        ensures
            final(self).health_snapshot@ == old(self).health_snapshot@.push(health),
            final(self).round_id == old(self).round_id,
            final(self).chain_id == old(self).chain_id,
            final(self).observations == old(self).observations,
            final(self).decision == old(self).decision,
    {
        self.health_snapshot.push(health);
    }
}

/// The plain views of a list of groups.
pub open spec fn quorum_group_views(gs: Seq<QuorumGroup>) -> Seq<QuorumGroupView> {
    gs.map_values(|g: QuorumGroup| g@)
}

fn copy_groups(gs: &Vec<QuorumGroup>) -> (out: Vec<QuorumGroup>)
    ensures
        quorum_group_views(out@) == quorum_group_views(gs@),
{
    let mut out: Vec<QuorumGroup> = Vec::new();
    let mut i: usize = 0;
    while i < gs.len()
        invariant
            i <= gs@.len(),
            quorum_group_views(out@) == quorum_group_views(gs@).subrange(0, i as int),
        decreases gs@.len() - i,
    {
        let ghost prev = out@;
        let g = gs[i].duplicate();
        out.push(g);
        proof {
            assert(out@ == prev.push(g));
            assert(quorum_group_views(out@) =~= quorum_group_views(prev).push(g@));
            assert(quorum_group_views(gs@).subrange(0, i + 1) =~= quorum_group_views(gs@).subrange(0, i as int).push(gs@[i as int]@));
        }
        i = i + 1;
    }
    assert(quorum_group_views(gs@).subrange(0, i as int) =~= quorum_group_views(gs@));
    out
}

impl QuorumResult {
    /// A copy of the result.
    pub fn duplicate(&self) -> (r: QuorumResult)
        ensures
            match (*self, r) {
                (
                    QuorumResult::Consensus {
                        canonical_hash: h1,
                        canonical_height: c1,
                        supporting_providers: p1,
                        total_weight: w1,
                        confidence: f1,
                        finality_grade: g1,
                    },
                    QuorumResult::Consensus {
                        canonical_hash: h2,
                        canonical_height: c2,
                        supporting_providers: p2,
                        total_weight: w2,
                        confidence: f2,
                        finality_grade: g2,
                    },
                ) => h1 == h2 && c1 == c2 && p1@.map_values(|s: String| s@) == p2@.map_values(
                    |s: String| s@,
                ) && w1 == w2 && f1 == f2 && g1 == g2,
                (
                    QuorumResult::NoConsensus { groups: a1, total_weight: t1, reason: r1 },
                    QuorumResult::NoConsensus { groups: a2, total_weight: t2, reason: r2 },
                ) => quorum_group_views(a1@) == quorum_group_views(a2@) && t1 == t2 && r1@ == r2@,
                (
                    QuorumResult::ByzantineDetected { suspicious_providers: s1, reason: r1 },
                    QuorumResult::ByzantineDetected { suspicious_providers: s2, reason: r2 },
                ) => s1@.map_values(|s: String| s@) == s2@.map_values(|s: String| s@) && r1@ == r2@,
                _ => false,
            },
    {
        match self {
            QuorumResult::Consensus {
                canonical_hash,
                canonical_height,
                supporting_providers,
                total_weight,
                confidence,
                finality_grade,
            } => QuorumResult::Consensus {
                canonical_hash: *canonical_hash,
                canonical_height: *canonical_height,
                supporting_providers: copy_strings(supporting_providers),
                total_weight: *total_weight,
                confidence: *confidence,
                finality_grade: *finality_grade,
            },
            QuorumResult::NoConsensus { groups, total_weight, reason } => QuorumResult::NoConsensus {
                groups: copy_groups(groups),
                total_weight: *total_weight,
                reason: copy_string(reason),
            },
            QuorumResult::ByzantineDetected { suspicious_providers, reason } => QuorumResult::ByzantineDetected {
                suspicious_providers: copy_strings(suspicious_providers),
                reason: copy_string(reason),
            },
        }
    }
}

} // verus!
