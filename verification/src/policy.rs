//! Runtime policy: the single authority for finality depths, RPC fallback,
//! retries and the interpretation of confirmations.

use vstd::prelude::*;
use vstd::string::StringExecFns;

verus! {

/// Runtime policy configuration.
#[derive(Debug, Clone)]
pub struct RuntimePolicy {
    /// Finality depth required per chain; each chain occurs once.
    pub finality_depths: Vec<(String, u64)>,
    /// Whether to allow RPC fallback to simulated mode.
    pub allow_rpc_fallback: bool,
    /// Maximum number of retry attempts for transient failures.
    pub max_retries: u32,
    /// Delay between retry attempts, in nanoseconds.
    pub retry_delay_nanos: u128,
    /// Whether to enforce strict (non-probabilistic) finality.
    pub enforce_strict_finality: bool,
}

/// The map of chains to depths that a list of entries holds.
pub open spec fn depth_map(entries: Seq<(String, u64)>) -> Map<Seq<char>, u64>
    decreases entries.len(),
{
    if entries.len() == 0 {
        Map::empty()
    } else {
        depth_map(entries.drop_last()).insert(entries.last().0@, entries.last().1)
    }
}

/// Whether no chain occurs twice.
pub open spec fn chains_distinct(entries: Seq<(String, u64)>) -> bool {
    forall|i: int, j: int|
        0 <= i < j < entries.len() ==> (#[trigger] entries[i]).0@ != (#[trigger] entries[j]).0@
}

proof fn lemma_depth_map_index(entries: Seq<(String, u64)>, i: int)
    requires
        chains_distinct(entries),
        0 <= i < entries.len(),
    ensures
        depth_map(entries).contains_key(entries[i].0@),
        depth_map(entries)[entries[i].0@] == entries[i].1,
    decreases entries.len(),
{
    if i < entries.len() - 1 {
        let pre = entries.drop_last();
        assert(pre[i] == entries[i]);
        assert(chains_distinct(pre));
        lemma_depth_map_index(pre, i);
    }
}

proof fn lemma_depth_map_last(entries: Seq<(String, u64)>, i: int)
    requires
        0 <= i < entries.len(),
        forall|j: int| i < j < entries.len() ==> (#[trigger] entries[j]).0@ != entries[i].0@,
    ensures
        depth_map(entries).contains_key(entries[i].0@),
        depth_map(entries)[entries[i].0@] == entries[i].1,
    decreases entries.len(),
{
    if i < entries.len() - 1 {
        let pre = entries.drop_last();
        assert(pre[i] == entries[i]);
        assert forall|j: int| i < j < pre.len() implies (#[trigger] pre[j]).0@ != pre[i].0@ by {
            assert(pre[j] == entries[j]);
        }
        lemma_depth_map_last(pre, i);
        assert(entries[entries.len() - 1].0@ != entries[i].0@);
    }
}

proof fn lemma_depth_map_absent(entries: Seq<(String, u64)>, k: Seq<char>)
    requires
        forall|i: int| 0 <= i < entries.len() ==> (#[trigger] entries[i]).0@ != k,
    ensures
        !depth_map(entries).contains_key(k),
    decreases entries.len(),
{
    if entries.len() > 0 {
        let pre = entries.drop_last();
        assert forall|i: int| 0 <= i < pre.len() implies (#[trigger] pre[i]).0@ != k by {
            assert(pre[i] == entries[i]);
        }
        lemma_depth_map_absent(pre, k);
    }
}

proof fn lemma_depth_map_update(entries: Seq<(String, u64)>, i: int, d: u64)
    requires
        chains_distinct(entries),
        0 <= i < entries.len(),
    ensures
        chains_distinct(entries.update(i, (entries[i].0, d))),
        depth_map(entries.update(i, (entries[i].0, d))) == depth_map(entries).insert(entries[i].0@, d),
    decreases entries.len(),
{
    let upd = entries.update(i, (entries[i].0, d));
    assert forall|a: int, b: int| 0 <= a < b < upd.len() implies (#[trigger] upd[a]).0@ != (
    #[trigger] upd[b]).0@ by {
        assert(upd[a].0 == entries[a].0);
        assert(upd[b].0 == entries[b].0);
    }
    if i == entries.len() - 1 {
        assert(upd.drop_last() =~= entries.drop_last());
    } else {
        let pre = entries.drop_last();
        assert(chains_distinct(pre));
        lemma_depth_map_update(pre, i, d);
        assert(upd.drop_last() =~= pre.update(i, (pre[i].0, d)));
    }
    assert(depth_map(upd) =~= depth_map(entries).insert(entries[i].0@, d));
}

/// The finality depths that a new policy starts with.
pub open spec fn default_depths() -> Map<Seq<char>, u64> {
    Map::empty().insert("bitcoin"@, 6u64).insert("ethereum"@, 15u64).insert("solana"@, 32u64).insert(
        "aptos"@,
        5u64,
    ).insert("sui"@, 15u64).insert("celestia"@, 100u64)
}

impl RuntimePolicy {
    /// Whether each chain occurs once among the depths.
    pub open spec fn well_formed(self) -> bool {
        chains_distinct(self.finality_depths@)
    }

    /// The finality depth required per chain.
    pub open spec fn depths(self) -> Map<Seq<char>, u64> {
        depth_map(self.finality_depths@)
    }

    /// A policy with the default depths, no RPC fallback, three retries
    /// five seconds apart, and probabilistic finality allowed.
    pub fn new() -> (p: RuntimePolicy)
        ensures
            p.well_formed(),
            p.depths() == default_depths(),
            !p.allow_rpc_fallback,
            p.max_retries == 3,
            p.retry_delay_nanos == 5_000_000_000,
            !p.enforce_strict_finality,
    {
        let mut p = RuntimePolicy {
            finality_depths: Vec::new(),
            allow_rpc_fallback: false,
            max_retries: 3,
            retry_delay_nanos: 5_000_000_000,
            enforce_strict_finality: false,
        };
        p.set_finality_depth(String::from_str("bitcoin"), 6);
        p.set_finality_depth(String::from_str("ethereum"), 15);
        p.set_finality_depth(String::from_str("solana"), 32);
        p.set_finality_depth(String::from_str("aptos"), 5);
        p.set_finality_depth(String::from_str("sui"), 15);
        p.set_finality_depth(String::from_str("celestia"), 100);
        assert(p.depths() =~= default_depths());
        p
    }

    fn position_of(&self, chain_id: &String) -> (r: Option<usize>)
        requires
            self.well_formed(),
        ensures
            match r {
                Some(i) => i < self.finality_depths@.len() && self.finality_depths@[i as int].0@
                    == chain_id@ && self.depths().contains_key(chain_id@) && self.depths()[chain_id@]
                    == self.finality_depths@[i as int].1,
                None => !self.depths().contains_key(chain_id@),
            },
    {
        let mut i: usize = 0;
        while i < self.finality_depths.len()
            invariant
                i <= self.finality_depths@.len(),
                self.well_formed(),
                forall|k: int| 0 <= k < i ==> (#[trigger] self.finality_depths@[k]).0@ != chain_id@,
            decreases self.finality_depths@.len() - i,
        {
            if self.finality_depths[i].0 == *chain_id {
                proof {
                    lemma_depth_map_index(self.finality_depths@, i as int);
                }
                return Some(i);
            }
            i = i + 1;
        }
        proof {
            lemma_depth_map_absent(self.finality_depths@, chain_id@);
        }
        None
    }

    /// The required finality depth for a chain, if one is set. Should a
    /// chain occur more than once, its last depth is the one in force.
    pub fn finality_depth_for_chain(&self, chain_id: &str) -> (r: Option<u64>)
        ensures
            r == (if self.depths().contains_key(chain_id@) {
                Some(self.depths()[chain_id@])
            } else {
                None
            }),
    {
        let key = String::from_str(chain_id);
        let mut i: usize = self.finality_depths.len();
        while i > 0
            invariant
                i <= self.finality_depths@.len(),
                key@ == chain_id@,
                forall|k: int| i <= k < self.finality_depths@.len() ==> (#[trigger] self.finality_depths@[k]).0@ != key@,
            decreases i,
        {
            if self.finality_depths[i - 1].0 == key {
                proof {
                    lemma_depth_map_last(self.finality_depths@, i - 1);
                }
                return Some(self.finality_depths[i - 1].1);
            }
            i = i - 1;
        }
        proof {
            lemma_depth_map_absent(self.finality_depths@, key@);
        }
        None
    }

    /// Sets the finality depth for a chain.
    pub fn set_finality_depth(&mut self, chain_id: String, depth: u64)
        requires
            old(self).well_formed(),
        ensures
            final(self).well_formed(),
            final(self).depths() == old(self).depths().insert(chain_id@, depth),
            final(self).allow_rpc_fallback == old(self).allow_rpc_fallback,
            final(self).max_retries == old(self).max_retries,
            final(self).retry_delay_nanos == old(self).retry_delay_nanos,
            final(self).enforce_strict_finality == old(self).enforce_strict_finality,
    {
        let found = self.position_of(&chain_id);
        let ghost old_entries = self.finality_depths@;
        let mut entries = Vec::new();
        std::mem::swap(&mut entries, &mut self.finality_depths);
        match found {
            Some(i) => {
                proof {
                    lemma_depth_map_update(old_entries, i as int, depth);
                }
                let name = entries[i].0.clone();
                assert(name@ == chain_id@);
                entries.set(i, (chain_id, depth));
                proof {
                    assert(entries@ =~= old_entries.update(i as int, (entries@[i as int].0, depth)));
                    assert forall|a: int, b: int| 0 <= a < b < entries@.len() implies (
                    #[trigger] entries@[a]).0@ != (#[trigger] entries@[b]).0@ by {
                        assert(entries@[a].0@ == old_entries[a].0@);
                        assert(entries@[b].0@ == old_entries[b].0@);
                    }
                    assert(depth_map(entries@) =~= depth_map(old_entries).insert(chain_id@, depth))
                        by {
                        let upd = old_entries.update(i as int, (old_entries[i as int].0, depth));
                        assert(depth_map(upd) == depth_map(old_entries).insert(chain_id@, depth));
                        lemma_depth_map_same_views(entries@, upd);
                    }
                }
            },
            None => {
                proof {
                    assert forall|k: int| 0 <= k < old_entries.len() implies (
                    #[trigger] old_entries[k]).0@ != chain_id@ by {
                        if old_entries[k].0@ == chain_id@ {
                            lemma_depth_map_index(old_entries, k);
                        }
                    }
                }
                entries.push((chain_id, depth));
                proof {
                    assert(entries@.drop_last() =~= old_entries);
                    assert forall|a: int, b: int| 0 <= a < b < entries@.len() implies (
                    #[trigger] entries@[a]).0@ != (#[trigger] entries@[b]).0@ by {
                        assert(entries@[a] == old_entries[a]);
                        if b < entries@.len() - 1 {
                            assert(entries@[b] == old_entries[b]);
                        }
                    }
                }
            },
        }
        self.finality_depths = entries;
    }

    /// A production policy: no fallbacks, strict finality.
    pub fn production() -> (p: RuntimePolicy)
        ensures
            p.well_formed(),
            p.depths() == default_depths(),
            !p.allow_rpc_fallback,
            p.enforce_strict_finality,
            p.max_retries == 3,
            p.retry_delay_nanos == 5_000_000_000,
    {
        let mut p = Self::new();
        p.allow_rpc_fallback = false;
        p.enforce_strict_finality = true;
        p
    }

    /// A development (degraded-mode) policy: fallbacks allowed, probabilistic
    /// finality, and five retries.
    pub fn development() -> (p: RuntimePolicy)
        ensures
            p.well_formed(),
            p.depths() == default_depths(),
            p.allow_rpc_fallback,
            !p.enforce_strict_finality,
            p.max_retries == 5,
            p.retry_delay_nanos == 5_000_000_000,
    {
        let mut p = Self::new();
        p.allow_rpc_fallback = true;
        p.enforce_strict_finality = false;
        p.max_retries = 5;
        p
    }
}

proof fn lemma_depth_map_same_views(a: Seq<(String, u64)>, b: Seq<(String, u64)>)
    requires
        a.len() == b.len(),
        forall|i: int| 0 <= i < a.len() ==> (#[trigger] a[i]).0@ == b[i].0@ && a[i].1 == b[i].1,
    ensures
        depth_map(a) == depth_map(b),
    decreases a.len(),
{
    if a.len() > 0 {
        let (pa, pb) = (a.drop_last(), b.drop_last());
        assert forall|i: int| 0 <= i < pa.len() implies (#[trigger] pa[i]).0@ == pb[i].0@ && pa[i].1
            == pb[i].1 by {
            assert(pa[i] == a[i]);
            assert(pb[i] == b[i]);
        }
        lemma_depth_map_same_views(pa, pb);
    }
}

impl Default for RuntimePolicy {
    fn default() -> (p: RuntimePolicy)
        ensures
            p.well_formed(),
            p.depths() == default_depths(),
            !p.allow_rpc_fallback,
            !p.enforce_strict_finality,
    {
        Self::new()
    }
}

/// Setting a depth is read back: afterwards the chain reports the new
/// depth, and every other chain reports what it did before.
pub proof fn lemma_set_then_get(depths: Map<Seq<char>, u64>, chain: Seq<char>, depth: u64, other: Seq<char>)
    ensures
        depths.insert(chain, depth).contains_key(chain),
        depths.insert(chain, depth)[chain] == depth,
        other != chain ==> (depths.insert(chain, depth).contains_key(other) == depths.contains_key(
            other,
        ) && (depths.contains_key(other) ==> depths.insert(chain, depth)[other] == depths[other])),
{
}

} // verus!
