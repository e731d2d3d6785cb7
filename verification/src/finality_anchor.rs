//! Restart-safe finality anchoring: the persisted snapshot of a chain's
//! finalized state, and the ancestor hashes that show its continuity.

use vstd::prelude::*;

verus! {

/// A persisted snapshot of a chain's finalized state.
#[derive(Clone, Debug)]
pub struct FinalityAnchor {
    /// The chain this anchor applies to.
    pub chain: String,
    /// The finalized block or checkpoint height.
    pub finalized_height: u64,
    /// The finalized block or checkpoint hash.
    pub finalized_hash: crate::hash::Hash,
    /// Cumulative work of a proof-of-work chain; `None` for others.
    pub cumulative_work: Option<u128>,
    /// When the anchor was persisted, in seconds since the Unix epoch.
    pub finalized_at_secs: i64,
}

/// The ancestor hashes of an anchor, in descending height order.
#[derive(Clone, Debug)]
pub struct AncestorContinuityProof {
    /// The chain this proof applies to.
    pub chain: String,
    /// The anchor when the proof was made.
    pub anchor: FinalityAnchor,
    /// Ancestor heights and hashes, from the tip down.
    pub ancestor_hashes: Vec<(u64, crate::hash::Hash)>,
    /// Minimum depth of the stored ancestors.
    pub min_depth: u64,
}

/// Whether `new` validly succeeds `old`: the same chain, a greater height,
/// and a hash that is not all zero.
pub open spec fn valid_successor(old: FinalityAnchor, new: FinalityAnchor) -> bool {
    &&& old.chain@ == new.chain@
    &&& new.finalized_height > old.finalized_height
    &&& new.finalized_hash@ != Seq::new(32, |i: int| 0u8)
}

impl FinalityAnchor {
    /// An anchor persisted now: stamped with the seconds since the Unix
    /// epoch by the system clock (zero for a clock set before the epoch).
    pub fn new(
        chain: String,
        finalized_height: u64,
        finalized_hash: crate::hash::Hash,
        cumulative_work: Option<u128>,
    ) -> (a: FinalityAnchor)
        ensures
            a.chain == chain,
            a.finalized_height == finalized_height,
            a.finalized_hash == finalized_hash,
            a.cumulative_work == cumulative_work,
            a.finalized_at_secs >= 0,
    {
        let secs = crate::clock::unix_time_secs();
        let finalized_at_secs: i64 = if secs > 0x7fff_ffff_ffff_ffffu64 {
            0x7fff_ffff_ffff_ffffi64
        } else {
            secs as i64
        };
        FinalityAnchor { chain, finalized_height, finalized_hash, cumulative_work, finalized_at_secs }
    }

    /// Whether `new` validly succeeds this anchor.
    pub fn is_valid_successor(&self, new: &FinalityAnchor) -> (r: bool)
        ensures
            r == valid_successor(*self, *new),
    {
        self.chain == new.chain && new.finalized_height > self.finalized_height
            && new.finalized_hash != crate::hash::Hash::zero()
    }
}

/// The position of the first ancestor at or below `threshold`.
pub open spec fn first_at_or_below(ancestors: Seq<(u64, crate::hash::Hash)>, threshold: u64) -> Option<int>
    decreases ancestors.len(),
{
    if ancestors.len() == 0 {
        None
    } else {
        match first_at_or_below(ancestors.drop_last(), threshold) {
            Some(i) => Some(i),
            None => if ancestors.last().0 <= threshold {
                Some(ancestors.len() - 1)
            } else {
                None
            },
        }
    }
}

proof fn lemma_first_at_or_below(ancestors: Seq<(u64, crate::hash::Hash)>, threshold: u64, k: int)
    requires
        0 <= k <= ancestors.len(),
        forall|j: int| 0 <= j < k ==> (#[trigger] ancestors[j]).0 > threshold,
    ensures
        k < ancestors.len() && ancestors[k].0 <= threshold ==> first_at_or_below(ancestors, threshold)
            == Some(k),
        k == ancestors.len() ==> first_at_or_below(ancestors, threshold) is None,
    decreases ancestors.len(),
{
    if ancestors.len() > 0 {
        let pre = ancestors.drop_last();
        let kk = if k < pre.len() { k } else { pre.len() as int };
        assert forall|j: int| 0 <= j < kk implies (#[trigger] pre[j]).0 > threshold by {
            assert(pre[j] == ancestors[j]);
        }
        if k < pre.len() {
            assert(pre[k] == ancestors[k]);
        }
        lemma_first_at_or_below(pre, threshold, kk);
    }
}

/// The reorg safety threshold: the anchor height less the safe depth, or
/// zero.
pub open spec fn safety_threshold(height: u64, max_safe_reorg_depth: u64) -> u64 {
    if height >= max_safe_reorg_depth {
        (height - max_safe_reorg_depth) as u64
    } else {
        0
    }
}

impl AncestorContinuityProof {
    /// The first ancestor at or below the reorg safety threshold.
    pub fn safety_hash(&self, max_safe_reorg_depth: u64) -> (r: Option<(u64, crate::hash::Hash)>)
        ensures
            match first_at_or_below(
                self.ancestor_hashes@,
                safety_threshold(self.anchor.finalized_height, max_safe_reorg_depth),
            ) {
                Some(i) => r == Some(self.ancestor_hashes@[i]),
                None => r is None,
            },
    {
        let threshold = self.anchor.finalized_height.saturating_sub(max_safe_reorg_depth);
        let mut i: usize = 0;
        while i < self.ancestor_hashes.len()
            invariant
                i <= self.ancestor_hashes@.len(),
                threshold == safety_threshold(self.anchor.finalized_height, max_safe_reorg_depth),
                forall|j: int| 0 <= j < i ==> (#[trigger] self.ancestor_hashes@[j]).0 > threshold,
            decreases self.ancestor_hashes@.len() - i,
        {
            if self.ancestor_hashes[i].0 <= threshold {
                proof {
                    lemma_first_at_or_below(self.ancestor_hashes@, threshold, i as int);
                }
                return Some(self.ancestor_hashes[i]);
            }
            i = i + 1;
        }
        proof {
            lemma_first_at_or_below(self.ancestor_hashes@, threshold, i as int);
        }
        None
    }
}

/// Validity of succession is a strict order along one chain: no anchor
/// succeeds itself, and succession carries over.
pub proof fn lemma_succession_is_strict(a: FinalityAnchor, b: FinalityAnchor, c: FinalityAnchor)
    ensures
        !valid_successor(a, a),
        valid_successor(a, b) && valid_successor(b, c) ==> valid_successor(a, c),
{
}

} // verus!
