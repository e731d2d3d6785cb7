//! Merkle trees over 32-byte hashes and the inclusion proofs drawn from them.
//!
//! A level of the tree is reduced to the next by combining neighbouring pairs;
//! a lone last node at an odd-sized level moves up unchanged.

use vstd::prelude::*;

use crate::hash::combine_spec;

verus! {

/// The byte views of a sequence of hashes.
pub open spec fn hashes_view(s: Seq<crate::hash::Hash>) -> Seq<Seq<u8>> {
    s.map_values(|h: crate::hash::Hash| h@)
}

/// The 32 zero bytes.
pub open spec fn zero_bytes() -> Seq<u8> {
    Seq::new(32, |i: int| 0u8)
}

/// The level above `level`.
pub open spec fn next_level(level: Seq<Seq<u8>>) -> Seq<Seq<u8>> {
    Seq::new(
        ((level.len() + 1) / 2) as nat,
        |j: int|
            if 2 * j + 1 < level.len() {
                combine_spec(level[2 * j], level[2 * j + 1])
            } else {
                level[2 * j]
            },
    )
}

/// The root of the tree whose bottom level is `level` (zero bytes when empty).
pub open spec fn merkle_root_spec(level: Seq<Seq<u8>>) -> Seq<u8>
    decreases level.len(),
{
    if level.len() == 0 {
        zero_bytes()
    } else if level.len() == 1 {
        level[0]
    } else {
        merkle_root_spec(next_level(level))
    }
}

/// How many reductions take a level of `n` nodes down to one node.
pub open spec fn tree_depth(n: nat) -> nat
    decreases n,
{
    if n <= 1 {
        0
    } else {
        1 + tree_depth(((n + 1) / 2) as nat)
    }
}

/// The number of nodes at height `i` of a tree with `n` leaves, `ceil(n / 2^i)`.
pub open spec fn level_size(n: nat, i: nat) -> nat
    decreases i,
{
    if i == 0 {
        n
    } else {
        ((level_size(n, (i - 1) as nat) + 1) / 2) as nat
    }
}

/// The sibling of the node at `index` in `level`: its neighbour in the pair
/// that holds it, or nothing when it is the lone last node of an odd-sized
/// level, which moves up unchanged.
pub open spec fn path_sibling(level: Seq<Seq<u8>>, index: nat) -> Seq<Seq<u8>> {
    if index % 2 == 1 {
        seq![level[index - 1]]
    } else if index + 1 < level.len() {
        seq![level[index + 1int]]
    } else {
        Seq::empty()
    }
}

/// The siblings along the path from the node at `index` of `level` to the
/// root, bottom level first.
pub open spec fn proof_siblings(level: Seq<Seq<u8>>, index: nat) -> Seq<Seq<u8>>
    decreases level.len(),
{
    if level.len() <= 1 {
        Seq::empty()
    } else {
        path_sibling(level, index) + proof_siblings(next_level(level), index / 2)
    }
}

/// Whether every node on the path from position `index` of a level of `n`
/// nodes to the root has a sibling, i.e. the path never passes through a
/// lone node that moves up unchanged.
pub open spec fn path_has_siblings(n: nat, index: nat) -> bool
    decreases n,
{
    if n <= 1 {
        true
    } else {
        (index % 2 == 1 || index + 1 < n) && path_has_siblings(((n + 1) / 2) as nat, index / 2)
    }
}

/// Walks a proof from its `i`-th sibling on: at each step the current node
/// must lie inside its level, then it is hashed with the sibling on the side
/// that its index gives. `None` when the path leaves the tree.
pub open spec fn verify_walk(
    leaf_count: nat,
    siblings: Seq<Seq<u8>>,
    i: nat,
    current: Seq<u8>,
    index: nat,
) -> Option<Seq<u8>>
    decreases siblings.len() - i,
{
    if i >= siblings.len() {
        Some(current)
    } else if index >= level_size(leaf_count, i) {
        None
    } else {
        let next = if index % 2 == 0 {
            combine_spec(current, siblings[i as int])
        } else {
            combine_spec(siblings[i as int], current)
        };
        verify_walk(leaf_count, siblings, i + 1, next, index / 2)
    }
}

/// A Merkle proof: the sibling hashes along the path from a leaf to the root.
#[derive(Debug, Clone, PartialEq, Eq)]
pub struct MerkleProof {
    /// The sibling hashes along the path from leaf to root.
    pub siblings: Vec<crate::hash::Hash>,
    /// The leaf index in the tree.
    pub leaf_index: usize,
    /// The total number of leaves.
    pub leaf_count: usize,
}

impl MerkleProof {
    /// Whether this proof leads from `leaf` to `root`.
    pub open spec fn verifies(self, leaf: Seq<u8>, root: Seq<u8>) -> bool {
        self.leaf_count > 0 && verify_walk(
            self.leaf_count as nat,
            hashes_view(self.siblings@),
            0,
            leaf,
            self.leaf_index as nat,
        ) == Some(root)
    }

    /// Verifies this proof against a known root.
    pub fn verify(&self, leaf: crate::hash::Hash, root: crate::hash::Hash) -> (ok: bool)
        ensures
            ok == self.verifies(leaf@, root@),
    {
        if self.leaf_count == 0 {
            return false;
        }
        let ghost sibs = hashes_view(self.siblings@);
        let mut current = leaf;
        let mut index = self.leaf_index;
        let mut size = self.leaf_count;
        let mut i: usize = 0;
        while i < self.siblings.len()
            invariant
                i <= self.siblings@.len(),
                sibs == hashes_view(self.siblings@),
                size == level_size(self.leaf_count as nat, i as nat),
                verify_walk(self.leaf_count as nat, sibs, 0, leaf@, self.leaf_index as nat)
                    == verify_walk(self.leaf_count as nat, sibs, i as nat, current@, index as nat),
            decreases self.siblings@.len() - i,
        {
            if index >= size {
                return false;
            }
            let sibling = &self.siblings[i];
            if index % 2 == 0 {
                current = crate::hash::Hash::combine(&current, sibling);
            } else {
                current = crate::hash::Hash::combine(sibling, &current);
            }
            index = index / 2;
            size = size / 2 + size % 2;
            i = i + 1;
        }
        current == root
    }
}

/// A Merkle tree built from a list of leaf hashes.
#[derive(Debug, Clone, PartialEq, Eq)]
pub struct MerkleTree {
    /// The root hash of the tree.
    pub root: crate::hash::Hash,
    /// All leaf hashes.
    pub leaves: Vec<crate::hash::Hash>,
    /// The number of levels in the tree.
    pub depth: usize,
}

/// Computes the level above `level`.
fn reduce_level(level: &Vec<crate::hash::Hash>) -> (next: Vec<crate::hash::Hash>)
    ensures
        hashes_view(next@) == next_level(hashes_view(level@)),
{
    let n = level.len();
    let m = n / 2 + n % 2;
    let ghost lv = hashes_view(level@);
    let mut next: Vec<crate::hash::Hash> = Vec::new();
    let mut k: usize = 0;
    while k < m
        invariant
            n == level@.len(),
            m == (n + 1) / 2,
            lv == hashes_view(level@),
            k <= m,
            next@.len() == k,
            forall|t: int| 0 <= t < k ==> #[trigger] next@[t]@ == next_level(lv)[t],
        decreases m - k,
    {
        assert(2 * k + 1 <= n) by (nonlinear_arith)
            requires
                k < m,
                m == (n + 1) / 2,
        ;
        if 2 * k + 1 < n {
            let h = crate::hash::Hash::combine(&level[2 * k], &level[2 * k + 1]);
            next.push(h);
        } else {
            next.push(level[2 * k]);
        }
        k = k + 1;
    }
    assert(hashes_view(next@) =~= next_level(lv));
    next
}

impl MerkleTree {
    /// Whether the root and depth are those that the leaves determine.
    pub open spec fn well_formed(self) -> bool {
        &&& self.root@ == merkle_root_spec(hashes_view(self.leaves@))
        &&& self.depth == tree_depth(self.leaves@.len())
    }

    /// Builds a Merkle tree from leaf hashes.
    pub fn new(leaves: Vec<crate::hash::Hash>) -> (tree: MerkleTree)
        ensures
            tree.well_formed(),
            tree.leaves@ == leaves@,
    {
        if leaves.len() == 0 {
            let t = MerkleTree { root: crate::hash::Hash::default(), leaves: Vec::new(), depth: 0 };
            assert(t.leaves@ =~= leaves@);
            return t;
        }
        let mut current = leaves.clone();
        assert(current@ =~= leaves@);
        let mut depth: usize = 0;
        proof {
            lemma_tree_depth_le(leaves@.len());
        }
        while current.len() > 1
            invariant
                current@.len() >= 1,
                merkle_root_spec(hashes_view(current@)) == merkle_root_spec(hashes_view(leaves@)),
                depth + tree_depth(current@.len()) == tree_depth(leaves@.len()),
                tree_depth(leaves@.len()) <= leaves@.len(),
                leaves@.len() <= usize::MAX,
            decreases current@.len(),
        {
            let next = reduce_level(&current);
            proof {
                assert(hashes_view(next@).len() == next@.len());
                assert(hashes_view(current@).len() == current@.len());
                assert(tree_depth(current@.len()) == 1 + tree_depth(next@.len()));
                assert(depth + 1 <= usize::MAX);
            }
            current = next;
            depth = depth + 1;
        }
        let root = current[0];
        MerkleTree { root, leaves, depth }
    }

    /// Generates the Merkle proof for the leaf at `leaf_index`: the sibling
    /// hashes along its path to the root. `None` when the index is outside
    /// the tree.
    pub fn proof_for_leaf(&self, leaf_index: usize) -> (r: Option<MerkleProof>)
        ensures
            leaf_index >= self.leaves@.len() ==> r is None,
            leaf_index < self.leaves@.len() ==> (r matches Some(p) && p.leaf_index == leaf_index
                && p.leaf_count == self.leaves@.len() && hashes_view(p.siblings@) == proof_siblings(
                hashes_view(self.leaves@),
                leaf_index as nat,
            )),
            r matches Some(p) ==> (self.well_formed() && path_has_siblings(
                self.leaves@.len(),
                leaf_index as nat,
            ) ==> p.verifies(self.leaves@[leaf_index as int]@, self.root@)),
    {
        if leaf_index >= self.leaves.len() {
            return None;
        }
        let mut siblings: Vec<crate::hash::Hash> = Vec::new();
        let mut index = leaf_index;
        let mut current = self.leaves.clone();
        assert(current@ =~= self.leaves@);
        while current.len() > 1
            invariant
                index < current@.len(),
                hashes_view(siblings@) + proof_siblings(hashes_view(current@), index as nat)
                    == proof_siblings(hashes_view(self.leaves@), leaf_index as nat),
            decreases current@.len(),
        {
            let ghost before = hashes_view(siblings@);
            let ghost lv = hashes_view(current@);
            let n = current.len();
            if index % 2 == 1 {
                siblings.push(current[index - 1]);
            } else if index + 1 < n {
                siblings.push(current[index + 1]);
            }
            let next = reduce_level(&current);
            proof {
                assert(hashes_view(siblings@) =~= before + path_sibling(lv, index as nat));
                assert(proof_siblings(lv, index as nat) == path_sibling(lv, index as nat)
                    + proof_siblings(next_level(lv), (index / 2) as nat));
                assert(hashes_view(siblings@) + proof_siblings(next_level(lv), (index / 2) as nat)
                    =~= before + proof_siblings(lv, index as nat));
                assert(hashes_view(next@).len() == next@.len());
            }
            current = next;
            index = index / 2;
        }
        assert(hashes_view(siblings@) =~= hashes_view(siblings@) + proof_siblings(
            hashes_view(current@),
            index as nat,
        ));
        let p = MerkleProof { siblings, leaf_index, leaf_count: self.leaves.len() };
        proof {
            if self.well_formed() && path_has_siblings(self.leaves@.len(), leaf_index as nat) {
                lemma_proof_verifies_against_root(*self, p, leaf_index as nat);
            }
        }
        Some(p)
    }
}

proof fn lemma_tree_depth_le(n: nat)
    ensures
        tree_depth(n) <= n,
    decreases n,
{
    if n > 1 {
        lemma_tree_depth_le(((n + 1) / 2) as nat);
    }
}

/// The walk of a proof that holds, after a prefix `p` of one sibling per
/// level below, the path siblings from position `index` of `level` up,
/// reaches the root of `level`.
proof fn lemma_walk_reaches_root(n: nat, p: Seq<Seq<u8>>, level: Seq<Seq<u8>>, index: nat)
    requires
        level.len() == level_size(n, p.len()),
        index < level.len(),
        path_has_siblings(level.len(), index),
    ensures
        verify_walk(n, p + proof_siblings(level, index), p.len(), level[index as int], index)
            == Some(merkle_root_spec(level)),
    decreases level.len(),
{
    let s = p + proof_siblings(level, index);
    if level.len() == 1 {
        assert(s =~= p);
    } else {
        let up = next_level(level);
        let sib = path_sibling(level, index);
        assert(sib.len() == 1);
        let q = p + sib;
        assert(s =~= q + proof_siblings(up, index / 2));
        assert(s[p.len() as int] == sib[0]);
        assert(level_size(n, q.len()) == up.len());
        if index % 2 == 0 {
            assert(up[(index / 2) as int] == combine_spec(level[index as int], sib[0]));
        } else {
            assert(up[(index / 2) as int] == combine_spec(sib[0], level[index as int]));
        }
        lemma_walk_reaches_root(n, q, up, index / 2);
    }
}

/// A proof generated from a tree verifies its leaf against the tree's root,
/// for every leaf whose path to the root has a sibling at each level (every
/// leaf when the number of leaves is a power of two).
pub proof fn lemma_proof_verifies_against_root(tree: MerkleTree, proof: MerkleProof, i: nat)
    requires
        tree.well_formed(),
        i < tree.leaves@.len(),
        path_has_siblings(tree.leaves@.len(), i),
        proof.leaf_index == i,
        proof.leaf_count == tree.leaves@.len(),
        hashes_view(proof.siblings@) == proof_siblings(hashes_view(tree.leaves@), i),
    ensures
        proof.verifies(tree.leaves@[i as int]@, tree.root@),
{
    let leaves = hashes_view(tree.leaves@);
    assert(leaves.len() == tree.leaves@.len());
    assert(leaves[i as int] == tree.leaves@[i as int]@);
    assert(level_size(leaves.len(), 0) == leaves.len());
    lemma_walk_reaches_root(leaves.len(), Seq::empty(), leaves, i);
    assert(Seq::<Seq<u8>>::empty() + proof_siblings(leaves, i) =~= proof_siblings(leaves, i));
}

} // verus!
