//! The segment of the state-transition graph that a proof bundle carries.

use vstd::prelude::*;

verus! {

/// One state transition of the graph.
#[derive(Clone, Debug, PartialEq, Eq)]
pub struct DAGNode {
    /// Identifier of the transition.
    pub node_id: crate::hash::Hash,
    /// Transition bytecode.
    pub bytecode: Vec<u8>,
    /// Authorising signatures over the transition.
    pub signatures: Vec<Vec<u8>>,
    /// Witness data.
    pub witnesses: Vec<Vec<u8>>,
    /// Identifiers of the parent transitions.
    pub parents: Vec<crate::hash::Hash>,
}

impl DAGNode {
    /// Creates a transition node.
    pub fn new(
        node_id: crate::hash::Hash,
        bytecode: Vec<u8>,
        signatures: Vec<Vec<u8>>,
        witnesses: Vec<Vec<u8>>,
        parents: Vec<crate::hash::Hash>,
    ) -> (n: DAGNode)
        ensures
            n.node_id == node_id,
            n.bytecode@ == bytecode@,
            n.signatures@ == signatures@,
            n.witnesses@ == witnesses@,
            n.parents@ == parents@,
    {
        DAGNode { node_id, bytecode, signatures, witnesses, parents }
    }
}

/// A segment of the transition graph with the commitment to its root.
#[derive(Clone, Debug, PartialEq, Eq)]
pub struct DAGSegment {
    /// The transitions of the segment.
    pub nodes: Vec<DAGNode>,
    /// Commitment to the segment's root; authorising signatures sign it.
    pub root_commitment: crate::hash::Hash,
}

/// Whether no two nodes share an identifier.
pub open spec fn node_ids_distinct(nodes: Seq<DAGNode>) -> bool {
    forall|i: int, j: int|
        0 <= i < j < nodes.len() ==> #[trigger] nodes[i].node_id@ != #[trigger] nodes[j].node_id@
}

impl DAGSegment {
    /// Creates a segment.
    pub fn new(nodes: Vec<DAGNode>, root_commitment: crate::hash::Hash) -> (s: DAGSegment)
        ensures
            s.nodes@ == nodes@,
            s.root_commitment == root_commitment,
    {
        DAGSegment { nodes, root_commitment }
    }

    /// Checks that the segment is a well-formed graph: every transition
    /// appears once.
    pub fn validate_structure(&self) -> (r: Result<(), &'static str>)
        ensures
            r is Ok <==> node_ids_distinct(self.nodes@),
            r matches Err(m) ==> m@ == "duplicate transition in DAG segment"@,
    {
        let n = self.nodes.len();
        let mut i: usize = 0;
        while i < n
            invariant
                n == self.nodes@.len(),
                i <= n,
                forall|a: int, b: int|
                    0 <= a < i && a < b < n ==> #[trigger] self.nodes@[a].node_id@
                        != #[trigger] self.nodes@[b].node_id@,
            decreases n - i,
        {
            let mut j: usize = i + 1;
            while j < n
                invariant
                    n == self.nodes@.len(),
                    i < n,
                    i + 1 <= j <= n,
                    forall|a: int, b: int|
                        0 <= a < i && a < b < n ==> #[trigger] self.nodes@[a].node_id@
                            != #[trigger] self.nodes@[b].node_id@,
                    forall|b: int|
                        i < b < j ==> self.nodes@[i as int].node_id@
                            != #[trigger] self.nodes@[b].node_id@,
                decreases n - j,
            {
                if self.nodes[i].node_id == self.nodes[j].node_id {
                    return Err("duplicate transition in DAG segment");
                }
                j = j + 1;
            }
            i = i + 1;
        }
        Ok(())
    }
}

} // verus!
