//! References to the single-use seal that a transfer consumes and to the
//! on-chain anchor that publishes its commitment.

use vstd::prelude::*;

verus! {

/// Largest accepted seal or anchor identifier, in bytes.
pub const MAX_REFERENCE_ID_SIZE: usize = 1024;

/// A reference to a single-use seal.
#[derive(Clone, Debug, PartialEq, Eq)]
pub struct SealPoint {
    /// Chain-specific seal identifier.
    pub id: Vec<u8>,
    /// Optional nonce distinguishing reuse of the same identifier.
    pub nonce: Option<u64>,
}

impl SealPoint {
    /// Creates a seal reference; the identifier may hold at most
    /// `MAX_REFERENCE_ID_SIZE` bytes.
    pub fn new(id: Vec<u8>, nonce: Option<u64>) -> (r: Result<SealPoint, &'static str>)
        ensures
            r is Ok <==> id@.len() <= MAX_REFERENCE_ID_SIZE,
            r matches Ok(s) ==> s.id@ == id@ && s.nonce == nonce,
    {
        if id.len() > MAX_REFERENCE_ID_SIZE {
            return Err("seal id exceeds maximum size");
        }
        Ok(SealPoint { id, nonce })
    }
}

/// A reference to the on-chain anchor of a commitment.
#[derive(Clone, Debug, PartialEq, Eq)]
pub struct CommitAnchor {
    /// Chain-specific anchor identifier.
    pub anchor_id: Vec<u8>,
    /// Height of the block holding the anchor.
    pub block_height: u64,
    /// Chain-specific anchor metadata.
    pub metadata: Vec<u8>,
}

impl CommitAnchor {
    /// Creates an anchor reference; the identifier may hold at most
    /// `MAX_REFERENCE_ID_SIZE` bytes.
    pub fn new(anchor_id: Vec<u8>, block_height: u64, metadata: Vec<u8>) -> (r: Result<
        CommitAnchor,
        &'static str,
    >)
        ensures
            r is Ok <==> anchor_id@.len() <= MAX_REFERENCE_ID_SIZE,
            r matches Ok(a) ==> a.anchor_id@ == anchor_id@ && a.block_height == block_height
                && a.metadata@ == metadata@,
    {
        if anchor_id.len() > MAX_REFERENCE_ID_SIZE {
            return Err("anchor id exceeds maximum size");
        }
        Ok(CommitAnchor { anchor_id, block_height, metadata })
    }
}

} // verus!
