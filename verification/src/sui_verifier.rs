//! The Sui chain verifier: checkpoint inclusion by Merkle path, instant
//! finality, no zero-knowledge proofs, seals as Sui objects, and Ed25519
//! owner signatures.

use vstd::prelude::*;
use vstd::string::{StringExecFns, StringSliceAdditionalSpecFns};

use crate::error::ProtocolError;
use crate::hash::sha256_spec;
use crate::proof_bundle::{FinalityProof, InclusionProof, ProofBundle};
use crate::verified::{
    no_components, FinalityStrength, InclusionStrength, VerificationAssurance, VerificationFailure,
    VerificationResult, VerifiedComponents,
};

verus! {

/// The number of siblings that a Sui inclusion proof declares in its first
/// four bytes, little-endian.
pub open spec fn sibling_count(b: Seq<u8>) -> nat {
    b[0] as nat + 256 * (b[1] as nat) + 65536 * (b[2] as nat) + 16777216 * (b[3] as nat)
}

/// Where the siblings of a Sui inclusion proof end and its transaction
/// digest begins.
pub open spec fn siblings_end(b: Seq<u8>) -> nat {
    4 + 32 * sibling_count(b)
}

/// The proofs whose siblings fit but that cannot be parsed further: the
/// 32-byte digest after the siblings is cut short, or the path is longer
/// than the 64 bits of a position.
pub open spec fn inclusion_proof_unparsable(b: Seq<u8>) -> bool {
    &&& b.len() >= 4
    &&& siblings_end(b) <= b.len()
    &&& (b.len() < siblings_end(b) + 32 || sibling_count(b) > 64)
}

/// The eight little-endian bytes of `n`.
pub open spec fn u64_le(n: u64) -> Seq<u8> {
    Seq::new(8, |k: int| ((n >> (8 * k) as u64) & 0xffu64) as u8)
}

/// The tag that a Sui checkpoint leaf is hashed under.
pub open spec fn leaf_tag() -> Seq<u8> {
    "SUI::CHECKPOINT::LEAF".spec_bytes()
}

/// The leaf of a transaction: SHA-256 of the tag, the digest and the
/// block number.
pub open spec fn checkpoint_leaf(b: Seq<u8>, block_number: u64) -> Seq<u8> {
    sha256_spec(
        leaf_tag() + b.subrange(siblings_end(b) as int, siblings_end(b) + 32int) + u64_le(block_number),
    )
}

/// Sibling `i` of the path.
pub open spec fn sibling(b: Seq<u8>, i: nat) -> Seq<u8> {
    b.subrange(4 + 32 * (i as int), 4 + 32 * (i as int) + 32)
}

/// Whether the path continues to the left at level `i`: bit `i` of the
/// position is clear.
pub open spec fn goes_left(position: u64, i: nat) -> bool {
    (position >> i as u64) & 1u64 == 0
}

/// The hash after the first `k` levels of the path from `leaf`.
pub open spec fn path_hash(b: Seq<u8>, position: u64, leaf: Seq<u8>, k: nat) -> Seq<u8>
    decreases k,
{
    if k == 0 {
        leaf
    } else {
        let cur = path_hash(b, position, leaf, (k - 1) as nat);
        if goes_left(position, (k - 1) as nat) {
            sha256_spec(cur + sibling(b, (k - 1) as nat))
        } else {
            sha256_spec(sibling(b, (k - 1) as nat) + cur)
        }
    }
}

/// The checkpoint root that a well-formed proof leads to.
pub open spec fn computed_root(b: Seq<u8>, block_number: u64, position: u64) -> Seq<u8> {
    path_hash(b, position, checkpoint_leaf(b, block_number), sibling_count(b))
}

/// Whether `v` fails on structure alone, with missing data described by
/// `text`.
pub open spec fn missing_data(v: VerificationResult, text: Seq<char>) -> bool {
    &&& !v.valid
    &&& v.assurance == VerificationAssurance::StructureChecked
    &&& v.verified_components == no_components()
    &&& v.error matches Some(VerificationFailure::MissingData(m)) && m@ == text
}

/// A result that establishes nothing, at `assurance`, with `failure`.
pub open spec fn rejected(assurance: VerificationAssurance, failure: VerificationFailure) -> VerificationResult {
    VerificationResult {
        valid: false,
        assurance,
        verified_components: no_components(),
        error: Some(failure),
    }
}

/// A result that establishes only `components`, at `assurance`.
pub open spec fn accepted(assurance: VerificationAssurance, components: VerifiedComponents) -> VerificationResult {
    VerificationResult { valid: true, assurance, verified_components: components, error: None }
}

/// Why Sui refuses a zero-knowledge proof.
pub open spec fn sui_zk_refusal() -> Seq<char> {
    "ZK proofs are not supported for Sui operations. Set zk_proof_data to empty for Sui transactions."@
}

/// A seal registry check that found the seal consumed.
pub open spec fn replay_found() -> VerificationResult {
    VerificationResult {
        valid: false,
        assurance: VerificationAssurance::StructureChecked,
        verified_components: VerifiedComponents { replay_checked: true, ..no_components() },
        error: Some(VerificationFailure::ReplayDetected),
    }
}

/// A seal registry check that found the seal available.
pub open spec fn seal_available() -> VerificationResult {
    accepted(
        VerificationAssurance::PartialCryptographic,
        VerifiedComponents { replay_checked: true, ..no_components() },
    )
}

/// The eight little-endian bytes of `n`.
fn u64_le_bytes(n: u64) -> (out: Vec<u8>)
    ensures
        out@ == u64_le(n),
{
    let mut out: Vec<u8> = Vec::new();
    let mut k: u64 = 0;
    while k < 8
        invariant
            k <= 8,
            out@.len() == k,
            forall|j: int| 0 <= j < k ==> out@[j] == ((n >> (8 * j) as u64) & 0xffu64) as u8,
        decreases 8 - k,
    {
        out.push(((n >> (8 * k)) & 0xff) as u8);
        k = k + 1;
    }
    assert(out@ =~= u64_le(n));
    out
}

/// The Sui chain verifier, over an RPC client that looks up seal objects.
pub struct SuiVerifier<R> {
    rpc: R,
}

impl<R> SuiVerifier<R> {
    /// A verifier over `rpc`.
    pub fn new(rpc: R) -> (v: SuiVerifier<R>)
        ensures
            v.rpc() == rpc,
    {
        SuiVerifier { rpc }
    }

    /// The RPC client.
    pub closed spec fn rpc(&self) -> R {
        self.rpc
    }

    /// Borrows the RPC client.
    pub fn rpc_client(&self) -> (r: &R)
        ensures
            *r == self.rpc(),
    {
        &self.rpc
    }

    /// Checks that a transaction is in a checkpoint: the proof
    /// `[sibling count: 4 bytes LE] [siblings: 32 bytes each] [digest: 32 bytes]`
    /// must lead from the transaction's leaf to `expected_root`, going left
    /// at each level whose position bit is clear.
    pub fn verify_inclusion(&self, proof: &InclusionProof, expected_root: crate::hash::Hash) -> (r: Result<
        VerificationResult,
        ProtocolError,
    >)
        ensures
            r is Ok,
            proof.proof_bytes@.len() == 0 ==> missing_data(r->Ok_0, "Inclusion proof bytes are empty"@),
            0 < proof.proof_bytes@.len() < 4 ==> missing_data(r->Ok_0, "Inclusion proof bytes too short"@),
            4 <= proof.proof_bytes@.len() < siblings_end(proof.proof_bytes@) ==> r->Ok_0 == rejected(
                VerificationAssurance::StructureChecked,
                VerificationFailure::InvalidMerklePath,
            ),
            inclusion_proof_unparsable(proof.proof_bytes@) ==> r->Ok_0 == rejected(
                VerificationAssurance::StructureChecked,
                VerificationFailure::InvalidMerklePath,
            ),
            4 <= proof.proof_bytes@.len() && siblings_end(proof.proof_bytes@) <= proof.proof_bytes@.len()
                && !inclusion_proof_unparsable(proof.proof_bytes@) ==> r->Ok_0 == if computed_root(proof.proof_bytes@, proof.block_number, proof.position)
                == expected_root@ {
                accepted(
                    VerificationAssurance::Cryptographic,
                    VerifiedComponents { inclusion: InclusionStrength::MerklePath, ..no_components() },
                )
            } else {
                rejected(VerificationAssurance::PartialCryptographic, VerificationFailure::InvalidMerklePath)
            },
    {
        let b = &proof.proof_bytes;
        if b.len() == 0 {
            return Ok(
                crate::verified::rejection(
                    VerificationAssurance::StructureChecked,
                    crate::verified::nothing_established(),
                    VerificationFailure::MissingData(String::from_str("Inclusion proof bytes are empty")),
                ),
            );
        }
        if b.len() < 4 {
            return Ok(
                crate::verified::rejection(
                    VerificationAssurance::StructureChecked,
                    crate::verified::nothing_established(),
                    VerificationFailure::MissingData(String::from_str("Inclusion proof bytes too short")),
                ),
            );
        }
        let n: u64 = b[0] as u64 + 256 * (b[1] as u64) + 65536 * (b[2] as u64) + 16777216 * (
        b[3] as u64);
        assert(n == sibling_count(b@));
        let end: u64 = 4 + 32 * n;
        if (b.len() as u64) < end {
            return Ok(
                crate::verified::rejection(
                    VerificationAssurance::StructureChecked,
                    crate::verified::nothing_established(),
                    VerificationFailure::InvalidMerklePath,
                ),
            );
        }
        if (b.len() as u64) < end + 32 || n > 64 {
            return Ok(
                crate::verified::rejection(
                    VerificationAssurance::StructureChecked,
                    crate::verified::nothing_established(),
                    VerificationFailure::InvalidMerklePath,
                ),
            );
        }
        let end = end as usize;
        let mut leaf_input: Vec<u8> = Vec::new();
        crate::bytes::append_bytes(&mut leaf_input, "SUI::CHECKPOINT::LEAF".as_bytes());
        let digest = crate::bytes::copy_range(b.as_slice(), end, end + 32);
        crate::bytes::append_bytes(&mut leaf_input, digest.as_slice());
        let number = u64_le_bytes(proof.block_number);
        crate::bytes::append_bytes(&mut leaf_input, number.as_slice());
        let mut current = crate::hash::sha256_digest(leaf_input.as_slice());
        assert(current@ == checkpoint_leaf(b@, proof.block_number));
        let mut i: u64 = 0;
        while i < n
            invariant
                n == sibling_count(b@),
                n <= 64,
                4 + 32 * n <= b@.len(),
                i <= n,
                current@ == path_hash(b@, proof.position, checkpoint_leaf(b@, proof.block_number), i as nat),
            decreases n - i,
        {
            let start = (4 + 32 * i) as usize;
            let sib = crate::bytes::copy_range(b.as_slice(), start, start + 32);
            let mut combined: Vec<u8> = Vec::new();
            if (proof.position >> i) & 1 == 0 {
                crate::bytes::append_bytes(&mut combined, current.as_slice());
                crate::bytes::append_bytes(&mut combined, sib.as_slice());
            } else {
                crate::bytes::append_bytes(&mut combined, sib.as_slice());
                crate::bytes::append_bytes(&mut combined, current.as_slice());
            }
            current = crate::hash::sha256_digest(combined.as_slice());
            i = i + 1;
        }
        if crate::hash::Hash::new(current) == expected_root {
            Ok(
                crate::verified::acceptance(
                    VerificationAssurance::Cryptographic,
                    VerifiedComponents {
                        inclusion: InclusionStrength::MerklePath,
                        finality: FinalityStrength::Absent,
                        replay_checked: false,
                        ownership_signature: false,
                    },
                ),
            )
        } else {
            Ok(
                crate::verified::rejection(
                    VerificationAssurance::PartialCryptographic,
                    crate::verified::nothing_established(),
                    VerificationFailure::InvalidMerklePath,
                ),
            )
        }
    }

    /// Checks the finality of a checkpoint: Sui finalises instantly, so one
    /// confirmation and non-empty finality data suffice.
    pub fn verify_finality(&self, proof: &FinalityProof) -> (r: Result<VerificationResult, ProtocolError>)
        ensures
            proof.confirmations < 1 ==> r == Ok::<VerificationResult, ProtocolError>(
                rejected(
                    VerificationAssurance::StructureChecked,
                    VerificationFailure::FinalityNotReached { required: 1, actual: proof.confirmations },
                ),
            ),
            proof.confirmations >= 1 && proof.finality_data@.len() == 0 ==> r is Ok && missing_data(
                r->Ok_0,
                "Finality data is empty"@,
            ),
            proof.confirmations >= 1 && proof.finality_data@.len() != 0 ==> r == Ok::<
                VerificationResult,
                ProtocolError,
            >(
                accepted(
                    VerificationAssurance::ConsensusBound,
                    VerifiedComponents { finality: FinalityStrength::Deterministic, ..no_components() },
                ),
            ),
    {
        let required: u64 = 1;
        if proof.confirmations < required {
            return Ok(
                crate::verified::rejection(
                    VerificationAssurance::StructureChecked,
                    crate::verified::nothing_established(),
                    VerificationFailure::FinalityNotReached { required, actual: proof.confirmations },
                ),
            );
        }
        if proof.finality_data.len() == 0 {
            return Ok(
                crate::verified::rejection(
                    VerificationAssurance::StructureChecked,
                    crate::verified::nothing_established(),
                    VerificationFailure::MissingData(String::from_str("Finality data is empty")),
                ),
            );
        }
        Ok(
            crate::verified::acceptance(
                VerificationAssurance::ConsensusBound,
                VerifiedComponents {
                    inclusion: InclusionStrength::Absent,
                    finality: FinalityStrength::Deterministic,
                    replay_checked: false,
                    ownership_signature: false,
                },
            ),
        )
    }

    /// Sui has no zero-knowledge proofs: only an empty one passes.
    pub fn verify_zk(&self, proof: &[u8]) -> (r: Result<VerificationResult, ProtocolError>)
        ensures
            r is Ok,
            proof@.len() != 0 ==> (r->Ok_0.error matches Some(VerificationFailure::UnsupportedCapability(m))
                && m@ == sui_zk_refusal()) && !r->Ok_0.valid,
            proof@.len() == 0 ==> r->Ok_0 == accepted(
                VerificationAssurance::PartialCryptographic,
                no_components(),
            ),
    {
        Ok(
            crate::chain_checks::refuse_zk_proof(
                proof,
                "ZK proofs are not supported for Sui operations. Set zk_proof_data to empty for Sui transactions.",
            ),
        )
    }

    /// Decides the seal registry check from the RPC lookup of the seal's
    /// object: `Ok(None)` when no object exists, `Ok(Some(owner))` with the
    /// object's owner field when it is a string, `Err` with the RPC error.
    /// A missing, deleted or ownerless object means the seal was consumed.
    pub fn seal_registry_verdict(&self, lookup: Result<Option<Option<String>>, String>) -> (r: Result<
        VerificationResult,
        ProtocolError,
    >)
        ensures
            match lookup {
                Ok(Some(owner)) => if owner matches Some(o) && (o@ == "Deleted"@ || o@.len() == 0) {
                    r == Ok::<VerificationResult, ProtocolError>(replay_found())
                } else {
                    r == Ok::<VerificationResult, ProtocolError>(seal_available())
                },
                Ok(None) => r == Ok::<VerificationResult, ProtocolError>(replay_found()),
                Err(e) => (r matches Err(ProtocolError::NetworkError(m)) && m@
                    == "Failed to query seal registry: "@ + e@),
            },
    {
        let checked = VerifiedComponents {
            inclusion: InclusionStrength::Absent,
            finality: FinalityStrength::Absent,
            replay_checked: true,
            ownership_signature: false,
        };
        match lookup {
            Ok(Some(owner)) => {
                let consumed = match &owner {
                    Some(o) => {
                        proof {
                            if o@.len() == 0 {
                                assert(o@ =~= Seq::<char>::empty());
                            }
                        }
                        *o == String::from_str("Deleted") || *o == String::new()
                    },
                    None => false,
                };
                if consumed {
                    Ok(
                        crate::verified::rejection(
                            VerificationAssurance::StructureChecked,
                            checked,
                            VerificationFailure::ReplayDetected,
                        ),
                    )
                } else {
                    Ok(crate::verified::acceptance(VerificationAssurance::PartialCryptographic, checked))
                }
            },
            Ok(None) => Ok(
                crate::verified::rejection(
                    VerificationAssurance::StructureChecked,
                    checked,
                    VerificationFailure::ReplayDetected,
                ),
            ),
            Err(e) => {
                let mut m = String::from_str("Failed to query seal registry: ");
                m.append(e.as_str());
                Err(ProtocolError::NetworkError(m))
            },
        }
    }

    /// Checks the owner's Ed25519 signatures over the bundle's transition
    /// graph.
    pub fn verify_signature(&self, bundle: &ProofBundle) -> (r: Result<VerificationResult, ProtocolError>)
        ensures
            crate::chain_checks::owner_signature_result(*bundle, r),
    {
        crate::chain_checks::verify_owner_signatures(bundle)
    }
}

} // verus!
