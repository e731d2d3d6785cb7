//! Proof bundle types for off-chain verification, and the replay identity
//! of a transfer.

use vstd::prelude::*;
use vstd::string::{StringExecFns, StringSliceAdditionalSpecFns};

use crate::cbor::{cbor_byte_array, cbor_map_head, cbor_text, cbor_uint};
use crate::certification::ProofCertification;
use crate::dag::DAGSegment;
use crate::hash::tagged_hash_spec;
use crate::provenance::{history_complete, ProofProvenance};
use crate::seal::{CommitAnchor, SealPoint};

verus! {

/// Proof lifecycle stages, in the order a proof may advance through them.
#[derive(Debug, Clone, Copy, PartialEq, Eq, PartialOrd, Ord)]
pub enum ProofPhase {
    /// Assembled, nothing checked.
    Constructed,
    /// Structure checked.
    StructuralValidated,
    /// Cryptography checked.
    CryptographicallyValidated,
    /// Finality checked.
    FinalityValidated,
    /// Replay checked.
    ReplayChecked,
    /// Bound by consensus; the only phase that may mint.
    ConsensusBound,
}

/// The tag under which replay identities are hashed.
pub open spec fn replay_id_tag() -> Seq<u8> {
    "csv.replay-id.v1".spec_bytes()
}

/// The canonical CBOR map of the inputs that identify a transfer, in field
/// order: source chain, source transaction, output index, seal,
/// transition, destination chain.
pub open spec fn replay_id_preimage(
    source_chain: Seq<u8>,
    source_txid: Seq<u8>,
    source_output_index: u32,
    seal_id: Seq<u8>,
    transition_id: Seq<u8>,
    destination_chain: Seq<u8>,
) -> Seq<u8> {
    cbor_map_head(6)
        + cbor_text("source_chain".spec_bytes()) + cbor_text(source_chain)
        + cbor_text("source_txid".spec_bytes()) + cbor_byte_array(source_txid)
        + cbor_text("source_output_index".spec_bytes()) + cbor_uint(source_output_index as nat)
        + cbor_text("seal_id".spec_bytes()) + cbor_byte_array(seal_id)
        + cbor_text("transition_id".spec_bytes()) + cbor_byte_array(transition_id)
        + cbor_text("destination_chain".spec_bytes()) + cbor_text(destination_chain)
}

/// Globally unique transfer identity, the tagged hash of the transfer's
/// identifying inputs.
#[derive(Debug, Clone, Copy, Eq, Hash)]
pub struct ReplayId(pub [u8; 32]);

impl View for ReplayId {
    type V = Seq<u8>;

    open spec fn view(&self) -> Seq<u8> {
        self.0@
    }
}

impl ReplayId {
    /// Derives the identity of a transfer from all inputs that identify it.
    pub fn derive(
        source_chain: &str,
        source_txid: &[u8],
        source_output_index: u32,
        seal_id: &[u8],
        transition_id: &[u8],
        destination_chain: &str,
    ) -> (r: ReplayId)
        ensures
            r@ == tagged_hash_spec(
                replay_id_tag(),
                replay_id_preimage(
                    source_chain.spec_bytes(),
                    source_txid@,
                    source_output_index,
                    seal_id@,
                    transition_id@,
                    destination_chain.spec_bytes(),
                ),
            ),
    {
        let mut buf: Vec<u8> = Vec::new();
        crate::cbor::push_head(&mut buf, 5, 6);
        crate::cbor::push_text(&mut buf, "source_chain");
        crate::cbor::push_text(&mut buf, source_chain);
        crate::cbor::push_text(&mut buf, "source_txid");
        crate::cbor::push_byte_array(&mut buf, source_txid);
        crate::cbor::push_text(&mut buf, "source_output_index");
        crate::cbor::push_uint(&mut buf, source_output_index as u64);
        crate::cbor::push_text(&mut buf, "seal_id");
        crate::cbor::push_byte_array(&mut buf, seal_id);
        crate::cbor::push_text(&mut buf, "transition_id");
        crate::cbor::push_byte_array(&mut buf, transition_id);
        crate::cbor::push_text(&mut buf, "destination_chain");
        crate::cbor::push_text(&mut buf, destination_chain);
        assert(buf@ =~= replay_id_preimage(
            source_chain.spec_bytes(),
            source_txid@,
            source_output_index,
            seal_id@,
            transition_id@,
            destination_chain.spec_bytes(),
        ));
        ReplayId(crate::hash::tagged_hash("csv.replay-id.v1", buf.as_slice()))
    }

    /// The raw 32-byte identity.
    pub fn as_bytes(&self) -> (b: &[u8; 32])
        ensures
            b@ == self@,
    {
        &self.0
    }
}

impl PartialEq for ReplayId {
    fn eq(&self, other: &Self) -> (r: bool) {
        crate::bytes::bytes_equal(self.0.as_slice(), other.0.as_slice())
    }
}

impl vstd::std_specs::cmp::PartialEqSpecImpl for ReplayId {
    open spec fn obeys_eq_spec() -> bool {
        true
    }

    open spec fn eq_spec(&self, other: &Self) -> bool {
        self@ == other@
    }
}

/// Maximum size of inclusion proof bytes (64KB).
pub const MAX_PROOF_BYTES: usize = 65536;

/// Maximum size of finality data (4KB).
pub const MAX_FINALITY_DATA: usize = 4096;

/// Maximum total size of the signatures of a bundle (1MB).
pub const MAX_SIGNATURES_TOTAL_SIZE: usize = 1048576;

/// Largest encoded proof bundle accepted for decoding (10MB).
pub const MAX_ENCODED_BUNDLE_SIZE: usize = 10485760;

/// The message for an encoded bundle of `len` bytes that is too large.
pub open spec fn encoded_bundle_too_large_text(len: nat) -> Seq<char> {
    "ProofBundle too large: "@ + crate::text::decimal(len) + " bytes (max 10485760)"@
}

/// Checks that an encoded proof bundle is small enough to decode.
pub fn check_encoded_bundle_size(bytes: &[u8]) -> (r: Result<(), String>)
    ensures
        bytes@.len() <= MAX_ENCODED_BUNDLE_SIZE ==> r is Ok,
        bytes@.len() > MAX_ENCODED_BUNDLE_SIZE ==> (r matches Err(m) && m@ == encoded_bundle_too_large_text(
            bytes@.len(),
        )),
{
    if bytes.len() > MAX_ENCODED_BUNDLE_SIZE {
        let mut m = String::from_str("ProofBundle too large: ");
        crate::text::push_decimal(&mut m, bytes.len() as u64);
        m.append(" bytes (max 10485760)");
        return Err(m);
    }
    Ok(())
}

/// Inclusion proof material.
#[derive(Clone, Debug, PartialEq, Eq)]
pub struct InclusionProof {
    /// Merkle proof or equivalent.
    pub proof_bytes: Vec<u8>,
    /// Block hash containing the commitment.
    pub block_hash: crate::hash::Hash,
    /// Block number containing the commitment.
    pub block_number: u64,
    /// Position in block.
    pub position: u64,
}

impl InclusionProof {
    /// Creates an inclusion proof; the proof may hold at most
    /// `MAX_PROOF_BYTES` bytes.
    pub fn new(
        proof_bytes: Vec<u8>,
        block_hash: crate::hash::Hash,
        block_number: u64,
        position: u64,
    ) -> (r: Result<InclusionProof, &'static str>)
        ensures
            r is Ok <==> proof_bytes@.len() <= MAX_PROOF_BYTES,
            r matches Ok(p) ==> p.proof_bytes@ == proof_bytes@ && p.block_hash == block_hash
                && p.block_number == block_number && p.position == position,
    {
        if proof_bytes.len() > MAX_PROOF_BYTES {
            return Err("proof_bytes exceeds maximum allowed size (64KB)");
        }
        Ok(InclusionProof { proof_bytes, block_hash, block_number, position })
    }

    /// Creates an inclusion proof without the size check.
    pub fn new_unchecked(
        proof_bytes: Vec<u8>,
        block_hash: crate::hash::Hash,
        block_number: u64,
        position: u64,
    ) -> (p: InclusionProof)
        ensures
            p.proof_bytes@ == proof_bytes@,
            p.block_hash == block_hash,
            p.block_number == block_number,
            p.position == position,
    {
        InclusionProof { proof_bytes, block_hash, block_number, position }
    }

    /// Whether the proof is confirmed at the given depth. Confirmation is
    /// chain-specific, so the generic answer fails closed.
    pub fn is_confirmed(&self, required_depth: u32) -> (r: bool)
        ensures
            !r,
    {
        false
    }
}

/// Finality proof material.
#[derive(Clone, Debug, PartialEq, Eq)]
pub struct FinalityProof {
    /// Finality checkpoint or depth.
    pub finality_data: Vec<u8>,
    /// Number of confirmations or equivalent.
    pub confirmations: u64,
    /// Whether finality is deterministic (vs probabilistic).
    pub is_deterministic: bool,
}

impl FinalityProof {
    /// Creates a finality proof. Probabilistic finality needs at least one
    /// confirmation, and the data may hold at most `MAX_FINALITY_DATA` bytes.
    pub fn new(finality_data: Vec<u8>, confirmations: u64, is_deterministic: bool) -> (r: Result<
        FinalityProof,
        &'static str,
    >)
        ensures
            r is Ok <==> (confirmations > 0 || is_deterministic) && finality_data@.len()
                <= MAX_FINALITY_DATA,
            r matches Ok(p) ==> p.finality_data@ == finality_data@ && p.confirmations
                == confirmations && p.is_deterministic == is_deterministic,
    {
        if confirmations == 0 && !is_deterministic {
            return Err("Zero confirmations not allowed for probabilistic finality");
        }
        if finality_data.len() > MAX_FINALITY_DATA {
            return Err("finality_data exceeds maximum allowed size (4KB)");
        }
        Ok(FinalityProof { finality_data, confirmations, is_deterministic })
    }

    /// Creates a finality proof without checks.
    pub fn new_unchecked(finality_data: Vec<u8>, confirmations: u64, is_deterministic: bool) -> (p:
        FinalityProof)
        ensures
            p.finality_data@ == finality_data@,
            p.confirmations == confirmations,
            p.is_deterministic == is_deterministic,
    {
        FinalityProof { finality_data, confirmations, is_deterministic }
    }
}

/// The sum of the lengths of byte strings.
pub open spec fn total_len(s: Seq<Vec<u8>>) -> nat
    decreases s.len(),
{
    if s.len() == 0 {
        0
    } else {
        total_len(s.drop_last()) + s.last()@.len()
    }
}

/// Sums the lengths of `s`, capped just above `cap`.
pub fn capped_total_len(s: &Vec<Vec<u8>>, cap: usize) -> (t: usize)
    requires
        cap < usize::MAX,
    ensures
        t as nat == if total_len(s@) > cap {
            cap as nat + 1
        } else {
            total_len(s@)
        },
{
    let mut total: usize = 0;
    let mut i: usize = 0;
    while i < s.len()
        invariant
            cap < usize::MAX,
            i <= s@.len(),
            total as nat == if total_len(s@.subrange(0, i as int)) > cap {
                cap as nat + 1
            } else {
                total_len(s@.subrange(0, i as int))
            },
        decreases s@.len() - i,
    {
        let l = s[i].len();
        proof {
            let pre = s@.subrange(0, i + 1);
            assert(pre.drop_last() =~= s@.subrange(0, i as int));
            assert(pre.last() == s@[i as int]);
        }
        if total > cap || l > cap - total {
            total = cap + 1;
        } else {
            total = total + l;
        }
        i = i + 1;
    }
    assert(s@.subrange(0, i as int) =~= s@);
    total
}

/// Complete proof bundle for peer-to-peer verification.
#[derive(Clone, Debug)]
pub struct ProofBundle {
    /// State transition DAG segment.
    pub transition_dag: DAGSegment,
    /// Authorizing signatures.
    pub signatures: Vec<Vec<u8>>,
    /// Seal reference.
    pub seal_ref: SealPoint,
    /// Anchor reference.
    pub anchor_ref: CommitAnchor,
    /// Inclusion proof.
    pub inclusion_proof: InclusionProof,
    /// Finality proof.
    pub finality_proof: FinalityProof,
    /// Provenance of the proof.
    pub provenance: Option<ProofProvenance>,
    /// Deterministic certification of its verification.
    pub certification: Option<ProofCertification>,
}

impl ProofBundle {
    /// Whether the parts of `self` are the given ones.
    pub open spec fn holds(
        self,
        transition_dag: DAGSegment,
        signatures: Seq<Vec<u8>>,
        seal_ref: SealPoint,
        anchor_ref: CommitAnchor,
        inclusion_proof: InclusionProof,
        finality_proof: FinalityProof,
        provenance: Option<ProofProvenance>,
        certification: Option<ProofCertification>,
    ) -> bool {
        &&& self.transition_dag == transition_dag
        &&& self.signatures@ == signatures
        &&& self.seal_ref == seal_ref
        &&& self.anchor_ref == anchor_ref
        &&& self.inclusion_proof == inclusion_proof
        &&& self.finality_proof == finality_proof
        &&& self.provenance == provenance
        &&& self.certification == certification
    }

    /// Creates a bundle without provenance or certification; the signatures
    /// may total at most `MAX_SIGNATURES_TOTAL_SIZE` bytes.
    pub fn new(
        transition_dag: DAGSegment,
        signatures: Vec<Vec<u8>>,
        seal_ref: SealPoint,
        anchor_ref: CommitAnchor,
        inclusion_proof: InclusionProof,
        finality_proof: FinalityProof,
    ) -> (r: Result<ProofBundle, &'static str>)
        ensures
            r is Ok <==> total_len(signatures@) <= MAX_SIGNATURES_TOTAL_SIZE,
            r matches Ok(b) ==> b.holds(
                transition_dag,
                signatures@,
                seal_ref,
                anchor_ref,
                inclusion_proof,
                finality_proof,
                None,
                None,
            ),
    {
        Self::with_certification(
            transition_dag,
            signatures,
            seal_ref,
            anchor_ref,
            inclusion_proof,
            finality_proof,
            None,
            None,
        )
    }

    /// Creates a bundle with optional provenance.
    pub fn with_provenance(
        transition_dag: DAGSegment,
        signatures: Vec<Vec<u8>>,
        seal_ref: SealPoint,
        anchor_ref: CommitAnchor,
        inclusion_proof: InclusionProof,
        finality_proof: FinalityProof,
        provenance: Option<ProofProvenance>,
    ) -> (r: Result<ProofBundle, &'static str>)
        ensures
            r is Ok <==> total_len(signatures@) <= MAX_SIGNATURES_TOTAL_SIZE,
            r matches Ok(b) ==> b.holds(
                transition_dag,
                signatures@,
                seal_ref,
                anchor_ref,
                inclusion_proof,
                finality_proof,
                provenance,
                None,
            ),
    {
        Self::with_certification(
            transition_dag,
            signatures,
            seal_ref,
            anchor_ref,
            inclusion_proof,
            finality_proof,
            provenance,
            None,
        )
    }

    /// Creates a bundle with optional provenance and certification.
    pub fn with_certification(
        transition_dag: DAGSegment,
        signatures: Vec<Vec<u8>>,
        seal_ref: SealPoint,
        anchor_ref: CommitAnchor,
        inclusion_proof: InclusionProof,
        finality_proof: FinalityProof,
        provenance: Option<ProofProvenance>,
        certification: Option<ProofCertification>,
    ) -> (r: Result<ProofBundle, &'static str>)
        ensures
            r is Ok <==> total_len(signatures@) <= MAX_SIGNATURES_TOTAL_SIZE,
            r matches Ok(b) ==> b.holds(
                transition_dag,
                signatures@,
                seal_ref,
                anchor_ref,
                inclusion_proof,
                finality_proof,
                provenance,
                certification,
            ),
    {
        let total = capped_total_len(&signatures, MAX_SIGNATURES_TOTAL_SIZE);
        if total > MAX_SIGNATURES_TOTAL_SIZE {
            return Err("total signatures size exceeds maximum allowed (1MB)");
        }
        Ok(ProofBundle {
            transition_dag,
            signatures,
            seal_ref,
            anchor_ref,
            inclusion_proof,
            finality_proof,
            provenance,
            certification,
        })
    }

    /// Creates a bundle without checks.
    pub fn new_unchecked(
        transition_dag: DAGSegment,
        signatures: Vec<Vec<u8>>,
        seal_ref: SealPoint,
        anchor_ref: CommitAnchor,
        inclusion_proof: InclusionProof,
        finality_proof: FinalityProof,
    ) -> (b: ProofBundle)
        ensures
            b.holds(
                transition_dag,
                signatures@,
                seal_ref,
                anchor_ref,
                inclusion_proof,
                finality_proof,
                None,
                None,
            ),
    {
        ProofBundle {
            transition_dag,
            signatures,
            seal_ref,
            anchor_ref,
            inclusion_proof,
            finality_proof,
            provenance: None,
            certification: None,
        }
    }

    /// Replaces the provenance.
    pub fn set_provenance(&mut self, provenance: ProofProvenance)
        ensures
            *final(self) == (ProofBundle { provenance: Some(provenance), ..*old(self) }),
    {
        self.provenance = Some(provenance);
    }

    /// The provenance, if any.
    pub fn provenance(&self) -> (r: Option<&ProofProvenance>)
        ensures
            r == match self.provenance {
                Some(p) => Some(&p),
                None => None::<&ProofProvenance>,
            },
    {
        match &self.provenance {
            Some(p) => Some(p),
            None => None,
        }
    }

    /// Whether the provenance records a complete verification history.
    pub fn has_complete_provenance(&self) -> (r: bool)
        ensures
            r == (self.provenance matches Some(p) && history_complete(p.steps@)),
    {
        match &self.provenance {
            Some(p) => p.is_verification_complete(),
            None => false,
        }
    }

    /// Replaces the certification.
    pub fn set_certification(&mut self, certification: ProofCertification)
        ensures
            *final(self) == (ProofBundle { certification: Some(certification), ..*old(self) }),
    {
        self.certification = Some(certification);
    }

    /// The certification, if any.
    pub fn certification(&self) -> (r: Option<&ProofCertification>)
        ensures
            r == match self.certification {
                Some(c) => Some(&c),
                None => None::<&ProofCertification>,
            },
    {
        match &self.certification {
            Some(c) => Some(c),
            None => None,
        }
    }

    /// Whether the bundle carries a certification.
    pub fn has_certification(&self) -> (r: bool)
        ensures
            r == self.certification is Some,
    {
        self.certification.is_some()
    }
}

} // verus!
