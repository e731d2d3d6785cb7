//! The verification pipeline for proof bundles: size, graph structure,
//! anchor, signatures, domain separation, seal replay, inclusion, finality.

use vstd::prelude::*;
use vstd::string::StringExecFns;

use crate::error::{protocol_error_text, ProtocolError};
use crate::dag::{node_ids_distinct, DAGNode};
use crate::merkle::zero_bytes;
use crate::seal::SealPoint;
use crate::proof_bundle::{
    total_len, FinalityProof, InclusionProof, ProofBundle, MAX_FINALITY_DATA, MAX_PROOF_BYTES,
};
use crate::signature::{
    first_false, invalid_signature_text, signature_parts_valid, validity_of, verify_signatures,
    Signature, SignatureScheme,
};
use crate::text::{debug_bytes, decimal, leading_number, parse_u64_spec, split_piece, trim};

verus! {

/// Machine-readable code of a verification failure.
#[derive(Debug, Clone, Copy, PartialEq, Eq, Structural)]
pub enum VerificationErrorCode {
    /// Seal was already consumed.
    SealReplay,
    /// Signature verification failed.
    SignatureInvalid,
    /// Inclusion proof verification failed.
    InclusionProofInvalid,
    /// Finality requirements not met.
    FinalityNotReached,
    /// Domain mismatch between proof and expected chain.
    DomainMismatch,
    /// Proof structure is malformed.
    MalformedProof,
    /// Proof exceeds maximum allowed size.
    ProofTooLarge,
    /// Anchor reference is invalid.
    AnchorInvalid,
    /// Internal verification error.
    InternalError,
}

/// Typed verification error with retryability.
#[derive(Debug, Clone)]
pub struct VerificationError {
    /// Machine-readable code.
    pub code: VerificationErrorCode,
    /// Human-readable description.
    pub message: String,
    /// Whether retrying may succeed.
    pub retryable: bool,
}

impl View for VerificationError {
    type V = (VerificationErrorCode, Seq<char>, bool);

    open spec fn view(&self) -> (VerificationErrorCode, Seq<char>, bool) {
        (self.code, self.message@, self.retryable)
    }
}

/// The message of a seal replay error.
pub open spec fn seal_replay_text(seal_id: Seq<u8>) -> Seq<char> {
    "Seal "@ + debug_bytes(seal_id) + " already consumed \u{2014} replay attempt"@
}

/// The message of a finality error.
pub open spec fn finality_text(confirmations: nat, required: nat) -> Seq<char> {
    decimal(confirmations) + " confirmations, need "@ + decimal(required)
}

/// The message of a size error.
pub open spec fn too_large_text(actual: nat, max: nat) -> Seq<char> {
    "Proof too large: "@ + decimal(actual) + " bytes (max "@ + decimal(max) + ")"@
}

impl VerificationError {
    /// Seal replay (permanent).
    pub fn seal_replay(seal_id: &[u8]) -> (e: VerificationError)
        ensures
            e@ == (VerificationErrorCode::SealReplay, seal_replay_text(seal_id@), false),
    {
        let mut m = String::from_str("Seal ");
        crate::text::push_debug_bytes(&mut m, seal_id);
        m.append(" already consumed \u{2014} replay attempt");
        VerificationError { code: VerificationErrorCode::SealReplay, message: m, retryable: false }
    }

    /// Signature invalid (permanent).
    pub fn signature_invalid() -> (e: VerificationError)
        ensures
            e@ == (VerificationErrorCode::SignatureInvalid, "Signature verification failed"@, false),
    {
        VerificationError {
            code: VerificationErrorCode::SignatureInvalid,
            message: String::from_str("Signature verification failed"),
            retryable: false,
        }
    }

    /// Inclusion proof invalid (permanent).
    pub fn inclusion_proof_invalid(reason: &str) -> (e: VerificationError)
        ensures
            e@ == (
                VerificationErrorCode::InclusionProofInvalid,
                "Inclusion proof invalid: "@ + reason@,
                false,
            ),
    {
        let mut m = String::from_str("Inclusion proof invalid: ");
        m.append(reason);
        VerificationError {
            code: VerificationErrorCode::InclusionProofInvalid,
            message: m,
            retryable: false,
        }
    }

    /// Finality not reached (transient: more confirmations may come).
    pub fn finality_not_reached(confirmations: u64, required: u64) -> (e: VerificationError)
        ensures
            e@ == (
                VerificationErrorCode::FinalityNotReached,
                finality_text(confirmations as nat, required as nat),
                true,
            ),
    {
        let mut m = String::new();
        crate::text::push_decimal(&mut m, confirmations);
        m.append(" confirmations, need ");
        crate::text::push_decimal(&mut m, required);
        proof {
            assert(m@ =~= finality_text(confirmations as nat, required as nat));
        }
        VerificationError {
            code: VerificationErrorCode::FinalityNotReached,
            message: m,
            retryable: true,
        }
    }

    /// Domain mismatch (permanent).
    pub fn domain_mismatch(expected: &str, found: &str) -> (e: VerificationError)
        ensures
            e@ == (
                VerificationErrorCode::DomainMismatch,
                "Domain mismatch: expected "@ + expected@ + ", found "@ + found@,
                false,
            ),
    {
        let mut m = String::from_str("Domain mismatch: expected ");
        m.append(expected);
        m.append(", found ");
        m.append(found);
        VerificationError { code: VerificationErrorCode::DomainMismatch, message: m, retryable: false }
    }

    /// Malformed proof (permanent).
    pub fn malformed_proof(reason: &str) -> (e: VerificationError)
        ensures
            e@ == (VerificationErrorCode::MalformedProof, "Malformed proof: "@ + reason@, false),
    {
        let mut m = String::from_str("Malformed proof: ");
        m.append(reason);
        VerificationError { code: VerificationErrorCode::MalformedProof, message: m, retryable: false }
    }

    /// Proof too large (permanent).
    pub fn proof_too_large(actual: usize, max: usize) -> (e: VerificationError)
        ensures
            e@ == (
                VerificationErrorCode::ProofTooLarge,
                too_large_text(actual as nat, max as nat),
                false,
            ),
    {
        let mut m = String::from_str("Proof too large: ");
        crate::text::push_decimal(&mut m, actual as u64);
        m.append(" bytes (max ");
        crate::text::push_decimal(&mut m, max as u64);
        m.append(")");
        VerificationError { code: VerificationErrorCode::ProofTooLarge, message: m, retryable: false }
    }

    /// Anchor invalid (permanent).
    pub fn anchor_invalid(reason: &str) -> (e: VerificationError)
        ensures
            e@ == (VerificationErrorCode::AnchorInvalid, "Anchor invalid: "@ + reason@, false),
    {
        let mut m = String::from_str("Anchor invalid: ");
        m.append(reason);
        VerificationError { code: VerificationErrorCode::AnchorInvalid, message: m, retryable: false }
    }

    /// Internal error (transient).
    pub fn internal(reason: &str) -> (e: VerificationError)
        ensures
            e@ == (VerificationErrorCode::InternalError, "Internal error: "@ + reason@, true),
    {
        let mut m = String::from_str("Internal error: ");
        m.append(reason);
        VerificationError { code: VerificationErrorCode::InternalError, message: m, retryable: true }
    }
}

/// The assurance level a verification reached.
#[derive(Debug, Clone, Copy, PartialEq, Eq, Structural)]
pub enum VerificationLevel {
    /// Only the structure was checked.
    StructuralOnly,
    /// The inclusion proof was verified, finality not confirmed.
    MerkleVerified,
    /// Every check passed.
    FullyVerified,
}

/// Maximum proof bundle size in bytes (1MB).
pub const MAX_PROOF_BUNDLE_SIZE: usize = 1048576;

/// Minimum confirmations for finality.
pub const MIN_REQUIRED_CONFIRMATIONS: u64 = 6;

/// Result of a proof verification with its assurance level.
#[derive(Debug, Clone)]
pub struct VerificationResult {
    /// Whether the proof passed all checks.
    pub is_valid: bool,
    /// The verification level achieved.
    pub level: VerificationLevel,
    /// Errors encountered (empty if valid).
    pub errors: Vec<VerificationError>,
    /// Non-fatal issues.
    pub warnings: Vec<String>,
}

/// The views of a list of verification errors.
pub open spec fn error_views(errors: Seq<VerificationError>) -> Seq<
    (VerificationErrorCode, Seq<char>, bool),
> {
    errors.map_values(|e: VerificationError| e@)
}

impl VerificationResult {
    /// Whether `self` is a passing result at `level` with no errors or warnings.
    pub open spec fn passes_at(self, level: VerificationLevel) -> bool {
        &&& self.is_valid
        &&& self.level == level
        &&& self.errors@.len() == 0
        &&& self.warnings@.len() == 0
    }

    /// Whether `self` is a failing result carrying exactly the one error `e`.
    pub open spec fn fails_with(self, e: (VerificationErrorCode, Seq<char>, bool)) -> bool {
        &&& !self.is_valid
        &&& self.level == VerificationLevel::StructuralOnly
        &&& error_views(self.errors@) == seq![e]
        &&& self.warnings@.len() == 0
    }

    /// Structural-only result (no cryptographic checks performed).
    pub fn structural() -> (r: VerificationResult)
        ensures
            r.passes_at(VerificationLevel::StructuralOnly),
    {
        VerificationResult {
            is_valid: true,
            level: VerificationLevel::StructuralOnly,
            errors: Vec::new(),
            warnings: Vec::new(),
        }
    }

    /// Merkle-verified result (inclusion verified, finality not confirmed).
    pub fn merkle_verified() -> (r: VerificationResult)
        ensures
            r.passes_at(VerificationLevel::MerkleVerified),
    {
        VerificationResult {
            is_valid: true,
            level: VerificationLevel::MerkleVerified,
            errors: Vec::new(),
            warnings: Vec::new(),
        }
    }

    /// Fully verified result (all checks passed).
    pub fn fully_verified() -> (r: VerificationResult)
        ensures
            r.passes_at(VerificationLevel::FullyVerified),
    {
        VerificationResult {
            is_valid: true,
            level: VerificationLevel::FullyVerified,
            errors: Vec::new(),
            warnings: Vec::new(),
        }
    }

    /// Failed result with the given errors.
    pub fn failed(errors: Vec<VerificationError>) -> (r: VerificationResult)
        ensures
            !r.is_valid,
            r.level == VerificationLevel::StructuralOnly,
            r.errors@ == errors@,
            r.warnings@.len() == 0,
    {
        VerificationResult {
            is_valid: false,
            level: VerificationLevel::StructuralOnly,
            errors,
            warnings: Vec::new(),
        }
    }

    /// Failed result with a single error.
    pub fn from_verification_error(e: VerificationError) -> (r: VerificationResult)
        ensures
            r.fails_with(e@),
    {
        let r = VerificationResult {
            is_valid: false,
            level: VerificationLevel::StructuralOnly,
            errors: vec![e],
            warnings: Vec::new(),
        };
        assert(error_views(r.errors@) =~= seq![e@]);
        r
    }

    /// Failed result from a protocol error, converted to a typed error.
    pub fn from_protocol_error(e: &ProtocolError) -> (r: VerificationResult)
        ensures
            r.fails_with(protocol_error_verdict(*e)),
    {
        let error = match e {
            ProtocolError::SealReplay(_) => {
                let empty: [u8; 0] = [];
                let v = VerificationError::seal_replay(empty.as_slice());
                assert(empty@ =~= Seq::<u8>::empty());
                v
            },
            ProtocolError::SignatureVerificationFailed(_) => VerificationError::signature_invalid(),
            ProtocolError::InclusionProofFailed(_) => VerificationError::inclusion_proof_invalid(
                "verification failed",
            ),
            ProtocolError::FinalityNotReached(msg) => {
                let confirmations = parse_reported_confirmations(msg.as_str());
                let required = parse_reported_requirement(msg.as_str());
                VerificationError::finality_not_reached(confirmations, required)
            },
            _ => {
                let text = e.to_text();
                VerificationError::malformed_proof(text.as_str())
            },
        };
        let r = VerificationResult {
            is_valid: false,
            level: VerificationLevel::StructuralOnly,
            errors: vec![error],
            warnings: Vec::new(),
        };
        assert(error_views(r.errors@) =~= seq![error@]);
        r
    }
}

/// The confirmation count read from a finality message such as
/// `Insufficient confirmations: 3 (minimum required: 6)`: the number that
/// the text after its first `:` starts with; zero when there is none.
pub open spec fn reported_confirmations(m: Seq<char>) -> u64 {
    match split_piece(m, ':', 1) {
        Some(p) => match leading_number(p) {
            Some(v) => v,
            None => 0,
        },
        None => 0,
    }
}

/// The required count read from a finality message: the text after its
/// first `,`, then after the first `:` within it, trimmed and read as a
/// number; the protocol minimum when that fails.
pub open spec fn reported_requirement(m: Seq<char>) -> u64 {
    match split_piece(m, ',', 1) {
        Some(p) => match split_piece(p, ':', 1) {
            Some(q) => match parse_u64_spec(trim(q)) {
                Some(v) => v,
                None => MIN_REQUIRED_CONFIRMATIONS,
            },
            None => MIN_REQUIRED_CONFIRMATIONS,
        },
        None => MIN_REQUIRED_CONFIRMATIONS,
    }
}

fn parse_reported_confirmations(msg: &str) -> (n: u64)
    ensures
        n == reported_confirmations(msg@),
{
    let v = crate::text::chars_of(msg);
    assert(v@.subrange(0, v@.len() as int) =~= msg@);
    match crate::text::split_piece_in(&v, ':', 0, v.len(), 1) {
        Some((a, b)) => match crate::text::leading_number_in(&v, a, b) {
            Some(n) => n,
            None => 0,
        },
        None => 0,
    }
}

fn parse_reported_requirement(msg: &str) -> (n: u64)
    ensures
        n == reported_requirement(msg@),
{
    let v = crate::text::chars_of(msg);
    assert(v@.subrange(0, v@.len() as int) =~= msg@);
    match crate::text::split_piece_in(&v, ',', 0, v.len(), 1) {
        Some((a, b)) => match crate::text::split_piece_in(&v, ':', a, b, 1) {
            Some((c, d)) => {
                let (x, y) = crate::text::trim_in(&v, c, d);
                match crate::text::parse_u64_in(&v, x, y) {
                    Some(n) => n,
                    None => MIN_REQUIRED_CONFIRMATIONS,
                }
            },
            None => MIN_REQUIRED_CONFIRMATIONS,
        },
        None => MIN_REQUIRED_CONFIRMATIONS,
    }
}

/// The typed error that a protocol error becomes.
pub open spec fn protocol_error_verdict(e: ProtocolError) -> (VerificationErrorCode, Seq<char>, bool) {
    match e {
        ProtocolError::SealReplay(_) => (
            VerificationErrorCode::SealReplay,
            seal_replay_text(Seq::empty()),
            false,
        ),
        ProtocolError::SignatureVerificationFailed(_) => (
            VerificationErrorCode::SignatureInvalid,
            "Signature verification failed"@,
            false,
        ),
        ProtocolError::InclusionProofFailed(_) => (
            VerificationErrorCode::InclusionProofInvalid,
            "Inclusion proof invalid: "@ + "verification failed"@,
            false,
        ),
        ProtocolError::FinalityNotReached(m) => (
            VerificationErrorCode::FinalityNotReached,
            finality_text(reported_confirmations(m@) as nat, reported_requirement(m@) as nat),
            true,
        ),
        _ => (VerificationErrorCode::MalformedProof, "Malformed proof: "@ + protocol_error_text(e), false),
    }
}

/// The byte size that a transition node contributes to a bundle: its
/// identifier, bytecode, witness count, signatures and parent identifiers.
pub open spec fn node_size(n: DAGNode) -> nat {
    32 + n.bytecode@.len() + n.witnesses@.len() + total_len(n.signatures@) + 32 * n.parents@.len()
}

/// The sizes of a list of nodes, summed.
pub open spec fn nodes_size(nodes: Seq<DAGNode>) -> nat
    decreases nodes.len(),
{
    if nodes.len() == 0 {
        0
    } else {
        nodes_size(nodes.drop_last()) + node_size(nodes.last())
    }
}

/// The estimated size of a bundle in bytes.
pub open spec fn bundle_size(b: ProofBundle) -> nat {
    32 + nodes_size(b.transition_dag.nodes@) + total_len(b.signatures@) + b.seal_ref.id@.len()
        + b.anchor_ref.anchor_id@.len() + b.anchor_ref.metadata@.len()
        + b.inclusion_proof.proof_bytes@.len() + b.finality_proof.finality_data@.len()
}

proof fn lemma_total_len_prefix(s: Seq<Vec<u8>>, i: int)
    requires
        0 <= i <= s.len(),
    ensures
        total_len(s.subrange(0, i)) <= total_len(s),
    decreases s.len() - i,
{
    if i < s.len() {
        lemma_total_len_prefix(s, i + 1);
        assert(s.subrange(0, i + 1).drop_last() =~= s.subrange(0, i));
    } else {
        assert(s.subrange(0, i) =~= s);
    }
}

proof fn lemma_nodes_size_prefix(s: Seq<DAGNode>, i: int)
    requires
        0 <= i <= s.len(),
    ensures
        nodes_size(s.subrange(0, i)) <= nodes_size(s),
    decreases s.len() - i,
{
    if i < s.len() {
        lemma_nodes_size_prefix(s, i + 1);
        assert(s.subrange(0, i + 1).drop_last() =~= s.subrange(0, i));
    } else {
        assert(s.subrange(0, i) =~= s);
    }
}

fn sum_lengths(v: &Vec<Vec<u8>>) -> (t: usize)
    requires
        total_len(v@) <= usize::MAX,
    ensures
        t == total_len(v@),
{
    let mut t: usize = 0;
    let mut i: usize = 0;
    while i < v.len()
        invariant
            i <= v@.len(),
            total_len(v@) <= usize::MAX,
            t == total_len(v@.subrange(0, i as int)),
        decreases v@.len() - i,
    {
        proof {
            assert(v@.subrange(0, i + 1).drop_last() =~= v@.subrange(0, i as int));
            lemma_total_len_prefix(v@, i + 1);
        }
        t = t + v[i].len();
        i = i + 1;
    }
    assert(v@.subrange(0, i as int) =~= v@);
    t
}

fn node_size_of(n: &DAGNode) -> (t: usize)
    requires
        node_size(*n) <= usize::MAX,
    ensures
        t == node_size(*n),
{
    let sigs = sum_lengths(&n.signatures);
    32 + n.bytecode.len() + n.witnesses.len() + sigs + 32 * n.parents.len()
}

fn nodes_size_of(nodes: &Vec<DAGNode>) -> (t: usize)
    requires
        nodes_size(nodes@) <= usize::MAX,
    ensures
        t == nodes_size(nodes@),
{
    let mut t: usize = 0;
    let mut i: usize = 0;
    while i < nodes.len()
        invariant
            i <= nodes@.len(),
            nodes_size(nodes@) <= usize::MAX,
            t == nodes_size(nodes@.subrange(0, i as int)),
        decreases nodes@.len() - i,
    {
        proof {
            assert(nodes@.subrange(0, i + 1).drop_last() =~= nodes@.subrange(0, i as int));
            lemma_nodes_size_prefix(nodes@, i + 1);
        }
        t = t + node_size_of(&nodes[i]);
        i = i + 1;
    }
    assert(nodes@.subrange(0, i as int) =~= nodes@);
    t
}

/// The message of a bundle that is too large.
pub open spec fn bundle_too_large_text(size: nat) -> Seq<char> {
    "Proof bundle too large: "@ + decimal(size) + " bytes (max "@ + decimal(
        MAX_PROOF_BUNDLE_SIZE as nat,
    ) + ")"@
}

/// Whether `r` is `Err(ProtocolError::Generic(m))` with `m` reading `text`.
pub open spec fn is_generic_error(r: Result<(), ProtocolError>, text: Seq<char>) -> bool {
    r matches Err(ProtocolError::Generic(m)) && m@ == text
}

/// Rejects bundles larger than `MAX_PROOF_BUNDLE_SIZE`.
pub fn validate_proof_bundle_size(bundle: &ProofBundle) -> (r: Result<(), ProtocolError>)
    requires
        bundle_size(*bundle) <= usize::MAX,
    ensures
        bundle_size(*bundle) <= MAX_PROOF_BUNDLE_SIZE ==> r is Ok,
        bundle_size(*bundle) > MAX_PROOF_BUNDLE_SIZE ==> is_generic_error(
            r,
            bundle_too_large_text(bundle_size(*bundle)),
        ),
{
    let dag = nodes_size_of(&bundle.transition_dag.nodes);
    let sigs = sum_lengths(&bundle.signatures);
    let total = 32 + dag + sigs + bundle.seal_ref.id.len() + bundle.anchor_ref.anchor_id.len()
        + bundle.anchor_ref.metadata.len() + bundle.inclusion_proof.proof_bytes.len()
        + bundle.finality_proof.finality_data.len();
    if total > MAX_PROOF_BUNDLE_SIZE {
        let mut m = String::from_str("Proof bundle too large: ");
        crate::text::push_decimal(&mut m, total as u64);
        m.append(" bytes (max ");
        crate::text::push_decimal(&mut m, MAX_PROOF_BUNDLE_SIZE as u64);
        m.append(")");
        return Err(ProtocolError::Generic(m));
    }
    Ok(())
}

/// Rejects an anchor at block height zero.
pub fn validate_proof_timestamp(bundle: &ProofBundle) -> (r: Result<(), ProtocolError>)
    ensures
        bundle.anchor_ref.block_height != 0 ==> r is Ok,
        bundle.anchor_ref.block_height == 0 ==> is_generic_error(
            r,
            "Invalid anchor reference: block height is 0"@,
        ),
{
    if bundle.anchor_ref.block_height == 0 {
        return Err(
            ProtocolError::Generic(
                String::from_str("Invalid anchor reference: block height is 0"),
            ),
        );
    }
    Ok(())
}

/// Rejects an empty seal identifier, and an anchor with neither metadata
/// nor block height.
pub fn validate_domain_separation(bundle: &ProofBundle) -> (r: Result<(), ProtocolError>)
    ensures
        bundle.seal_ref.id@.len() == 0 ==> is_generic_error(
            r,
            "Invalid seal reference: empty seal ID"@,
        ),
        bundle.seal_ref.id@.len() != 0 && bundle.anchor_ref.metadata@.len() == 0
            && bundle.anchor_ref.block_height == 0 ==> is_generic_error(
            r,
            "Invalid anchor reference: empty metadata and block height"@,
        ),
        bundle.seal_ref.id@.len() != 0 && !(bundle.anchor_ref.metadata@.len() == 0
            && bundle.anchor_ref.block_height == 0) ==> r is Ok,
{
    if bundle.seal_ref.id.len() == 0 {
        return Err(ProtocolError::Generic(String::from_str("Invalid seal reference: empty seal ID")));
    }
    if bundle.anchor_ref.metadata.len() == 0 && bundle.anchor_ref.block_height == 0 {
        return Err(
            ProtocolError::Generic(
                String::from_str("Invalid anchor reference: empty metadata and block height"),
            ),
        );
    }
    Ok(())
}

/// The message of an inclusion proof that is too large.
pub open spec fn inclusion_too_large_text(size: nat) -> Seq<char> {
    "Inclusion proof too large: "@ + decimal(size) + " bytes (max "@ + decimal(
        MAX_PROOF_BYTES as nat,
    ) + ")"@
}

/// The outcome of the inclusion proof check, as an error message or none.
pub open spec fn inclusion_check(p: InclusionProof) -> Option<Seq<char>> {
    if p.proof_bytes@.len() == 0 {
        Some("Empty inclusion proof"@)
    } else if p.proof_bytes@.len() > MAX_PROOF_BYTES {
        Some(inclusion_too_large_text(p.proof_bytes@.len()))
    } else if p.block_hash@ == zero_bytes() {
        Some("Invalid inclusion proof: block hash is zero"@)
    } else {
        None
    }
}

/// Rejects an empty or oversized inclusion proof, or one whose block hash is zero.
pub fn validate_inclusion_proof(proof: &InclusionProof) -> (r: Result<(), ProtocolError>)
    ensures
        match inclusion_check(*proof) {
            None => r is Ok,
            Some(t) => r matches Err(ProtocolError::InclusionProofFailed(m)) && m@ == t,
        },
{
    if proof.proof_bytes.len() == 0 {
        return Err(ProtocolError::InclusionProofFailed(String::from_str("Empty inclusion proof")));
    }
    if proof.proof_bytes.len() > MAX_PROOF_BYTES {
        let mut m = String::from_str("Inclusion proof too large: ");
        crate::text::push_decimal(&mut m, proof.proof_bytes.len() as u64);
        m.append(" bytes (max ");
        crate::text::push_decimal(&mut m, MAX_PROOF_BYTES as u64);
        m.append(")");
        return Err(ProtocolError::InclusionProofFailed(m));
    }
    if proof.block_hash == crate::hash::Hash::zero() {
        return Err(
            ProtocolError::InclusionProofFailed(
                String::from_str("Invalid inclusion proof: block hash is zero"),
            ),
        );
    }
    Ok(())
}

/// The message of a finality proof with too few confirmations.
pub open spec fn insufficient_confirmations_text(n: nat) -> Seq<char> {
    "Insufficient confirmations: "@ + decimal(n) + " (minimum required: "@ + decimal(
        MIN_REQUIRED_CONFIRMATIONS as nat,
    ) + ")"@
}

/// The message of finality data that is too large.
pub open spec fn finality_too_large_text(size: nat) -> Seq<char> {
    "Finality proof too large: "@ + decimal(size) + " bytes (max "@ + decimal(
        MAX_FINALITY_DATA as nat,
    ) + ")"@
}

/// The outcome of the finality proof check, as an error message or none.
pub open spec fn finality_check(p: FinalityProof) -> Option<Seq<char>> {
    if p.confirmations < MIN_REQUIRED_CONFIRMATIONS {
        Some(insufficient_confirmations_text(p.confirmations as nat))
    } else if p.finality_data@.len() == 0 {
        Some("Empty finality proof"@)
    } else if p.finality_data@.len() > MAX_FINALITY_DATA {
        Some(finality_too_large_text(p.finality_data@.len()))
    } else {
        None
    }
}

/// Rejects a finality proof below the minimum confirmations, or with empty
/// or oversized data.
pub fn validate_finality_proof(proof: &FinalityProof) -> (r: Result<(), ProtocolError>)
    ensures
        match finality_check(*proof) {
            None => r is Ok,
            Some(t) => r matches Err(ProtocolError::FinalityNotReached(m)) && m@ == t,
        },
{
    if proof.confirmations < MIN_REQUIRED_CONFIRMATIONS {
        let mut m = String::from_str("Insufficient confirmations: ");
        crate::text::push_decimal(&mut m, proof.confirmations);
        m.append(" (minimum required: ");
        crate::text::push_decimal(&mut m, MIN_REQUIRED_CONFIRMATIONS);
        m.append(")");
        return Err(ProtocolError::FinalityNotReached(m));
    }
    if proof.finality_data.len() == 0 {
        return Err(ProtocolError::FinalityNotReached(String::from_str("Empty finality proof")));
    }
    if proof.finality_data.len() > MAX_FINALITY_DATA {
        let mut m = String::from_str("Finality proof too large: ");
        crate::text::push_decimal(&mut m, proof.finality_data.len() as u64);
        m.append(" bytes (max ");
        crate::text::push_decimal(&mut m, MAX_FINALITY_DATA as u64);
        m.append(")");
        return Err(ProtocolError::FinalityNotReached(m));
    }
    Ok(())
}

/// Rejects an anchor at block height zero.
pub fn validate_anchor_reference(bundle: &ProofBundle) -> (r: Result<(), ProtocolError>)
    ensures
        bundle.anchor_ref.block_height != 0 ==> r is Ok,
        bundle.anchor_ref.block_height == 0 ==> is_generic_error(
            r,
            "Invalid anchor: block height is 0"@,
        ),
{
    if bundle.anchor_ref.block_height == 0 {
        return Err(ProtocolError::Generic(String::from_str("Invalid anchor: block height is 0")));
    }
    Ok(())
}

/// The key length that the little-endian header of an encoded signature gives.
pub open spec fn encoded_key_len(e: Seq<u8>) -> nat {
    e[0] as nat + 256 * (e[1] as nat) + 65536 * (e[2] as nat) + 16777216 * (e[3] as nat)
}

/// What is wrong with an encoded signature `[key length: 4 bytes LE] [key] [signature]`:
/// `Some(true)` when it is shorter than its header, `Some(false)` when it is
/// shorter than its key, `None` when it parses.
pub open spec fn encoding_problem(e: Seq<u8>) -> Option<bool> {
    if e.len() < 4 {
        Some(true)
    } else if e.len() < 4 + encoded_key_len(e) {
        Some(false)
    } else {
        None
    }
}

/// The public key of a parsed encoded signature.
pub open spec fn encoded_public_key(e: Seq<u8>) -> Seq<u8> {
    e.subrange(4, (4 + encoded_key_len(e)) as int)
}

/// The signature bytes of a parsed encoded signature.
pub open spec fn encoded_signature(e: Seq<u8>) -> Seq<u8> {
    e.subrange((4 + encoded_key_len(e)) as int, e.len() as int)
}

/// The first encoded signature at or after `from` that does not parse.
pub open spec fn first_malformed(encs: Seq<Vec<u8>>, from: nat) -> Option<nat>
    decreases encs.len() - from,
{
    if from >= encs.len() {
        None
    } else if encoding_problem(encs[from as int]@) is Some {
        Some(from)
    } else {
        first_malformed(encs, from + 1)
    }
}

/// Which encoded signatures verify over `msg` under `scheme`.
pub open spec fn encoded_validity(encs: Seq<Vec<u8>>, msg: Seq<u8>, scheme: SignatureScheme) -> Seq<
    bool,
> {
    encs.map_values(
        |e: Vec<u8>|
            signature_parts_valid(encoded_public_key(e@), encoded_signature(e@), msg, scheme),
    )
}

/// The message of a signature that does not parse.
pub open spec fn malformed_signature_text(i: nat, header: bool) -> Seq<char> {
    if header {
        "Signature "@ + decimal(i) + " too short for header"@
    } else {
        "Signature "@ + decimal(i) + " too short for public key"@
    }
}

/// Why the signatures of a bundle are rejected, if they are: none present,
/// the first that does not parse, or the first that does not verify over
/// the graph's root commitment.
pub open spec fn bundle_signature_error(b: ProofBundle, scheme: SignatureScheme) -> Option<
    Seq<char>,
> {
    if b.signatures@.len() == 0 {
        Some("No signatures in proof bundle"@)
    } else {
        match first_malformed(b.signatures@, 0) {
            Some(i) => Some(malformed_signature_text(i, encoding_problem(b.signatures@[i as int]@)->0)),
            None => match first_false(
                encoded_validity(b.signatures@, b.transition_dag.root_commitment@, scheme),
                0,
            ) {
                Some(i) => Some(invalid_signature_text(i)),
                None => None,
            },
        }
    }
}

/// Whether `s` is the parse of the encoded signature `e` over `msg`.
pub open spec fn parsed_entry_matches(s: Signature, e: Seq<u8>, msg: Seq<u8>) -> bool {
    &&& encoding_problem(e) is None
    &&& s.public_key@ == encoded_public_key(e)
    &&& s.signature@ == encoded_signature(e)
    &&& s.message@ == msg
}

/// Verifies all signatures of a bundle over its graph's root commitment.
pub fn verify_bundle_signatures(bundle: &ProofBundle, scheme: SignatureScheme) -> (r: Result<
    (),
    ProtocolError,
>)
    ensures
        match bundle_signature_error(*bundle, scheme) {
            None => r is Ok,
            Some(t) => r matches Err(ProtocolError::SignatureVerificationFailed(m)) && m@ == t,
        },
{
    if bundle.signatures.len() == 0 {
        return Err(
            ProtocolError::SignatureVerificationFailed(
                String::from_str("No signatures in proof bundle"),
            ),
        );
    }
    let ghost encs = bundle.signatures@;
    let ghost msg = bundle.transition_dag.root_commitment@;
    let mut parsed: Vec<Signature> = Vec::new();
    let mut i: usize = 0;
    while i < bundle.signatures.len()
        invariant
            i <= encs.len(),
            encs == bundle.signatures@,
            msg == bundle.transition_dag.root_commitment@,
            first_malformed(encs, 0) == first_malformed(encs, i as nat),
            parsed@.len() == i,
            forall|k: int| 0 <= k < i ==> parsed_entry_matches(#[trigger] parsed@[k], encs[k]@, msg),
        decreases encs.len() - i,
    {
        let sig_bytes = &bundle.signatures[i];
        if sig_bytes.len() < 4 {
            let mut m = String::from_str("Signature ");
            crate::text::push_decimal(&mut m, i as u64);
            m.append(" too short for header");
            return Err(ProtocolError::SignatureVerificationFailed(m));
        }
        let pk_len: u64 = sig_bytes[0] as u64 + 256 * (sig_bytes[1] as u64) + 65536 * (
        sig_bytes[2] as u64) + 16777216 * (sig_bytes[3] as u64);
        if ((sig_bytes.len() - 4) as u64) < pk_len {
            let mut m = String::from_str("Signature ");
            crate::text::push_decimal(&mut m, i as u64);
            m.append(" too short for public key");
            return Err(ProtocolError::SignatureVerificationFailed(m));
        }
        let end = 4 + pk_len as usize;
        let public_key = crate::bytes::copy_range(sig_bytes.as_slice(), 4, end);
        let signature = crate::bytes::copy_range(sig_bytes.as_slice(), end, sig_bytes.len());
        let message = crate::bytes::to_byte_vec(bundle.transition_dag.root_commitment.0.as_slice());
        let ghost before = parsed@;
        let entry = Signature::new(signature, public_key, message);
        proof {
            assert(sig_bytes@ == encs[i as int]@);
            assert(pk_len == encoded_key_len(sig_bytes@));
            assert(encoding_problem(encs[i as int]@) is None);
            assert(entry.public_key@ == encoded_public_key(encs[i as int]@));
            assert(entry.signature@ == encoded_signature(encs[i as int]@));
            assert(entry.message@ == msg);
        }
        parsed.push(entry);
        proof {
            assert(parsed@ == before.push(entry));
            assert(first_malformed(encs, i as nat) == first_malformed(encs, (i + 1) as nat));
            assert forall|k: int| 0 <= k < i + 1 implies parsed_entry_matches(
                #[trigger] parsed@[k],
                encs[k]@,
                msg,
            ) by {
                if k < i {
                    assert(parsed@[k] == before[k]);
                } else {
                    assert(parsed@[k] == entry);
                }
            }
        }
        i = i + 1;
    }
    assert(validity_of(parsed@, scheme) =~= encoded_validity(encs, msg, scheme));
    verify_signatures(&parsed, scheme)
}

/// The typed error of a check that fails without a more specific kind.
pub open spec fn generic_verdict(text: Seq<char>) -> (VerificationErrorCode, Seq<char>, bool) {
    (VerificationErrorCode::MalformedProof, "Malformed proof: "@ + text, false)
}

/// The message of a graph that is not well formed.
pub open spec fn invalid_dag_text() -> Seq<char> {
    "Invalid DAG structure: "@ + "duplicate transition in DAG segment"@
}

/// Whether every check that precedes the seal registry passes.
pub open spec fn passes_before_registry(b: ProofBundle, scheme: SignatureScheme) -> bool {
    &&& bundle_size(b) <= MAX_PROOF_BUNDLE_SIZE
    &&& node_ids_distinct(b.transition_dag.nodes@)
    &&& b.anchor_ref.block_height != 0
    &&& bundle_signature_error(b, scheme) is None
    &&& b.seal_ref.id@.len() != 0
    &&& !(b.anchor_ref.metadata@.len() == 0 && b.anchor_ref.block_height == 0)
}

/// The first failing check that precedes the seal registry, as a typed error.
pub open spec fn verdict_before_registry(b: ProofBundle, scheme: SignatureScheme) -> (
    VerificationErrorCode,
    Seq<char>,
    bool,
) {
    if bundle_size(b) > MAX_PROOF_BUNDLE_SIZE {
        generic_verdict(bundle_too_large_text(bundle_size(b)))
    } else if !node_ids_distinct(b.transition_dag.nodes@) {
        generic_verdict(invalid_dag_text())
    } else if b.anchor_ref.block_height == 0 {
        generic_verdict("Invalid anchor reference: block height is 0"@)
    } else if bundle_signature_error(b, scheme) is Some {
        (VerificationErrorCode::SignatureInvalid, "Signature verification failed"@, false)
    } else if b.seal_ref.id@.len() == 0 {
        generic_verdict("Invalid seal reference: empty seal ID"@)
    } else {
        generic_verdict("Invalid anchor reference: empty metadata and block height"@)
    }
}

/// The outcome of the checks that follow the seal registry: `None` when
/// all pass, else the first failure as a typed error.
pub open spec fn verdict_after_registry(b: ProofBundle) -> Option<
    (VerificationErrorCode, Seq<char>, bool),
> {
    if inclusion_check(b.inclusion_proof) is Some {
        Some(
            (
                VerificationErrorCode::InclusionProofInvalid,
                "Inclusion proof invalid: "@ + "verification failed"@,
                false,
            ),
        )
    } else if finality_check(b.finality_proof) is Some {
        let t = finality_check(b.finality_proof)->0;
        Some(
            (
                VerificationErrorCode::FinalityNotReached,
                finality_text(reported_confirmations(t) as nat, reported_requirement(t) as nat),
                true,
            ),
        )
    } else if b.anchor_ref.block_height == 0 {
        Some(generic_verdict("Invalid anchor: block height is 0"@))
    } else {
        None
    }
}

/// The outcome of verifying `b` when the seal registry reports `seal_used`.
pub open spec fn verification_verdict(b: ProofBundle, scheme: SignatureScheme, seal_used: bool) -> Option<
    (VerificationErrorCode, Seq<char>, bool),
> {
    if !passes_before_registry(b, scheme) {
        Some(verdict_before_registry(b, scheme))
    } else if seal_used {
        Some((VerificationErrorCode::SealReplay, seal_replay_text(Seq::empty()), false))
    } else {
        verdict_after_registry(b)
    }
}

/// Whether `r` reports the verdict `v`: fully verified for none, else a
/// failure with that one error.
pub open spec fn reports(r: VerificationResult, v: Option<(VerificationErrorCode, Seq<char>, bool)>) -> bool {
    match v {
        None => r.passes_at(VerificationLevel::FullyVerified),
        Some(e) => r.fails_with(e),
    }
}

fn checks_before_registry(bundle: &ProofBundle, scheme: SignatureScheme) -> (r: Result<
    (),
    ProtocolError,
>)
    requires
        bundle_size(*bundle) <= usize::MAX,
    ensures
        r is Ok <==> passes_before_registry(*bundle, scheme),
        r matches Err(e) ==> protocol_error_verdict(e) == verdict_before_registry(*bundle, scheme),
{
    validate_proof_bundle_size(bundle)?;
    match bundle.transition_dag.validate_structure() {
        Ok(()) => {},
        Err(reason) => {
            let mut m = String::from_str("Invalid DAG structure: ");
            m.append(reason);
            return Err(ProtocolError::Generic(m));
        },
    }
    validate_proof_timestamp(bundle)?;
    verify_bundle_signatures(bundle, scheme)?;
    validate_domain_separation(bundle)?;
    Ok(())
}

fn checks_after_registry(bundle: &ProofBundle) -> (r: Result<(), ProtocolError>)
    ensures
        r is Ok <==> verdict_after_registry(*bundle) is None,
        r matches Err(e) ==> Some(protocol_error_verdict(e)) == verdict_after_registry(*bundle),
{
    validate_inclusion_proof(&bundle.inclusion_proof)?;
    validate_finality_proof(&bundle.finality_proof)?;
    validate_anchor_reference(bundle)?;
    Ok(())
}

/// The debug form of a seal reference, such as
/// `SealPoint { id: [1, 2], nonce: Some(3) }`.
pub open spec fn seal_point_debug(s: SealPoint) -> Seq<char> {
    "SealPoint { id: "@ + debug_bytes(s.id@) + ", nonce: "@ + match s.nonce {
        Some(n) => "Some("@ + decimal(n as nat) + ")"@,
        None => "None"@,
    } + " }"@
}

/// The error of a bundle whose seal the registry reports as used: it names
/// the seal reference in its debug form.
fn seal_replay_error(bundle: &ProofBundle) -> (e: ProtocolError)
    ensures
        e matches ProtocolError::SealReplay(m) && m@ == "Seal "@ + seal_point_debug(bundle.seal_ref)
            + " has already been used"@,
{
    let mut m = String::from_str("Seal ");
    m.append("SealPoint { id: ");
    crate::text::push_debug_bytes(&mut m, bundle.seal_ref.id.as_slice());
    m.append(", nonce: ");
    match bundle.seal_ref.nonce {
        Some(n) => {
            m.append("Some(");
            crate::text::push_decimal(&mut m, n);
            m.append(")");
        },
        None => {
            m.append("None");
        },
    }
    m.append(" }");
    m.append(" has already been used");
    assert(m@ =~= "Seal "@ + seal_point_debug(bundle.seal_ref) + " has already been used"@);
    ProtocolError::SealReplay(m)
}

/// Verifies a bundle given what the seal registry reports of its seal.
pub fn verify_proof_with_seal_status(
    bundle: &ProofBundle,
    seal_used: bool,
    signature_scheme: SignatureScheme,
) -> (r: VerificationResult)
    requires
        bundle_size(*bundle) <= usize::MAX,
    ensures
        reports(r, verification_verdict(*bundle, signature_scheme, seal_used)),
{
    if let Err(e) = checks_before_registry(bundle, signature_scheme) {
        return VerificationResult::from_protocol_error(&e);
    }
    if seal_used {
        return VerificationResult::from_protocol_error(&seal_replay_error(bundle));
    }
    if let Err(e) = checks_after_registry(bundle) {
        return VerificationResult::from_protocol_error(&e);
    }
    VerificationResult::fully_verified()
}

/// Verifies a proof bundle: size, graph structure, anchor height,
/// signatures and domain separation first; then the seal registry is asked
/// whether the seal was already used; then inclusion, finality and the
/// anchor reference. The registry is consulted only when the first checks
/// pass, and only once.
pub fn verify_proof(
    bundle: &ProofBundle,
    seal_registry: impl Fn(&[u8]) -> bool,
    signature_scheme: SignatureScheme,
) -> (r: VerificationResult)
    requires
        bundle_size(*bundle) <= usize::MAX,
        forall|s: &[u8]| seal_registry.requires((s,)),
    ensures
        !passes_before_registry(*bundle, signature_scheme) ==> r.fails_with(
            verdict_before_registry(*bundle, signature_scheme),
        ),
        passes_before_registry(*bundle, signature_scheme) ==> exists|s: &[u8], used: bool|
            s@ == bundle.seal_ref.id@ && seal_registry.ensures((s,), used) && reports(
                r,
                verification_verdict(*bundle, signature_scheme, used),
            ),
{
    if let Err(e) = checks_before_registry(bundle, signature_scheme) {
        return VerificationResult::from_protocol_error(&e);
    }
    let seal_id = bundle.seal_ref.id.as_slice();
    let used = seal_registry(seal_id);
    if used {
        return VerificationResult::from_protocol_error(&seal_replay_error(bundle));
    }
    if let Err(e) = checks_after_registry(bundle) {
        return VerificationResult::from_protocol_error(&e);
    }
    VerificationResult::fully_verified()
}

} // verus!
