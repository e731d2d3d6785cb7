use sha2::Digest;
use csv_adapter::certification::{
    ChainMetadata, ProofCertification, RuntimePolicyConfig, VerificationInputs,
    VerificationOutputs, VerificationStrength,
};
use csv_adapter::dag::DAGSegment;
use csv_adapter::proof_bundle::{
    FinalityProof, InclusionProof, ProofBundle, ReplayId, MAX_FINALITY_DATA, MAX_PROOF_BYTES,
    MAX_SIGNATURES_TOTAL_SIZE,
};
use csv_adapter::provenance::{ProofProvenance, VerificationStep, VerificationStepType};
use csv_adapter::seal::{CommitAnchor, SealPoint};

fn zero() -> csv_adapter::hash::Hash {
    csv_adapter::hash::Hash::zero()
}

fn sample_bundle(signatures: Vec<Vec<u8>>) -> Result<ProofBundle, &'static str> {
    ProofBundle::new(
        DAGSegment::new(vec![], zero()),
        signatures,
        SealPoint::new(vec![1, 2, 3], Some(42)).unwrap(),
        CommitAnchor::new(vec![4, 5, 6], 100, vec![]).unwrap(),
        InclusionProof::new(vec![], zero(), 0, 0).unwrap(),
        FinalityProof::new(vec![], 6, false).unwrap(),
    )
}

#[test]
fn test_replay_id_determinism() {
    let id1 = ReplayId::derive("bitcoin", &[1u8; 32], 0, &[2u8; 32], &[3u8; 32], "ethereum");
    let id2 = ReplayId::derive("bitcoin", &[1u8; 32], 0, &[2u8; 32], &[3u8; 32], "ethereum");
    assert_eq!(id1, id2);
}

#[test]
fn test_replay_id_uniqueness() {
    let id1 = ReplayId::derive("bitcoin", &[1u8; 32], 0, &[2u8; 32], &[3u8; 32], "ethereum");
    let id2 = ReplayId::derive("bitcoin", &[1u8; 32], 0, &[2u8; 32], &[3u8; 32], "solana");
    assert_ne!(id1, id2);
}

#[test]
fn test_replay_id_different_txid() {
    let id1 = ReplayId::derive("bitcoin", &[1u8; 32], 0, &[2u8; 32], &[3u8; 32], "ethereum");
    let id2 = ReplayId::derive("bitcoin", &[9u8; 32], 0, &[2u8; 32], &[3u8; 32], "ethereum");
    assert_ne!(id1, id2);
}

#[test]
fn test_inclusion_proof_creation() {
    let proof = InclusionProof::new(vec![1, 2, 3], zero(), 0, 0).unwrap();
    assert_eq!(proof.proof_bytes, vec![1, 2, 3]);
}

#[test]
fn test_proof_bundle_without_provenance() {
    let proof = FinalityProof::new(vec![0xCD; 32], 6, false).unwrap();
    assert_eq!(proof.confirmations, 6);
    assert!(!proof.is_deterministic);
}

#[test]
fn test_inclusion_proof_too_large() {
    let large_proof = vec![0u8; MAX_PROOF_BYTES + 1];
    let result = InclusionProof::new(large_proof, zero(), 0, 0);
    assert!(result.is_err());
}

#[test]
fn test_finality_proof_too_large() {
    let large_data = vec![0u8; MAX_FINALITY_DATA + 1];
    let result = FinalityProof::new(large_data, 6, false);
    assert!(result.is_err());
}

#[test]
fn test_proof_bundle_signatures_too_large() {
    let large_sigs = vec![vec![0u8; MAX_SIGNATURES_TOTAL_SIZE / 2 + 1]; 2];
    let result = sample_bundle(large_sigs);
    assert!(result.is_err());
}

#[test]
fn test_proof_bundle_provenance() {
    let mut bundle = sample_bundle(vec![]).unwrap();

    assert!(bundle.provenance().is_none());
    assert!(!bundle.has_complete_provenance());

    let mut provenance =
        ProofProvenance::new("bitcoin".to_string(), 1000, "runtime-1".to_string(), vec![1u8; 32]);

    provenance.add_verification_step(VerificationStep::new(
        VerificationStepType::ProofCreation,
        "adapter".to_string(),
        true,
    ));

    bundle.set_provenance(provenance);
    assert!(bundle.provenance().is_some());
    assert!(!bundle.has_complete_provenance());
}

#[test]
fn test_proof_bundle_certification() {
    let mut bundle = sample_bundle(vec![]).unwrap();

    assert!(bundle.certification().is_none());
    assert!(!bundle.has_certification());

    let inputs = VerificationInputs::new(
        vec![1u8; 32],
        vec![2u8; 32],
        vec![3u8; 32],
        ChainMetadata::new("bitcoin".to_string(), 1000, vec![4u8; 32]),
        RuntimePolicyConfig::new(6, false, 3, true),
    );
    let outputs =
        VerificationOutputs::new(true, "verified".to_string(), VerificationStrength::maximum());
    let certification = ProofCertification::new("runtime-1".to_string(), inputs, outputs);

    bundle.set_certification(certification);
    assert!(bundle.certification().is_some());
    assert!(bundle.has_certification());
}

#[test]
fn provenance_complete_after_every_successful_step() {
    let mut bundle = sample_bundle(vec![]).unwrap();
    let mut provenance =
        ProofProvenance::new("bitcoin".to_string(), 1000, "runtime-1".to_string(), vec![1u8; 32]);
    for step in [
        VerificationStepType::ProofCreation,
        VerificationStepType::SignatureVerification,
        VerificationStepType::InclusionVerification,
        VerificationStepType::FinalityVerification,
        VerificationStepType::ReplayCheck,
    ] {
        provenance.add_verification_step(VerificationStep::new(step, "runtime".to_string(), true));
    }
    bundle.set_provenance(provenance.clone());
    assert!(bundle.has_complete_provenance());

    provenance.steps[4].success = false;
    bundle.set_provenance(provenance);
    assert!(!bundle.has_complete_provenance());
}

#[test]
fn signatures_at_the_size_limit_are_accepted() {
    let sigs = vec![vec![0u8; MAX_SIGNATURES_TOTAL_SIZE / 2]; 2];
    assert!(sample_bundle(sigs).is_ok());
}

#[test]
fn zero_confirmations_need_deterministic_finality() {
    assert!(FinalityProof::new(vec![], 0, false).is_err());
    assert!(FinalityProof::new(vec![], 0, true).is_ok());
}

#[test]
fn inclusion_proof_is_never_confirmed_generically() {
    let proof = InclusionProof::new(vec![1], zero(), 1, 0).unwrap();
    assert!(!proof.is_confirmed(0));
    assert!(!proof.is_confirmed(6));
}

fn cbor_of_str(s: &str) -> Vec<u8> {
    let mut out = Vec::new();
    ciborium::into_writer(&s, &mut out).unwrap();
    out
}

fn cbor_of_seq(b: &[u8]) -> Vec<u8> {
    let mut out = Vec::new();
    ciborium::into_writer(&b.to_vec(), &mut out).unwrap();
    out
}

fn cbor_of_u32(n: u32) -> Vec<u8> {
    let mut out = Vec::new();
    ciborium::into_writer(&n, &mut out).unwrap();
    out
}

#[test]
fn replay_id_matches_canonical_cbor_encoding() {
    let mut cbor = vec![0xA6u8];
    cbor.extend(cbor_of_str("source_chain"));
    cbor.extend(cbor_of_str("bitcoin"));
    cbor.extend(cbor_of_str("source_txid"));
    cbor.extend(cbor_of_seq(&[1u8; 32]));
    cbor.extend(cbor_of_str("source_output_index"));
    cbor.extend(cbor_of_u32(300));
    cbor.extend(cbor_of_str("seal_id"));
    cbor.extend(cbor_of_seq(&[200u8; 3]));
    cbor.extend(cbor_of_str("transition_id"));
    cbor.extend(cbor_of_seq(&[3u8; 32]));
    cbor.extend(cbor_of_str("destination_chain"));
    cbor.extend(cbor_of_str("ethereum"));

    let expected = csv_adapter::hash::tagged_hash("csv.replay-id.v1", &cbor);
    let id = ReplayId::derive("bitcoin", &[1u8; 32], 300, &[200u8; 3], &[3u8; 32], "ethereum");
    assert_eq!(id.as_bytes(), &expected);
}

#[test]
fn tagged_hash_matches_bip340_construction() {
    let tag_hash = sha2::Sha256::digest(b"csv.replay-id.v1");
    let mut h = sha2::Sha256::new();
    h.update(tag_hash);
    h.update(tag_hash);
    h.update(b"message");
    let expected: [u8; 32] = h.finalize().into();
    assert_eq!(csv_adapter::hash::tagged_hash("csv.replay-id.v1", b"message"), expected);
}
