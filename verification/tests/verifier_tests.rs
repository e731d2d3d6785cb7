use ed25519_dalek::{Signer, SigningKey};
use secp256k1::{Message, Secp256k1, SecretKey};
use csv_adapter::bundle_verifier::{verify_proof, VerificationErrorCode, VerificationLevel, VerificationResult};
use csv_adapter::error::ProtocolError;
use csv_adapter::dag::{DAGNode, DAGSegment};
use csv_adapter::proof_bundle::{FinalityProof, InclusionProof, ProofBundle};
use csv_adapter::seal::{CommitAnchor, SealPoint};
use csv_adapter::signature::SignatureScheme;

fn hash_of(bytes: [u8; 32]) -> csv_adapter::hash::Hash {
    csv_adapter::hash::Hash::new(bytes)
}

fn make_secp256k1_signature_bytes(message: &[u8; 32]) -> Vec<u8> {
    let secp = Secp256k1::new();
    let secret_key = SecretKey::new(&mut secp256k1::rand::thread_rng());
    let public_key = secp256k1::PublicKey::from_secret_key(&secp, &secret_key);
    let msg = Message::from_digest_slice(message).unwrap();
    let signature = secp.sign_ecdsa(&msg, &secret_key);
    let sig_bytes = signature.serialize_compact();
    let pubkey_bytes = public_key.serialize();
    let mut encoded = Vec::with_capacity(4 + pubkey_bytes.len() + sig_bytes.len());
    encoded.extend_from_slice(&(pubkey_bytes.len() as u32).to_le_bytes());
    encoded.extend_from_slice(&pubkey_bytes);
    encoded.extend_from_slice(&sig_bytes);
    encoded
}

fn make_ed25519_signature_bytes(message: &[u8]) -> Vec<u8> {
    let signing_key = SigningKey::generate(&mut rand::rngs::OsRng);
    let verifying_key = signing_key.verifying_key();
    let signature = signing_key.sign(message);
    let mut encoded = Vec::with_capacity(4 + 32 + 64);
    encoded.extend_from_slice(&32u32.to_le_bytes());
    encoded.extend_from_slice(&verifying_key.to_bytes());
    encoded.extend_from_slice(&signature.to_bytes());
    encoded
}

fn test_bundle_with_signatures() -> ProofBundle {
    let message = [0u8; 32];
    let signature = make_secp256k1_signature_bytes(&message);
    let seal_id = vec![1u8, 2, 3];
    ProofBundle::new(
        DAGSegment::new(
            vec![DAGNode::new(hash_of([1u8; 32]), vec![0x01, 0x02], vec![signature.clone()], vec![], vec![])],
            csv_adapter::hash::Hash::zero(),
        ),
        vec![signature],
        SealPoint::new(seal_id.clone(), Some(42)).unwrap(),
        CommitAnchor::new(seal_id, 100, vec![]).unwrap(),
        InclusionProof::new(vec![0xCD; 32], hash_of([2u8; 32]), 0, 0).unwrap(),
        FinalityProof::new(vec![0xAB; 16], 6, false).unwrap(),
    )
    .unwrap()
}

#[test]
fn test_verify_proof_valid() {
    let bundle = test_bundle_with_signatures();
    let seal_registry = |_seal_id: &[u8]| false;
    let result = verify_proof(&bundle, seal_registry, SignatureScheme::Secp256k1);
    assert!(result.is_valid);
    assert!(matches!(result.level, VerificationLevel::FullyVerified));
}

#[test]
fn test_verify_proof_accepts_distinct_seal_and_anchor_ids() {
    let mut bundle = test_bundle_with_signatures();
    bundle.anchor_ref = CommitAnchor::new(vec![9u8; 32], 100, vec![0xAA, 0xBB]).unwrap();
    let seal_registry = |_seal_id: &[u8]| false;
    let result = verify_proof(&bundle, seal_registry, SignatureScheme::Secp256k1);
    assert!(result.is_valid);
    assert!(matches!(result.level, VerificationLevel::FullyVerified));
}

#[test]
fn test_verify_proof_seal_replay() {
    let bundle = test_bundle_with_signatures();
    let seal_registry = |seal_id: &[u8]| seal_id == [1, 2, 3];
    let result = verify_proof(&bundle, seal_registry, SignatureScheme::Secp256k1);
    assert!(!result.is_valid);
    assert!(!result.errors.is_empty());
}

#[test]
fn test_verify_proof_no_signatures() {
    let mut bundle = test_bundle_with_signatures();
    bundle.signatures.clear();
    let seal_registry = |_seal_id: &[u8]| false;
    let result = verify_proof(&bundle, seal_registry, SignatureScheme::Secp256k1);
    assert!(!result.is_valid);
    assert!(!result.errors.is_empty());
}

#[test]
fn test_verify_proof_no_confirmations() {
    let mut bundle = test_bundle_with_signatures();
    bundle.finality_proof.confirmations = 0;
    let seal_registry = |_seal_id: &[u8]| false;
    let result = verify_proof(&bundle, seal_registry, SignatureScheme::Secp256k1);
    assert!(!result.is_valid);
    assert!(!result.errors.is_empty());
}

#[test]
fn test_verify_proof_invalid_signature_format() {
    let mut bundle = test_bundle_with_signatures();
    bundle.signatures[0] = vec![0x00, 0x00];
    let seal_registry = |_seal_id: &[u8]| false;
    let result = verify_proof(&bundle, seal_registry, SignatureScheme::Secp256k1);
    assert!(!result.is_valid);
    assert!(!result.errors.is_empty());
}

#[test]
fn test_verify_proof_ed25519_valid_format() {
    let message = [0u8; 32];
    let signature = make_ed25519_signature_bytes(&message);
    let mut bundle = test_bundle_with_signatures();
    bundle.signatures = vec![signature];
    let seal_registry = |_seal_id: &[u8]| false;
    let result = verify_proof(&bundle, seal_registry, SignatureScheme::Ed25519);
    assert!(result.is_valid);
    assert!(matches!(result.level, VerificationLevel::FullyVerified));
}

#[test]
fn test_seal_double_spend_regression() {
    let seal_id = vec![1u8, 2, 3];
    let bundle1 = test_bundle_with_signatures();
    let mut consumed_seals = std::collections::HashSet::new();
    let result1 = verify_proof(&bundle1, |s: &[u8]| consumed_seals.contains(s), SignatureScheme::Secp256k1);
    assert!(result1.is_valid);
    consumed_seals.insert(seal_id.clone());
    let bundle2 = test_bundle_with_signatures();
    let result2 = verify_proof(&bundle2, |s: &[u8]| consumed_seals.contains(s), SignatureScheme::Secp256k1);
    assert!(!result2.is_valid, "Double-spend attempt should be rejected");
    let error_msg: String = result2
        .errors
        .iter()
        .map(|e| format!("{:?}", e))
        .collect::<Vec<_>>()
        .join(", ");
    assert!(
        error_msg.contains("seal") || error_msg.contains("replay") || error_msg.contains("consumed"),
        "Error should indicate seal replay/consumption: {}",
        error_msg
    );
}

#[test]
fn wrong_scheme_rejects_signature() {
    let bundle = test_bundle_with_signatures();
    let result = verify_proof(&bundle, |_s: &[u8]| false, SignatureScheme::Ed25519);
    assert!(!result.is_valid);
    assert_eq!(result.errors[0].code, VerificationErrorCode::SignatureInvalid);
    assert_eq!(result.errors[0].message, "Signature verification failed");
}

#[test]
fn tampered_signature_is_rejected() {
    let mut bundle = test_bundle_with_signatures();
    let last = bundle.signatures[0].len() - 1;
    bundle.signatures[0][last] ^= 0x01;
    let result = verify_proof(&bundle, |_s: &[u8]| false, SignatureScheme::Secp256k1);
    assert!(!result.is_valid);
    assert_eq!(result.errors[0].code, VerificationErrorCode::SignatureInvalid);
}

#[test]
fn finality_error_reports_parsed_counts() {
    let mut bundle = test_bundle_with_signatures();
    bundle.finality_proof.confirmations = 2;
    let result = verify_proof(&bundle, |_s: &[u8]| false, SignatureScheme::Secp256k1);
    assert!(!result.is_valid);
    assert_eq!(result.errors[0].code, VerificationErrorCode::FinalityNotReached);
    assert!(result.errors[0].retryable);
    // Both counts are read from "Insufficient confirmations: 2 (minimum required: 6)".
    assert_eq!(result.errors[0].message, "2 confirmations, need 6");
}

#[test]
fn empty_inclusion_proof_is_rejected() {
    let mut bundle = test_bundle_with_signatures();
    bundle.inclusion_proof.proof_bytes.clear();
    let result = verify_proof(&bundle, |_s: &[u8]| false, SignatureScheme::Secp256k1);
    assert_eq!(result.errors[0].code, VerificationErrorCode::InclusionProofInvalid);
    assert_eq!(result.errors[0].message, "Inclusion proof invalid: verification failed");
}

#[test]
fn zero_anchor_height_is_malformed() {
    let mut bundle = test_bundle_with_signatures();
    bundle.anchor_ref.block_height = 0;
    let result = verify_proof(&bundle, |_s: &[u8]| false, SignatureScheme::Secp256k1);
    assert_eq!(result.errors[0].code, VerificationErrorCode::MalformedProof);
    assert_eq!(
        result.errors[0].message,
        "Malformed proof: Invalid anchor reference: block height is 0"
    );
}

#[test]
fn duplicate_dag_nodes_are_malformed() {
    let mut bundle = test_bundle_with_signatures();
    let node = bundle.transition_dag.nodes[0].clone();
    bundle.transition_dag.nodes.push(node);
    let result = verify_proof(&bundle, |_s: &[u8]| false, SignatureScheme::Secp256k1);
    assert_eq!(
        result.errors[0].message,
        "Malformed proof: Invalid DAG structure: duplicate transition in DAG segment"
    );
}

#[test]
fn registry_is_not_consulted_when_early_checks_fail() {
    let mut bundle = test_bundle_with_signatures();
    bundle.signatures.clear();
    let asked = std::cell::Cell::new(false);
    let result = verify_proof(
        &bundle,
        |_s: &[u8]| {
            asked.set(true);
            false
        },
        SignatureScheme::Secp256k1,
    );
    assert!(!result.is_valid);
    assert!(!asked.get());
}

#[test]
fn seal_replay_error_text() {
    let bundle = test_bundle_with_signatures();
    let result = verify_proof(&bundle, |_s: &[u8]| true, SignatureScheme::Secp256k1);
    assert_eq!(result.errors[0].code, VerificationErrorCode::SealReplay);
    assert_eq!(result.errors[0].message, "Seal [] already consumed \u{2014} replay attempt");
}

#[test]
fn finality_error_reports_parsed_confirmations() {
    let e = ProtocolError::FinalityNotReached("Insufficient confirmations: 3 (minimum required: 6)".to_string());
    let res = VerificationResult::from_protocol_error(&e);
    assert!(!res.is_valid);
    assert_eq!(res.errors.len(), 1);
    assert_eq!(res.errors[0].code, VerificationErrorCode::FinalityNotReached);
    assert_eq!(res.errors[0].message, "3 confirmations, need 6");
    assert!(res.errors[0].retryable);

    let e = ProtocolError::FinalityNotReached("confirmations: 2, required: 12".to_string());
    assert_eq!(VerificationResult::from_protocol_error(&e).errors[0].message, "2 confirmations, need 12");

    let e = ProtocolError::FinalityNotReached("a: 5, b, c: 7".to_string());
    assert_eq!(VerificationResult::from_protocol_error(&e).errors[0].message, "5 confirmations, need 6");

    let e = ProtocolError::FinalityNotReached("not final".to_string());
    assert_eq!(VerificationResult::from_protocol_error(&e).errors[0].message, "0 confirmations, need 6");
}
