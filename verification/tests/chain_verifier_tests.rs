use csv_adapter::dag::{DAGNode, DAGSegment};
use csv_adapter::error::ProtocolError;
use csv_adapter::proof_bundle::{FinalityProof, InclusionProof, ProofBundle};
use csv_adapter::seal::{CommitAnchor, SealPoint};
use csv_adapter::solana_verifier::{SolanaAccount, SolanaVerifier};
use csv_adapter::sui_verifier::SuiVerifier;
use csv_adapter::verified::{FinalityStrength, InclusionStrength, VerificationAssurance, VerificationFailure};
use ed25519_dalek::{Signer, SigningKey};
use sha2::{Digest, Sha256};

fn sha(parts: &[&[u8]]) -> [u8; 32] {
    let mut h = Sha256::new();
    for p in parts {
        h.update(p);
    }
    h.finalize().into()
}

/// A Sui proof with the given siblings over `digest`, and the root it leads to.
fn sui_proof(siblings: &[[u8; 32]], digest: [u8; 32], block_number: u64, position: u64) -> (Vec<u8>, [u8; 32]) {
    let mut bytes = (siblings.len() as u32).to_le_bytes().to_vec();
    for s in siblings {
        bytes.extend_from_slice(s);
    }
    bytes.extend_from_slice(&digest);
    let mut cur = sha(&[b"SUI::CHECKPOINT::LEAF", &digest, &block_number.to_le_bytes()]);
    for (i, s) in siblings.iter().enumerate() {
        cur = if (position >> i) & 1 == 0 { sha(&[&cur, s]) } else { sha(&[s, &cur]) };
    }
    (bytes, cur)
}

#[test]
fn sui_inclusion_accepts_valid_path() {
    let v = SuiVerifier::new(());
    let (bytes, root) = sui_proof(&[[7u8; 32], [8u8; 32]], [9u8; 32], 42, 0b10);
    let proof = InclusionProof::new(bytes, csv_adapter::hash::Hash::new([0u8; 32]), 42, 0b10).unwrap();
    let r = v.verify_inclusion(&proof, csv_adapter::hash::Hash::new(root)).unwrap();
    assert!(r.valid);
    assert_eq!(r.assurance, VerificationAssurance::Cryptographic);
    assert_eq!(r.verified_components.inclusion, InclusionStrength::MerklePath);

    // The same proof against another root, or at another position, fails.
    let r = v.verify_inclusion(&proof, csv_adapter::hash::Hash::new([1u8; 32])).unwrap();
    assert!(!r.valid);
    assert_eq!(r.error, Some(VerificationFailure::InvalidMerklePath));
    assert_eq!(r.assurance, VerificationAssurance::PartialCryptographic);
    let moved = InclusionProof::new(proof.proof_bytes.clone(), proof.block_hash, 42, 0b01).unwrap();
    assert!(!v.verify_inclusion(&moved, csv_adapter::hash::Hash::new(root)).unwrap().valid);
}

#[test]
fn sui_inclusion_rejects_malformed_proofs() {
    let v = SuiVerifier::new(());
    let h = csv_adapter::hash::Hash::new([0u8; 32]);
    let empty = InclusionProof::new(vec![], h, 1, 0).unwrap();
    assert_eq!(
        v.verify_inclusion(&empty, h).unwrap().error,
        Some(VerificationFailure::MissingData("Inclusion proof bytes are empty".to_string()))
    );
    let short = InclusionProof::new(vec![1, 0], h, 1, 0).unwrap();
    assert_eq!(
        v.verify_inclusion(&short, h).unwrap().error,
        Some(VerificationFailure::MissingData("Inclusion proof bytes too short".to_string()))
    );
    let truncated = InclusionProof::new(vec![2, 0, 0, 0, 1, 2, 3], h, 1, 0).unwrap();
    let r = v.verify_inclusion(&truncated, h).unwrap();
    assert_eq!(r.error, Some(VerificationFailure::InvalidMerklePath));
    assert_eq!(r.assurance, VerificationAssurance::StructureChecked);
    // One sibling present, but the 32-byte digest after it is cut short.
    let mut no_digest = vec![1, 0, 0, 0];
    no_digest.extend_from_slice(&[7u8; 32]);
    no_digest.extend_from_slice(&[9u8; 10]);
    let no_digest = InclusionProof::new(no_digest, h, 1, 0).unwrap();
    let r = v.verify_inclusion(&no_digest, h).unwrap();
    assert!(!r.valid);
    assert_eq!(r.error, Some(VerificationFailure::InvalidMerklePath));
    assert_eq!(r.assurance, VerificationAssurance::StructureChecked);
}

#[test]
fn sui_finality_and_zk() {
    let v = SuiVerifier::new(());
    let r = v.verify_finality(&FinalityProof::new(vec![1], 0, true).unwrap()).unwrap();
    assert_eq!(r.error, Some(VerificationFailure::FinalityNotReached { required: 1, actual: 0 }));
    let r = v.verify_finality(&FinalityProof::new(vec![], 1, true).unwrap()).unwrap();
    assert_eq!(r.error, Some(VerificationFailure::MissingData("Finality data is empty".to_string())));
    let r = v.verify_finality(&FinalityProof::new(vec![1], 1, true).unwrap()).unwrap();
    assert!(r.valid);
    assert_eq!(r.assurance, VerificationAssurance::ConsensusBound);
    assert_eq!(r.verified_components.finality, FinalityStrength::Deterministic);
    assert!(v.verify_zk(&[]).unwrap().valid);
    let r = v.verify_zk(&[1]).unwrap();
    assert!(!r.valid);
    assert!(matches!(r.error, Some(VerificationFailure::UnsupportedCapability(ref m)) if m.starts_with("ZK proofs are not supported for Sui")));
}

#[test]
fn sui_seal_registry_verdicts() {
    let v = SuiVerifier::new(());
    let r = v.seal_registry_verdict(Ok(Some(Some("Deleted".to_string())))).unwrap();
    assert_eq!(r.error, Some(VerificationFailure::ReplayDetected));
    assert!(r.verified_components.replay_checked);
    assert!(!v.seal_registry_verdict(Ok(Some(Some(String::new())))).unwrap().valid);
    assert!(v.seal_registry_verdict(Ok(Some(Some("0xabc".to_string())))).unwrap().valid);
    assert!(v.seal_registry_verdict(Ok(Some(None))).unwrap().valid);
    assert!(!v.seal_registry_verdict(Ok(None)).unwrap().valid);
    match v.seal_registry_verdict(Err("timeout".to_string())) {
        Err(ProtocolError::NetworkError(m)) => assert_eq!(m, "Failed to query seal registry: timeout"),
        other => panic!("unexpected {:?}", other),
    }
}

fn signed_bundle(valid: bool) -> ProofBundle {
    let root = csv_adapter::hash::Hash::new([9u8; 32]);
    let key = SigningKey::from_bytes(&[3u8; 32]);
    let msg: &[u8] = if valid { &[9u8; 32] } else { &[8u8; 32] };
    let sig = key.sign(msg);
    let mut enc = 32u32.to_le_bytes().to_vec();
    enc.extend_from_slice(&key.verifying_key().to_bytes());
    enc.extend_from_slice(&sig.to_bytes());
    ProofBundle::new(
        DAGSegment::new(vec![DAGNode::new(csv_adapter::hash::Hash::new([1u8; 32]), vec![1], vec![], vec![], vec![])], root),
        vec![enc],
        SealPoint::new(vec![1], None).unwrap(),
        CommitAnchor::new(vec![1], 1, vec![]).unwrap(),
        InclusionProof::new(vec![1], root, 1, 0).unwrap(),
        FinalityProof::new(vec![1], 1, true).unwrap(),
    )
    .unwrap()
}

#[test]
fn owner_signatures_are_checked() {
    let v = SuiVerifier::new(());
    let r = v.verify_signature(&signed_bundle(true)).unwrap();
    assert!(r.valid);
    assert!(r.verified_components.ownership_signature);
    match v.verify_signature(&signed_bundle(false)) {
        Err(ProtocolError::SignatureVerificationFailed(m)) => {
            assert_eq!(m, "Signature verification failed: Signature 0 is invalid")
        }
        other => panic!("unexpected {:?}", other),
    }
    let mut malformed = signed_bundle(true);
    malformed.signatures = vec![vec![1, 2]];
    assert_eq!(v.verify_signature(&malformed).unwrap().error, Some(VerificationFailure::InvalidOwnershipSignature));
    let mut none = signed_bundle(true);
    none.signatures = vec![];
    let s = SolanaVerifier::new(());
    assert_eq!(s.verify_signature(&none).unwrap().error, Some(VerificationFailure::InvalidOwnershipSignature));
}

#[test]
fn solana_checks() {
    let v = SolanaVerifier::new(());
    assert_eq!(v.seal_id_to_pubkey(csv_adapter::hash::Hash::new([4u8; 32])), [4u8; 32]);
    let r = v.verify_inclusion_outcome(true).unwrap();
    assert_eq!(r.verified_components.inclusion, InclusionStrength::AnchoredMerklePath);
    assert_eq!(v.verify_inclusion_outcome(false).unwrap().error, Some(VerificationFailure::InvalidMerklePath));
    let r = v.verify_finality(&FinalityProof::new(vec![1], 31, false).unwrap()).unwrap();
    assert_eq!(r.error, Some(VerificationFailure::FinalityNotReached { required: 32, actual: 31 }));
    let r = v.verify_finality(&FinalityProof::new(vec![1], 40, false).unwrap()).unwrap();
    assert_eq!(r.verified_components.finality, FinalityStrength::Probabilistic { confirmations: 40 });
    assert!(!v.verify_zk(&[0]).unwrap().valid);
}

#[test]
fn solana_seal_registry_verdicts() {
    let v = SolanaVerifier::new(());
    let live = SolanaAccount { lamports: 10, data_len: 8, owner: [5u8; 32] };
    assert!(v.seal_registry_verdict(Ok(live)).unwrap().valid);
    assert!(!v.seal_registry_verdict(Ok(SolanaAccount { lamports: 0, ..live })).unwrap().valid);
    assert!(!v.seal_registry_verdict(Ok(SolanaAccount { data_len: 0, ..live })).unwrap().valid);
    assert!(!v.seal_registry_verdict(Ok(SolanaAccount { owner: [0u8; 32], ..live })).unwrap().valid);
    let r = v.seal_registry_verdict(Err("AccountNotFound: Address Not Found".to_string())).unwrap();
    assert_eq!(r.error, Some(VerificationFailure::ReplayDetected));
    match v.seal_registry_verdict(Err("connection reset".to_string())) {
        Err(ProtocolError::NetworkError(m)) => assert_eq!(m, "Failed to query Solana seal registry: connection reset"),
        other => panic!("unexpected {:?}", other),
    }
}
