use csv_adapter::dag::{DAGNode, DAGSegment};
use csv_adapter::proof_bundle::{FinalityProof, InclusionProof, ProofBundle};
use csv_adapter::proof_pipeline::{
    merge_verification_results, proof_bundle_hash, validation_event, PipelineAction, PipelineStage,
    ProofValidation, ValidationEvent, ValidationStep,
};
use csv_adapter::seal::{CommitAnchor, SealPoint};
use csv_adapter::verified::{
    is_stronger_finality, is_stronger_inclusion, ChainCapabilities, FinalityStrength,
    InclusionStrength, ThresholdShortfall, VerificationAssurance, VerificationFailure,
    VerificationResult,
    VerifiedComponents,
};

fn ok_result() -> VerificationResult {
    VerificationResult {
        valid: true,
        assurance: VerificationAssurance::Cryptographic,
        verified_components: VerifiedComponents {
            inclusion: InclusionStrength::MerklePath,
            finality: FinalityStrength::Probabilistic { confirmations: 6 },
            replay_checked: true,
            ownership_signature: true,
        },
        error: None,
    }
}

fn hash_of(bytes: [u8; 32]) -> csv_adapter::hash::Hash {
    csv_adapter::hash::Hash::new(bytes)
}

fn good_bundle() -> ProofBundle {
    let node = DAGNode::new(hash_of([1u8; 32]), vec![1u8; 32], vec![vec![1, 2, 3]], vec![vec![]], vec![]);
    let proof_bytes = vec![1, 2, 3];
    let correct_block_hash = proof_bundle_hash(&proof_bytes);
    ProofBundle::new(
        DAGSegment::new(vec![node], hash_of([9u8; 32])),
        vec![vec![1, 2, 3]],
        SealPoint::new(vec![0xAA], Some(1)).unwrap(),
        CommitAnchor::new(vec![0xBB; 32], 1, vec![0xCC]).unwrap(),
        InclusionProof::new(proof_bytes, correct_block_hash, 1, 0).unwrap(),
        FinalityProof::new(vec![4, 5, 6], 6, true).unwrap(),
    )
    .unwrap()
}

/// Drives a run to its end, answering every check with the given replies.
fn run(
    bundle: &ProofBundle,
    source: &str,
    destination: &str,
    caps: ChainCapabilities,
    verifier: &dyn Fn(&PipelineAction) -> Result<VerificationResult, String>,
    replay: Result<(), String>,
) -> csv_adapter::proof_pipeline::ValidationResult {
    let mut v = ProofValidation::start(bundle, source, destination, caps);
    loop {
        let action = v.next_action(bundle);
        match action {
            PipelineAction::Finished => break,
            PipelineAction::ConsumeReplay { .. } => v.record_replay_reply(replay.clone()),
            other => v.record_verifier_reply(verifier(&other)),
        }
    }
    v.finish()
}

#[test]
fn test_validation_step_creation() {
    let step = ValidationStep { name: "test_step", passed: true, error: None };
    assert!(step.passed);
    assert_eq!(step.name, "test_step");
}

#[test]
fn test_validate_proof_bundle_success() {
    let bundle = good_bundle();
    let result = run(
        &bundle,
        "bitcoin",
        "ethereum",
        ChainCapabilities::bitcoin(),
        &|_| Ok(ok_result()),
        Ok(()),
    );
    assert!(result.accepted);
    assert_eq!(result.steps.len(), 10);
    assert!(result.error.is_none());
    let names: Vec<&str> = result.steps.iter().map(|s| s.name).collect();
    assert_eq!(
        names,
        vec![
            "structural_validation",
            "domain_validation",
            "inclusion_proof_validation",
            "zk_proof_validation",
            "finality_validation",
            "replay_validation",
            "seal_registry_validation",
            "transition_legality_validation",
            "signature_validation",
            "acceptance_decision",
        ]
    );
}

#[test]
fn pipeline_asks_in_canonical_order() {
    let bundle = good_bundle();
    let mut v = ProofValidation::start(&bundle, "bitcoin", "ethereum", ChainCapabilities::bitcoin());
    let root = bundle.inclusion_proof.block_hash;
    assert_eq!(v.next_action(&bundle), PipelineAction::VerifyInclusion { expected_root: root });
    v.record_verifier_reply(Ok(ok_result()));
    assert_eq!(v.next_action(&bundle), PipelineAction::VerifyZk);
    v.record_verifier_reply(Ok(ok_result()));
    assert_eq!(v.next_action(&bundle), PipelineAction::VerifyFinality);
    v.record_verifier_reply(Ok(ok_result()));
    assert_eq!(v.next_action(&bundle), PipelineAction::ConsumeReplay { block_hash: root });
    v.record_replay_reply(Ok(()));
    assert_eq!(v.next_action(&bundle), PipelineAction::VerifySealRegistry { seal_id: root });
    v.record_verifier_reply(Ok(ok_result()));
    assert_eq!(v.steps.len(), 8);
    assert_eq!(v.next_action(&bundle), PipelineAction::VerifySignature);
    v.record_verifier_reply(Ok(ok_result()));
    assert_eq!(v.stage, PipelineStage::Finished);
    assert!(v.finish().accepted);
}

#[test]
fn pipeline_rejects_empty_inclusion_proof() {
    let mut bundle = good_bundle();
    bundle.inclusion_proof.proof_bytes = vec![];
    let result = run(&bundle, "bitcoin", "ethereum", ChainCapabilities::bitcoin(), &|_| Ok(ok_result()), Ok(()));
    assert!(!result.accepted);
    assert_eq!(result.steps.len(), 1);
    assert_eq!(result.error.as_deref(), Some("Inclusion proof bytes are empty"));
}

#[test]
fn pipeline_rejects_same_chain_transfer() {
    let bundle = good_bundle();
    let result = run(&bundle, "bitcoin", "bitcoin", ChainCapabilities::bitcoin(), &|_| Ok(ok_result()), Ok(()));
    assert!(!result.accepted);
    assert_eq!(result.steps.len(), 2);
    assert_eq!(
        result.error.as_deref(),
        Some("Source and destination chains must be different for cross-chain transfer")
    );
}

#[test]
fn pipeline_rejects_domain_mismatch() {
    let mut bundle = good_bundle();
    bundle.inclusion_proof.block_hash = hash_of([7u8; 32]);
    let result = run(&bundle, "bitcoin", "ethereum", ChainCapabilities::bitcoin(), &|_| Ok(ok_result()), Ok(()));
    assert_eq!(result.steps.len(), 2);
    assert_eq!(result.error.as_deref(), Some("Proof hash does not match block hash - domain mismatch"));
}

#[test]
fn pipeline_reports_verifier_failure_and_stops() {
    let bundle = good_bundle();
    let verifier = |a: &PipelineAction| match a {
        PipelineAction::VerifyFinality => {
            let mut r = ok_result();
            r.valid = false;
            r.error = Some(VerificationFailure::FinalityNotReached { required: 6, actual: 2 });
            Ok(r)
        }
        _ => Ok(ok_result()),
    };
    let result = run(&bundle, "bitcoin", "ethereum", ChainCapabilities::bitcoin(), &verifier, Ok(()));
    assert!(!result.accepted);
    assert_eq!(result.steps.len(), 5);
    assert_eq!(result.error.as_deref(), Some("Finality proof verification failed: Finality not reached: required 6, actual 2"));
}

#[test]
fn pipeline_reports_verifier_error_and_unknown_failure() {
    let bundle = good_bundle();
    let result = run(
        &bundle,
        "bitcoin",
        "ethereum",
        ChainCapabilities::bitcoin(),
        &|_| Err("rpc down".to_string()),
        Ok(()),
    );
    assert_eq!(result.steps.len(), 3);
    assert_eq!(result.error.as_deref(), Some("Inclusion proof verification error: rpc down"));

    let invalid = |_: &PipelineAction| {
        let mut r = ok_result();
        r.valid = false;
        Ok(r)
    };
    let result = run(&bundle, "bitcoin", "ethereum", ChainCapabilities::bitcoin(), &invalid, Ok(()));
    assert_eq!(result.error.as_deref(), Some("Inclusion proof verification failed: unknown failure"));
}

#[test]
fn pipeline_rejects_replay() {
    let bundle = good_bundle();
    let result = run(
        &bundle,
        "bitcoin",
        "ethereum",
        ChainCapabilities::bitcoin(),
        &|_| Ok(ok_result()),
        Err("already consumed".to_string()),
    );
    assert_eq!(result.steps.len(), 6);
    assert_eq!(result.error.as_deref(), Some("Replay protection failed: already consumed"));
}

#[test]
fn pipeline_rejects_illegal_transition() {
    let mut bundle = good_bundle();
    bundle.transition_dag.nodes = vec![];
    let result = run(&bundle, "bitcoin", "ethereum", ChainCapabilities::bitcoin(), &|_| Ok(ok_result()), Ok(()));
    assert_eq!(result.steps.len(), 8);
    assert_eq!(result.error.as_deref(), Some("Transition DAG has no nodes - invalid transition"));
}

#[test]
fn pipeline_rejects_below_chain_thresholds() {
    let bundle = good_bundle();
    let weak = |_: &PipelineAction| {
        let mut r = ok_result();
        r.verified_components.finality = FinalityStrength::Probabilistic { confirmations: 3 };
        Ok(r)
    };
    let result = run(&bundle, "bitcoin", "ethereum", ChainCapabilities::bitcoin(), &weak, Ok(()));
    assert_eq!(result.steps.len(), 10);
    assert!(!result.accepted);
    assert_eq!(result.error.as_deref(), Some("Chain thresholds not met: finality below chain minimum"));
}

#[test]
fn merge_returns_first_invalid_result() {
    let mut bad1 = ok_result();
    bad1.valid = false;
    bad1.error = Some(VerificationFailure::MissingData("first".to_string()));
    let mut bad2 = ok_result();
    bad2.valid = false;
    bad2.error = Some(VerificationFailure::ReplayDetected);
    let merged = merge_verification_results(&vec![ok_result(), bad1, bad2]);
    assert!(!merged.valid);
    assert_eq!(merged.error, Some(VerificationFailure::MissingData("first".to_string())));
}

#[test]
fn merge_takes_strongest_components() {
    let mut a = ok_result();
    a.assurance = VerificationAssurance::PartialCryptographic;
    a.verified_components = VerifiedComponents {
        inclusion: InclusionStrength::Checksum,
        finality: FinalityStrength::Probabilistic { confirmations: 10 },
        replay_checked: false,
        ownership_signature: true,
    };
    let mut b = ok_result();
    b.assurance = VerificationAssurance::ConsensusBound;
    b.verified_components = VerifiedComponents {
        inclusion: InclusionStrength::AnchoredMerklePath,
        finality: FinalityStrength::Probabilistic { confirmations: 4 },
        replay_checked: true,
        ownership_signature: false,
    };
    b.error = Some(VerificationFailure::InvalidMerklePath);
    let merged = merge_verification_results(&vec![a, b]);
    assert!(merged.valid);
    assert_eq!(merged.assurance, VerificationAssurance::ConsensusBound);
    assert_eq!(merged.verified_components.inclusion, InclusionStrength::AnchoredMerklePath);
    assert_eq!(merged.verified_components.finality, FinalityStrength::Probabilistic { confirmations: 10 });
    assert!(merged.verified_components.replay_checked);
    assert!(merged.verified_components.ownership_signature);
    assert_eq!(merged.error, Some(VerificationFailure::InvalidMerklePath));

    let empty = merge_verification_results(&vec![]);
    assert!(empty.valid);
    assert_eq!(empty.assurance, VerificationAssurance::StructureChecked);
    assert_eq!(empty.verified_components.inclusion, InclusionStrength::Absent);
}

#[test]
fn strength_orders() {
    assert!(is_stronger_inclusion(&InclusionStrength::AnchoredMerklePath, &InclusionStrength::MerklePath));
    assert!(!is_stronger_inclusion(&InclusionStrength::Checksum, &InclusionStrength::Checksum));
    assert!(is_stronger_finality(&FinalityStrength::Deterministic, &FinalityStrength::Deterministic));
    assert!(!is_stronger_finality(
        &FinalityStrength::Probabilistic { confirmations: 100 },
        &FinalityStrength::Deterministic
    ));
    assert!(is_stronger_finality(&FinalityStrength::Probabilistic { confirmations: 1 }, &FinalityStrength::Absent));
}

#[test]
fn thresholds_name_the_first_shortfall() {
    let caps = ChainCapabilities::bitcoin();
    let mut r = ok_result();
    assert_eq!(r.meets_chain_thresholds(&caps), Ok(()));
    r.verified_components.inclusion = InclusionStrength::Checksum;
    assert_eq!(r.meets_chain_thresholds(&caps), Err(ThresholdShortfall::Inclusion));
    r = ok_result();
    r.verified_components.replay_checked = false;
    assert_eq!(r.meets_chain_thresholds(&caps), Err(ThresholdShortfall::ReplayCheck));
    r = ok_result();
    r.verified_components.ownership_signature = false;
    assert_eq!(r.meets_chain_thresholds(&caps), Err(ThresholdShortfall::OwnershipSignature));
    r = ok_result();
    r.verified_components.finality = FinalityStrength::Deterministic;
    assert_eq!(r.meets_chain_thresholds(&caps), Ok(()));
}

#[test]
fn failure_texts() {
    assert_eq!(VerificationFailure::MissingData("x".to_string()).to_text(), "Missing data: x");
    assert_eq!(VerificationFailure::InvalidMerklePath.to_text(), "Invalid Merkle path");
    assert_eq!(
        VerificationFailure::FinalityNotReached { required: 32, actual: 0 }.to_text(),
        "Finality not reached: required 32, actual 0"
    );
    assert_eq!(VerificationFailure::UnsupportedCapability("zk".to_string()).to_text(), "Unsupported capability: zk");
    assert_eq!(VerificationFailure::ReplayDetected.to_text(), "Replay detected");
    assert_eq!(VerificationFailure::InvalidOwnershipSignature.to_text(), "Invalid ownership signature");
}

#[test]
fn validation_events_follow_the_outcome() {
    let bundle = good_bundle();
    let expected_hash = proof_bundle_hash(&bundle.inclusion_proof.proof_bytes);

    let accepted = run(&bundle, "bitcoin", "ethereum", ChainCapabilities::bitcoin(), &|_| Ok(ok_result()), Ok(()));
    assert!(accepted.accepted);
    match validation_event(&accepted, &bundle, "bitcoin", 1_700_000_000) {
        ValidationEvent::ProofAccepted { chain, block_number, proof_hash, timestamp_secs, source } => {
            assert_eq!(chain, "bitcoin");
            assert_eq!(block_number, 1);
            assert_eq!(proof_hash, expected_hash);
            assert_eq!(timestamp_secs, 1_700_000_000);
            assert_eq!(source, "proof_pipeline");
        }
        other => panic!("expected acceptance, got {:?}", other),
    }

    let replayed = run(&bundle, "bitcoin", "ethereum", ChainCapabilities::bitcoin(), &|_| Ok(ok_result()), Err("already consumed".to_string()));
    match validation_event(&replayed, &bundle, "bitcoin", 5) {
        ValidationEvent::ReplayDetected { chain, block_number, proof_hash, timestamp_secs } => {
            assert_eq!((chain.as_str(), block_number, proof_hash, timestamp_secs), ("bitcoin", 1, expected_hash, 5));
        }
        other => panic!("expected a replay, got {:?}", other),
    }

    let same_chain = run(&bundle, "bitcoin", "bitcoin", ChainCapabilities::bitcoin(), &|_| Ok(ok_result()), Ok(()));
    match validation_event(&same_chain, &bundle, "bitcoin", 5) {
        ValidationEvent::ProofRejected { reason, .. } => {
            assert_eq!(reason, "Source and destination chains must be different for cross-chain transfer");
        }
        other => panic!("expected a rejection, got {:?}", other),
    }
}
