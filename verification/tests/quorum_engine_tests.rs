use csv_adapter::rpc::quorum_engine::{product_lt, QuorumEngine};
use csv_adapter::rpc::quorum_types::{
    ByzantineConfig, ConsensusRound, FinalityGrade, ProviderHealth, ProviderWeight, QuorumError,
    QuorumResult, QuorumThreshold, RpcObservation,
};

fn make_hash(n: u8) -> csv_adapter::hash::Hash {
    let mut bytes = [0u8; 32];
    bytes[0] = n;
    csv_adapter::hash::Hash::new(bytes)
}

fn make_observation(endpoint: &str, hash: csv_adapter::hash::Hash, height: u64) -> RpcObservation {
    RpcObservation::new(
        endpoint.to_string(),
        "test-chain".to_string(),
        height,
        hash,
        FinalityGrade::Deterministic,
        100,
    )
}

#[test]
fn test_engine_creation() {
    let engine = QuorumEngine::new(QuorumThreshold::bft_strict());
    assert_eq!(engine.provider_count(), 0);
    assert!(!engine.is_quorum_achievable());
}

#[test]
fn test_provider_registration() {
    let mut engine = QuorumEngine::new(QuorumThreshold::bft_strict());
    engine.register_default_provider("http://provider1.com".into());
    engine.register_default_provider("http://provider2.com".into());
    engine.register_default_provider("http://provider3.com".into());
    assert_eq!(engine.provider_count(), 3);
}

#[test]
fn test_consensus_reached() {
    let mut engine = QuorumEngine::new(QuorumThreshold::bft_strict());
    engine.register_default_provider("http://p1.com".into());
    engine.register_default_provider("http://p2.com".into());
    engine.register_default_provider("http://p3.com".into());

    let hash = make_hash(0x42);
    let mut round = engine.start_round("chain-1".into());
    round.add_observation(make_observation("http://p1.com", hash, 100));
    round.add_observation(make_observation("http://p2.com", hash, 100));
    round.add_observation(make_observation("http://p3.com", hash, 100));

    let result = engine.decide(&mut round).unwrap();
    match result {
        QuorumResult::Consensus { canonical_hash, supporting_providers, confidence, .. } => {
            assert_eq!(canonical_hash, hash);
            assert_eq!(supporting_providers.len(), 3);
            assert!(confidence.abs_diff(1000) < 1);
        }
        other => panic!("Expected Consensus, got {:?}", other),
    }
}

#[test]
fn test_no_consensus_divergence() {
    let mut engine = QuorumEngine::new(QuorumThreshold::bft_strict());
    engine.register_default_provider("http://p1.com".into());
    engine.register_default_provider("http://p2.com".into());
    engine.register_default_provider("http://p3.com".into());

    let hash_a = make_hash(0x01);
    let hash_b = make_hash(0x02);
    let mut round = engine.start_round("chain-1".into());
    round.add_observation(make_observation("http://p1.com", hash_a, 100));
    round.add_observation(make_observation("http://p2.com", hash_b, 100));
    round.add_observation(make_observation("http://p3.com", hash_b, 100));

    let result = engine.decide(&mut round).unwrap();
    match result {
        QuorumResult::Consensus { .. } => {}
        QuorumResult::NoConsensus { .. } => {}
        _ => panic!("Expected Consensus or NoConsensus"),
    }
}

#[test]
fn test_insufficient_providers() {
    let engine = QuorumEngine::new(QuorumThreshold::bft_strict());
    let round = ConsensusRound::new(1, "chain-1".into());
    let result = engine.compute_decision(&round);
    assert!(matches!(result, Err(QuorumError::InsufficientProviders { .. })));
}

#[test]
fn test_round_already_decided() {
    let mut engine = QuorumEngine::new(QuorumThreshold::bft_strict());
    engine.register_default_provider("http://p1.com".into());
    engine.register_default_provider("http://p2.com".into());
    engine.register_default_provider("http://p3.com".into());

    let hash = make_hash(0x42);
    let mut round = engine.start_round("chain-1".into());
    round.add_observation(make_observation("http://p1.com", hash, 100));
    round.add_observation(make_observation("http://p2.com", hash, 100));
    round.add_observation(make_observation("http://p3.com", hash, 100));

    engine.decide(&mut round).unwrap();
    let result = engine.decide(&mut round);
    assert!(matches!(result, Err(QuorumError::RoundComplete(1))));
}

#[test]
fn test_provider_health_tracking() {
    let mut health = ProviderHealth::new("http://p1.com".into());
    health.record_success(100);
    health.record_success(200);
    assert_eq!(health.consecutive_failures, 0);
    assert!(health.last_success.is_some());

    health.record_failure();
    assert_eq!(health.consecutive_failures, 1);

    for _ in 0..4 {
        health.record_failure();
    }
    assert!(health.suspended);
}

#[test]
fn test_bft_config() {
    let bft = ByzantineConfig::new(1, 4).unwrap();
    assert_eq!(bft.min_quorum_size(), 3);
    assert!(bft.satisfies_bft(3));
    assert!(!bft.satisfies_bft(2));
}

#[test]
fn test_bft_config_invalid() {
    let result = ByzantineConfig::new(2, 4);
    assert!(result.is_err());
}

#[test]
fn test_quorum_threshold_validation() {
    let result = QuorumThreshold::new(300, 2, 500);
    assert!(result.is_err());

    let result = QuorumThreshold::new(500, 0, 500);
    assert!(result.is_err());

    let result = QuorumThreshold::new(1500, 2, 500);
    assert!(result.is_err());
}

#[test]
fn test_majority_threshold() {
    let threshold = QuorumThreshold::majority();
    assert_eq!(threshold.min_agreement_ratio, 510);
    assert_eq!(threshold.min_provider_count, 2);
}

#[test]
fn test_provider_weight_validation() {
    let result = ProviderWeight::new(-1000);
    assert!(result.is_err());

    let result = ProviderWeight::new(0);
    assert!(result.is_err());

    let result = ProviderWeight::new(2000);
    assert!(result.is_ok());
}

#[test]
fn test_quorum_group_sorting() {
    let mut engine = QuorumEngine::new(QuorumThreshold::bft_strict());
    engine.register_provider("http://p1.com".into(), ProviderWeight::new(3000).unwrap());
    engine.register_provider("http://p2.com".into(), ProviderWeight::new(1000).unwrap());
    engine.register_provider("http://p3.com".into(), ProviderWeight::new(1000).unwrap());

    let hash_a = make_hash(0x01);
    let hash_b = make_hash(0x02);
    let mut round = engine.start_round("chain-1".into());
    round.add_observation(make_observation("http://p1.com", hash_a, 100));
    round.add_observation(make_observation("http://p2.com", hash_b, 100));
    round.add_observation(make_observation("http://p3.com", hash_b, 100));

    let result = engine.decide(&mut round).unwrap();
    match result {
        QuorumResult::Consensus { canonical_hash, confidence, .. } => {
            assert!(
                matches!(engine.compute_decision(&round).unwrap(), QuorumResult::NoConsensus { .. })
                    || canonical_hash == hash_a
            );
            assert!(confidence.abs_diff(600) < 10);
        }
        QuorumResult::NoConsensus { .. } => {}
        _ => {}
    }
}

#[test]
fn test_is_quorum_achievable() {
    let mut engine = QuorumEngine::new(QuorumThreshold::bft_strict());
    assert!(!engine.is_quorum_achievable());

    engine.register_default_provider("http://p1.com".into());
    assert!(!engine.is_quorum_achievable());

    engine.register_default_provider("http://p2.com".into());
    assert!(engine.is_quorum_achievable());
}

#[test]
fn test_round_counter_increments() {
    let mut engine = QuorumEngine::new(QuorumThreshold::bft_strict());
    let r1 = engine.start_round("chain-1".into());
    let r2 = engine.start_round("chain-2".into());
    assert_eq!(r1.round_id, 1);
    assert_eq!(r2.round_id, 2);
}

#[test]
fn test_remove_provider() {
    let mut engine = QuorumEngine::new(QuorumThreshold::bft_strict());
    engine.register_default_provider("http://p1.com".into());
    engine.register_default_provider("http://p2.com".into());
    assert_eq!(engine.provider_count(), 2);

    engine.remove_provider("http://p1.com");
    assert_eq!(engine.provider_count(), 1);
    assert!(engine.get_provider_health("http://p1.com").is_none());
}

#[test]
fn split_vote_reports_agreement_ratio() {
    let mut engine = QuorumEngine::new(QuorumThreshold::bft_strict());
    for p in ["http://p1.com", "http://p2.com", "http://p3.com"] {
        engine.register_default_provider(p.into());
    }
    let mut round = engine.start_round("chain-1".into());
    round.add_observation(make_observation("http://p1.com", make_hash(1), 100));
    round.add_observation(make_observation("http://p2.com", make_hash(2), 100));
    round.add_observation(make_observation("http://p3.com", make_hash(2), 100));
    match engine.decide(&mut round).unwrap() {
        QuorumResult::NoConsensus { groups, total_weight, reason } => {
            assert_eq!(total_weight, 3000);
            assert_eq!(groups[0].hash, make_hash(2));
            assert_eq!(reason, "Agreement ratio 0.667 below threshold 0.667");
        }
        other => panic!("unexpected {:?}", other),
    }
    // Every observer is charged a failure after a round without consensus.
    assert_eq!(engine.get_provider_health("http://p2.com").unwrap().consecutive_failures, 1);
}

#[test]
fn consensus_credits_supporters_and_charges_dissenters() {
    let mut engine = QuorumEngine::new(QuorumThreshold::majority());
    for p in ["a", "b", "c"] {
        engine.register_default_provider(p.into());
    }
    let mut round = engine.start_round("chain".into());
    round.add_observation(make_observation("a", make_hash(7), 10));
    round.add_observation(make_observation("b", make_hash(7), 11));
    round.add_observation(make_observation("c", make_hash(8), 12));
    match engine.decide(&mut round).unwrap() {
        QuorumResult::Consensus { canonical_hash, canonical_height, supporting_providers, total_weight, confidence, finality_grade } => {
            assert_eq!(canonical_hash, make_hash(7));
            assert_eq!(canonical_height, 10);
            assert_eq!(supporting_providers, vec!["a".to_string(), "b".to_string()]);
            assert_eq!(total_weight, 2000);
            assert_eq!(confidence, 667);
            assert_eq!(finality_grade, FinalityGrade::Deterministic);
        }
        other => panic!("unexpected {:?}", other),
    }
    assert_eq!(engine.get_provider_health("a").unwrap().total_successes, 1);
    assert_eq!(engine.get_provider_health("c").unwrap().total_failures, 1);
}

#[test]
fn duplicate_observations_count_once_per_hash() {
    let mut engine = QuorumEngine::new(QuorumThreshold::majority());
    engine.register_default_provider("a".into());
    engine.register_default_provider("b".into());
    let mut round = engine.start_round("chain".into());
    round.add_observation(make_observation("a", make_hash(1), 5));
    round.add_observation(make_observation("a", make_hash(1), 5));
    round.add_observation(make_observation("b", make_hash(1), 5));
    match engine.compute_decision(&round).unwrap() {
        QuorumResult::Consensus { total_weight, supporting_providers, .. } => {
            assert_eq!(total_weight, 2000);
            assert_eq!(supporting_providers.len(), 2);
        }
        other => panic!("unexpected {:?}", other),
    }
}

#[test]
fn byzantine_minority_is_reported() {
    let mut engine = QuorumEngine::with_bft(QuorumThreshold::majority(), ByzantineConfig::new(1, 4).unwrap());
    for p in ["a", "b", "c", "d"] {
        engine.register_default_provider(p.into());
    }
    let mut round = engine.start_round("chain".into());
    round.add_observation(make_observation("a", make_hash(1), 5));
    round.add_observation(make_observation("b", make_hash(1), 5));
    round.add_observation(make_observation("c", make_hash(1), 5));
    round.add_observation(make_observation("d", make_hash(9), 5));
    match engine.decide(&mut round).unwrap() {
        QuorumResult::ByzantineDetected { suspicious_providers, reason } => {
            assert_eq!(suspicious_providers, vec!["d".to_string()]);
            assert_eq!(reason, "Byzantine behavior detected in RPC providers");
        }
        other => panic!("unexpected {:?}", other),
    }
}

#[test]
fn health_adjusted_weight_drops_with_failures() {
    let mut engine = QuorumEngine::new(QuorumThreshold::majority());
    engine.register_default_provider("a".into());
    engine.register_default_provider("b".into());
    assert_eq!(engine.health_adjusted_weight("a"), 1000);
    let mut round = engine.start_round("chain".into());
    round.add_observation(make_observation("a", make_hash(1), 5));
    round.add_observation(make_observation("b", make_hash(2), 5));
    let _ = engine.decide(&mut round).unwrap();
    assert!(engine.health_adjusted_weight("a") < 1000);
}

#[test]
fn too_few_distinct_providers() {
    let engine = QuorumEngine::new(QuorumThreshold::bft_strict());
    let mut round = ConsensusRound::new(1, "chain".into());
    round.add_observation(make_observation("a", make_hash(1), 5));
    round.add_observation(make_observation("a", make_hash(1), 5));
    match engine.compute_decision(&round) {
        Err(QuorumError::InsufficientProviders { required, available }) => {
            assert_eq!(required, 2);
            assert_eq!(available, 1);
        }
        other => panic!("unexpected {:?}", other),
    }
}

#[test]
fn test_health_adjusted_weight() {
    let mut engine = QuorumEngine::new(QuorumThreshold::bft_strict());
    engine.register_default_provider("http://p1.com".into());
    engine.register_default_provider("http://p2.com".into());

    // Base weight is 1.0 (1000 thousandths), health score starts at 1.0
    assert_eq!(engine.health_adjusted_weight("http://p1.com"), 1000);

    // Record failures to reduce health: rounds without consensus count a
    // failure for every provider that observed.
    for _ in 0..5 {
        let mut round = engine.start_round("chain-1".into());
        round.add_observation(make_observation("http://p1.com", make_hash(0x01), 100));
        round.add_observation(make_observation("http://p2.com", make_hash(0x02), 100));
        let _ = engine.decide(&mut round);
    }

    let adjusted = engine.health_adjusted_weight("http://p1.com");
    assert!(adjusted < 1000);
}

#[test]
fn registration_keeps_health_records_in_step_with_providers() {
    let mut engine = QuorumEngine::new(QuorumThreshold::bft_strict());
    engine.register_default_provider("http://p1.com".into());
    engine.register_default_provider("http://p2.com".into());
    let hash = make_hash(7);
    let mut round = engine.start_round("chain-1".into());
    round.add_observation(make_observation("http://p1.com", hash, 10));
    round.add_observation(make_observation("http://p2.com", hash, 10));
    engine.decide(&mut round).unwrap();
    let successes = engine.get_provider_health("http://p1.com").unwrap().total_successes;
    assert_eq!(successes, 1);
    // Registering a known provider again keeps its record.
    engine.register_provider("http://p1.com".into(), ProviderWeight::new(2000).unwrap());
    assert_eq!(engine.provider_count(), 2);
    assert_eq!(engine.get_provider_health("http://p1.com").unwrap().total_successes, 1);
    assert_eq!(engine.all_health().len(), engine.provider_count());
    engine.remove_provider("http://p2.com");
    assert_eq!(engine.provider_count(), 1);
    assert!(engine.get_provider_health("http://p2.com").is_none());
    assert_eq!(engine.all_health().len(), 1);
    assert!(!engine.is_quorum_achievable());
}

#[test]
fn heavy_weights_do_not_overflow_the_decision() {
    let heavy = i64::MAX;
    let mut engine = QuorumEngine::new(QuorumThreshold::bft_strict());
    engine.register_provider("http://p1.com".into(), ProviderWeight::new(heavy).unwrap());
    engine.register_provider("http://p2.com".into(), ProviderWeight::new(heavy).unwrap());
    engine.register_provider("http://p3.com".into(), ProviderWeight::new(heavy).unwrap());
    let hash = make_hash(5);
    let mut round = engine.start_round("chain-1".into());
    round.add_observation(make_observation("http://p1.com", hash, 10));
    round.add_observation(make_observation("http://p2.com", hash, 10));
    round.add_observation(make_observation("http://p3.com", hash, 10));
    match engine.decide(&mut round).unwrap() {
        QuorumResult::Consensus { total_weight, confidence, .. } => {
            assert_eq!(total_weight, 3 * (heavy as u128));
            assert_eq!(confidence, 1000);
        }
        other => panic!("Expected Consensus, got {:?}", other),
    }
}

#[test]
fn product_comparison_is_exact_beyond_128_bits() {
    assert!(product_lt(u128::MAX, 2, u128::MAX, 3));
    assert!(!product_lt(u128::MAX, 3, u128::MAX, 3));
    assert!(product_lt(u128::MAX - 1, u64::MAX, u128::MAX, u64::MAX));
    assert!(!product_lt(7, 6, 6, 7));
    assert!(product_lt(0, u64::MAX, 1, 1));
}
