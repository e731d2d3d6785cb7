use csv_adapter::ethereum_mint::{mint_sanad, EthereumError};
use csv_adapter::event_store::{EventStore, InMemoryEventStore, RuntimeEventEnvelope};
use csv_adapter::explorer::{sync_batch, ProcessorStats};
use csv_adapter::finality_anchor::{AncestorContinuityProof, FinalityAnchor};

fn h(b: u8) -> csv_adapter::hash::Hash {
    csv_adapter::hash::Hash::new([b; 32])
}

#[test]
fn anchor_successors() {
    let a = FinalityAnchor::new("bitcoin".to_string(), 100, h(1), Some(5));
    let b = FinalityAnchor::new("bitcoin".to_string(), 101, h(2), None);
    assert!(a.is_valid_successor(&b));
    assert!(!b.is_valid_successor(&a));
    assert!(!a.is_valid_successor(&a));
    let zero = FinalityAnchor::new("bitcoin".to_string(), 200, h(0), None);
    assert!(!a.is_valid_successor(&zero));
    let other = FinalityAnchor::new("ethereum".to_string(), 200, h(3), None);
    assert!(!a.is_valid_successor(&other));
    assert!(a.finalized_at_secs > 0);
}

#[test]
fn safety_hash_finds_first_ancestor_below_threshold() {
    let anchor = FinalityAnchor::new("bitcoin".to_string(), 100, h(1), None);
    let proof = AncestorContinuityProof {
        chain: "bitcoin".to_string(),
        anchor,
        ancestor_hashes: vec![(100, h(1)), (95, h(2)), (90, h(3)), (80, h(4))],
        min_depth: 24,
    };
    assert_eq!(proof.safety_hash(6), Some((90, h(3))));
    assert_eq!(proof.safety_hash(5), Some((95, h(2))));
    assert_eq!(proof.safety_hash(500), None);
    assert_eq!(proof.safety_hash(0), Some((100, h(1))));
}

#[test]
fn processor_stats_average() {
    let mut s = ProcessorStats::new(10);
    assert_eq!(s.events_processed, 0);
    s.record(10, false, 11);
    s.record(21, true, 12);
    assert_eq!(s.events_processed, 2);
    assert_eq!(s.errors, 1);
    assert_eq!(s.average_processing_ms, 15);
    assert_eq!(s.last_processed_secs, 12);
}

#[test]
fn sync_batches() {
    assert_eq!(sync_batch(10, 10, 100), None);
    assert_eq!(sync_batch(10, 5, 100), None);
    assert_eq!(sync_batch(10, 500, 100), Some((11, 110)));
    assert_eq!(sync_batch(10, 50, 100), Some((11, 50)));
    assert_eq!(sync_batch(0, 1, 1), Some((1, 1)));
}

#[test]
fn ethereum_mint_is_refused() {
    let r = mint_sanad("http://rpc", "0xabc", "key", h(1), h(2), 1, h(3));
    match r {
        Err(EthereumError::ConfigError(m)) => assert!(m.starts_with("Ethereum mint_sanad is not yet fully implemented.")),
        other => panic!("unexpected {:?}", other),
    }
}

#[test]
fn event_store_keeps_envelopes_in_order() {
    let mut store = InMemoryEventStore::new();
    let e1 = RuntimeEventEnvelope {
        event_id: 1,
        transfer_id: h(1),
        causation_id: None,
        correlation_id: 9,
        event: "{\"kind\":\"locking\"}".to_string(),
        timestamp_secs: 100,
        runtime_id: 7,
    };
    let e2 = RuntimeEventEnvelope { event_id: 2, causation_id: Some(1), ..e1.clone() };
    store.persist(&e1).unwrap();
    store.persist(&e2).unwrap();
    assert_eq!(store.records, vec![e1, e2]);
}
