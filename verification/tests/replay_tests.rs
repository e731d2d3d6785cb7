use csv_adapter::proof_bundle::ReplayId;
use csv_adapter::replay_db::{InMemoryReplayDb, ReplayDatabase, ReplayDbError, ReplayEntryState};
use csv_adapter::replay_record::{GlobalReplayRecord, ReplayState};
use csv_adapter::runtime_error::RuntimeError;

fn sample_id() -> ReplayId {
    ReplayId::derive("bitcoin", &[1u8; 32], 0, &[2u8; 32], &[3u8; 32], "ethereum")
}

#[test]
fn replay_db_test_insert_and_contains() {
    let mut db = InMemoryReplayDb::new();
    let id = sample_id();
    assert!(!db.contains(&id).unwrap());
    db.insert_if_absent(&id, ReplayEntryState::Pending).unwrap();
    assert!(db.contains(&id).unwrap());
}

#[test]
fn replay_db_test_insert_if_absent_duplicate_fails() {
    let mut db = InMemoryReplayDb::new();
    let id = sample_id();
    db.insert_if_absent(&id, ReplayEntryState::Pending).unwrap();
    let result = db.insert_if_absent(&id, ReplayEntryState::Pending);
    assert!(matches!(result, Err(ReplayDbError::AlreadyExists)));
}

#[test]
fn replay_db_test_confirm_consumed() {
    let mut db = InMemoryReplayDb::new();
    let id = sample_id();
    db.insert_if_absent(&id, ReplayEntryState::Pending).unwrap();
    db.confirm_consumed(&id).unwrap();
    assert!(db.contains(&id).unwrap());
}

#[test]
fn replay_db_test_mark_rolled_back() {
    let mut db = InMemoryReplayDb::new();
    let id = sample_id();
    db.insert_if_absent(&id, ReplayEntryState::Pending).unwrap();
    db.mark_rolled_back(&id).unwrap();
}

#[test]
fn consumed_entry_is_terminal() {
    let mut db = InMemoryReplayDb::default();
    let id = sample_id();
    db.insert_if_absent(&id, ReplayEntryState::Pending).unwrap();
    db.confirm_consumed(&id).unwrap();
    match db.confirm_consumed(&id) {
        Err(ReplayDbError::Storage(m)) => assert_eq!(m, "Entry is not in Pending state"),
        other => panic!("unexpected {:?}", other),
    }
    assert!(matches!(db.mark_rolled_back(&id), Err(RuntimeError::InvalidState(_))));
}

#[test]
fn unknown_entries_are_reported() {
    let mut db = InMemoryReplayDb::new();
    let id = sample_id();
    match db.confirm_consumed(&id) {
        Err(ReplayDbError::Storage(m)) => assert_eq!(m, "Entry not found"),
        other => panic!("unexpected {:?}", other),
    }
    match db.mark_rolled_back(&id) {
        Err(RuntimeError::TransferNotFound(m)) => {
            assert_eq!(m, format!("ReplayId {:?}", id.as_bytes()));
        }
        other => panic!("unexpected {:?}", other),
    }
}

fn hash(n: u8) -> csv_adapter::hash::Hash {
    csv_adapter::hash::Hash::new([n; 32])
}

fn record(state: ReplayState) -> GlobalReplayRecord {
    GlobalReplayRecord {
        seal_id: hash(1),
        originating_chain: "bitcoin".to_string(),
        consumed_by_transfer: hash(0),
        consumption_proof_hash: hash(0),
        state,
    }
}

#[test]
fn consume_is_idempotent_for_same_transfer() {
    let mut r = record(ReplayState::Pending);
    assert_eq!(r.consume_if_unconsumed(hash(7), hash(8)), Ok(true));
    assert_eq!(r.state, ReplayState::Finalized);
    assert_eq!(r.consume_if_unconsumed(hash(7), hash(8)), Ok(false));
}

#[test]
fn second_transfer_does_not_consume_again() {
    let mut r = record(ReplayState::Pending);
    r.consume_if_unconsumed(hash(7), hash(8)).unwrap();
    assert_eq!(r.consume_if_unconsumed(hash(9), hash(8)), Ok(false));
    assert_eq!(r.consume_if_unconsumed(hash(7), hash(9)), Ok(false));
    assert_eq!(r.state, ReplayState::Finalized);
    assert_eq!(r.consumed_by_transfer, hash(7));
    assert_eq!(r.consumption_proof_hash, hash(8));
}

#[test]
fn tombstone_blocks_everything() {
    let mut r = record(ReplayState::Finalized);
    r.tombstone().unwrap();
    assert_eq!(r.state, ReplayState::Tombstoned);
    assert_eq!(
        r.consume_if_unconsumed(hash(7), hash(8)),
        Err("Seal is tombstoned and cannot be consumed".to_string())
    );
    assert_eq!(r.rollback_consumption(), Err("Cannot rollback tombstoned seal".to_string()));
    assert!(r.tombstone().is_ok());
}

#[test]
fn rollback_reopens_seal() {
    let mut r = record(ReplayState::Pending);
    assert_eq!(r.rollback_consumption(), Ok(false));
    r.consume_if_unconsumed(hash(7), hash(8)).unwrap();
    assert_eq!(r.rollback_consumption(), Ok(true));
    assert_eq!(r.state, ReplayState::RolledBack);
    assert_eq!(r.consume_if_unconsumed(hash(9), hash(9)), Ok(true));
    assert_eq!(r.consumed_by_transfer, hash(9));
}
