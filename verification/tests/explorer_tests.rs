use csv_adapter::explorer::{
    index_event_step, sanad_to_read, transfer_to_read, IndexEvent, IndexMetadata, IndexWrite, IndexedSanad,
    IndexedTransfer, TransferStatus,
};

fn sanad(id: u8) -> IndexedSanad {
    IndexedSanad {
        id: csv_adapter::hash::Hash::new([id; 32]),
        owner: "alice".to_string(),
        chain: "bitcoin".to_string(),
        created_at_secs: 10,
        updated_at_secs: 10,
        status: TransferStatus::Other("locked".to_string()),
        metadata: IndexMetadata::Json("{\"a\":1}".to_string()),
    }
}

fn transfer(id: u8, sanad_id: u8) -> IndexedTransfer {
    IndexedTransfer {
        id: csv_adapter::hash::Hash::new([id; 32]),
        sanad_id: csv_adapter::hash::Hash::new([sanad_id; 32]),
        from_chain: "bitcoin".to_string(),
        to_chain: "ethereum".to_string(),
        status: TransferStatus::Initiated,
        created_at_secs: 20,
        updated_at_secs: 20,
        proof_bundle: None,
        metadata: IndexMetadata::Json("{}".to_string()),
    }
}

#[test]
fn created_sanad_is_stored_as_initiated() {
    let event = IndexEvent::SanadCreated {
        sanad_id: csv_adapter::hash::Hash::zero(),
        chain: "ethereum".to_string(),
        owner: "test_owner".to_string(),
        created_at_secs: 100,
        metadata: IndexMetadata::Json("{\"test\":\"data\"}".to_string()),
    };
    assert_eq!(transfer_to_read(&event), None);
    assert_eq!(sanad_to_read(&event, &None), None);
    let writes = index_event_step(event, None, None, 999);
    assert_eq!(writes.len(), 1);
    match &writes[0] {
        IndexWrite::StoreSanad(s) => {
            assert_eq!(s.id, csv_adapter::hash::Hash::zero());
            assert_eq!(s.chain, "ethereum");
            assert_eq!(s.owner, "test_owner");
            assert_eq!((s.created_at_secs, s.updated_at_secs), (100, 100));
            assert_eq!(s.status, TransferStatus::Initiated);
        }
        other => panic!("unexpected write {:?}", other),
    }
}

#[test]
fn transfer_moves_its_sanad_to_the_destination() {
    let event = IndexEvent::SanadTransferred {
        sanad_id: csv_adapter::hash::Hash::new([1; 32]),
        from_chain: "bitcoin".to_string(),
        to_chain: "ethereum".to_string(),
        transfer_id: csv_adapter::hash::Hash::new([2; 32]),
        created_at_secs: 50,
        proof_bundle: None,
    };
    assert_eq!(sanad_to_read(&event, &None), Some(csv_adapter::hash::Hash::new([1; 32])));
    let writes = index_event_step(event.clone(), None, Some(sanad(1)), 77);
    assert_eq!(writes.len(), 2);
    match &writes[0] {
        IndexWrite::StoreTransfer(t) => {
            assert_eq!(t.id, csv_adapter::hash::Hash::new([2; 32]));
            assert_eq!(t.status, TransferStatus::Initiated);
            assert_eq!(
                t.metadata,
                IndexMetadata::ChainPair { from_chain: "bitcoin".to_string(), to_chain: "ethereum".to_string() }
            );
        }
        other => panic!("unexpected write {:?}", other),
    }
    match &writes[1] {
        IndexWrite::StoreSanad(s) => {
            assert_eq!(s.chain, "ethereum");
            assert_eq!(s.status, TransferStatus::Initiated);
            assert_eq!(s.updated_at_secs, 77);
            assert_eq!(s.owner, "alice");
        }
        other => panic!("unexpected write {:?}", other),
    }
    assert_eq!(index_event_step(event, None, None, 77).len(), 1);
}

#[test]
fn completed_transfer_completes_its_sanad() {
    let event = IndexEvent::TransferUpdated {
        transfer_id: csv_adapter::hash::Hash::new([2; 32]),
        old_status: TransferStatus::Initiated,
        new_status: TransferStatus::Completed,
        updated_at_secs: 60,
    };
    assert_eq!(transfer_to_read(&event), Some(csv_adapter::hash::Hash::new([2; 32])));
    let found = Some(transfer(2, 1));
    assert_eq!(sanad_to_read(&event, &found), Some(csv_adapter::hash::Hash::new([1; 32])));
    let writes = index_event_step(event, found, Some(sanad(1)), 99);
    assert_eq!(writes.len(), 2);
    match (&writes[0], &writes[1]) {
        (IndexWrite::StoreTransfer(t), IndexWrite::StoreSanad(s)) => {
            assert_eq!((t.status.clone(), t.updated_at_secs), (TransferStatus::Completed, 60));
            assert_eq!((s.status.clone(), s.updated_at_secs), (TransferStatus::Completed, 60));
        }
        other => panic!("unexpected writes {:?}", other),
    }
    let other_status = IndexEvent::TransferUpdated {
        transfer_id: csv_adapter::hash::Hash::new([2; 32]),
        old_status: TransferStatus::Initiated,
        new_status: TransferStatus::Other("failed".to_string()),
        updated_at_secs: 60,
    };
    assert_eq!(sanad_to_read(&other_status, &Some(transfer(2, 1))), None);
    assert_eq!(index_event_step(other_status.clone(), Some(transfer(2, 1)), None, 99).len(), 1);
    assert_eq!(index_event_step(other_status, None, None, 99).len(), 0);
}

#[test]
fn metadata_update_replaces_metadata() {
    let event = IndexEvent::SanadUpdated {
        sanad_id: csv_adapter::hash::Hash::new([1; 32]),
        chain: "bitcoin".to_string(),
        old_metadata: IndexMetadata::Json("{\"a\":1}".to_string()),
        new_metadata: IndexMetadata::Json("{\"a\":2}".to_string()),
        updated_at_secs: 70,
    };
    let writes = index_event_step(event.clone(), None, Some(sanad(1)), 99);
    match &writes[..] {
        [IndexWrite::StoreSanad(s)] => {
            assert_eq!(s.metadata, IndexMetadata::Json("{\"a\":2}".to_string()));
            assert_eq!(s.updated_at_secs, 70);
        }
        other => panic!("unexpected writes {:?}", other),
    }
    assert!(index_event_step(event, None, None, 99).is_empty());
}
