use csv_adapter::adapter_registry::{
    AdapterError, AdapterRegistryImpl, ChainAdapter, CrossChainTransfer, LockResult, MintResult,
};
use csv_adapter::event_bus::{EventBus, EventSubscriber, TransferEvent};
use csv_adapter::lease::{RuntimeExecutionContext, TransferLease};
use csv_adapter::policy::RuntimePolicy;
use csv_adapter::replay_db::{InMemoryReplayDb, ReplayDatabase, ReplayDbError, ReplayEntryState};
use csv_adapter::runtime_error::TransferCoordinatorError;
use csv_adapter::runtime_mode::{
    CircuitBreaker, CircuitBreakerState, HealthCheck, HealthStatus, RuntimeMode,
};
use csv_adapter::transfer_coordinator::{
    ExecutionAction, TransferCoordinator, TransferReceipt,
};
use csv_adapter::verified::{
    ChainCapabilities, FinalityStrength, InclusionStrength, VerificationAssurance,
    VerificationFailure, VerificationResult, VerifiedComponents,
};

struct TestAdapter {
    id: &'static str,
    caps: ChainCapabilities,
}

impl ChainAdapter for TestAdapter {
    fn chain_id(&self) -> &str {
        self.id
    }
    fn capabilities(&self) -> &ChainCapabilities {
        &self.caps
    }
}

const NOW: u64 = 1_700_000_000;

fn transfer(id: &str, seed: u8) -> CrossChainTransfer {
    CrossChainTransfer {
        id: id.to_string(),
        source_chain: "test-chain".to_string(),
        destination_chain: "test-chain".to_string(),
        lock_tx_hash: vec![seed; 32],
        lock_output_index: 0,
        sanad_id: csv_adapter::hash::Hash::new([seed.wrapping_add(1); 32]),
        transition_id: vec![seed.wrapping_add(2); 32],
    }
}

fn ctx_for(t: &CrossChainTransfer, expires_at_secs: u64, policy: RuntimePolicy) -> RuntimeExecutionContext {
    RuntimeExecutionContext {
        lease: TransferLease {
            transfer_id: t.sanad_id,
            epoch: 1,
            owner_runtime_id: 7,
            acquired_at_secs: NOW - 10,
            expires_at_secs,
        },
        runtime_instance: 7,
        policy,
    }
}

fn test_policy() -> RuntimePolicy {
    let mut p = RuntimePolicy::new();
    p.set_finality_depth("test-chain".to_string(), 6);
    p
}

fn good_verification() -> VerificationResult {
    VerificationResult {
        valid: true,
        assurance: VerificationAssurance::ConsensusBound,
        verified_components: VerifiedComponents {
            inclusion: InclusionStrength::MerklePath,
            finality: FinalityStrength::Probabilistic { confirmations: 6 },
            replay_checked: true,
            ownership_signature: true,
        },
        error: None,
    }
}

/// Runs an execution to its end, answering the chain operations with the
/// given closures.
fn execute(
    coordinator: &mut TransferCoordinator,
    t: CrossChainTransfer,
    caps: Option<ChainCapabilities>,
    ctx: &RuntimeExecutionContext,
    lock: &dyn Fn(u32) -> Result<LockResult, AdapterError>,
    mint: &dyn Fn(u32) -> Result<MintResult, AdapterError>,
    verification: Result<VerificationResult, VerificationFailure>,
) -> Result<TransferReceipt, TransferCoordinatorError> {
    let pending = coordinator.begin(t, ctx, NOW)?;
    let mut exec = coordinator.on_capabilities(pending, caps, caps)?;
    let mut lock_calls = 0;
    let mut mint_calls = 0;
    loop {
        let outcome = match exec.next_action() {
            ExecutionAction::Lock { .. } => {
                let reply = lock(lock_calls);
                lock_calls += 1;
                coordinator.on_lock_reply(&mut exec, reply, 1000)
            }
            ExecutionAction::VerifyFinality { block_height } => {
                assert_eq!(block_height, 100);
                coordinator.on_finality_reply(&mut exec, Ok(()))
            }
            ExecutionAction::BuildProof => coordinator.on_proof_built(&mut exec, Ok(())),
            ExecutionAction::VerifyProof => coordinator.on_proof_verified(&mut exec, verification.clone()),
            ExecutionAction::Mint { .. } => {
                let reply = mint(mint_calls);
                mint_calls += 1;
                coordinator.on_mint_reply(&mut exec, reply, 2000)
            }
        };
        if let Some(r) = outcome {
            return r;
        }
    }
}

fn ok_lock(_: u32) -> Result<LockResult, AdapterError> {
    Ok(LockResult { tx_hash: "0xlock".to_string(), block_height: 100 })
}

fn ok_mint(_: u32) -> Result<MintResult, AdapterError> {
    Ok(MintResult { tx_hash: "0xmint".to_string() })
}

fn coordinator() -> TransferCoordinator {
    TransferCoordinator::new(InMemoryReplayDb::new(), EventBus::new())
}

#[test]
fn transfer_completes_and_consumes_its_replay_entry() {
    let mut c = coordinator();
    c.subscribe(EventSubscriber { name: "watcher".to_string() });
    let t = transfer("test-1", 1);
    let ctx = ctx_for(&t, NOW + 3600, test_policy());
    let receipt = execute(&mut c, t, Some(ChainCapabilities::bitcoin()), &ctx, &ok_lock, &ok_mint, Ok(good_verification()))
        .unwrap();
    assert_eq!(receipt.transfer_id, "test-1");
    assert_eq!(receipt.lock_tx_hash, "0xlock");
    assert_eq!(receipt.mint_tx_hash, "0xmint");
    assert_eq!(c.replay_db().contains(&receipt.replay_id).unwrap(), true);
    let events = c.event_bus().delivered_to(0);
    assert_eq!(
        events,
        vec![
            TransferEvent::Locking { transfer_id: "test-1".to_string() },
            TransferEvent::AwaitingFinality { transfer_id: "test-1".to_string() },
            TransferEvent::BuildingProof { transfer_id: "test-1".to_string() },
            TransferEvent::Minting { transfer_id: "test-1".to_string() },
            TransferEvent::Complete {
                transfer_id: "test-1".to_string(),
                mint_tx_hash: "0xmint".to_string()
            },
        ]
    );
}

#[test]
fn pending_replay_entry_blocks_execution() {
    let mut c = coordinator();
    let t = transfer("test-pending", 5);
    let ctx = ctx_for(&t, NOW + 3600, test_policy());
    // Lock fails on every attempt: the entry stays pending.
    let failing = |_: u32| Err(AdapterError::RpcError("down".to_string()));
    let r = execute(&mut c, t.clone(), Some(ChainCapabilities::bitcoin()), &ctx, &failing, &ok_mint, Ok(good_verification()));
    assert!(matches!(r, Err(TransferCoordinatorError::LockFailed(ref m)) if m == "RPC error: down"));
    let r = execute(&mut c, t, Some(ChainCapabilities::bitcoin()), &ctx, &ok_lock, &ok_mint, Ok(good_verification()));
    assert!(matches!(r, Err(TransferCoordinatorError::ReplayDetected(_))));
}

#[test]
fn test_double_spend_prevention() {
    let mut c = coordinator();
    c.subscribe(EventSubscriber { name: "watcher".to_string() });
    let t = transfer("test-doublespend", 1);
    let ctx = ctx_for(&t, NOW + 3600, test_policy());
    let first = execute(&mut c, t.clone(), Some(ChainCapabilities::bitcoin()), &ctx, &ok_lock, &ok_mint, Ok(good_verification()));
    assert!(first.is_ok(), "First execution should succeed");
    let second = execute(&mut c, t.clone(), Some(ChainCapabilities::bitcoin()), &ctx, &ok_lock, &ok_mint, Ok(good_verification()));
    assert!(second.is_ok(), "Second execution should be idempotent");
    assert_eq!(second.unwrap().replay_id, first.unwrap().replay_id);
    let mut replay = t.clone();
    replay.id = "test-replay".to_string();
    let replay_ctx = ctx_for(&replay, NOW + 3600, test_policy());
    let events_before = c.event_bus().delivered_to(0).len();
    let r = c.begin(replay, &replay_ctx, NOW);
    assert!(matches!(r, Err(TransferCoordinatorError::ReplayDetected(_))));
    let events = c.event_bus().delivered_to(0);
    assert_eq!(events.len(), events_before + 1);
    assert_eq!(
        events.last().unwrap(),
        &TransferEvent::ReplayDetected { transfer_id: "test-replay".to_string() }
    );
}

#[test]
fn consumed_identity_from_an_unknown_transfer_is_refused() {
    let t = transfer("test-foreign", 4);
    let ctx = ctx_for(&t, NOW + 3600, test_policy());
    let mut scratch = coordinator();
    let id = execute(&mut scratch, t.clone(), Some(ChainCapabilities::bitcoin()), &ctx, &ok_lock, &ok_mint, Ok(good_verification()))
        .unwrap()
        .replay_id;
    let mut db = InMemoryReplayDb::new();
    db.insert_if_absent(&id, ReplayEntryState::Consumed).unwrap();
    let mut c = TransferCoordinator::new(db, EventBus::new());
    let r = execute(&mut c, t, Some(ChainCapabilities::bitcoin()), &ctx, &ok_lock, &ok_mint, Ok(good_verification()));
    assert!(matches!(r, Err(TransferCoordinatorError::ReplayDetected(_))));
}

#[test]
fn capability_gate_refuses_data_availability_chain() {
    let mut c = coordinator();
    let t = transfer("test-celestia", 2);
    let ctx = ctx_for(&t, NOW + 3600, test_policy());
    let r = execute(&mut c, t, Some(ChainCapabilities::celestia()), &ctx, &ok_lock, &ok_mint, Ok(good_verification()));
    assert!(matches!(r, Err(TransferCoordinatorError::UnsupportedOperation(ref m)) if m == "test-chain cannot be a cross-chain source"));
}

#[test]
fn unknown_chain_is_refused() {
    let mut c = coordinator();
    let t = transfer("test-unknown", 3);
    let ctx = ctx_for(&t, NOW + 3600, test_policy());
    let r = execute(&mut c, t, None, &ctx, &ok_lock, &ok_mint, Ok(good_verification()));
    assert!(matches!(r, Err(TransferCoordinatorError::UnknownChain(ref m)) if m == "test-chain"));
}

#[test]
fn expired_or_foreign_lease_is_refused() {
    let mut c = coordinator();
    let t = transfer("test-lease", 4);
    let ctx = ctx_for(&t, NOW - 1800, test_policy());
    let r = execute(&mut c, t.clone(), Some(ChainCapabilities::bitcoin()), &ctx, &ok_lock, &ok_mint, Ok(good_verification()));
    assert!(matches!(r, Err(TransferCoordinatorError::RuntimeError(ref m)) if m == "Lease is expired"));
    let mut ctx = ctx_for(&t, NOW + 3600, test_policy());
    ctx.lease.transfer_id = csv_adapter::hash::Hash::new([0xEE; 32]);
    let r = execute(&mut c, t, Some(ChainCapabilities::bitcoin()), &ctx, &ok_lock, &ok_mint, Ok(good_verification()));
    assert!(matches!(r, Err(TransferCoordinatorError::RuntimeError(ref m)) if m == "Lease transfer_id does not match transfer SanadId"));
}

#[test]
fn lock_is_retried_then_succeeds() {
    let mut c = coordinator();
    let t = transfer("test-retry", 6);
    let ctx = ctx_for(&t, NOW + 3600, test_policy());
    let flaky = |n: u32| {
        if n < 2 {
            Err(AdapterError::TxFailed("busy".to_string()))
        } else {
            ok_lock(n)
        }
    };
    let r = execute(&mut c, t, Some(ChainCapabilities::bitcoin()), &ctx, &flaky, &ok_mint, Ok(good_verification()));
    assert!(r.is_ok());
    // Two failures then a success leave the breaker closed with no failures.
    assert_eq!(c.circuit_breaker().state(), CircuitBreakerState::Closed);
    assert_eq!(c.circuit_breaker().failure_count, 0);
}

#[test]
fn retry_delay_comes_from_policy() {
    let mut c = coordinator();
    let t = transfer("test-delay", 7);
    let ctx = ctx_for(&t, NOW + 3600, test_policy());
    let pending = c.begin(t, &ctx, NOW).unwrap();
    let mut exec = c.on_capabilities(pending, Some(ChainCapabilities::bitcoin()), Some(ChainCapabilities::bitcoin())).unwrap();
    assert_eq!(exec.next_action(), ExecutionAction::Lock { delay_nanos: 0 });
    assert!(c.on_lock_reply(&mut exec, Err(AdapterError::RpcError("x".to_string())), 10).is_none());
    assert_eq!(exec.next_action(), ExecutionAction::Lock { delay_nanos: 5_000_000_000 });
}

#[test]
fn sub_second_retry_delay_is_kept() {
    let mut c = coordinator();
    let t = transfer("test-short-delay", 8);
    let mut policy = test_policy();
    policy.retry_delay_nanos = 250_000_000;
    let ctx = ctx_for(&t, NOW + 3600, policy);
    let pending = c.begin(t, &ctx, NOW).unwrap();
    let mut exec = c.on_capabilities(pending, Some(ChainCapabilities::bitcoin()), Some(ChainCapabilities::bitcoin())).unwrap();
    assert!(c.on_lock_reply(&mut exec, Err(AdapterError::RpcError("x".to_string())), 10).is_none());
    assert_eq!(exec.next_action(), ExecutionAction::Lock { delay_nanos: 250_000_000 });
}

#[test]
fn missing_finality_depth_is_an_error() {
    let mut c = coordinator();
    let t = transfer("test-depth", 8);
    let ctx = ctx_for(&t, NOW + 3600, RuntimePolicy::new());
    let r = execute(&mut c, t, Some(ChainCapabilities::bitcoin()), &ctx, &ok_lock, &ok_mint, Ok(good_verification()));
    assert!(matches!(r, Err(TransferCoordinatorError::RuntimeError(ref m)) if m == "No finality depth configured for chain: test-chain"));
}

#[test]
fn weak_verification_is_refused() {
    let mut c = coordinator();
    let t = transfer("test-weak", 10);
    let ctx = ctx_for(&t, NOW + 3600, test_policy());
    let mut v = good_verification();
    v.verified_components.ownership_signature = false;
    let r = execute(&mut c, t, Some(ChainCapabilities::bitcoin()), &ctx, &ok_lock, &ok_mint, Ok(v));
    assert!(matches!(r, Err(TransferCoordinatorError::VerificationFailed(ref m)) if m == "ownership signature required"));
}

#[test]
fn failed_mint_rolls_back_replay_entry() {
    let mut c = coordinator();
    let t = transfer("test-malicious", 11);
    let ctx = ctx_for(&t, NOW + 3600, test_policy());
    let bad_mint = |_: u32| Err(AdapterError::InvalidProof("Malicious proof bundle detected".to_string()));
    let r = execute(&mut c, t.clone(), Some(ChainCapabilities::bitcoin()), &ctx, &ok_lock, &bad_mint, Ok(good_verification()));
    assert!(matches!(r, Err(TransferCoordinatorError::MintFailed(ref m)) if m == "Invalid proof: Malicious proof bundle detected"));
    // A rolled-back entry still refuses a replay.
    let r = execute(&mut c, t, Some(ChainCapabilities::bitcoin()), &ctx, &ok_lock, &ok_mint, Ok(good_verification()));
    assert!(matches!(r, Err(TransferCoordinatorError::ReplayDetected(_))));
}

#[test]
fn open_breaker_blocks_requests() {
    let mut c = coordinator();
    let t = transfer("test-circuit", 12);
    let ctx = ctx_for(&t, NOW + 3600, test_policy());
    let failing = |_: u32| Err(AdapterError::RpcError("down".to_string()));
    // Four attempts (three retries) fail; a second run's failures open the breaker.
    let _ = execute(&mut c, t, Some(ChainCapabilities::bitcoin()), &ctx, &failing, &ok_mint, Ok(good_verification()));
    let t2 = transfer("test-circuit-2", 13);
    let ctx2 = ctx_for(&t2, NOW + 3600, test_policy());
    let _ = execute(&mut c, t2, Some(ChainCapabilities::bitcoin()), &ctx2, &failing, &ok_mint, Ok(good_verification()));
    assert_eq!(c.circuit_breaker().state(), CircuitBreakerState::Open);
    let t3 = transfer("test-circuit-3", 14);
    let ctx3 = ctx_for(&t3, NOW + 3600, test_policy());
    let r = execute(&mut c, t3, Some(ChainCapabilities::bitcoin()), &ctx3, &ok_lock, &ok_mint, Ok(good_verification()));
    assert!(matches!(r, Err(TransferCoordinatorError::RuntimeError(ref m)) if m == "Circuit breaker is open - RPC calls blocked"));
}

#[test]
fn health_monitor_mode_transition() {
    let mut c = coordinator();
    assert_eq!(c.health_status(), HealthStatus::Healthy);
    c.record_health_check(HealthCheck {
        component: "rpc".to_string(),
        healthy: false,
        error: Some("RPC connection failed".to_string()),
        timestamp_secs: NOW,
    });
    assert_eq!(c.health_status(), HealthStatus::Degraded);
    assert_eq!(c.health_monitor().mode(), RuntimeMode::Degraded);
    c.record_health_check(HealthCheck { component: "rpc".to_string(), healthy: true, error: None, timestamp_secs: NOW + 1 });
    assert_eq!(c.health_status(), HealthStatus::Healthy);
    assert_eq!(c.health_monitor().mode(), RuntimeMode::Normal);
}

#[test]
fn circuit_breaker_opens_recovers_and_closes() {
    let mut b = CircuitBreaker::new();
    for _ in 0..4 {
        b.record_failure_at(100);
        assert_eq!(b.state(), CircuitBreakerState::Closed);
    }
    b.record_failure_at(100);
    assert_eq!(b.state(), CircuitBreakerState::Open);
    assert!(!b.allow_request());
    assert!(!b.attempt_recovery_at(120));
    assert_eq!(b.state(), CircuitBreakerState::Open);
    assert!(b.attempt_recovery_at(150));
    assert_eq!(b.state(), CircuitBreakerState::HalfOpen);
    b.record_success();
    assert_eq!(b.state(), CircuitBreakerState::HalfOpen);
    b.record_success();
    assert_eq!(b.state(), CircuitBreakerState::Closed);
}

#[test]
fn half_open_breaker_reopens_on_failure() {
    let mut b = CircuitBreaker::new();
    for _ in 0..5 {
        b.record_failure();
    }
    assert_eq!(b.state(), CircuitBreakerState::Open);
    let start = std::time::Instant::now();
    while start.elapsed() < std::time::Duration::from_millis(100) {}
    assert!(b.attempt_recovery());
    assert_eq!(b.state(), CircuitBreakerState::HalfOpen);
    b.record_failure_at(5);
    assert_eq!(b.state(), CircuitBreakerState::Open);
}

#[test]
fn runtime_modes() {
    assert!(!RuntimeMode::Normal.allows_rpc_fallback());
    assert!(RuntimeMode::Degraded.allows_rpc_fallback());
    assert!(RuntimeMode::Unsafe.allows_rpc_fallback());
    assert!(RuntimeMode::Unsafe.requires_operator_confirmation());
    assert!(!RuntimeMode::Degraded.requires_operator_confirmation());
}

#[test]
fn late_subscriber_sees_only_later_events() {
    let mut bus = EventBus::new();
    bus.emit(TransferEvent::Locking { transfer_id: "a".to_string() });
    bus.subscribe(EventSubscriber { name: "late".to_string() });
    bus.emit(TransferEvent::Minting { transfer_id: "a".to_string() });
    assert_eq!(bus.subscriber_count(), 1);
    assert_eq!(bus.delivered_to(0), vec![TransferEvent::Minting { transfer_id: "a".to_string() }]);
}

#[test]
fn test_registry_registers_and_retrieves_adapter() {
    let mut registry = AdapterRegistryImpl::new();
    registry.register(TestAdapter { id: "mock-chain", caps: ChainCapabilities::bitcoin() });
    assert!(registry.get("mock-chain").is_some());
    assert!(registry.get("other").is_none());
    assert_eq!(registry.capabilities("mock-chain"), Some(&ChainCapabilities::bitcoin()));
    registry.register(TestAdapter { id: "mock-chain", caps: ChainCapabilities::celestia() });
    assert_eq!(registry.capabilities("mock-chain"), Some(&ChainCapabilities::celestia()));
}

#[test]
fn adapter_error_texts() {
    assert_eq!(AdapterError::RpcError("x".to_string()).to_text(), "RPC error: x");
    assert_eq!(AdapterError::TxFailed("x".to_string()).to_text(), "Transaction failed: x");
    assert_eq!(AdapterError::SealNotFound("x".to_string()).to_text(), "Seal not found: x");
    assert_eq!(AdapterError::Generic("x".to_string()).to_text(), "Adapter error: x");
}

#[test]
fn lease_activity() {
    let t = transfer("lease", 1);
    let ctx = ctx_for(&t, NOW, test_policy());
    assert!(ctx.lease.is_active(NOW - 1));
    assert!(!ctx.lease.is_active(NOW));
}

#[test]
fn consume_if_unconsumed_states() {
    let mut db = InMemoryReplayDb::new();
    let id = csv_adapter::proof_bundle::ReplayId([5u8; 32]);
    db.consume_if_unconsumed(&id).unwrap();
    assert!(db.contains(&id).unwrap());
    assert!(matches!(db.consume_if_unconsumed(&id), Err(ReplayDbError::AlreadyExists)));
    db.confirm_consumed(&id).unwrap();
    db.consume_if_unconsumed(&id).unwrap();
    let _ = ReplayEntryState::Consumed;
}

#[test]
fn failed_verification_is_reported() {
    let mut c = coordinator();
    let t = transfer("test-unverified", 15);
    let ctx = ctx_for(&t, NOW + 3600, test_policy());
    let r = execute(&mut c, t, Some(ChainCapabilities::bitcoin()), &ctx, &ok_lock, &ok_mint, Err(VerificationFailure::InvalidMerklePath));
    assert!(matches!(r, Err(TransferCoordinatorError::VerificationFailed(ref m)) if m == "Invalid Merkle path"));
}
