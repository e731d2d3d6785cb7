//! The transfer coordinator: the single place where a cross-chain transfer
//! is executed.
//!
//! An execution checks the lease, records the transfer's replay identity,
//! asks for and checks both chains' capabilities, then locks on the source chain,
//! waits for finality, builds and verifies the proof, and mints on the
//! destination chain. The chain operations are asked of the caller through
//! `TransferExecution::next_action`; each reply is handed back to the
//! coordinator, which decides the next step and keeps the replay database,
//! the event log and the circuit breaker.

use vstd::prelude::*;
use vstd::string::StringExecFns;

use crate::adapter_registry::{adapter_error_text, AdapterError, CrossChainTransfer, LockResult, MintResult};
use crate::event_bus::{EventBus, EventSubscriber, TransferEvent};
use crate::hash::tagged_hash_spec;
use crate::lease::RuntimeExecutionContext;
use crate::proof_bundle::{replay_id_preimage, replay_id_tag, ReplayId};
use crate::replay_db::{replay_db_error_text, InMemoryReplayDb, ReplayDatabase, ReplayDbError, ReplayEntryState};
use crate::runtime_error::TransferCoordinatorError;
use crate::runtime_mode::{after_failure, after_success, health_of, CircuitBreaker, HealthCheck, HealthMonitor, HealthStatus};
use crate::verified::{
    failure_text, shortfall_text, threshold_shortfall, ChainCapabilities, VerificationFailure,
    VerificationResult,
};

verus! {

/// Receipt of a completed transfer.
#[derive(Debug, Clone)]
pub struct TransferReceipt {
    /// The transfer.
    pub transfer_id: String,
    /// The replay identity recorded for the transfer.
    pub replay_id: ReplayId,
    /// Transaction hash of the lock on the source chain.
    pub lock_tx_hash: String,
    /// Transaction hash of the mint on the destination chain.
    pub mint_tx_hash: String,
}

/// The replay identity of a transfer: derived from its source chain, lock
/// transaction and output, sanad, transition and destination chain.
pub open spec fn transfer_replay_id(t: CrossChainTransfer) -> Seq<u8> {
    tagged_hash_spec(
        replay_id_tag(),
        replay_id_preimage(
            vstd::utf8::encode_utf8(t.source_chain@),
            t.lock_tx_hash@,
            t.lock_output_index,
            t.sanad_id@,
            t.transition_id@,
            vstd::utf8::encode_utf8(t.destination_chain@),
        ),
    )
}

/// Why the lease does not authorize the transfer at `now_secs`, if it does
/// not.
pub open spec fn lease_failure(ctx: RuntimeExecutionContext, t: CrossChainTransfer, now_secs: u64) -> Option<
    Seq<char>,
> {
    if ctx.lease.transfer_id@ != t.sanad_id@ {
        Some("Lease transfer_id does not match transfer SanadId"@)
    } else if !(now_secs < ctx.lease.expires_at_secs) {
        Some("Lease is expired"@)
    } else {
        None
    }
}

/// Whether the identity is refused to the transfer `tid`: the replay
/// database holds it, and either not as `Consumed`, or as consumed by
/// another transfer or by none that the coordinator recorded.
pub open spec fn replay_refused(
    db: Map<Seq<u8>, ReplayEntryState>,
    consumers: Map<Seq<u8>, Seq<char>>,
    id: Seq<u8>,
    tid: Seq<char>,
) -> bool {
    db.contains_key(id) && (db[id] != ReplayEntryState::Consumed || !(consumers.contains_key(id)
        && consumers[id] == tid))
}

/// Whether a mint of transfer `tid` can be confirmed: its identity is
/// pending, or already consumed by this same transfer.
pub open spec fn mint_confirmable(
    db: Map<Seq<u8>, ReplayEntryState>,
    consumers: Map<Seq<u8>, Seq<char>>,
    id: Seq<u8>,
    tid: Seq<char>,
) -> bool {
    db.contains_key(id) && (db[id] == ReplayEntryState::Pending || (db[id]
        == ReplayEntryState::Consumed && consumers.contains_key(id) && consumers[id] == tid))
}

/// Whether every identity with a recorded consumer is consumed in `db`.
pub open spec fn consumers_consumed(
    consumers: Map<Seq<u8>, Seq<char>>,
    db: Map<Seq<u8>, ReplayEntryState>,
) -> bool {
    forall|k: Seq<u8>| #[trigger]
        consumers.contains_key(k) ==> db.contains_key(k) && db[k] == ReplayEntryState::Consumed
}

proof fn lemma_consumers_stay_consumed(
    consumers: Map<Seq<u8>, Seq<char>>,
    db: Map<Seq<u8>, ReplayEntryState>,
    id: Seq<u8>,
    tid: Seq<char>,
)
    requires
        consumers_consumed(consumers, db),
    ensures
        consumers_consumed(consumers, recorded(db, id)),
        consumers_consumed(consumers, rolled_back(db, id)),
        consumers_consumed(consumers.insert(id, tid), db.insert(id, ReplayEntryState::Consumed)),
{
    assert forall|k: Seq<u8>| #[trigger] consumers.contains_key(k) implies recorded(db, id).contains_key(k)
        && recorded(db, id)[k] == ReplayEntryState::Consumed by {
        assert(db.contains_key(k));
    }
    assert forall|k: Seq<u8>| #[trigger] consumers.contains_key(k) implies rolled_back(db, id).contains_key(k)
        && rolled_back(db, id)[k] == ReplayEntryState::Consumed by {
        assert(db.contains_key(k));
    }
    assert forall|k: Seq<u8>| #[trigger] consumers.insert(id, tid).contains_key(k) implies db.insert(
        id,
        ReplayEntryState::Consumed,
    ).contains_key(k) && db.insert(id, ReplayEntryState::Consumed)[k] == ReplayEntryState::Consumed by {
        if k != id {
            assert(consumers.contains_key(k));
        }
    }
}

/// The transfer recorded for each identity in a log of consumptions: the
/// first entry for the identity.
pub open spec fn consumer_map(log: Seq<(ReplayId, String)>) -> Map<Seq<u8>, Seq<char>>
    decreases log.len(),
{
    if log.len() == 0 {
        Map::empty()
    } else {
        let m = consumer_map(log.drop_last());
        if m.contains_key(log.last().0@) {
            m
        } else {
            m.insert(log.last().0@, log.last().1@)
        }
    }
}

proof fn lemma_consumer_absent(log: Seq<(ReplayId, String)>, id: Seq<u8>)
    requires
        forall|k: int| 0 <= k < log.len() ==> (#[trigger] log[k]).0@ != id,
    ensures
        !consumer_map(log).contains_key(id),
    decreases log.len(),
{
    if log.len() > 0 {
        let pre = log.drop_last();
        assert forall|k: int| 0 <= k < pre.len() implies (#[trigger] pre[k]).0@ != id by {
            assert(pre[k] == log[k]);
        }
        lemma_consumer_absent(pre, id);
    }
}

proof fn lemma_consumer_first(log: Seq<(ReplayId, String)>, i: int)
    requires
        0 <= i < log.len(),
        forall|k: int| 0 <= k < i ==> (#[trigger] log[k]).0@ != log[i].0@,
    ensures
        consumer_map(log).contains_key(log[i].0@),
        consumer_map(log)[log[i].0@] == log[i].1@,
    decreases log.len(),
{
    let pre = log.drop_last();
    if i == log.len() - 1 {
        assert forall|k: int| 0 <= k < pre.len() implies (#[trigger] pre[k]).0@ != log[i].0@ by {
            assert(pre[k] == log[k]);
        }
        lemma_consumer_absent(pre, log[i].0@);
    } else {
        assert(pre[i] == log[i]);
        assert forall|k: int| 0 <= k < i implies (#[trigger] pre[k]).0@ != pre[i].0@ by {
            assert(pre[k] == log[k]);
        }
        lemma_consumer_first(pre, i);
    }
}

proof fn lemma_consumer_push(log: Seq<(ReplayId, String)>, e: (ReplayId, String))
    ensures
        consumer_map(log.push(e)) == (if consumer_map(log).contains_key(e.0@) {
            consumer_map(log)
        } else {
            consumer_map(log).insert(e.0@, e.1@)
        }),
{
    assert(log.push(e).drop_last() =~= log);
}

/// The database after the identity is accepted: a fresh identity becomes
/// `Pending`, a consumed one stays.
pub open spec fn recorded(db: Map<Seq<u8>, ReplayEntryState>, id: Seq<u8>) -> Map<Seq<u8>, ReplayEntryState> {
    if db.contains_key(id) {
        db
    } else {
        db.insert(id, ReplayEntryState::Pending)
    }
}

/// The database after a failed transfer's entry is rolled back: a pending
/// entry becomes `RolledBack`, any other stays.
pub open spec fn rolled_back(db: Map<Seq<u8>, ReplayEntryState>, id: Seq<u8>) -> Map<Seq<u8>, ReplayEntryState> {
    if db.contains_key(id) && db[id] == ReplayEntryState::Pending {
        db.insert(id, ReplayEntryState::RolledBack)
    } else {
        db
    }
}

/// Whether an execution gets past the lease and the replay check.
pub open spec fn proceeds(
    db: Map<Seq<u8>, ReplayEntryState>,
    consumers: Map<Seq<u8>, Seq<char>>,
    ctx: RuntimeExecutionContext,
    t: CrossChainTransfer,
    now_secs: u64,
) -> bool {
    lease_failure(ctx, t, now_secs) is None && !replay_refused(db, consumers, transfer_replay_id(t), t.id@)
}

/// Whether both chains are known and can take part in a transfer that
/// mints.
pub open spec fn caps_ok(source: Option<ChainCapabilities>, destination: Option<ChainCapabilities>) -> bool {
    &&& source is Some
    &&& source.unwrap().mint_capable
    &&& destination is Some
    &&& destination.unwrap().mint_capable
}

/// The message of a refused circuit breaker.
pub open spec fn breaker_open_text() -> Seq<char> {
    "Circuit breaker is open - RPC calls blocked"@
}

/// Where an execution stands: the chain operation it waits for.
#[derive(Clone, Copy, Debug, PartialEq, Eq, Structural)]
pub enum ExecutionStep {
    /// Waits for the lock on the source chain.
    Lock,
    /// Waits for the finality check of the lock.
    Finality,
    /// Waits for the inclusion proof to be built.
    BuildProof,
    /// Waits for the proof's verification.
    VerifyProof,
    /// Waits for the mint on the destination chain.
    Mint,
}

/// What the caller of an execution has to do next.
#[derive(Clone, Copy, Debug, PartialEq, Eq, Structural)]
pub enum ExecutionAction {
    /// Lock the sanad on the source chain, after waiting `delay_nanos`.
    Lock {
        /// Nanoseconds to wait first.
        delay_nanos: u128,
    },
    /// Verify the finality of the block at this height on the source chain.
    VerifyFinality {
        /// Height of the lock's block.
        block_height: u64,
    },
    /// Build the inclusion proof of the lock.
    BuildProof,
    /// Verify the built proof bundle.
    VerifyProof,
    /// Mint on the destination chain with the proof, after waiting
    /// `delay_nanos`.
    Mint {
        /// Nanoseconds to wait first.
        delay_nanos: u128,
    },
}

/// An execution that passed the lease and the replay check: it waits for
/// the registry's capabilities of its transfer's source and destination
/// chains, to be handed to `TransferCoordinator::on_capabilities`.
#[derive(Debug, Clone)]
pub struct PendingExecution {
    /// The transfer.
    pub transfer: CrossChainTransfer,
    /// Its replay identity, recorded in the replay database.
    pub replay_id: ReplayId,
    /// The finality depth that the policy sets for the source chain.
    pub finality_depth: Option<u64>,
    /// Retries allowed after a failed lock or mint.
    pub max_retries: u32,
    /// Nanoseconds between attempts.
    pub retry_delay_nanos: u128,
}

impl PendingExecution {
    /// Whether this is the pending execution of `transfer` under `policy`.
    pub open spec fn of(self, transfer: CrossChainTransfer, policy: crate::policy::RuntimePolicy) -> bool {
        &&& self.transfer == transfer
        &&& self.replay_id@ == transfer_replay_id(transfer)
        &&& self.finality_depth == (if policy.depths().contains_key(transfer.source_chain@) {
            Some(policy.depths()[transfer.source_chain@])
        } else {
            None
        })
        &&& self.max_retries == policy.max_retries
        &&& self.retry_delay_nanos == policy.retry_delay_nanos
    }
}

/// One execution of a transfer, between chain operations.
#[derive(Debug, Clone)]
pub struct TransferExecution {
    /// The transfer.
    pub transfer: CrossChainTransfer,
    /// Its replay identity, recorded in the replay database.
    pub replay_id: ReplayId,
    /// The source chain's capabilities.
    pub source_caps: ChainCapabilities,
    /// The finality depth that the policy sets for the source chain.
    pub finality_depth: Option<u64>,
    /// Retries allowed after a failed lock or mint.
    pub max_retries: u32,
    /// Nanoseconds between attempts.
    pub retry_delay_nanos: u128,
    /// The operation the execution waits for.
    pub step: ExecutionStep,
    /// Failed attempts of the current operation so far.
    pub attempt: u32,
    /// The lock, once it succeeded.
    pub lock_result: Option<LockResult>,
}

impl TransferExecution {
    /// The lock is known past the lock step, the finality depth past the
    /// finality step, and attempts stay within the retries.
    pub open spec fn wf(self) -> bool {
        &&& self.attempt <= self.max_retries
        &&& !(self.step is Lock) ==> self.lock_result is Some && self.finality_depth is Some
    }

    /// Whether the execution is the fresh continuation of `pending`, from a
    /// source chain with capabilities `caps`: it waits for the first lock
    /// attempt.
    pub open spec fn starts(self, pending: PendingExecution, caps: ChainCapabilities) -> bool {
        &&& self.wf()
        &&& self.step is Lock
        &&& self.attempt == 0
        &&& self.lock_result is None
        &&& self.transfer == pending.transfer
        &&& self.replay_id == pending.replay_id
        &&& self.source_caps == caps
        &&& self.finality_depth == pending.finality_depth
        &&& self.max_retries == pending.max_retries
        &&& self.retry_delay_nanos == pending.retry_delay_nanos
    }

    /// Whether `other` is the same execution of the same transfer.
    pub open spec fn same_run(self, other: TransferExecution) -> bool {
        &&& other.transfer == self.transfer
        &&& other.replay_id == self.replay_id
        &&& other.source_caps == self.source_caps
        &&& other.finality_depth == self.finality_depth
        &&& other.max_retries == self.max_retries
        &&& other.retry_delay_nanos == self.retry_delay_nanos
    }

    /// What the caller has to do next.
    pub fn next_action(&self) -> (a: ExecutionAction)
        requires
            self.wf(),
        ensures
            a == match self.step {
                ExecutionStep::Lock => ExecutionAction::Lock {
                    delay_nanos: if self.attempt == 0 {
                        0
                    } else {
                        self.retry_delay_nanos
                    },
                },
                ExecutionStep::Finality => ExecutionAction::VerifyFinality {
                    block_height: self.lock_result.unwrap().block_height,
                },
                ExecutionStep::BuildProof => ExecutionAction::BuildProof,
                ExecutionStep::VerifyProof => ExecutionAction::VerifyProof,
                ExecutionStep::Mint => ExecutionAction::Mint {
                    delay_nanos: if self.attempt == 0 {
                        0
                    } else {
                        self.retry_delay_nanos
                    },
                },
            },
    {
        let delay_nanos = if self.attempt == 0 {
            0
        } else {
            self.retry_delay_nanos
        };
        match self.step {
            ExecutionStep::Lock => ExecutionAction::Lock { delay_nanos },
            ExecutionStep::Finality => {
                let block_height = match &self.lock_result {
                    Some(l) => l.block_height,
                    None => 0,
                };
                ExecutionAction::VerifyFinality { block_height }
            },
            ExecutionStep::BuildProof => ExecutionAction::BuildProof,
            ExecutionStep::VerifyProof => ExecutionAction::VerifyProof,
            ExecutionStep::Mint => ExecutionAction::Mint { delay_nanos },
        }
    }
}

/// The single source of truth for cross-chain transfer execution.
pub struct TransferCoordinator {
    replay_db: InMemoryReplayDb,
    /// Each identity whose mint was confirmed here, with its transfer.
    consumed_by: Vec<(ReplayId, String)>,
    event_bus: EventBus,
    circuit_breaker: CircuitBreaker,
    health_monitor: HealthMonitor,
}

impl TransferCoordinator {
    /// The circuit breaker's counters are consistent, and every identity
    /// with a recorded consumer is consumed in the replay database.
    pub closed spec fn wf(self) -> bool {
        &&& self.circuit_breaker.wf()
        &&& consumers_consumed(self.consumers(), self.replays())
    }

    /// The transfer that consumed each identity whose mint this coordinator
    /// confirmed.
    pub closed spec fn consumers(self) -> Map<Seq<u8>, Seq<char>> {
        consumer_map(self.consumed_by@)
    }

    /// The replay database.
    pub closed spec fn replays(self) -> Map<Seq<u8>, ReplayEntryState> {
        self.replay_db@
    }

    /// The events emitted so far.
    pub closed spec fn events(self) -> Seq<TransferEvent> {
        self.event_bus.log()
    }

    /// The subscribers to the events.
    pub closed spec fn subscriptions(self) -> Seq<(EventSubscriber, usize)> {
        self.event_bus.subscriptions()
    }

    /// The circuit breaker over RPC calls.
    pub closed spec fn breaker(self) -> CircuitBreaker {
        self.circuit_breaker
    }

    /// Each checked component with the health of its latest check.
    pub closed spec fn health(self) -> Map<Seq<char>, bool> {
        self.health_monitor.latest()
    }

    /// A coordinator over a replay database and an event bus, with a
    /// closed circuit breaker and no health checks.
    pub fn new(replay_db: InMemoryReplayDb, event_bus: EventBus) -> (c: TransferCoordinator)
        ensures
            c.wf(),
            c.replays() == replay_db@,
            c.consumers() == Map::<Seq<u8>, Seq<char>>::empty(),
            c.events() == event_bus.log(),
            c.subscriptions() == event_bus.subscriptions(),
            c.breaker().state is Closed,
            c.breaker().failure_count == 0,
            c.breaker().success_count == 0,
            c.health() == Map::<Seq<char>, bool>::empty(),
    {
        TransferCoordinator {
            replay_db,
            consumed_by: Vec::new(),
            event_bus,
            circuit_breaker: CircuitBreaker::new(),
            health_monitor: HealthMonitor::new(),
        }
    }

    /// The circuit breaker.
    pub fn circuit_breaker(&self) -> (b: &CircuitBreaker)
        ensures
            *b == self.breaker(),
    {
        &self.circuit_breaker
    }

    /// The health monitor.
    pub fn health_monitor(&self) -> (m: &HealthMonitor)
        ensures
            m.latest() == self.health(),
    {
        &self.health_monitor
    }

    /// The replay database.
    pub fn replay_db(&self) -> (d: &InMemoryReplayDb)
        ensures
            d@ == self.replays(),
    {
        &self.replay_db
    }

    /// The event bus.
    pub fn event_bus(&self) -> (b: &EventBus)
        ensures
            b.log() == self.events(),
            b.subscriptions() == self.subscriptions(),
    {
        &self.event_bus
    }

    /// Records a health check.
    pub fn record_health_check(&mut self, check: HealthCheck)
        requires
            old(self).wf(),
        ensures
            final(self).wf(),
            final(self).health() == old(self).health().insert(check.component@, check.healthy),
            final(self).replays() == old(self).replays(),
            final(self).consumers() == old(self).consumers(),
            final(self).events() == old(self).events(),
            final(self).subscriptions() == old(self).subscriptions(),
            final(self).breaker() == old(self).breaker(),
    {
        self.health_monitor.record_check(check);
    }

    /// The current health status.
    pub fn health_status(&self) -> (s: HealthStatus)
        ensures
            s == health_of(self.health()),
    {
        self.health_monitor.status()
    }

    /// Tries to take the circuit breaker out of the open state; returns
    /// whether requests may go out afterwards.
    pub fn attempt_circuit_breaker_recovery(&mut self) -> (r: bool)
        requires
            old(self).wf(),
        ensures
            final(self).wf(),
            r == !(final(self).breaker().state is Open),
            !(old(self).breaker().state is Open) ==> final(self).breaker() == old(self).breaker(),
            old(self).breaker().state is Open ==> final(self).breaker() == old(self).breaker() || (
            final(self).breaker().state is HalfOpen && final(self).breaker().success_count == 0
                && final(self).breaker().failure_count == 0 && final(self).breaker().opened_at_ms
                == old(self).breaker().opened_at_ms),
            final(self).replays() == old(self).replays(),
            final(self).consumers() == old(self).consumers(),
            final(self).events() == old(self).events(),
            final(self).subscriptions() == old(self).subscriptions(),
            final(self).health() == old(self).health(),
    {
        self.circuit_breaker.attempt_recovery()
    }

    /// Subscribes to transfer events.
    pub fn subscribe(&mut self, subscriber: EventSubscriber)
        requires
            old(self).wf(),
        ensures
            final(self).wf(),
            final(self).subscriptions() == old(self).subscriptions().push(
                (subscriber, old(self).events().len() as usize),
            ),
            final(self).events() == old(self).events(),
            final(self).replays() == old(self).replays(),
            final(self).consumers() == old(self).consumers(),
            final(self).breaker() == old(self).breaker(),
            final(self).health() == old(self).health(),
    {
        self.event_bus.subscribe(subscriber);
    }

    /// Whether the coordinator recorded `tid` as the transfer that consumed
    /// the identity.
    pub fn consumed_by_transfer(&self, id: &ReplayId, tid: &str) -> (r: bool)
        ensures
            r == (self.consumers().contains_key(id@) && self.consumers()[id@] == tid@),
    {
        let mut i: usize = 0;
        while i < self.consumed_by.len()
            invariant
                i <= self.consumed_by@.len(),
                forall|k: int| 0 <= k < i ==> (#[trigger] self.consumed_by@[k]).0@ != id@,
            decreases self.consumed_by@.len() - i,
        {
            if self.consumed_by[i].0 == *id {
                proof {
                    lemma_consumer_first(self.consumed_by@, i as int);
                }
                return crate::text::same_text(self.consumed_by[i].1.as_str(), tid);
            }
            i = i + 1;
        }
        proof {
            lemma_consumer_absent(self.consumed_by@, id@);
        }
        false
    }

    /// Starts executing `transfer` under `ctx` at `now_secs`: checks the
    /// lease and records the replay identity. What comes back waits for the
    /// capabilities of both chains; no chain is asked anything before the
    /// lease and the replay check pass.
    pub fn begin(
        &mut self,
        transfer: CrossChainTransfer,
        ctx: &RuntimeExecutionContext,
        now_secs: u64,
    ) -> (r: Result<PendingExecution, TransferCoordinatorError>)
        requires
            old(self).wf(),
        ensures
            final(self).wf(),
            final(self).breaker() == old(self).breaker(),
            final(self).consumers() == old(self).consumers(),
            final(self).health() == old(self).health(),
            final(self).subscriptions() == old(self).subscriptions(),
            lease_failure(*ctx, transfer, now_secs) is Some ==> (r matches Err(TransferCoordinatorError::RuntimeError(e)) && e@ == lease_failure(*ctx, transfer, now_secs).unwrap()),
            lease_failure(*ctx, transfer, now_secs) is Some ==> final(self).replays() == old(
                self).replays() && final(self).events() == old(self).events(),
            lease_failure(*ctx, transfer, now_secs) is None && replay_refused(
                old(self).replays(),
                old(self).consumers(),
                transfer_replay_id(transfer),
                transfer.id@,
            ) ==> (r matches Err(TransferCoordinatorError::ReplayDetected(id)) && id@
                == transfer_replay_id(transfer)),
            lease_failure(*ctx, transfer, now_secs) is None && replay_refused(
                old(self).replays(),
                old(self).consumers(),
                transfer_replay_id(transfer),
                transfer.id@,
            ) ==> final(self).replays() == old(self).replays() && final(self).events() == old(
                self).events().push(TransferEvent::ReplayDetected { transfer_id: transfer.id }),
            proceeds(old(self).replays(), old(self).consumers(), *ctx, transfer, now_secs) ==> {
                &&& final(self).replays() == recorded(old(self).replays(), transfer_replay_id(transfer))
                &&& final(self).events() == old(self).events()
                &&& r is Ok && r.unwrap().of(transfer, ctx.policy)
            },
    {
        if ctx.lease.transfer_id != transfer.sanad_id {
            return Err(
                TransferCoordinatorError::RuntimeError(
                    String::from_str("Lease transfer_id does not match transfer SanadId"),
                ),
            );
        }
        if !ctx.lease.is_active(now_secs) {
            return Err(TransferCoordinatorError::RuntimeError(String::from_str("Lease is expired")));
        }
        let replay_id = ReplayId::derive(
            transfer.source_chain.as_str(),
            transfer.lock_tx_hash.as_slice(),
            transfer.lock_output_index,
            transfer.sanad_id.0.as_slice(),
            transfer.transition_id.as_slice(),
            transfer.destination_chain.as_str(),
        );
        assert(replay_id@ == transfer_replay_id(transfer));
        let refused = match self.replay_db.state_of(&replay_id) {
            Some(ReplayEntryState::Consumed) => !self.consumed_by_transfer(&replay_id, transfer.id.as_str()),
            Some(_) => true,
            None => false,
        };
        if refused {
            self.event_bus.emit(TransferEvent::ReplayDetected { transfer_id: transfer.id.clone() });
            return Err(TransferCoordinatorError::ReplayDetected(replay_id));
        }
        let ghost db0 = self.replay_db@;
        match self.replay_db.consume_if_unconsumed(&replay_id) {
            Ok(()) => {},
            Err(ReplayDbError::AlreadyExists) => {
                self.event_bus.emit(TransferEvent::ReplayDetected { transfer_id: transfer.id.clone() });
                return Err(TransferCoordinatorError::ReplayDetected(replay_id));
            },
            Err(ReplayDbError::Storage(m)) => {
                return Err(TransferCoordinatorError::ReplayDbError(m));
            },
        }
        proof {
            lemma_consumers_stay_consumed(self.consumers(), db0, replay_id@, transfer.id@);
        }
        let finality_depth = ctx.policy.finality_depth_for_chain(transfer.source_chain.as_str());
        Ok(
            PendingExecution {
                transfer,
                replay_id,
                finality_depth,
                max_retries: ctx.policy.max_retries,
                retry_delay_nanos: ctx.policy.retry_delay_nanos,
            },
        )
    }

    /// Takes the capabilities that the registry reports for the pending
    /// execution's source and destination chain (`None` for an unknown
    /// chain): both must be able to take part in a minting transfer; then
    /// the lock is announced and, unless the circuit breaker is open, asked
    /// for.
    pub fn on_capabilities(
        &mut self,
        pending: PendingExecution,
        source_caps: Option<ChainCapabilities>,
        destination_caps: Option<ChainCapabilities>,
    ) -> (r: Result<TransferExecution, TransferCoordinatorError>)
        requires
            old(self).wf(),
        ensures
            final(self).wf(),
            final(self).breaker() == old(self).breaker(),
            final(self).replays() == old(self).replays(),
            final(self).consumers() == old(self).consumers(),
            final(self).health() == old(self).health(),
            final(self).subscriptions() == old(self).subscriptions(),
            source_caps is None ==> (r matches Err(TransferCoordinatorError::UnknownChain(c)) && c@ == pending.transfer.source_chain@),
            source_caps is Some && !source_caps.unwrap().mint_capable ==> (r matches Err(TransferCoordinatorError::UnsupportedOperation(m)) && m@ == pending.transfer.source_chain@ + " cannot be a cross-chain source"@),
            source_caps is Some && source_caps.unwrap().mint_capable && destination_caps is None ==> (r matches Err(TransferCoordinatorError::UnknownChain(c)) && c@ == pending.transfer.destination_chain@),
            source_caps is Some && source_caps.unwrap().mint_capable && destination_caps is Some
                && !destination_caps.unwrap().mint_capable ==> (r matches Err(TransferCoordinatorError::UnsupportedOperation(m)) && m@ == pending.transfer.destination_chain@ + " cannot be a cross-chain destination"@),
            !caps_ok(source_caps, destination_caps) ==> final(self).events() == old(self).events(),
            caps_ok(source_caps, destination_caps) ==> final(self).events() == old(self).events().push(
                TransferEvent::Locking { transfer_id: pending.transfer.id },
            ),
            caps_ok(source_caps, destination_caps) && old(self).breaker().state is Open ==> (r matches Err(TransferCoordinatorError::RuntimeError(m)) && m@ == breaker_open_text()),
            caps_ok(source_caps, destination_caps) && !(old(self).breaker().state is Open) ==> r is Ok
                && r.unwrap().starts(pending, source_caps.unwrap()),
    {
        let sc = match source_caps {
            Some(c) => c,
            None => {
                return Err(TransferCoordinatorError::UnknownChain(pending.transfer.source_chain.clone()));
            },
        };
        if !sc.can_authorize_mint() {
            let mut m = pending.transfer.source_chain.clone();
            m.append(" cannot be a cross-chain source");
            return Err(TransferCoordinatorError::UnsupportedOperation(m));
        }
        let dc = match destination_caps {
            Some(c) => c,
            None => {
                return Err(TransferCoordinatorError::UnknownChain(pending.transfer.destination_chain.clone()));
            },
        };
        if !dc.can_authorize_mint() {
            let mut m = pending.transfer.destination_chain.clone();
            m.append(" cannot be a cross-chain destination");
            return Err(TransferCoordinatorError::UnsupportedOperation(m));
        }
        self.event_bus.emit(TransferEvent::Locking { transfer_id: pending.transfer.id.clone() });
        if !self.circuit_breaker.allow_request() {
            return Err(
                TransferCoordinatorError::RuntimeError(
                    String::from_str("Circuit breaker is open - RPC calls blocked"),
                ),
            );
        }
        let PendingExecution { transfer, replay_id, finality_depth, max_retries, retry_delay_nanos } = pending;
        Ok(
            TransferExecution {
                transfer,
                replay_id,
                source_caps: sc,
                finality_depth,
                max_retries,
                retry_delay_nanos,
                step: ExecutionStep::Lock,
                attempt: 0,
                lock_result: None,
            },
        )
    }

    /// Takes the source chain's reply to the lock: a lock waits for
    /// finality; a failure is retried while retries remain, else ends the
    /// execution. `now_ms` times a failure for the circuit breaker.
    pub fn on_lock_reply(
        &mut self,
        exec: &mut TransferExecution,
        reply: Result<LockResult, AdapterError>,
        now_ms: u64,
    ) -> (r: Option<Result<TransferReceipt, TransferCoordinatorError>>)
        requires
            old(self).wf(),
            old(exec).wf(),
            old(exec).step is Lock,
        ensures
            final(self).wf(),
            final(exec).wf(),
            old(exec).same_run(*final(exec)),
            final(self).replays() == old(self).replays(),
            final(self).consumers() == old(self).consumers(),
            final(self).subscriptions() == old(self).subscriptions(),
            final(self).health() == old(self).health(),
            reply is Ok ==> final(self).breaker() == after_success(old(self).breaker())
                && final(self).events() == old(self).events().push(
                TransferEvent::AwaitingFinality { transfer_id: old(exec).transfer.id },
            ),
            reply is Ok && old(exec).finality_depth is None ==> (r matches Some(
                Err(TransferCoordinatorError::RuntimeError(m)),
            ) && m@ == "No finality depth configured for chain: "@ + old(exec).transfer.source_chain@),
            reply is Ok && old(exec).finality_depth is Some ==> r is None && final(exec).step is Finality
                && final(exec).attempt == 0 && final(exec).lock_result == Some(reply.unwrap()),
            reply is Err ==> final(self).breaker() == after_failure(old(self).breaker(), now_ms)
                && final(self).events() == old(self).events(),
            reply is Err && old(exec).attempt < old(exec).max_retries ==> r is None && final(exec).step
                is Lock && final(exec).attempt == old(exec).attempt + 1 && final(exec).lock_result
                == old(exec).lock_result,
            reply is Err && old(exec).attempt >= old(exec).max_retries ==> (r matches Some(
                Err(TransferCoordinatorError::LockFailed(m)),
            ) && m@ == adapter_error_text(reply->Err_0)),
    {
        match reply {
            Ok(l) => {
                self.circuit_breaker.record_success();
                self.event_bus.emit(
                    TransferEvent::AwaitingFinality { transfer_id: exec.transfer.id.clone() },
                );
                if exec.finality_depth.is_none() {
                    let mut m = String::from_str("No finality depth configured for chain: ");
                    m.append(exec.transfer.source_chain.as_str());
                    return Some(Err(TransferCoordinatorError::RuntimeError(m)));
                }
                exec.lock_result = Some(l);
                exec.step = ExecutionStep::Finality;
                exec.attempt = 0;
                None
            },
            Err(e) => {
                self.circuit_breaker.record_failure_at(now_ms);
                if exec.attempt < exec.max_retries {
                    exec.attempt = exec.attempt + 1;
                    None
                } else {
                    Some(Err(TransferCoordinatorError::LockFailed(e.to_text())))
                }
            },
        }
    }

    /// Takes the source chain's reply to the finality check of the lock.
    pub fn on_finality_reply(&mut self, exec: &mut TransferExecution, reply: Result<(), AdapterError>) -> (r:
        Option<Result<TransferReceipt, TransferCoordinatorError>>)
        requires
            old(self).wf(),
            old(exec).wf(),
            old(exec).step is Finality,
        ensures
            final(self).wf(),
            final(exec).wf(),
            old(exec).same_run(*final(exec)),
            final(exec).lock_result == old(exec).lock_result,
            final(self).replays() == old(self).replays(),
            final(self).consumers() == old(self).consumers(),
            final(self).breaker() == old(self).breaker(),
            final(self).subscriptions() == old(self).subscriptions(),
            final(self).health() == old(self).health(),
            reply is Ok ==> r is None && final(exec).step is BuildProof && final(self).events() == old(
                self).events().push(TransferEvent::BuildingProof { transfer_id: old(exec).transfer.id }),
            reply is Err ==> (r matches Some(Err(TransferCoordinatorError::FinalityFailed(m))) && m@
                == adapter_error_text(reply->Err_0)) && final(self).events() == old(self).events(),
    {
        match reply {
            Ok(()) => {
                self.event_bus.emit(
                    TransferEvent::BuildingProof { transfer_id: exec.transfer.id.clone() },
                );
                exec.step = ExecutionStep::BuildProof;
                None
            },
            Err(e) => Some(Err(TransferCoordinatorError::FinalityFailed(e.to_text()))),
        }
    }

    /// Takes the source chain's reply to building the inclusion proof; the
    /// caller keeps the built bundle for verification and minting.
    pub fn on_proof_built(&self, exec: &mut TransferExecution, reply: Result<(), AdapterError>) -> (r:
        Option<Result<TransferReceipt, TransferCoordinatorError>>)
        requires
            old(exec).wf(),
            old(exec).step is BuildProof,
        ensures
            final(exec).wf(),
            old(exec).same_run(*final(exec)),
            final(exec).lock_result == old(exec).lock_result,
            reply is Ok ==> r is None && final(exec).step is VerifyProof,
            reply is Err ==> (r matches Some(Err(TransferCoordinatorError::ProofBuildFailed(m))) && m@
                == adapter_error_text(reply->Err_0)),
    {
        match reply {
            Ok(()) => {
                exec.step = ExecutionStep::VerifyProof;
                None
            },
            Err(e) => Some(Err(TransferCoordinatorError::ProofBuildFailed(e.to_text()))),
        }
    }

    /// Takes the verification of the built proof: it must meet the source
    /// chain's minimums before the mint is asked for. If the circuit
    /// breaker is open then, the transfer's pending replay entry is rolled
    /// back.
    pub fn on_proof_verified(
        &mut self,
        exec: &mut TransferExecution,
        reply: Result<VerificationResult, VerificationFailure>,
    ) -> (r: Option<Result<TransferReceipt, TransferCoordinatorError>>)
        requires
            old(self).wf(),
            old(exec).wf(),
            old(exec).step is VerifyProof,
        ensures
            final(self).wf(),
            final(exec).wf(),
            old(exec).same_run(*final(exec)),
            final(exec).lock_result == old(exec).lock_result,
            final(self).consumers() == old(self).consumers(),
            final(self).breaker() == old(self).breaker(),
            final(self).subscriptions() == old(self).subscriptions(),
            final(self).health() == old(self).health(),
            reply is Err ==> (r matches Some(Err(TransferCoordinatorError::VerificationFailed(m))) && m@
                == failure_text(reply->Err_0)) && final(self).replays() == old(self).replays() && final(self).events()
                == old(self).events(),
            reply is Ok && threshold_shortfall(reply->Ok_0.verified_components, old(exec).source_caps) is Some
                ==> (r matches Some(Err(TransferCoordinatorError::VerificationFailed(m))) && m@
                == shortfall_text(
                threshold_shortfall(reply->Ok_0.verified_components, old(exec).source_caps).unwrap(),
            )) && final(self).replays() == old(self).replays() && final(self).events() == old(
                self).events(),
            reply is Ok && threshold_shortfall(reply->Ok_0.verified_components, old(exec).source_caps) is None
                ==> final(self).events() == old(self).events().push(
                TransferEvent::Minting { transfer_id: old(exec).transfer.id },
            ),
            reply is Ok && threshold_shortfall(reply->Ok_0.verified_components, old(exec).source_caps) is None
                && old(self).breaker().state is Open ==> (r matches Some(
                Err(TransferCoordinatorError::RuntimeError(m)),
            ) && m@ == breaker_open_text()) && final(self).replays() == rolled_back(
                old(self).replays(),
                old(exec).replay_id@,
            ),
            reply is Ok && threshold_shortfall(reply->Ok_0.verified_components, old(exec).source_caps) is None
                && !(old(self).breaker().state is Open) ==> r is None && final(exec).step is Mint
                && final(exec).attempt == 0 && final(self).replays() == old(self).replays(),
    {
        match reply {
            Err(f) => Some(Err(TransferCoordinatorError::VerificationFailed(f.to_text()))),
            Ok(v) => {
                match v.meets_chain_thresholds(&exec.source_caps) {
                    Err(sf) => Some(
                        Err(TransferCoordinatorError::VerificationFailed(String::from_str(sf.to_text()))),
                    ),
                    Ok(()) => {
                        self.event_bus.emit(
                            TransferEvent::Minting { transfer_id: exec.transfer.id.clone() },
                        );
                        if !self.circuit_breaker.allow_request() {
                            let _ = self.replay_db.mark_rolled_back(&exec.replay_id);
                            return Some(
                                Err(
                                    TransferCoordinatorError::RuntimeError(
                                        String::from_str("Circuit breaker is open - RPC calls blocked"),
                                    ),
                                ),
                            );
                        }
                        exec.step = ExecutionStep::Mint;
                        exec.attempt = 0;
                        None
                    },
                }
            },
        }
    }

    /// Takes the destination chain's reply to the mint: a mint confirms the
    /// replay entry as consumed and completes the transfer with its
    /// receipt; a failure is retried while retries remain, else rolls the
    /// pending replay entry back and ends the execution. `now_ms` times a
    /// failure for the circuit breaker.
    pub fn on_mint_reply(
        &mut self,
        exec: &mut TransferExecution,
        reply: Result<MintResult, AdapterError>,
        now_ms: u64,
    ) -> (r: Option<Result<TransferReceipt, TransferCoordinatorError>>)
        requires
            old(self).wf(),
            old(exec).wf(),
            old(exec).step is Mint,
        ensures
            final(self).wf(),
            final(exec).wf(),
            old(exec).same_run(*final(exec)),
            final(exec).lock_result == old(exec).lock_result,
            final(self).subscriptions() == old(self).subscriptions(),
            final(self).health() == old(self).health(),
            reply is Ok ==> final(self).breaker() == after_success(old(self).breaker()),
            reply is Ok && !mint_confirmable(
                old(self).replays(),
                old(self).consumers(),
                old(exec).replay_id@,
                old(exec).transfer.id@,
            ) ==> (r matches Some(Err(TransferCoordinatorError::RuntimeError(m))) && m@
                == "Storage error: "@ + if old(self).replays().contains_key(old(exec).replay_id@) {
                "Entry is not in Pending state"@
            } else {
                "Entry not found"@
            }) && final(self).replays() == old(self).replays() && final(self).consumers() == old(
                self).consumers() && final(self).events() == old(self).events(),
            reply is Ok && mint_confirmable(
                old(self).replays(),
                old(self).consumers(),
                old(exec).replay_id@,
                old(exec).transfer.id@,
            ) ==> {
                &&& final(self).replays() == old(self).replays().insert(
                    old(exec).replay_id@,
                    ReplayEntryState::Consumed,
                )
                &&& final(self).consumers() == old(self).consumers().insert(
                    old(exec).replay_id@,
                    old(exec).transfer.id@,
                )
                &&& final(self).events() == old(self).events().push(
                    TransferEvent::Complete {
                        transfer_id: old(exec).transfer.id,
                        mint_tx_hash: reply->Ok_0.tx_hash,
                    },
                )
                &&& r is Some && r.unwrap() is Ok
                &&& r.unwrap()->Ok_0 == TransferReceipt {
                    transfer_id: old(exec).transfer.id,
                    replay_id: old(exec).replay_id,
                    lock_tx_hash: old(exec).lock_result.unwrap().tx_hash,
                    mint_tx_hash: reply->Ok_0.tx_hash,
                }
            },
            reply is Err ==> final(self).breaker() == after_failure(old(self).breaker(), now_ms)
                && final(self).events() == old(self).events(),
            reply is Err ==> final(self).consumers() == old(self).consumers(),
            reply is Err && old(exec).attempt < old(exec).max_retries ==> r is None && final(exec).step
                is Mint && final(exec).attempt == old(exec).attempt + 1 && final(self).replays() == old(
                self).replays(),
            reply is Err && old(exec).attempt >= old(exec).max_retries ==> (r matches Some(
                Err(TransferCoordinatorError::MintFailed(m)),
            ) && m@ == adapter_error_text(reply->Err_0)) && final(self).replays() == rolled_back(
                old(self).replays(),
                old(exec).replay_id@,
            ),
            r matches Some(Ok(receipt)) ==> final(self).replays().contains_key(receipt.replay_id@)
                && final(self).replays()[receipt.replay_id@] == ReplayEntryState::Consumed,
    {
        match reply {
            Ok(m) => {
                self.circuit_breaker.record_success();
                let ghost db0 = self.replay_db@;
                let ghost cons0 = self.consumers();
                let confirmed_before = match self.replay_db.state_of(&exec.replay_id) {
                    Some(ReplayEntryState::Consumed) => self.consumed_by_transfer(
                        &exec.replay_id,
                        exec.transfer.id.as_str(),
                    ),
                    _ => false,
                };
                if confirmed_before {
                    proof {
                        assert(db0.insert(exec.replay_id@, ReplayEntryState::Consumed) =~= db0);
                        assert(cons0.insert(exec.replay_id@, exec.transfer.id@) =~= cons0);
                    }
                } else {
                    match self.replay_db.confirm_consumed(&exec.replay_id) {
                        Ok(()) => {},
                        Err(e) => {
                            return Some(Err(TransferCoordinatorError::RuntimeError(e.to_text())));
                        },
                    }
                    let ghost log0 = self.consumed_by@;
                    let entry = (exec.replay_id, exec.transfer.id.clone());
                    self.consumed_by.push(entry);
                    proof {
                        lemma_consumer_push(log0, entry);
                        assert(!cons0.contains_key(exec.replay_id@));
                        lemma_consumers_stay_consumed(cons0, db0, exec.replay_id@, exec.transfer.id@);
                    }
                }
                self.event_bus.emit(
                    TransferEvent::Complete {
                        transfer_id: exec.transfer.id.clone(),
                        mint_tx_hash: m.tx_hash.clone(),
                    },
                );
                let lock_tx_hash = match &exec.lock_result {
                    Some(l) => l.tx_hash.clone(),
                    None => String::new(),
                };
                Some(
                    Ok(
                        TransferReceipt {
                            transfer_id: exec.transfer.id.clone(),
                            replay_id: exec.replay_id,
                            lock_tx_hash,
                            mint_tx_hash: m.tx_hash,
                        },
                    ),
                )
            },
            Err(e) => {
                self.circuit_breaker.record_failure_at(now_ms);
                if exec.attempt < exec.max_retries {
                    exec.attempt = exec.attempt + 1;
                    None
                } else {
                    let _ = self.replay_db.mark_rolled_back(&exec.replay_id);
                    Some(Err(TransferCoordinatorError::MintFailed(e.to_text())))
                }
            },
        }
    }
}

/// The coordinator never forgets a transfer: accepting an identity,
/// rolling a failed transfer back and confirming a mint each keep every
/// identity that the replay database holds, and a consumed identity stays
/// consumed through all three.
pub proof fn lemma_replay_entries_persist(
    db: Map<Seq<u8>, ReplayEntryState>,
    id: Seq<u8>,
    other: Seq<u8>,
)
    requires
        db.contains_key(other),
    ensures
        recorded(db, id).contains_key(other),
        recorded(db, id)[other] == db[other],
        rolled_back(db, id).contains_key(other),
        db[other] == ReplayEntryState::Consumed ==> rolled_back(db, id)[other] == ReplayEntryState::Consumed,
        db.contains_key(id) && db[id] == ReplayEntryState::Pending ==> db.insert(
            id,
            ReplayEntryState::Consumed,
        ).contains_key(other),
        db[other] == ReplayEntryState::Consumed ==> db.insert(id, ReplayEntryState::Consumed)[other]
            == ReplayEntryState::Consumed,
{
}

/// A transfer whose identity is pending or rolled back is refused: its
/// replay is detected, whatever the lease and the chains say.
pub proof fn lemma_unfinished_transfer_is_refused(
    db: Map<Seq<u8>, ReplayEntryState>,
    consumers: Map<Seq<u8>, Seq<char>>,
    id: Seq<u8>,
    tid: Seq<char>,
)
    requires
        db.contains_key(id),
        db[id] == ReplayEntryState::Pending || db[id] == ReplayEntryState::RolledBack,
    ensures
        replay_refused(db, consumers, id, tid),
{
}

/// No double spend: once the mint of transfer `t1` is confirmed, its
/// identity is accepted again for `t1` alone, and refused to every other
/// transfer, and a confirmed identity cannot be confirmed for another.
pub proof fn lemma_double_spend_refused(
    db: Map<Seq<u8>, ReplayEntryState>,
    consumers: Map<Seq<u8>, Seq<char>>,
    id: Seq<u8>,
    t1: Seq<char>,
    t2: Seq<char>,
)
    requires
        mint_confirmable(db, consumers, id, t1),
    ensures
        !replay_refused(db.insert(id, ReplayEntryState::Consumed), consumers.insert(id, t1), id, t1),
        mint_confirmable(db.insert(id, ReplayEntryState::Consumed), consumers.insert(id, t1), id, t1),
        t2 != t1 ==> replay_refused(
            db.insert(id, ReplayEntryState::Consumed),
            consumers.insert(id, t1),
            id,
            t2,
        ),
        t2 != t1 ==> !mint_confirmable(
            db.insert(id, ReplayEntryState::Consumed),
            consumers.insert(id, t1),
            id,
            t2,
        ),
{
}

} // verus!
