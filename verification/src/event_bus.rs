//! The transfer event bus: an ordered log of transfer events, of which
//! each subscriber receives those emitted after it subscribed.

use vstd::prelude::*;

verus! {

/// Events of a transfer's execution.
#[derive(Clone, Debug, PartialEq, Eq)]
pub enum TransferEvent {
    /// The sanad is being locked on the source chain.
    Locking {
        /// The transfer.
        transfer_id: String,
    },
    /// The lock waits for finality.
    AwaitingFinality {
        /// The transfer.
        transfer_id: String,
    },
    /// The inclusion proof is being built.
    BuildingProof {
        /// The transfer.
        transfer_id: String,
    },
    /// The sanad is being minted on the destination chain.
    Minting {
        /// The transfer.
        transfer_id: String,
    },
    /// The transfer completed.
    Complete {
        /// The transfer.
        transfer_id: String,
        /// The mint transaction.
        mint_tx_hash: String,
    },
    /// The transfer was already executed.
    ReplayDetected {
        /// The transfer.
        transfer_id: String,
    },
}

impl TransferEvent {
    /// A copy of the event.
    pub fn duplicate(&self) -> (e: TransferEvent)
        ensures
            e == *self,
    {
        match self {
            TransferEvent::Locking { transfer_id } => TransferEvent::Locking {
                transfer_id: transfer_id.clone(),
            },
            TransferEvent::AwaitingFinality { transfer_id } => TransferEvent::AwaitingFinality {
                transfer_id: transfer_id.clone(),
            },
            TransferEvent::BuildingProof { transfer_id } => TransferEvent::BuildingProof {
                transfer_id: transfer_id.clone(),
            },
            TransferEvent::Minting { transfer_id } => TransferEvent::Minting {
                transfer_id: transfer_id.clone(),
            },
            TransferEvent::Complete { transfer_id, mint_tx_hash } => TransferEvent::Complete {
                transfer_id: transfer_id.clone(),
                mint_tx_hash: mint_tx_hash.clone(),
            },
            TransferEvent::ReplayDetected { transfer_id } => TransferEvent::ReplayDetected {
                transfer_id: transfer_id.clone(),
            },
        }
    }
}

/// A subscriber to transfer events.
#[derive(Clone, Debug)]
pub struct EventSubscriber {
    /// The subscriber's name.
    pub name: String,
}

/// The event log and its subscribers, each with the position in the log
/// from which it receives events.
pub struct EventBus {
    events: Vec<TransferEvent>,
    subscribers: Vec<(EventSubscriber, usize)>,
}

impl EventBus {
    #[verifier::type_invariant]
    spec fn inv(self) -> bool {
        forall|i: int| 0 <= i < self.subscribers@.len() ==> (#[trigger] self.subscribers@[i]).1 <= self.events@.len()
    }

    /// Every event emitted, in order.
    pub closed spec fn log(self) -> Seq<TransferEvent> {
        self.events@
    }

    /// Each subscriber with the length of the log when it subscribed.
    pub closed spec fn subscriptions(self) -> Seq<(EventSubscriber, usize)> {
        self.subscribers@
    }

    /// A bus with no events and no subscribers.
    pub fn new() -> (b: EventBus)
        ensures
            b.log().len() == 0,
            b.subscriptions().len() == 0,
    {
        EventBus { events: Vec::new(), subscribers: Vec::new() }
    }

    /// Appends an event to the log.
    pub fn emit(&mut self, event: TransferEvent)
        ensures
            final(self).log() == old(self).log().push(event),
            final(self).subscriptions() == old(self).subscriptions(),
    {
        proof {
            use_type_invariant(&*self);
        }
        let mut bus = EventBus::new();
        std::mem::swap(&mut bus, self);
        proof {
            use_type_invariant(&bus);
        }
        let EventBus { mut events, subscribers } = bus;
        events.push(event);
        *self = EventBus { events, subscribers };
    }

    /// Adds a subscriber, which receives the events emitted from now on.
    pub fn subscribe(&mut self, subscriber: EventSubscriber)
        ensures
            final(self).log() == old(self).log(),
            final(self).subscriptions() == old(self).subscriptions().push(
                (subscriber, old(self).log().len() as usize),
            ),
    {
        proof {
            use_type_invariant(&*self);
        }
        let from = self.events.len();
        let mut subscribers = Vec::new();
        std::mem::swap(&mut subscribers, &mut self.subscribers);
        subscribers.push((subscriber, from));
        self.subscribers = subscribers;
    }

    /// The number of subscribers.
    pub fn subscriber_count(&self) -> (n: usize)
        ensures
            n == self.subscriptions().len(),
    {
        self.subscribers.len()
    }

    /// The events that subscriber `i` received: those emitted after it
    /// subscribed, in order.
    pub fn delivered_to(&self, i: usize) -> (es: Vec<TransferEvent>)
        requires
            i < self.subscriptions().len(),
        ensures
            es@ == self.log().subrange(self.subscriptions()[i as int].1 as int, self.log().len() as int),
    {
        proof {
            use_type_invariant(self);
        }
        let from = self.subscribers[i].1;
        let mut es: Vec<TransferEvent> = Vec::new();
        let mut k = from;
        while k < self.events.len()
            invariant
                from <= k <= self.events@.len(),
                es@ == self.events@.subrange(from as int, k as int),
            decreases self.events@.len() - k,
        {
            es.push(self.events[k].duplicate());
            k = k + 1;
            assert(es@ =~= self.events@.subrange(from as int, k as int));
        }
        es
    }
}

/// A subscriber receives every event emitted after it subscribed, and only
/// those: emitting `e` adds `e` at the end of what every existing
/// subscriber receives.
pub proof fn lemma_emit_reaches_every_subscriber(
    log: Seq<TransferEvent>,
    from: int,
    e: TransferEvent,
)
    requires
        0 <= from <= log.len(),
    ensures
        log.push(e).subrange(from, log.len() + 1int) == log.subrange(from, log.len() as int).push(e),
{
    assert(log.push(e).subrange(from, log.len() + 1int) =~= log.subrange(from, log.len() as int).push(e));
}

} // verus!
