//! Durable runtime events: the envelope persisted before an event is
//! published, and the stores that keep them.

use vstd::prelude::*;

verus! {

/// Runtime event envelope persisted before publishing to the bus.
#[derive(Clone, Debug, PartialEq, Eq)]
pub struct RuntimeEventEnvelope {
    /// Unique event identifier.
    pub event_id: u128,
    /// The sanad whose transfer the event belongs to.
    pub transfer_id: crate::hash::Hash,
    /// The event that caused this one, if any.
    pub causation_id: Option<u128>,
    /// Correlation identifier grouping related events.
    pub correlation_id: u128,
    /// Serialized event payload.
    pub event: String,
    /// When the event was generated, in seconds since the Unix epoch.
    pub timestamp_secs: u64,
    /// The runtime instance that generated the event.
    pub runtime_id: u128,
}

/// A store that persists envelopes before they are published.
pub trait EventStore {
    /// Persists the envelope durably.
    fn persist(&mut self, envelope: &RuntimeEventEnvelope) -> Result<(), String>;
}

/// An in-memory event store for non-persistent deployments and tests.
pub struct InMemoryEventStore {
    /// Stored envelopes in insertion order.
    pub records: Vec<RuntimeEventEnvelope>,
}

impl InMemoryEventStore {
    /// An empty store.
    pub fn new() -> (s: InMemoryEventStore)
        ensures
            s.records@.len() == 0,
    {
        InMemoryEventStore { records: Vec::new() }
    }
}

impl EventStore for InMemoryEventStore {
    fn persist(&mut self, envelope: &RuntimeEventEnvelope) -> (r: Result<(), String>)
        ensures
            r is Ok,
            final(self).records@ == old(self).records@.push(*envelope),
    {
        let copy = RuntimeEventEnvelope {
            event_id: envelope.event_id,
            transfer_id: envelope.transfer_id,
            causation_id: envelope.causation_id,
            correlation_id: envelope.correlation_id,
            event: envelope.event.clone(),
            timestamp_secs: envelope.timestamp_secs,
            runtime_id: envelope.runtime_id,
        };
        self.records.push(copy);
        Ok(())
    }
}

} // verus!
