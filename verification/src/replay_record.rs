//! The global record of a consumed seal and its replay state machine.

use vstd::prelude::*;
use vstd::string::StringExecFns;


verus! {

/// The replay consumption state of a seal.
#[derive(Clone, Copy, Debug, PartialEq, Eq, Structural)]
pub enum ReplayState {
    /// Consumption is in progress.
    Pending,
    /// Consumption finalized successfully.
    Finalized,
    /// Consumption was rolled back.
    RolledBack,
    /// Permanently marked invalid.
    Tombstoned,
}

/// Global record linking a consumed seal to the transfer that consumed it.
#[derive(Clone, Debug)]
pub struct GlobalReplayRecord {
    /// The consumed seal identifier.
    pub seal_id: crate::hash::Hash,
    /// Chain that originated the seal.
    pub originating_chain: String,
    /// Transfer that consumed this seal.
    pub consumed_by_transfer: crate::hash::Hash,
    /// Hash of the proof used to consume the seal.
    pub consumption_proof_hash: crate::hash::Hash,
    /// Current replay state.
    pub state: ReplayState,
}

/// The part of a record that consumption reads and writes: state, consuming
/// transfer, proof hash.
pub type ReplayView = (ReplayState, Seq<u8>, Seq<u8>);

/// What consuming a seal for transfer `t` with proof `h` does: the record
/// afterwards, and `Some(consumed now)` on success or `None` on refusal.
pub open spec fn consume_step(r: ReplayView, t: Seq<u8>, h: Seq<u8>) -> (ReplayView, Option<bool>) {
    match r.0 {
        ReplayState::Pending | ReplayState::RolledBack => ((ReplayState::Finalized, t, h), Some(true)),
        ReplayState::Finalized => (r, Some(false)),
        ReplayState::Tombstoned => (r, None),
    }
}

/// What rolling back a consumption does.
pub open spec fn rollback_step(r: ReplayView) -> (ReplayView, Option<bool>) {
    match r.0 {
        ReplayState::Finalized => ((ReplayState::RolledBack, r.1, r.2), Some(true)),
        ReplayState::Pending | ReplayState::RolledBack => (r, Some(false)),
        ReplayState::Tombstoned => (r, None),
    }
}

/// What tombstoning does.
pub open spec fn tombstone_step(r: ReplayView) -> ReplayView {
    (ReplayState::Tombstoned, r.1, r.2)
}

impl GlobalReplayRecord {
    /// The consumption-relevant part of the record.
    pub open spec fn replay_view(self) -> ReplayView {
        (self.state, self.consumed_by_transfer@, self.consumption_proof_hash@)
    }

    /// Whether `self` and `other` agree on the seal and its chain.
    pub open spec fn same_seal(self, other: GlobalReplayRecord) -> bool {
        self.seal_id == other.seal_id && self.originating_chain == other.originating_chain
    }

    /// Consumes the seal for `transfer_id` unless it is consumed already.
    /// `Ok(true)` when consumed now; `Ok(false)` when it was consumed before,
    /// leaving the record (and the transfer it names) as it was; an error
    /// when the seal is tombstoned.
    pub fn consume_if_unconsumed(
        &mut self,
        transfer_id: crate::hash::Hash,
        proof_hash: crate::hash::Hash,
    ) -> (r: Result<bool, String>)
        ensures
            final(self).same_seal(*old(self)),
            (final(self).replay_view(), match r {
                Ok(b) => Some(b),
                Err(_) => None,
            }) == consume_step(old(self).replay_view(), transfer_id@, proof_hash@),
            r matches Err(m) ==> m@ == "Seal is tombstoned and cannot be consumed"@,
    {
        match self.state {
            ReplayState::Pending | ReplayState::RolledBack => {
                self.consumed_by_transfer = transfer_id;
                self.consumption_proof_hash = proof_hash;
                self.state = ReplayState::Finalized;
                Ok(true)
            },
            ReplayState::Finalized => Ok(false),
            ReplayState::Tombstoned => Err(String::from_str("Seal is tombstoned and cannot be consumed")),
        }
    }

    /// Rolls a consumption back. `Ok(true)` when a finalized consumption was
    /// undone, `Ok(false)` when there was none, an error for a tombstoned seal.
    pub fn rollback_consumption(&mut self) -> (r: Result<bool, String>)
        ensures
            final(self).same_seal(*old(self)),
            (final(self).replay_view(), match r {
                Ok(b) => Some(b),
                Err(_) => None,
            }) == rollback_step(old(self).replay_view()),
            r matches Err(m) ==> m@ == "Cannot rollback tombstoned seal"@,
    {
        match self.state {
            ReplayState::Finalized => {
                self.state = ReplayState::RolledBack;
                Ok(true)
            },
            ReplayState::Pending => Ok(false),
            ReplayState::RolledBack => Ok(false),
            ReplayState::Tombstoned => Err(String::from_str("Cannot rollback tombstoned seal")),
        }
    }

    /// Marks the seal permanently unusable.
    pub fn tombstone(&mut self) -> (r: Result<(), String>)
        ensures
            r is Ok,
            final(self).same_seal(*old(self)),
            final(self).replay_view() == tombstone_step(old(self).replay_view()),
    {
        match self.state {
            ReplayState::Tombstoned => Ok(()),
            _ => {
                self.state = ReplayState::Tombstoned;
                Ok(())
            },
        }
    }
}

/// A seal is consumed at most once: after a consumption succeeds, consuming
/// again, by the same transfer or any other, reports that nothing was
/// consumed and leaves the record, and the transfer it names, as it was.
pub proof fn lemma_consume_at_most_once(r: ReplayView, t1: Seq<u8>, h1: Seq<u8>, t2: Seq<u8>, h2: Seq<u8>)
    requires
        consume_step(r, t1, h1).1 is Some,
    ensures
        consume_step(consume_step(r, t1, h1).0, t2, h2) == (consume_step(r, t1, h1).0, Some(false)),
        consume_step(r, t1, h1).0.1 == (if r.0 == ReplayState::Finalized { r.1 } else { t1 }),
{
}

/// Tombstoning is final: a tombstoned seal refuses consumption and
/// rollback, and tombstoning it again changes nothing.
pub proof fn lemma_tombstone_is_final(r: ReplayView, t: Seq<u8>, h: Seq<u8>)
    ensures
        consume_step(tombstone_step(r), t, h) == (tombstone_step(r), None::<bool>),
        rollback_step(tombstone_step(r)) == (tombstone_step(r), None::<bool>),
        tombstone_step(tombstone_step(r)) == tombstone_step(r),
{
}

/// Rolling back a consumption makes the seal consumable again, by any transfer.
pub proof fn lemma_rollback_reopens(r: ReplayView, t1: Seq<u8>, h1: Seq<u8>, t2: Seq<u8>, h2: Seq<u8>)
    requires
        consume_step(r, t1, h1).1 == Some(true),
    ensures
        rollback_step(consume_step(r, t1, h1).0).1 == Some(true),
        consume_step(rollback_step(consume_step(r, t1, h1).0).0, t2, h2).1 == Some(true),
{
}

} // verus!
