//! The explorer's indexing bookkeeping: what each indexing event writes to
//! the index, event processing statistics, and the block range of a sync
//! pass.

use vstd::prelude::*;

verus! {

/// Statistics of the event processor.
#[derive(Clone, Copy, Debug)]
pub struct ProcessorStats {
    /// Events processed.
    pub events_processed: u64,
    /// Events whose processing failed.
    pub errors: u64,
    /// Average processing time, in milliseconds.
    pub average_processing_ms: u64,
    /// When the last event was processed, in seconds since the Unix epoch.
    pub last_processed_secs: i64,
}

impl ProcessorStats {
    /// Failures are among the processed events.
    pub open spec fn wf(self) -> bool {
        self.errors <= self.events_processed
    }

    /// Statistics with nothing processed, as of `now_secs`.
    pub fn new(now_secs: i64) -> (s: ProcessorStats)
        ensures
            s.wf(),
            s.events_processed == 0,
            s.errors == 0,
            s.average_processing_ms == 0,
            s.last_processed_secs == now_secs,
    {
        ProcessorStats { events_processed: 0, errors: 0, average_processing_ms: 0, last_processed_secs: now_secs }
    }

    /// Records one processed event that took `processing_ms` and failed or
    /// not, at `now_secs`: the average takes the new time in with the
    /// weight of one event, rounding down.
    pub fn record(&mut self, processing_ms: u64, failed: bool, now_secs: i64)
        requires
            old(self).wf(),
            old(self).events_processed < u64::MAX,
            old(self).average_processing_ms * old(self).events_processed + processing_ms <= u64::MAX,
        ensures
            final(self).wf(),
            final(self).events_processed == old(self).events_processed + 1,
            final(self).errors == old(self).errors + if failed {
                1int
            } else {
                0int
            },
            final(self).average_processing_ms == (old(self).average_processing_ms * old(
                self).events_processed + processing_ms) / (old(self).events_processed + 1),
            final(self).last_processed_secs == now_secs,
    {
        let previous = self.events_processed;
        self.events_processed = previous + 1;
        if failed {
            self.errors = self.errors + 1;
        }
        let total = self.average_processing_ms * previous + processing_ms;
        self.average_processing_ms = total / self.events_processed;
        self.last_processed_secs = now_secs;
    }
}

/// The blocks that one sync pass processes, from the block after the last
/// synced one, at most `batch_size` of them and none past the tip; `None`
/// when the chain is caught up. A zero batch gives an empty range.
pub fn sync_batch(last_synced: u64, tip: u64, batch_size: u64) -> (r: Option<(u64, u64)>)
    requires
        last_synced < tip ==> last_synced + batch_size < u64::MAX,
    ensures
        last_synced >= tip ==> r is None,
        last_synced < tip ==> r == Some(
            (
                (last_synced + 1) as u64,
                if last_synced + batch_size <= tip {
                    (last_synced + batch_size) as u64
                } else {
                    tip
                },
            ),
        ),
{
    if last_synced >= tip {
        return None;
    }
    let current = last_synced + 1;
    let candidate = current + batch_size - 1;
    let end = if candidate <= tip {
        candidate
    } else {
        tip
    };
    Some((current, end))
}

/// The status of an indexed sanad or transfer.
#[derive(Clone, Debug, PartialEq, Eq)]
pub enum TransferStatus {
    /// The transfer has started.
    Initiated,
    /// The transfer has completed.
    Completed,
    /// Any other status, by name.
    Other(String),
}

/// Metadata of an indexed record.
#[derive(Clone, Debug, PartialEq, Eq)]
pub enum IndexMetadata {
    /// Arbitrary JSON, as text.
    Json(String),
    /// The JSON object `{"from_chain": .., "to_chain": ..}`.
    ChainPair {
        /// The source chain.
        from_chain: String,
        /// The destination chain.
        to_chain: String,
    },
}

/// An indexed sanad.
#[derive(Clone, Debug)]
pub struct IndexedSanad {
    /// The sanad.
    pub id: crate::hash::Hash,
    /// Its owner.
    pub owner: String,
    /// The chain it is on.
    pub chain: String,
    /// When it was created, in seconds since the Unix epoch.
    pub created_at_secs: i64,
    /// When it was last updated, in seconds since the Unix epoch.
    pub updated_at_secs: i64,
    /// Its transfer status.
    pub status: TransferStatus,
    /// Its metadata.
    pub metadata: IndexMetadata,
}

/// An indexed transfer.
#[derive(Clone, Debug)]
pub struct IndexedTransfer {
    /// The transfer.
    pub id: crate::hash::Hash,
    /// The sanad it moves.
    pub sanad_id: crate::hash::Hash,
    /// The source chain.
    pub from_chain: String,
    /// The destination chain.
    pub to_chain: String,
    /// Its status.
    pub status: TransferStatus,
    /// When it was created, in seconds since the Unix epoch.
    pub created_at_secs: i64,
    /// When it was last updated, in seconds since the Unix epoch.
    pub updated_at_secs: i64,
    /// Its proof bundle, if known.
    pub proof_bundle: Option<crate::proof_bundle::ProofBundle>,
    /// Its metadata.
    pub metadata: IndexMetadata,
}

/// An event that the indexer processes.
#[derive(Clone, Debug)]
pub enum IndexEvent {
    /// A sanad was created.
    SanadCreated {
        /// The sanad.
        sanad_id: crate::hash::Hash,
        /// Its chain.
        chain: String,
        /// Its owner.
        owner: String,
        /// When, in seconds since the Unix epoch.
        created_at_secs: i64,
        /// Its metadata.
        metadata: IndexMetadata,
    },
    /// A sanad was transferred.
    SanadTransferred {
        /// The sanad.
        sanad_id: crate::hash::Hash,
        /// The source chain.
        from_chain: String,
        /// The destination chain.
        to_chain: String,
        /// The transfer.
        transfer_id: crate::hash::Hash,
        /// When, in seconds since the Unix epoch.
        created_at_secs: i64,
        /// The proof bundle, if any.
        proof_bundle: Option<crate::proof_bundle::ProofBundle>,
    },
    /// A transfer's status changed.
    TransferUpdated {
        /// The transfer.
        transfer_id: crate::hash::Hash,
        /// The status before.
        old_status: TransferStatus,
        /// The status after.
        new_status: TransferStatus,
        /// When, in seconds since the Unix epoch.
        updated_at_secs: i64,
    },
    /// A sanad's metadata changed.
    SanadUpdated {
        /// The sanad.
        sanad_id: crate::hash::Hash,
        /// Its chain.
        chain: String,
        /// The metadata before.
        old_metadata: IndexMetadata,
        /// The metadata after.
        new_metadata: IndexMetadata,
        /// When, in seconds since the Unix epoch.
        updated_at_secs: i64,
    },
    /// A chain was synced.
    ChainSynced {
        /// The chain.
        chain: String,
        /// The height synced to.
        block_height: u64,
        /// The hash of that block.
        last_block_hash: crate::hash::Hash,
        /// When, in seconds since the Unix epoch.
        synced_at_secs: i64,
    },
    /// An error occurred.
    Error {
        /// The error.
        error: String,
        /// The chain, if one is concerned.
        chain: Option<String>,
        /// When, in seconds since the Unix epoch.
        timestamp_secs: i64,
        /// Context, as JSON text.
        context: String,
    },
}

/// A write to the index.
#[derive(Clone, Debug)]
pub enum IndexWrite {
    /// Store (insert or replace) a sanad.
    StoreSanad(IndexedSanad),
    /// Store (insert or replace) a transfer.
    StoreTransfer(IndexedTransfer),
    /// Record how far a chain is synced.
    UpdateChainSync {
        /// The chain.
        chain: String,
        /// The height synced to.
        block_height: u64,
        /// The hash of that block.
        last_block_hash: crate::hash::Hash,
        /// When, in seconds since the Unix epoch.
        synced_at_secs: i64,
    },
    /// Log an error for monitoring.
    LogError {
        /// The error.
        error: String,
        /// The chain, if one is concerned.
        chain: Option<String>,
        /// When, in seconds since the Unix epoch.
        timestamp_secs: i64,
        /// Context, as JSON text.
        context: String,
    },
}

/// The transfer that processing `event` reads first, if any: the updated
/// transfer of a status change.
pub open spec fn transfer_read(event: IndexEvent) -> Option<crate::hash::Hash> {
    match event {
        IndexEvent::TransferUpdated { transfer_id, .. } => Some(transfer_id),
        _ => None,
    }
}

/// The sanad that processing `event` reads, given the transfer read first:
/// the transferred or updated sanad, or the sanad of a transfer that
/// completed.
pub open spec fn sanad_read(event: IndexEvent, transfer: Option<IndexedTransfer>) -> Option<crate::hash::Hash> {
    match event {
        IndexEvent::SanadTransferred { sanad_id, .. } => Some(sanad_id),
        IndexEvent::SanadUpdated { sanad_id, .. } => Some(sanad_id),
        IndexEvent::TransferUpdated { new_status, .. } => match transfer {
            Some(t) => if new_status is Completed {
                Some(t.sanad_id)
            } else {
                None
            },
            None => None,
        },
        _ => None,
    }
}

/// The writes, in order, that processing `event` makes, given the transfer
/// and the sanad read for it (`None` where none was read or found), at
/// `now_secs`.
pub open spec fn index_writes(
    event: IndexEvent,
    transfer: Option<IndexedTransfer>,
    sanad: Option<IndexedSanad>,
    now_secs: i64,
) -> Seq<IndexWrite> {
    match event {
        IndexEvent::SanadCreated { sanad_id, chain, owner, created_at_secs, metadata } => seq![
            IndexWrite::StoreSanad(
                IndexedSanad {
                    id: sanad_id,
                    owner,
                    chain,
                    created_at_secs,
                    updated_at_secs: created_at_secs,
                    status: TransferStatus::Initiated,
                    metadata,
                },
            ),
        ],
        IndexEvent::SanadTransferred { sanad_id, from_chain, to_chain, transfer_id, created_at_secs, proof_bundle } => {
            let stored = IndexedTransfer {
                id: transfer_id,
                sanad_id,
                from_chain,
                to_chain,
                status: TransferStatus::Initiated,
                created_at_secs,
                updated_at_secs: created_at_secs,
                proof_bundle,
                metadata: IndexMetadata::ChainPair { from_chain, to_chain },
            };
            match sanad {
                Some(s) => seq![
                    IndexWrite::StoreTransfer(stored),
                    IndexWrite::StoreSanad(
                        IndexedSanad {
                            status: TransferStatus::Initiated,
                            chain: to_chain,
                            updated_at_secs: now_secs,
                            ..s
                        },
                    ),
                ],
                None => seq![IndexWrite::StoreTransfer(stored)],
            }
        },
        IndexEvent::TransferUpdated { new_status, updated_at_secs, .. } => match transfer {
            Some(t) => {
                let first = IndexWrite::StoreTransfer(
                    IndexedTransfer { status: new_status, updated_at_secs, ..t },
                );
                match sanad {
                    Some(s) => if new_status is Completed {
                        seq![
                            first,
                            IndexWrite::StoreSanad(
                                IndexedSanad { status: TransferStatus::Completed, updated_at_secs, ..s },
                            ),
                        ]
                    } else {
                        seq![first]
                    },
                    None => seq![first],
                }
            },
            None => Seq::empty(),
        },
        IndexEvent::SanadUpdated { new_metadata, updated_at_secs, .. } => match sanad {
            Some(s) => seq![IndexWrite::StoreSanad(IndexedSanad { metadata: new_metadata, updated_at_secs, ..s })],
            None => Seq::empty(),
        },
        IndexEvent::ChainSynced { chain, block_height, last_block_hash, synced_at_secs } => seq![
            IndexWrite::UpdateChainSync { chain, block_height, last_block_hash, synced_at_secs },
        ],
        IndexEvent::Error { error, chain, timestamp_secs, context } => seq![
            IndexWrite::LogError { error, chain, timestamp_secs, context },
        ],
    }
}

/// The transfer to read before processing `event`.
pub fn transfer_to_read(event: &IndexEvent) -> (r: Option<crate::hash::Hash>)
    ensures
        r == transfer_read(*event),
{
    match event {
        IndexEvent::TransferUpdated { transfer_id, .. } => Some(*transfer_id),
        _ => None,
    }
}

/// The sanad to read before processing `event`, given the transfer read.
pub fn sanad_to_read(event: &IndexEvent, transfer: &Option<IndexedTransfer>) -> (r: Option<crate::hash::Hash>)
    ensures
        r == sanad_read(*event, *transfer),
{
    match event {
        IndexEvent::SanadTransferred { sanad_id, .. } => Some(*sanad_id),
        IndexEvent::SanadUpdated { sanad_id, .. } => Some(*sanad_id),
        IndexEvent::TransferUpdated { new_status, .. } => match transfer {
            Some(t) => match new_status {
                TransferStatus::Completed => Some(t.sanad_id),
                _ => None,
            },
            None => None,
        },
        _ => None,
    }
}

/// The writes that processing `event` makes, given the transfer and the
/// sanad read for it: a created sanad is stored as initiated; a transfer
/// is stored as initiated and moves its sanad, when found, to the
/// destination chain as initiated at `now_secs`; a status change of a
/// found transfer is stored, and a completion marks its sanad completed; a
/// metadata change replaces a found sanad's metadata; a sync and an error
/// are recorded as they are.
pub fn index_event_step(
    event: IndexEvent,
    transfer: Option<IndexedTransfer>,
    sanad: Option<IndexedSanad>,
    now_secs: i64,
) -> (w: Vec<IndexWrite>)
    ensures
        w@ == index_writes(event, transfer, sanad, now_secs),
{
    let ghost (e0, t0, s0) = (event, transfer, sanad);
    let mut w: Vec<IndexWrite> = Vec::new();
    match event {
        IndexEvent::SanadCreated { sanad_id, chain, owner, created_at_secs, metadata } => {
            w.push(
                IndexWrite::StoreSanad(
                    IndexedSanad {
                        id: sanad_id,
                        owner,
                        chain,
                        created_at_secs,
                        updated_at_secs: created_at_secs,
                        status: TransferStatus::Initiated,
                        metadata,
                    },
                ),
            );
        },
        IndexEvent::SanadTransferred { sanad_id, from_chain, to_chain, transfer_id, created_at_secs, proof_bundle } => {
            let metadata = IndexMetadata::ChainPair { from_chain: from_chain.clone(), to_chain: to_chain.clone() };
            let destination = to_chain.clone();
            w.push(
                IndexWrite::StoreTransfer(
                    IndexedTransfer {
                        id: transfer_id,
                        sanad_id,
                        from_chain,
                        to_chain,
                        status: TransferStatus::Initiated,
                        created_at_secs,
                        updated_at_secs: created_at_secs,
                        proof_bundle,
                        metadata,
                    },
                ),
            );
            match sanad {
                Some(s) => {
                    w.push(
                        IndexWrite::StoreSanad(
                            IndexedSanad {
                                status: TransferStatus::Initiated,
                                chain: destination,
                                updated_at_secs: now_secs,
                                ..s
                            },
                        ),
                    );
                },
                None => {},
            }
        },
        IndexEvent::TransferUpdated { new_status, updated_at_secs, .. } => match transfer {
            Some(t) => {
                let completed = match new_status {
                    TransferStatus::Completed => true,
                    _ => false,
                };
                w.push(IndexWrite::StoreTransfer(IndexedTransfer { status: new_status, updated_at_secs, ..t }));
                match sanad {
                    Some(s) => {
                        if completed {
                            w.push(
                                IndexWrite::StoreSanad(
                                    IndexedSanad { status: TransferStatus::Completed, updated_at_secs, ..s },
                                ),
                            );
                        }
                    },
                    None => {},
                }
            },
            None => {},
        },
        IndexEvent::SanadUpdated { new_metadata, updated_at_secs, .. } => match sanad {
            Some(s) => {
                w.push(IndexWrite::StoreSanad(IndexedSanad { metadata: new_metadata, updated_at_secs, ..s }));
            },
            None => {},
        },
        IndexEvent::ChainSynced { chain, block_height, last_block_hash, synced_at_secs } => {
            w.push(IndexWrite::UpdateChainSync { chain, block_height, last_block_hash, synced_at_secs });
        },
        IndexEvent::Error { error, chain, timestamp_secs, context } => {
            w.push(IndexWrite::LogError { error, chain, timestamp_secs, context });
        },
    }
    assert(w@ =~= index_writes(e0, t0, s0, now_secs));
    w
}

} // verus!
