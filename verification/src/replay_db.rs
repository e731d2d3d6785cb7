//! The replay database: an append-only record of transfer identities and
//! the state of each transfer's mint.

use vstd::prelude::*;
use vstd::string::StringExecFns;

use crate::proof_bundle::ReplayId;
use crate::runtime_error::RuntimeError;

verus! {

/// State of a replay entry.
#[derive(Debug, Clone, Copy, PartialEq, Eq, Structural)]
pub enum ReplayEntryState {
    /// Insert recorded; mint not yet confirmed on-chain.
    Pending,
    /// Mint confirmed on-chain. Terminal.
    Consumed,
    /// Transfer failed after insert; may be retried by recovery.
    RolledBack,
}

/// Errors from replay database operations.
#[derive(Debug, Clone)]
pub enum ReplayDbError {
    /// The identity is already present: a replay attempt or a concurrent insert.
    AlreadyExists,
    /// Storage error.
    Storage(String),
}

/// The text of a replay database error.
pub open spec fn replay_db_error_text(e: ReplayDbError) -> Seq<char> {
    match e {
        ReplayDbError::AlreadyExists => "ReplayId already present — replay attempt or concurrent insert"@,
        ReplayDbError::Storage(m) => "Storage error: "@ + m@,
    }
}

impl ReplayDbError {
    /// The text of the error.
    pub fn to_text(&self) -> (s: String)
        ensures
            s@ == replay_db_error_text(*self),
    {
        match self {
            ReplayDbError::AlreadyExists => String::from_str(
                "ReplayId already present — replay attempt or concurrent insert",
            ),
            ReplayDbError::Storage(m) => {
                let mut s = String::from_str("Storage error: ");
                s.append(m.as_str());
                s
            },
        }
    }
}

/// The operations of a replay database.
pub trait ReplayDatabase {
    /// Whether the identity has been seen.
    fn contains(&self, id: &ReplayId) -> Result<bool, RuntimeError>;

    /// Records the identity in `state`, failing if it is present.
    fn insert_if_absent(&mut self, id: &ReplayId, state: ReplayEntryState) -> Result<(), ReplayDbError>;

    /// Promotes a `Pending` entry to `Consumed`.
    fn confirm_consumed(&mut self, id: &ReplayId) -> Result<(), ReplayDbError>;

    /// Marks a `Pending` entry rolled back.
    fn mark_rolled_back(&mut self, id: &ReplayId) -> Result<(), RuntimeError>;

    /// Records a fresh identity as `Pending`; a consumed identity is
    /// accepted again unchanged, and any other known identity is refused.
    fn consume_if_unconsumed(&mut self, id: &ReplayId) -> Result<(), ReplayDbError>;
}

/// An in-memory replay database.
pub struct InMemoryReplayDb {
    entries: Vec<(ReplayId, ReplayEntryState)>,
}

/// The map of identities to states that a list of entries holds.
pub open spec fn entries_map(entries: Seq<(ReplayId, ReplayEntryState)>) -> Map<Seq<u8>, ReplayEntryState>
    decreases entries.len(),
{
    if entries.len() == 0 {
        Map::empty()
    } else {
        entries_map(entries.drop_last()).insert(entries.last().0@, entries.last().1)
    }
}

/// Whether no identity occurs twice.
pub open spec fn ids_distinct(entries: Seq<(ReplayId, ReplayEntryState)>) -> bool {
    forall|i: int, j: int|
        0 <= i < j < entries.len() ==> (#[trigger] entries[i]).0@ != (#[trigger] entries[j]).0@
}

proof fn lemma_entries_map_index(entries: Seq<(ReplayId, ReplayEntryState)>, i: int)
    requires
        ids_distinct(entries),
        0 <= i < entries.len(),
    ensures
        entries_map(entries).contains_key(entries[i].0@),
        entries_map(entries)[entries[i].0@] == entries[i].1,
    decreases entries.len(),
{
    if i < entries.len() - 1 {
        let pre = entries.drop_last();
        assert(pre[i] == entries[i]);
        assert(ids_distinct(pre));
        lemma_entries_map_index(pre, i);
        assert(entries[i].0@ != entries[entries.len() - 1].0@);
    }
}

proof fn lemma_entries_map_absent(entries: Seq<(ReplayId, ReplayEntryState)>, k: Seq<u8>)
    requires
        forall|i: int| 0 <= i < entries.len() ==> (#[trigger] entries[i]).0@ != k,
    ensures
        !entries_map(entries).contains_key(k),
    decreases entries.len(),
{
    if entries.len() > 0 {
        let pre = entries.drop_last();
        assert forall|i: int| 0 <= i < pre.len() implies (#[trigger] pre[i]).0@ != k by {
            assert(pre[i] == entries[i]);
        }
        lemma_entries_map_absent(pre, k);
    }
}

proof fn lemma_entries_map_update(
    entries: Seq<(ReplayId, ReplayEntryState)>,
    i: int,
    s: ReplayEntryState,
)
    requires
        ids_distinct(entries),
        0 <= i < entries.len(),
    ensures
        ids_distinct(entries.update(i, (entries[i].0, s))),
        entries_map(entries.update(i, (entries[i].0, s))) == entries_map(entries).insert(
            entries[i].0@,
            s,
        ),
    decreases entries.len(),
{
    let upd = entries.update(i, (entries[i].0, s));
    assert forall|a: int, b: int| 0 <= a < b < upd.len() implies (#[trigger] upd[a]).0@ != (
    #[trigger] upd[b]).0@ by {
        assert(upd[a].0 == entries[a].0);
        assert(upd[b].0 == entries[b].0);
    }
    if i == entries.len() - 1 {
        assert(upd.drop_last() =~= entries.drop_last());
    } else {
        let pre = entries.drop_last();
        assert(ids_distinct(pre));
        lemma_entries_map_update(pre, i, s);
        assert(upd.drop_last() =~= pre.update(i, (pre[i].0, s)));
        assert(entries[i].0@ != entries.last().0@);
    }
    assert(entries_map(upd) =~= entries_map(entries).insert(entries[i].0@, s));
}

impl View for InMemoryReplayDb {
    type V = Map<Seq<u8>, ReplayEntryState>;

    closed spec fn view(&self) -> Map<Seq<u8>, ReplayEntryState> {
        entries_map(self.entries@)
    }
}

impl InMemoryReplayDb {
    #[verifier::type_invariant]
    spec fn inv(self) -> bool {
        ids_distinct(self.entries@)
    }

    /// Creates an empty database.
    pub fn new() -> (db: InMemoryReplayDb)
        ensures
            db@ == Map::<Seq<u8>, ReplayEntryState>::empty(),
    {
        InMemoryReplayDb { entries: Vec::new() }
    }

    /// The state in which the database holds the identity, if it holds it.
    pub fn state_of(&self, id: &ReplayId) -> (r: Option<ReplayEntryState>)
        ensures
            r == (if self@.contains_key(id@) {
                Some(self@[id@])
            } else {
                None
            }),
    {
        match self.find(id) {
            Some(i) => {
                self.lemma_found(i, id);
                Some(self.entries[i].1)
            },
            None => None,
        }
    }

    fn find(&self, id: &ReplayId) -> (r: Option<usize>)
        ensures
            match r {
                Some(i) => i < self.entries@.len() && self.entries@[i as int].0@ == id@,
                None => !self@.contains_key(id@),
            },
    {
        let mut i: usize = 0;
        while i < self.entries.len()
            invariant
                i <= self.entries@.len(),
                forall|k: int| 0 <= k < i ==> (#[trigger] self.entries@[k]).0@ != id@,
            decreases self.entries@.len() - i,
        {
            if self.entries[i].0 == *id {
                return Some(i);
            }
            i = i + 1;
        }
        proof {
            lemma_entries_map_absent(self.entries@, id@);
        }
        None
    }

    fn lemma_found(&self, i: usize, id: &ReplayId)
        requires
            i < self.entries@.len(),
            self.entries@[i as int].0@ == id@,
        ensures
            self@.contains_key(id@),
            self@[id@] == self.entries@[i as int].1,
    {
        proof {
            use_type_invariant(self);
            lemma_entries_map_index(self.entries@, i as int);
        }
    }

    fn set_state(&mut self, i: usize, s: ReplayEntryState)
        requires
            i < old(self).entries@.len(),
        ensures
            final(self)@ == old(self)@.insert(old(self).entries@[i as int].0@, s),
    {
        proof {
            use_type_invariant(&*self);
            lemma_entries_map_update(self.entries@, i as int, s);
        }
        let id = self.entries[i].0;
        let mut entries = Vec::new();
        std::mem::swap(&mut entries, &mut self.entries);
        entries.set(i, (id, s));
        self.entries = entries;
    }
}

impl Default for InMemoryReplayDb {
    fn default() -> (db: InMemoryReplayDb)
        ensures
            db@ == Map::<Seq<u8>, ReplayEntryState>::empty(),
    {
        InMemoryReplayDb::new()
    }
}

impl ReplayDatabase for InMemoryReplayDb {
    fn contains(&self, id: &ReplayId) -> (r: Result<bool, RuntimeError>)
        ensures
            r == Ok::<bool, RuntimeError>(self@.contains_key(id@)),
    {
        match self.find(id) {
            Some(i) => {
                self.lemma_found(i, id);
                Ok(true)
            },
            None => Ok(false),
        }
    }

    fn insert_if_absent(&mut self, id: &ReplayId, state: ReplayEntryState) -> (r: Result<
        (),
        ReplayDbError,
    >)
        ensures
            old(self)@.contains_key(id@) ==> (r matches Err(ReplayDbError::AlreadyExists) && final(self)@
                == old(self)@),
            !old(self)@.contains_key(id@) ==> r is Ok && final(self)@ == old(self)@.insert(id@, state),
    {
        match self.find(id) {
            Some(i) => {
                self.lemma_found(i, id);
                Err(ReplayDbError::AlreadyExists)
            },
            None => {
                proof {
                    use_type_invariant(&*self);
                    assert forall|k: int| 0 <= k < self.entries@.len() implies (
                    #[trigger] self.entries@[k]).0@ != id@ by {
                        if self.entries@[k].0@ == id@ {
                            lemma_entries_map_index(self.entries@, k);
                        }
                    }
                }
                let ghost old_entries = self.entries@;
                let mut entries = Vec::new();
                std::mem::swap(&mut entries, &mut self.entries);
                entries.push((*id, state));
                proof {
                    assert(entries@.drop_last() =~= old_entries);
                    assert forall|a: int, b: int| 0 <= a < b < entries@.len() implies (
                    #[trigger] entries@[a]).0@ != (#[trigger] entries@[b]).0@ by {
                        if b == entries@.len() - 1 {
                            assert(entries@[a] == old_entries[a]);
                        } else {
                            assert(entries@[a] == old_entries[a]);
                            assert(entries@[b] == old_entries[b]);
                        }
                    }
                }
                self.entries = entries;
                Ok(())
            },
        }
    }

    fn confirm_consumed(&mut self, id: &ReplayId) -> (r: Result<(), ReplayDbError>)
        ensures
            old(self)@.contains_key(id@) && old(self)@[id@] == ReplayEntryState::Pending ==> r is Ok
                && final(self)@ == old(self)@.insert(id@, ReplayEntryState::Consumed),
            old(self)@.contains_key(id@) && old(self)@[id@] != ReplayEntryState::Pending ==> (r
                matches Err(ReplayDbError::Storage(m)) && m@ == "Entry is not in Pending state"@
                && final(self)@ == old(self)@),
            !old(self)@.contains_key(id@) ==> (r matches Err(ReplayDbError::Storage(m)) && m@
                == "Entry not found"@ && final(self)@ == old(self)@),
    {
        match self.find(id) {
            Some(i) => {
                self.lemma_found(i, id);
                if self.entries[i].1 == ReplayEntryState::Pending {
                    self.set_state(i, ReplayEntryState::Consumed);
                    Ok(())
                } else {
                    Err(ReplayDbError::Storage(String::from_str("Entry is not in Pending state")))
                }
            },
            None => Err(ReplayDbError::Storage(String::from_str("Entry not found"))),
        }
    }

    fn mark_rolled_back(&mut self, id: &ReplayId) -> (r: Result<(), RuntimeError>)
        ensures
            old(self)@.contains_key(id@) && old(self)@[id@] == ReplayEntryState::Pending ==> r is Ok
                && final(self)@ == old(self)@.insert(id@, ReplayEntryState::RolledBack),
            old(self)@.contains_key(id@) && old(self)@[id@] != ReplayEntryState::Pending ==> (r
                matches Err(RuntimeError::InvalidState(m)) && m@ == "Entry is not in Pending state"@
                && final(self)@ == old(self)@),
            !old(self)@.contains_key(id@) ==> (r matches Err(RuntimeError::TransferNotFound(m)) && m@
                == "ReplayId "@ + crate::text::debug_bytes(id@) && final(self)@ == old(self)@),
    {
        match self.find(id) {
            Some(i) => {
                self.lemma_found(i, id);
                if self.entries[i].1 == ReplayEntryState::Pending {
                    self.set_state(i, ReplayEntryState::RolledBack);
                    Ok(())
                } else {
                    Err(RuntimeError::InvalidState(String::from_str("Entry is not in Pending state")))
                }
            },
            None => {
                let mut m = String::from_str("ReplayId ");
                crate::text::push_debug_bytes(&mut m, id.0.as_slice());
                Err(RuntimeError::TransferNotFound(m))
            },
        }
    }

    fn consume_if_unconsumed(&mut self, id: &ReplayId) -> (r: Result<(), ReplayDbError>)
        ensures
            old(self)@.contains_key(id@) && old(self)@[id@] == ReplayEntryState::Consumed ==> r is Ok
                && final(self)@ == old(self)@,
            old(self)@.contains_key(id@) && old(self)@[id@] != ReplayEntryState::Consumed ==> (r
                matches Err(ReplayDbError::AlreadyExists) && final(self)@ == old(self)@),
            !old(self)@.contains_key(id@) ==> r is Ok && final(self)@ == old(self)@.insert(
                id@,
                ReplayEntryState::Pending,
            ),
    {
        match self.find(id) {
            Some(i) => {
                self.lemma_found(i, id);
                if self.entries[i].1 == ReplayEntryState::Consumed {
                    Ok(())
                } else {
                    Err(ReplayDbError::AlreadyExists)
                }
            },
            None => self.insert_if_absent(id, ReplayEntryState::Pending),
        }
    }
}

/// The state changes that the database allows, as a relation between the
/// map before and after one operation on `id`.
pub open spec fn allowed_step(
    before: Map<Seq<u8>, ReplayEntryState>,
    after: Map<Seq<u8>, ReplayEntryState>,
    id: Seq<u8>,
) -> bool {
    ||| after == before
    ||| (!before.contains_key(id) && exists|s: ReplayEntryState| after == before.insert(id, s))
    ||| (before.contains_key(id) && before[id] == ReplayEntryState::Pending && (after == before.insert(
        id,
        ReplayEntryState::Consumed,
    ) || after == before.insert(id, ReplayEntryState::RolledBack)))
}

/// The database is append-only and `Consumed` is terminal: no allowed step
/// removes an identity, and none changes the state of a consumed one.
pub proof fn lemma_append_only(
    before: Map<Seq<u8>, ReplayEntryState>,
    after: Map<Seq<u8>, ReplayEntryState>,
    id: Seq<u8>,
    other: Seq<u8>,
)
    requires
        allowed_step(before, after, id),
    ensures
        before.contains_key(other) ==> after.contains_key(other),
        before.contains_key(other) && before[other] == ReplayEntryState::Consumed ==> after[other]
            == ReplayEntryState::Consumed,
{
}

/// An identity, once inserted, is seen by every later lookup and refused
/// by every later insert, whatever allowed steps come between.
pub proof fn lemma_inserted_stays_seen(
    before: Map<Seq<u8>, ReplayEntryState>,
    after: Map<Seq<u8>, ReplayEntryState>,
    id: Seq<u8>,
    other: Seq<u8>,
)
    requires
        before.contains_key(other),
        allowed_step(before, after, id),
    ensures
        after.contains_key(other),
{
}

} // verus!
