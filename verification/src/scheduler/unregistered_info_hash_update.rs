//! Pending records of announces for info hashes the tracker does not know.
use vstd::prelude::*;

use crate::collections::{
    unregistered_queue_contents, unregistered_queue_drain_front, unregistered_queue_len, unregistered_queue_new, unregistered_queue_upsert, unregistered_queue_upserted, UnregisteredIndexMap, UnregisteredKey, UnregisteredRecord,
};

use crate::torrent::InfoHash;

verus! {

/// Key of a pending unregistered info hash record.
#[derive(Clone, Copy, Debug, PartialEq, Eq, Hash)]
pub struct Index {
    pub user_id: u32,
    pub info_hash: InfoHash,
}

/// When a user announced an unknown info hash, first and last.
#[derive(Clone, Copy, Debug, PartialEq, Eq)]
pub struct UnregisteredInfoHashUpdate {
    /// Microseconds since the unix epoch.
    pub created_at: i64,
    /// Microseconds since the unix epoch.
    pub updated_at: i64,
}

/// The record that merging `new` into `a` leaves: the span of both.
pub open spec fn merged(a: UnregisteredInfoHashUpdate, new: UnregisteredInfoHashUpdate) -> UnregisteredInfoHashUpdate {
    UnregisteredInfoHashUpdate {
        created_at: if new.created_at < a.created_at { new.created_at } else { a.created_at },
        updated_at: if new.updated_at > a.updated_at { new.updated_at } else { a.updated_at },
    }
}

impl UnregisteredInfoHashUpdate {
    /// Widens the time span to cover a newer record.
    pub fn merge(&mut self, new: &UnregisteredInfoHashUpdate)
        ensures
            *final(self) == merged(*old(self), *new),
    {
        if new.updated_at > self.updated_at {
            self.updated_at = new.updated_at;
        }
        if new.created_at < self.created_at {
            self.created_at = new.created_at;
        }
    }
}

/// The key under which a record of an unknown info hash is queued.
pub open spec fn index_key(index: Index) -> UnregisteredKey {
    (index.user_id, index.info_hash.0)
}

/// The most records of unknown info hashes one database query may hold: the bind limit of a mysql
/// query over the four columns bound per row.
pub const BATCH_LIMIT: usize = 65535 / 4;

/// Pending records of unknown info hashes, one per row, oldest first.
pub struct Queue {
    records: UnregisteredIndexMap,
}

impl View for Queue {
    type V = Seq<UnregisteredRecord>;

    closed spec fn view(&self) -> Seq<UnregisteredRecord> {
        unregistered_queue_contents(self.records)
    }
}

impl Queue {
    /// An empty queue.
    pub fn new() -> (r: Queue)
        ensures
            r@ == Seq::<UnregisteredRecord>::empty(),
    {
        Queue { records: unregistered_queue_new() }
    }

    /// Queues a record of an unknown info hash: merged into the one already queued for that row,
    /// which keeps its place, or appended.
    pub fn upsert(&mut self, index: Index, update: UnregisteredInfoHashUpdate)
        ensures
            unregistered_queue_upserted(old(self)@, final(self)@, index_key(index), update),
    {
        unregistered_queue_upsert(&mut self.records, (index.user_id, index.info_hash.0), update);
    }

    /// The number of queued records of unknown info hashes.
    pub fn len(&self) -> (r: usize)
        ensures
            r == self@.len(),
    {
        unregistered_queue_len(&self.records)
    }

    /// Takes the oldest records of unknown info hashes, as many as one query may hold, off the queue.
    pub fn take_batch(&mut self) -> (r: Vec<UnregisteredRecord>)
        ensures
            ({
                let n = if old(self)@.len() < BATCH_LIMIT { old(self)@.len() } else { BATCH_LIMIT as nat };
                &&& r@ == old(self)@.subrange(0, n as int)
                &&& final(self)@ == old(self)@.subrange(n as int, old(self)@.len() as int)
            }),
    {
        let len = unregistered_queue_len(&self.records);
        let n = if len < BATCH_LIMIT { len } else { BATCH_LIMIT };
        unregistered_queue_drain_front(&mut self.records, n)
    }
}

/// Merging two records of an unknown info hash spans both: it starts at the
/// earlier of their first announces and ends at the later of their last.
pub proof fn lemma_unregistered_merge_spans(a: UnregisteredInfoHashUpdate, b: UnregisteredInfoHashUpdate)
    ensures
        merged(a, b).created_at <= a.created_at && merged(a, b).created_at <= b.created_at,
        merged(a, b).created_at == a.created_at || merged(a, b).created_at == b.created_at,
        merged(a, b).updated_at >= a.updated_at && merged(a, b).updated_at >= b.updated_at,
        merged(a, b).updated_at == a.updated_at || merged(a, b).updated_at == b.updated_at,
{
}

} // verus!
