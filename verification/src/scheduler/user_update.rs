//! Pending changes of a user's credited traffic.
use vstd::prelude::*;

use crate::collections::{
    user_update_queue_contents, user_update_queue_drain_front, user_update_queue_len, user_update_queue_new, user_update_queue_upsert, user_update_queue_upserted, UserUpdateIndexMap, UserUpdateKey, UserUpdateRecord,
};

verus! {

/// Key of a pending user change.
#[derive(Clone, Copy, Debug, PartialEq, Eq, Hash)]
pub struct Index {
    pub user_id: u32,
}

/// A pending change of one user's credited upload and download.
#[derive(Clone, Copy, Debug, PartialEq, Eq)]
pub struct UserUpdate {
    pub uploaded_delta: u64,
    pub downloaded_delta: u64,
}

/// `v` clamped to the range of `u64`.
pub open spec fn sat_u64(v: int) -> u64 {
    if v > u64::MAX { u64::MAX } else if v < 0 { 0 } else { v as u64 }
}

impl UserUpdate {
    /// Adds a newer change to this one, saturating each counter.
    pub fn merge(&mut self, new: &UserUpdate)
        ensures
            *final(self) == merged(*old(self), *new),
    {
        self.uploaded_delta = self.uploaded_delta.saturating_add(new.uploaded_delta);
        self.downloaded_delta = self.downloaded_delta.saturating_add(new.downloaded_delta);
    }
}

/// The change that merging `new` into `a` leaves.
pub open spec fn merged(a: UserUpdate, new: UserUpdate) -> UserUpdate {
    UserUpdate {
        uploaded_delta: sat_u64(a.uploaded_delta + new.uploaded_delta),
        downloaded_delta: sat_u64(a.downloaded_delta + new.downloaded_delta),
    }
}

/// Pending user changes can be merged in any order and grouping: the queue
/// ends up with the same credited traffic.
pub proof fn lemma_user_update_merge_order(a: UserUpdate, b: UserUpdate, c: UserUpdate)
    ensures
        merged(a, b) == merged(b, a),
        merged(merged(a, b), c) == merged(a, merged(b, c)),
{
}

/// The key under which a change of a user is queued.
pub open spec fn index_key(index: Index) -> UserUpdateKey {
    index.user_id
}

/// The most user changes one database query may hold: the bind limit of a mysql
/// query over the nine columns bound per row.
pub const BATCH_LIMIT: usize = 65535 / 9;

/// Pending user changes, one per row, oldest first.
pub struct Queue {
    records: UserUpdateIndexMap,
}

impl View for Queue {
    type V = Seq<UserUpdateRecord>;

    closed spec fn view(&self) -> Seq<UserUpdateRecord> {
        user_update_queue_contents(self.records)
    }
}

impl Queue {
    /// An empty queue.
    pub fn new() -> (r: Queue)
        ensures
            r@ == Seq::<UserUpdateRecord>::empty(),
    {
        Queue { records: user_update_queue_new() }
    }

    /// Queues a change of a user: merged into the one already queued for that row,
    /// which keeps its place, or appended.
    pub fn upsert(&mut self, index: Index, update: UserUpdate)
        ensures
            user_update_queue_upserted(old(self)@, final(self)@, index_key(index), update),
    {
        user_update_queue_upsert(&mut self.records, index.user_id, update);
    }

    /// The number of queued user changes.
    pub fn len(&self) -> (r: usize)
        ensures
            r == self@.len(),
    {
        user_update_queue_len(&self.records)
    }

    /// Takes the oldest user changes, as many as one query may hold, off the queue.
    pub fn take_batch(&mut self) -> (r: Vec<UserUpdateRecord>)
        ensures
            ({
                let n = if old(self)@.len() < BATCH_LIMIT { old(self)@.len() } else { BATCH_LIMIT as nat };
                &&& r@ == old(self)@.subrange(0, n as int)
                &&& final(self)@ == old(self)@.subrange(n as int, old(self)@.len() as int)
            }),
    {
        let len = user_update_queue_len(&self.records);
        let n = if len < BATCH_LIMIT { len } else { BATCH_LIMIT };
        user_update_queue_drain_front(&mut self.records, n)
    }
}

/// Merging two pending user changes adds up the credited traffic, stopping
/// at the largest `u64` rather than wrapping.
pub proof fn lemma_user_update_merge_sums(a: UserUpdate, b: UserUpdate)
    ensures
        a.uploaded_delta + b.uploaded_delta <= u64::MAX ==> merged(a, b).uploaded_delta == a.uploaded_delta
            + b.uploaded_delta,
        a.uploaded_delta + b.uploaded_delta > u64::MAX ==> merged(a, b).uploaded_delta == u64::MAX,
        a.downloaded_delta + b.downloaded_delta <= u64::MAX ==> merged(a, b).downloaded_delta == a.downloaded_delta
            + b.downloaded_delta,
        a.downloaded_delta + b.downloaded_delta > u64::MAX ==> merged(a, b).downloaded_delta == u64::MAX,
{
}

} // verus!
