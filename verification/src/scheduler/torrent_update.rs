//! Pending changes of a torrent's counters.
use vstd::prelude::*;

use crate::collections::{
    torrent_update_queue_contents, torrent_update_queue_drain_front, torrent_update_queue_keys, torrent_update_queue_len, torrent_update_queue_new, torrent_update_queue_upsert, torrent_update_queue_upserted, TorrentUpdateIndexMap, TorrentUpdateKey, TorrentUpdateRecord,
};

use crate::number::{clamp_i32, clamp_i64, clamp_u32, saturating_add_i32, saturating_add_i64};

verus! {

/// Key of a pending torrent change.
#[derive(Clone, Copy, Debug, PartialEq, Eq, Hash)]
pub struct Index {
    pub torrent_id: u32,
}

/// A pending change of one torrent's counters.
#[derive(Clone, Copy, Debug, PartialEq, Eq)]
pub struct TorrentUpdate {
    pub seeder_delta: i32,
    pub leecher_delta: i32,
    pub times_completed_delta: u32,
    pub balance_delta: i64,
}

impl TorrentUpdate {
    /// Adds a newer change to this one, saturating each counter.
    pub fn merge(&mut self, new: &TorrentUpdate)
        ensures
            *final(self) == merged(*old(self), *new),
    {
        self.seeder_delta = saturating_add_i32(self.seeder_delta, new.seeder_delta);
        self.leecher_delta = saturating_add_i32(self.leecher_delta, new.leecher_delta);
        self.times_completed_delta = self.times_completed_delta.saturating_add(new.times_completed_delta);
        self.balance_delta = saturating_add_i64(self.balance_delta, new.balance_delta);
    }
}

/// The change that merging `new` into `a` leaves.
pub open spec fn merged(a: TorrentUpdate, new: TorrentUpdate) -> TorrentUpdate {
    TorrentUpdate {
        seeder_delta: clamp_i32(a.seeder_delta + new.seeder_delta),
        leecher_delta: clamp_i32(a.leecher_delta + new.leecher_delta),
        times_completed_delta: clamp_u32(a.times_completed_delta + new.times_completed_delta),
        balance_delta: clamp_i64(a.balance_delta + new.balance_delta),
    }
}

/// Merging pending torrent changes adds them up, in any order, as long as
/// no counter leaves its range on the way.
pub proof fn lemma_torrent_update_merge_sums(a: TorrentUpdate, b: TorrentUpdate, c: TorrentUpdate)
    requires
        i32::MIN <= a.seeder_delta + b.seeder_delta <= i32::MAX,
        i32::MIN <= b.seeder_delta + c.seeder_delta <= i32::MAX,
        i32::MIN <= a.seeder_delta + b.seeder_delta + c.seeder_delta <= i32::MAX,
        i32::MIN <= a.leecher_delta + b.leecher_delta <= i32::MAX,
        i32::MIN <= b.leecher_delta + c.leecher_delta <= i32::MAX,
        i32::MIN <= a.leecher_delta + b.leecher_delta + c.leecher_delta <= i32::MAX,
        i64::MIN <= a.balance_delta + b.balance_delta <= i64::MAX,
        i64::MIN <= b.balance_delta + c.balance_delta <= i64::MAX,
        i64::MIN <= a.balance_delta + b.balance_delta + c.balance_delta <= i64::MAX,
    ensures
        merged(a, b) == merged(b, a),
        merged(merged(a, b), c) == merged(a, merged(b, c)),
        merged(merged(a, b), c).seeder_delta == a.seeder_delta + b.seeder_delta + c.seeder_delta,
        merged(merged(a, b), c).leecher_delta == a.leecher_delta + b.leecher_delta + c.leecher_delta,
        merged(merged(a, b), c).balance_delta == a.balance_delta + b.balance_delta + c.balance_delta,
{
}

/// The key under which a change of a torrent is queued.
pub open spec fn index_key(index: Index) -> TorrentUpdateKey {
    index.torrent_id
}

/// The queue `q` after `update` is queued under `k`: merged into the change
/// queued there, which keeps its place, or appended.
pub open spec fn queued_update(q: Seq<TorrentUpdateRecord>, k: TorrentUpdateKey, update: TorrentUpdate) -> Seq<TorrentUpdateRecord> {
    if torrent_update_queue_keys(q).contains(k) {
        let i = torrent_update_queue_keys(q).index_of(k);
        q.update(i, (k, merged(q[i].1, update)))
    } else {
        q.push((k, update))
    }
}

/// The queue `q` after the changes in `updates` are queued, in order.
pub open spec fn queued_updates(q: Seq<TorrentUpdateRecord>, updates: Seq<TorrentUpdateRecord>) -> Seq<TorrentUpdateRecord>
    decreases updates.len(),
{
    if updates.len() == 0 {
        q
    } else {
        let (k, v) = updates.last();
        queued_update(queued_updates(q, updates.drop_last()), k, v)
    }
}

/// Queuing changes in two runs is queuing them all in one.
pub proof fn lemma_queued_updates_concat(q: Seq<TorrentUpdateRecord>, a: Seq<TorrentUpdateRecord>, b: Seq<TorrentUpdateRecord>)
    ensures
        queued_updates(q, a + b) == queued_updates(queued_updates(q, a), b),
    decreases b.len(),
{
    if b.len() == 0 {
        assert(a + b =~= a);
    } else {
        assert((a + b).drop_last() =~= a + b.drop_last());
        lemma_queued_updates_concat(q, a, b.drop_last());
    }
}

/// The most torrent changes one database query may hold: the bind limit of a mysql
/// query over the fifteen columns bound per row.
pub const BATCH_LIMIT: usize = 65535 / 15;

/// Pending torrent changes, one per row, oldest first.
pub struct Queue {
    records: TorrentUpdateIndexMap,
}

impl View for Queue {
    type V = Seq<TorrentUpdateRecord>;

    closed spec fn view(&self) -> Seq<TorrentUpdateRecord> {
        torrent_update_queue_contents(self.records)
    }
}

impl Queue {
    /// An empty queue.
    pub fn new() -> (r: Queue)
        ensures
            r@ == Seq::<TorrentUpdateRecord>::empty(),
    {
        Queue { records: torrent_update_queue_new() }
    }

    /// Queues a change of a torrent: merged into the one already queued for that row,
    /// which keeps its place, or appended.
    pub fn upsert(&mut self, index: Index, update: TorrentUpdate)
        ensures
            torrent_update_queue_upserted(old(self)@, final(self)@, index_key(index), update),
            final(self)@ == queued_update(old(self)@, index_key(index), update),
    {
        torrent_update_queue_upsert(&mut self.records, index.torrent_id, update);
        proof {
            let k = index_key(index);
            let before = old(self)@;
            let after = self@;
            if torrent_update_queue_keys(before).contains(k) {
                let i = torrent_update_queue_keys(before).index_of(k);
                assert(after =~= before.update(i, (k, merged(before[i].1, update))));
            }
        }
    }

    /// The number of queued torrent changes.
    pub fn len(&self) -> (r: usize)
        ensures
            r == self@.len(),
    {
        torrent_update_queue_len(&self.records)
    }

    /// Takes the oldest torrent changes, as many as one query may hold, off the queue.
    pub fn take_batch(&mut self) -> (r: Vec<TorrentUpdateRecord>)
        ensures
            ({
                let n = if old(self)@.len() < BATCH_LIMIT { old(self)@.len() } else { BATCH_LIMIT as nat };
                &&& r@ == old(self)@.subrange(0, n as int)
                &&& final(self)@ == old(self)@.subrange(n as int, old(self)@.len() as int)
            }),
    {
        let len = torrent_update_queue_len(&self.records);
        let n = if len < BATCH_LIMIT { len } else { BATCH_LIMIT };
        torrent_update_queue_drain_front(&mut self.records, n)
    }
}

} // verus!
