//! Pending writes of a user's history on a torrent.
use vstd::prelude::*;

use crate::collections::{
    history_queue_contents, history_queue_drain_front, history_queue_get, history_queue_keys, history_queue_len,
    history_queue_new, history_queue_upsert, history_queue_upserted, HistoryIndexMap, HistoryKey, HistoryRecord,
};
use crate::scheduler::peer_update::copy_bytes;

verus! {

/// Key of a pending history write.
#[derive(Clone, Copy, Debug, PartialEq, Eq, Hash)]
pub struct Index {
    pub torrent_id: u32,
    pub user_id: u32,
}

/// A pending write of a user's history on one torrent.
#[derive(Clone, Debug)]
pub struct HistoryUpdate {
    pub user_agent: Vec<u8>,
    pub is_active: bool,
    pub is_seeder: bool,
    pub is_immune: bool,
    pub uploaded: u64,
    pub downloaded: u64,
    pub uploaded_delta: u64,
    pub downloaded_delta: u64,
    pub credited_uploaded_delta: u64,
    pub credited_downloaded_delta: u64,
    /// Microseconds since the unix epoch.
    pub completed_at: Option<i64>,
    /// Microseconds since the unix epoch.
    pub created_at: i64,
    /// Microseconds since the unix epoch.
    pub updated_at: i64,
}

/// Merging `new` into `a` keeps every delta within `u64`.
pub open spec fn merge_fits(a: HistoryUpdate, new: HistoryUpdate) -> bool {
    &&& a.uploaded_delta + new.uploaded_delta <= u64::MAX
    &&& a.downloaded_delta + new.downloaded_delta <= u64::MAX
    &&& a.credited_uploaded_delta + new.credited_uploaded_delta <= u64::MAX
    &&& a.credited_downloaded_delta + new.credited_downloaded_delta <= u64::MAX
}

/// `r` is `new` merged into `a`: the newer state replaces the old, the
/// deltas add up, and the time span covers both.
pub open spec fn merges_into(a: HistoryUpdate, new: HistoryUpdate, r: HistoryUpdate) -> bool {
    &&& r.user_agent@ == new.user_agent@
    &&& r.is_active == new.is_active
    &&& r.is_seeder == new.is_seeder
    &&& r.is_immune == a.is_immune
    &&& r.uploaded == new.uploaded
    &&& r.downloaded == new.downloaded
    &&& r.uploaded_delta == a.uploaded_delta + new.uploaded_delta
    &&& r.downloaded_delta == a.downloaded_delta + new.downloaded_delta
    &&& r.credited_uploaded_delta == a.credited_uploaded_delta + new.credited_uploaded_delta
    &&& r.credited_downloaded_delta == a.credited_downloaded_delta + new.credited_downloaded_delta
    &&& r.completed_at == new.completed_at
    &&& r.created_at == if new.created_at < a.created_at { new.created_at } else { a.created_at }
    &&& r.updated_at == if new.updated_at > a.updated_at { new.updated_at } else { a.updated_at }
}

/// Merging two pending history writes adds up what each transferred: the
/// upload and download deltas, actual and credited, of the merged write are
/// the sums of theirs. The merged write spans both: it starts at the earlier
/// creation and ends at the later update, and keeps the first's immunity.
pub proof fn lemma_history_merge_sums(a: HistoryUpdate, b: HistoryUpdate, r: HistoryUpdate)
    requires
        merges_into(a, b, r),
    ensures
        r.uploaded_delta == a.uploaded_delta + b.uploaded_delta,
        r.downloaded_delta == a.downloaded_delta + b.downloaded_delta,
        r.credited_uploaded_delta == a.credited_uploaded_delta + b.credited_uploaded_delta,
        r.credited_downloaded_delta == a.credited_downloaded_delta + b.credited_downloaded_delta,
        r.created_at <= a.created_at && r.created_at <= b.created_at,
        r.created_at == a.created_at || r.created_at == b.created_at,
        r.updated_at >= a.updated_at && r.updated_at >= b.updated_at,
        r.updated_at == a.updated_at || r.updated_at == b.updated_at,
        r.is_immune == a.is_immune,
        r.uploaded == b.uploaded && r.downloaded == b.downloaded,
        r.is_active == b.is_active && r.is_seeder == b.is_seeder,
{
}

/// Merging pending history writes in either grouping gives the same totals:
/// three writes merged as (a, b), c or as a, (b, c) transfer the sum of all
/// three.
pub proof fn lemma_history_merge_grouping(
    a: HistoryUpdate,
    b: HistoryUpdate,
    c: HistoryUpdate,
    ab: HistoryUpdate,
    ab_c: HistoryUpdate,
    bc: HistoryUpdate,
    a_bc: HistoryUpdate,
)
    requires
        merges_into(a, b, ab),
        merges_into(ab, c, ab_c),
        merges_into(b, c, bc),
        merges_into(a, bc, a_bc),
    ensures
        ab_c.uploaded_delta == a_bc.uploaded_delta == a.uploaded_delta + b.uploaded_delta + c.uploaded_delta,
        ab_c.downloaded_delta == a_bc.downloaded_delta == a.downloaded_delta + b.downloaded_delta + c.downloaded_delta,
        ab_c.credited_uploaded_delta == a_bc.credited_uploaded_delta
            == a.credited_uploaded_delta + b.credited_uploaded_delta + c.credited_uploaded_delta,
        ab_c.credited_downloaded_delta == a_bc.credited_downloaded_delta
            == a.credited_downloaded_delta + b.credited_downloaded_delta + c.credited_downloaded_delta,
{
    lemma_history_merge_sums(a, b, ab);
    lemma_history_merge_sums(ab, c, ab_c);
    lemma_history_merge_sums(b, c, bc);
    lemma_history_merge_sums(a, bc, a_bc);
}

impl HistoryUpdate {
    /// Folds a newer write into this one: the newer state replaces the old,
    /// the deltas add up, and the time span covers both.
    pub fn merge(&mut self, new: &HistoryUpdate)
        requires
            merge_fits(*old(self), *new),
        ensures
            merges_into(*old(self), *new, *final(self)),
    {
        self.user_agent = copy_bytes(&new.user_agent);
        self.is_active = new.is_active;
        self.is_seeder = new.is_seeder;
        self.uploaded = new.uploaded;
        self.downloaded = new.downloaded;
        self.uploaded_delta = self.uploaded_delta + new.uploaded_delta;
        self.downloaded_delta = self.downloaded_delta + new.downloaded_delta;
        self.credited_uploaded_delta = self.credited_uploaded_delta + new.credited_uploaded_delta;
        self.credited_downloaded_delta = self.credited_downloaded_delta + new.credited_downloaded_delta;
        self.completed_at = new.completed_at;
        if new.created_at < self.created_at {
            self.created_at = new.created_at;
        }
        if new.updated_at > self.updated_at {
            self.updated_at = new.updated_at;
        }
    }
}

/// The key under which a history write is queued.
pub open spec fn index_key(index: Index) -> HistoryKey {
    (index.torrent_id, index.user_id)
}

/// The most history writes one database query may hold: the bind limit of
/// a mysql query over the sixteen columns bound per row.
pub const BATCH_LIMIT: usize = 65535 / 16;

/// Pending history writes, one per user and torrent, oldest first.
pub struct Queue {
    records: HistoryIndexMap,
}

impl View for Queue {
    type V = Seq<HistoryRecord>;

    closed spec fn view(&self) -> Seq<HistoryRecord> {
        history_queue_contents(self.records)
    }
}

/// Whether `update` can be queued under `k` in `q`: when a write is queued
/// there already, merging must keep every delta within `u64`.
pub open spec fn upsert_fits(q: Seq<HistoryRecord>, k: HistoryKey, update: HistoryUpdate) -> bool {
    history_queue_keys(q).contains(k) ==> merge_fits(q[history_queue_keys(q).index_of(k)].1, update)
}

impl Queue {
    /// An empty queue.
    pub fn new() -> (r: Queue)
        ensures
            r@ == Seq::<HistoryRecord>::empty(),
    {
        Queue { records: history_queue_new() }
    }

    /// Queues a history write: merged into the one already queued for that
    /// user and torrent, which keeps its place, or appended. Where the merged
    /// deltas would leave `u64`, nothing is queued and `false` comes back.
    pub fn upsert(&mut self, index: Index, update: HistoryUpdate) -> (fits: bool)
        ensures
            fits == upsert_fits(old(self)@, index_key(index), update),
            fits ==> history_queue_upserted(old(self)@, final(self)@, index_key(index), update),
            !fits ==> final(self)@ == old(self)@,
    {
        let key: HistoryKey = (index.torrent_id, index.user_id);
        let fits = match history_queue_get(&self.records, key) {
            Some(queued) => {
                queued.uploaded_delta.checked_add(update.uploaded_delta).is_some()
                    && queued.downloaded_delta.checked_add(update.downloaded_delta).is_some()
                    && queued.credited_uploaded_delta.checked_add(update.credited_uploaded_delta).is_some()
                    && queued.credited_downloaded_delta.checked_add(update.credited_downloaded_delta).is_some()
            },
            None => true,
        };
        if fits {
            history_queue_upsert(&mut self.records, key, update);
        }
        fits
    }

    /// The number of queued history writes.
    pub fn len(&self) -> (r: usize)
        ensures
            r == self@.len(),
    {
        history_queue_len(&self.records)
    }

    /// Takes the oldest history writes, as many as one query may hold, off
    /// the queue.
    pub fn take_batch(&mut self) -> (r: Vec<HistoryRecord>)
        ensures
            ({
                let n = if old(self)@.len() < BATCH_LIMIT { old(self)@.len() } else { BATCH_LIMIT as nat };
                &&& r@ == old(self)@.subrange(0, n as int)
                &&& final(self)@ == old(self)@.subrange(n as int, old(self)@.len() as int)
            }),
    {
        let len = history_queue_len(&self.records);
        let n = if len < BATCH_LIMIT { len } else { BATCH_LIMIT };
        history_queue_drain_front(&mut self.records, n)
    }
}

} // verus!
