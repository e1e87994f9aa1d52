//! Pending writes of peers to the database.
use vstd::prelude::*;

use crate::bytes::extend_bytes;
use crate::collections::{
    peer_update_queue_contents, peer_update_queue_drain_front, peer_update_queue_keys, peer_update_queue_len,
    peer_update_queue_new, peer_update_queue_upsert, peer_update_queue_upserted, PeerUpdateIndexMap, PeerUpdateKey,
    PeerUpdateRecord,
};
use crate::peer::{IpAddress, PeerId};

verus! {

/// Key of a pending peer write (the database's primary key).
#[derive(Clone, Copy, Debug, PartialEq, Eq, Hash)]
pub struct Index {
    pub user_id: u32,
    pub torrent_id: u32,
    pub peer_id: PeerId,
}

/// A pending write of one peer.
#[derive(Clone, Debug)]
pub struct PeerUpdate {
    pub ip: IpAddress,
    pub port: u16,
    pub agent: Vec<u8>,
    pub uploaded: u64,
    pub downloaded: u64,
    pub is_active: bool,
    pub is_seeder: bool,
    pub is_visible: bool,
    pub left: u64,
    /// Microseconds since the unix epoch.
    pub created_at: i64,
    /// Microseconds since the unix epoch.
    pub updated_at: i64,
    pub connectable: bool,
}

/// Copies the bytes of `v` into a new vector.
pub fn copy_bytes(v: &Vec<u8>) -> (r: Vec<u8>)
    ensures
        r@ == v@,
{
    let mut out: Vec<u8> = Vec::new();
    extend_bytes(&mut out, v.as_slice());
    assert(out@ =~= v@);
    out
}

/// `r` is `new` merged into `a`: the write with the later `updated_at`
/// wins, and the earliest `created_at` is kept.
pub open spec fn merges_into(a: PeerUpdate, new: PeerUpdate, r: PeerUpdate) -> bool {
    &&& new.updated_at > a.updated_at ==> {
        &&& r.ip == new.ip
        &&& r.port == new.port
        &&& r.agent@ == new.agent@
        &&& r.uploaded == new.uploaded
        &&& r.downloaded == new.downloaded
        &&& r.is_active == new.is_active
        &&& r.is_seeder == new.is_seeder
        &&& r.is_visible == new.is_visible
        &&& r.left == new.left
        &&& r.updated_at == new.updated_at
        &&& r.connectable == new.connectable
    }
    &&& new.updated_at <= a.updated_at ==> {
        &&& r.ip == a.ip
        &&& r.port == a.port
        &&& r.agent@ == a.agent@
        &&& r.uploaded == a.uploaded
        &&& r.downloaded == a.downloaded
        &&& r.is_active == a.is_active
        &&& r.is_seeder == a.is_seeder
        &&& r.is_visible == a.is_visible
        &&& r.left == a.left
        &&& r.updated_at == a.updated_at
        &&& r.connectable == a.connectable
    }
    &&& r.created_at == if new.created_at < a.created_at { new.created_at } else { a.created_at }
}

/// Merging two pending peer writes keeps the later one: the merged write
/// reports what the write with the later update time reported (the earlier
/// one on a tie), ends at the later update and starts at the earlier
/// creation.
pub proof fn lemma_peer_merge_keeps_latest(a: PeerUpdate, b: PeerUpdate, r: PeerUpdate)
    requires
        merges_into(a, b, r),
    ensures
        r.updated_at >= a.updated_at && r.updated_at >= b.updated_at,
        r.updated_at == a.updated_at || r.updated_at == b.updated_at,
        r.created_at <= a.created_at && r.created_at <= b.created_at,
        r.created_at == a.created_at || r.created_at == b.created_at,
        b.updated_at > a.updated_at ==> r.uploaded == b.uploaded && r.downloaded == b.downloaded && r.left == b.left
            && r.is_active == b.is_active && r.ip == b.ip && r.port == b.port,
        b.updated_at <= a.updated_at ==> r.uploaded == a.uploaded && r.downloaded == a.downloaded && r.left == a.left
            && r.is_active == a.is_active && r.ip == a.ip && r.port == a.port,
{
}

impl PeerUpdate {
    /// Folds a newer write into this one: the write with the later
    /// `updated_at` wins, and the earliest `created_at` is kept.
    pub fn merge(&mut self, new: &PeerUpdate)
        ensures
            merges_into(*old(self), *new, *final(self)),
    {
        if new.updated_at > self.updated_at {
            self.ip = new.ip;
            self.port = new.port;
            self.agent = copy_bytes(&new.agent);
            self.uploaded = new.uploaded;
            self.downloaded = new.downloaded;
            self.is_active = new.is_active;
            self.is_seeder = new.is_seeder;
            self.is_visible = new.is_visible;
            self.left = new.left;
            self.updated_at = new.updated_at;
            self.connectable = new.connectable;
        }
        if new.created_at < self.created_at {
            self.created_at = new.created_at;
        }
    }
}

/// The key under which a write is queued.
pub open spec fn index_key(index: Index) -> PeerUpdateKey {
    (index.user_id, index.torrent_id, index.peer_id.0)
}

/// The most writes one database query may hold: the bind limit of a mysql
/// query over the fifteen columns bound per peer.
pub const BATCH_LIMIT: usize = 65535 / 15;

/// Pending peer writes, one per peer, oldest first.
pub struct Queue {
    records: PeerUpdateIndexMap,
}

impl View for Queue {
    type V = Seq<PeerUpdateRecord>;

    closed spec fn view(&self) -> Seq<PeerUpdateRecord> {
        peer_update_queue_contents(self.records)
    }
}

impl Queue {
    /// An empty queue.
    pub fn new() -> (r: Queue)
        ensures
            r@ == Seq::<PeerUpdateRecord>::empty(),
    {
        Queue { records: peer_update_queue_new() }
    }

    /// Queues a write of a peer: merged into the write already queued for
    /// that peer, which keeps its place, or appended.
    pub fn upsert(&mut self, index: Index, update: PeerUpdate)
        ensures
            peer_update_queue_upserted(old(self)@, final(self)@, index_key(index), update),
    {
        peer_update_queue_upsert(&mut self.records, (index.user_id, index.torrent_id, index.peer_id.0), update);
    }

    /// The number of queued writes.
    pub fn len(&self) -> (r: usize)
        ensures
            r == self@.len(),
    {
        peer_update_queue_len(&self.records)
    }

    /// Takes the oldest writes, as many as one query may hold, off the queue.
    pub fn take_batch(&mut self) -> (r: Vec<PeerUpdateRecord>)
        ensures
            ({
                let n = if old(self)@.len() < BATCH_LIMIT { old(self)@.len() } else { BATCH_LIMIT as nat };
                &&& r@ == old(self)@.subrange(0, n as int)
                &&& final(self)@ == old(self)@.subrange(n as int, old(self)@.len() as int)
            }),
    {
        let len = peer_update_queue_len(&self.records);
        let n = if len < BATCH_LIMIT { len } else { BATCH_LIMIT };
        peer_update_queue_drain_front(&mut self.records, n)
    }
}

/// Queuing a write never queues a peer twice: every peer has at most one
/// pending write.
pub proof fn lemma_upsert_keeps_keys_unique(
    before: Seq<PeerUpdateRecord>,
    after: Seq<PeerUpdateRecord>,
    k: PeerUpdateKey,
    v: PeerUpdate,
)
    requires
        peer_update_queue_keys(before).no_duplicates(),
        peer_update_queue_upserted(before, after, k, v),
    ensures
        peer_update_queue_keys(after).no_duplicates(),
        peer_update_queue_keys(after).contains(k),
{
    let kb = peer_update_queue_keys(before);
    let ka = peer_update_queue_keys(after);
    if kb.contains(k) {
        let i = kb.index_of(k);
        assert(ka =~= kb) by {
            assert forall|j: int| 0 <= j < ka.len() implies ka[j] == kb[j] by {
                if j != i {
                    assert(after[j] == before[j]);
                }
            }
        }
    } else {
        assert(ka =~= kb.push(k));
        assert forall|a: int, b: int| 0 <= a < b < ka.len() implies ka[a] != ka[b] by {
            if b == kb.len() {
                assert(kb.contains(kb[a]));
            }
        }
        assert(ka[kb.len() as int] == k);
    }
}

} // verus!
