//! Pending deletions of peers from the database.
use vstd::prelude::*;

use crate::collections::{
    deletion_set_contents, deletion_set_insert, deletion_set_len, deletion_set_new, deletion_set_split_off,
    DeletionIndexSet, DeletionKey,
};
use crate::peer::PeerId;

verus! {

/// A peer to be deleted from the database.
#[derive(Clone, Copy, Debug, PartialEq, Eq, Hash)]
pub struct PeerDeletion {
    pub torrent_id: u32,
    pub user_id: u32,
    pub peer_id: PeerId,
}

/// The key of a deletion.
pub open spec fn deletion_key(d: PeerDeletion) -> DeletionKey {
    (d.torrent_id, d.user_id, d.peer_id.0)
}

/// The most deletions one database query may hold: the bind limit of a
/// mysql query over the three columns bound per peer.
pub open spec fn peer_limit() -> nat {
    65535nat / 3nat
}

/// Pending peer deletions, each once, oldest first.
pub struct Queue {
    inner: DeletionIndexSet,
}

impl View for Queue {
    type V = Seq<DeletionKey>;

    closed spec fn view(&self) -> Seq<DeletionKey> {
        deletion_set_contents(self.inner)
    }
}

impl Queue {
    /// An empty queue.
    pub fn new() -> (r: Queue)
        ensures
            r@ == Seq::<DeletionKey>::empty(),
    {
        Queue { inner: deletion_set_new() }
    }

    /// Queues the deletion of a peer, unless it is queued already.
    pub fn upsert(&mut self, torrent_id: u32, user_id: u32, peer_id: PeerId)
        ensures
            final(self)@ == if old(self)@.contains((torrent_id, user_id, peer_id.0)) {
                old(self)@
            } else {
                old(self)@.push((torrent_id, user_id, peer_id.0))
            },
    {
        deletion_set_insert(&mut self.inner, (torrent_id, user_id, peer_id.0));
    }

    /// The number of queued deletions.
    pub fn len(&self) -> (r: usize)
        ensures
            r == self@.len(),
    {
        deletion_set_len(&self.inner)
    }

    /// Takes the newest deletions, as many as one query may hold, off the
    /// queue.
    pub fn take_batch(&mut self) -> (r: Vec<PeerDeletion>)
        ensures
            ({
                let n = if old(self)@.len() < peer_limit() { old(self)@.len() } else { peer_limit() };
                let at = old(self)@.len() - n;
                &&& final(self)@ == old(self)@.subrange(0, at)
                &&& r@.map_values(|d: PeerDeletion| deletion_key(d)) == old(self)@.subrange(at, old(self)@.len() as int)
            }),
    {
        let len = deletion_set_len(&self.inner);
        let n = if len < 21845 { len } else { 21845 };
        let keys = deletion_set_split_off(&mut self.inner, len - n);
        let mut out: Vec<PeerDeletion> = Vec::new();
        let mut i: usize = 0;
        while i < keys.len()
            invariant
                0 <= i <= keys@.len(),
                out@.map_values(|d: PeerDeletion| deletion_key(d)) == keys@.subrange(0, i as int),
            decreases keys@.len() - i,
        {
            let (torrent_id, user_id, peer_id) = keys[i];
            let ghost before = out@;
            out.push(PeerDeletion { torrent_id, user_id, peer_id: PeerId(peer_id) });
            assert(out@.map_values(|d: PeerDeletion| deletion_key(d)) =~= before.map_values(|d: PeerDeletion| deletion_key(d)).push(keys@[i as int]));
            assert(keys@.subrange(0, i + 1) =~= keys@.subrange(0, i as int).push(keys@[i as int]));
            i = i + 1;
        }
        assert(keys@.subrange(0, keys@.len() as int) =~= keys@);
        out
    }
}

/// A queue of deletions never holds one twice.
pub proof fn lemma_upsert_keeps_unique(q: Seq<DeletionKey>, key: DeletionKey)
    requires
        q.no_duplicates(),
    ensures
        (if q.contains(key) { q } else { q.push(key) }).no_duplicates(),
{
    if !q.contains(key) {
        assert forall|a: int, b: int| 0 <= a < b < q.push(key).len() implies q.push(key)[a] != q.push(key)[b] by {
            if b == q.len() {
                assert(q.contains(q[a]));
            }
        }
    }
}

} // verus!
