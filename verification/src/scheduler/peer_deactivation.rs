//! Pending requests to mark peers inactive in the database.
use vstd::prelude::*;

use crate::collections::{
    deactivation_queue_contents, deactivation_queue_drain_front, deactivation_queue_len, deactivation_queue_new,
    deactivation_queue_keys, deactivation_queue_upsert, deactivation_queue_upserted, DeactivationIndexMap,
    DeactivationRecord, PeerUpdateKey,
};
use crate::scheduler::peer_update::{index_key, Index};

verus! {

/// A queued request to mark a peer inactive. It carries no payload beyond
/// its key (a peer update index): the only change is clearing `active`.
#[derive(Clone, Copy, Debug, PartialEq, Eq)]
pub struct PeerDeactivation;

impl PeerDeactivation {
    /// Repeated deactivations of the same peer collapse into one.
    pub fn merge(&mut self, new: &PeerDeactivation)
        ensures
            *final(self) == *old(self),
    {
    }
}

/// The queue `q` after the deactivation of the peer under `k` is queued:
/// unchanged when it is queued already, else with it appended.
pub open spec fn queued_deactivation(q: Seq<DeactivationRecord>, k: PeerUpdateKey) -> Seq<DeactivationRecord> {
    if deactivation_queue_keys(q).contains(k) {
        q
    } else {
        q.push((k, PeerDeactivation))
    }
}

/// The queue `q` after the deactivations of the peers under `keys` are
/// queued, in order.
pub open spec fn queued_deactivations(q: Seq<DeactivationRecord>, keys: Seq<PeerUpdateKey>) -> Seq<DeactivationRecord>
    decreases keys.len(),
{
    if keys.len() == 0 {
        q
    } else {
        queued_deactivation(queued_deactivations(q, keys.drop_last()), keys.last())
    }
}

/// Queuing deactivations in two runs is queuing them all in one.
pub proof fn lemma_queued_deactivations_concat(q: Seq<DeactivationRecord>, a: Seq<PeerUpdateKey>, b: Seq<PeerUpdateKey>)
    ensures
        queued_deactivations(q, a + b) == queued_deactivations(queued_deactivations(q, a), b),
    decreases b.len(),
{
    if b.len() == 0 {
        assert(a + b =~= a);
    } else {
        assert((a + b).drop_last() =~= a + b.drop_last());
        lemma_queued_deactivations_concat(q, a, b.drop_last());
    }
}

/// The most deactivations one database query may hold: the bind limit of a
/// mysql query over the three columns bound per peer.
pub const BATCH_LIMIT: usize = 65535 / 3;

/// Pending deactivations, one per peer, oldest first.
pub struct Queue {
    records: DeactivationIndexMap,
}

impl View for Queue {
    type V = Seq<DeactivationRecord>;

    closed spec fn view(&self) -> Seq<DeactivationRecord> {
        deactivation_queue_contents(self.records)
    }
}

impl Queue {
    /// An empty queue.
    pub fn new() -> (r: Queue)
        ensures
            r@ == Seq::<DeactivationRecord>::empty(),
    {
        Queue { records: deactivation_queue_new() }
    }

    /// Queues the deactivation of a peer, unless it is queued already.
    pub fn upsert(&mut self, index: Index, deactivation: PeerDeactivation)
        ensures
            deactivation_queue_upserted(old(self)@, final(self)@, index_key(index), deactivation),
            final(self)@ == queued_deactivation(old(self)@, index_key(index)),
    {
        deactivation_queue_upsert(&mut self.records, (index.user_id, index.torrent_id, index.peer_id.0), deactivation);
        proof {
            let k = index_key(index);
            let before = old(self)@;
            let after = self@;
            if deactivation_queue_keys(before).contains(k) {
                let i = deactivation_queue_keys(before).index_of(k);
                assert(before[i].0 == k);
                assert(after[i] == before[i]);
                assert(after =~= before);
            }
        }
    }

    /// The number of queued deactivations.
    pub fn len(&self) -> (r: usize)
        ensures
            r == self@.len(),
    {
        deactivation_queue_len(&self.records)
    }

    /// Takes the oldest deactivations, as many as one query may hold, off the
    /// queue.
    pub fn take_batch(&mut self) -> (r: Vec<DeactivationRecord>)
        ensures
            ({
                let n = if old(self)@.len() < BATCH_LIMIT { old(self)@.len() } else { BATCH_LIMIT as nat };
                &&& r@ == old(self)@.subrange(0, n as int)
                &&& final(self)@ == old(self)@.subrange(n as int, old(self)@.len() as int)
            }),
    {
        let len = deactivation_queue_len(&self.records);
        let n = if len < BATCH_LIMIT { len } else { BATCH_LIMIT };
        deactivation_queue_drain_front(&mut self.records, n)
    }
}

} // verus!
