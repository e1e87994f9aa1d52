//! Logged announces, written to the database in batches.
use vstd::prelude::*;

use crate::announce::Event;
use crate::peer::PeerId;

verus! {

/// One logged announce.
#[derive(Clone, Debug)]
pub struct AnnounceUpdate {
    pub user_id: u32,
    pub torrent_id: u32,
    pub uploaded: u64,
    pub downloaded: u64,
    pub left: u64,
    pub corrupt: Option<u64>,
    pub peer_id: PeerId,
    pub port: u16,
    pub numwant: u16,
    /// Microseconds since the unix epoch.
    pub created_at: i64,
    pub event: Event,
    pub key: Option<Vec<u8>>,
}

/// The most announces one database insert may hold: the bind limit of a
/// mysql query over the number of columns written per announce.
pub open spec fn announce_limit() -> nat {
    65535nat / 12nat
}

/// Logged announces waiting to be written, oldest first.
pub struct Queue(pub Vec<AnnounceUpdate>);

impl Queue {
    /// An empty queue.
    pub fn new() -> (r: Queue)
        ensures
            r.0@ == Seq::<AnnounceUpdate>::empty(),
    {
        Queue(Vec::new())
    }

    /// Appends an announce.
    pub fn upsert(&mut self, new: AnnounceUpdate)
        ensures
            final(self).0@ == old(self).0@.push(new),
    {
        self.0.push(new);
    }

    /// Takes the oldest announces, as many as one insert may hold.
    pub fn take_batch(&mut self) -> (r: Queue)
        ensures
            r.0@ + final(self).0@ == old(self).0@,
            r.0@.len() == if old(self).0@.len() < announce_limit() { old(self).0@.len() } else { announce_limit() },
    {
        let len = self.0.len();
        let n: usize = if len < 65535 / 12 { len } else { 65535 / 12 };
        let mut rest = self.0.split_off(n);
        std::mem::swap(&mut self.0, &mut rest);
        Queue(rest)
    }

    /// Puts a batch back (after a failed write), behind the queued announces.
    pub fn upsert_batch(&mut self, batch: Queue)
        ensures
            final(self).0@ == old(self).0@ + batch.0@,
    {
        let mut b = batch.0;
        self.0.append(&mut b);
    }
}

} // verus!
