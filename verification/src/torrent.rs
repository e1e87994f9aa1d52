//! Torrents, their info hashes and moderation status, and the torrent stores.
use vstd::prelude::*;

use crate::collections::{TorrentIndexMap, InfoHashIndexMap, info_hash_map_contents, info_hash_map_get, info_hash_map_insert, info_hash_map_len, info_hash_map_new, torrent_map_contents, torrent_map_get, torrent_map_insert, torrent_map_keys, torrent_map_new, torrent_map_swap_remove, torrent_map_take, PeerKey};
use crate::error::DecodeError;
use crate::peer::{hex_upper, bytes_to_hex, Peer, PeerStore};
use crate::user::string_bytes;
use crate::utils::{hex_decode, hex_pair_value};

verus! {

/// A torrent's 20-byte SHA-1 info hash.
#[derive(Clone, Copy, Debug, PartialEq, Eq, Hash)]
pub struct InfoHash(pub [u8; 20]);

/// The bytes that `s` stands for when read as 40 hex digits, high digit of
/// each byte first.
pub open spec fn hex_to_bytes(s: Seq<u8>) -> Option<Seq<u8>>
    decreases s.len(),
{
    if s.len() == 0 {
        Some(Seq::empty())
    } else if s.len() < 2 {
        None
    } else {
        match (hex_to_bytes(s.subrange(0, s.len() - 2)), hex_pair_value(s[s.len() - 2], s[s.len() - 1])) {
            (Some(front), Some(b)) => Some(front.push(b)),
            _ => None,
        }
    }
}

/// The info hash that a 40-digit hex string (either case) stands for.
pub open spec fn spec_info_hash_from_hex(s: Seq<u8>) -> Option<Seq<u8>> {
    if s.len() == 40 { hex_to_bytes(s) } else { None }
}

impl InfoHash {
    /// Reads an info hash written as 40 hex digits, in either case.
    pub fn parse(s: &[u8]) -> (r: Result<InfoHash, DecodeError>)
        ensures
            r is Ok <==> spec_info_hash_from_hex(s@) is Some,
            r matches Ok(h) ==> Some(h.0@) == spec_info_hash_from_hex(s@),
            r matches Err(e) ==> e == DecodeError::InfoHash,
    {
        if s.len() != 40 {
            return Err(DecodeError::InfoHash);
        }
        let mut out: [u8; 20] = [0; 20];
        let mut pos: usize = 0;
        while pos < 20
            invariant
                s@.len() == 40,
                0 <= pos <= 20,
                out@.len() == 20,
                hex_to_bytes(s@.subrange(0, 2 * pos as int)) == Some(out@.subrange(0, pos as int)),
            decreases 20 - pos,
        {
            let d = hex_decode([s[pos * 2], s[pos * 2 + 1]]);
            proof {
                let p = s@.subrange(0, 2 * pos + 2);
                assert(p.subrange(0, p.len() - 2) =~= s@.subrange(0, 2 * pos as int));
                assert(p[p.len() - 2] == s@[2 * pos as int]);
                assert(p[p.len() - 1] == s@[2 * pos + 1]);
            }
            match d {
                Ok(b) => {
                    let ghost before = out@;
                    out[pos] = b;
                    assert(out@.subrange(0, pos + 1) =~= before.subrange(0, pos as int).push(b));
                },
                Err(_) => {
                    proof {
                        lemma_hex_to_bytes_prefix_none(s@, 2 * pos + 2);
                    }
                    return Err(DecodeError::InfoHash);
                },
            }
            pos = pos + 1;
        }
        assert(s@.subrange(0, 40) =~= s@);
        assert(out@.subrange(0, 20) =~= out@);
        Ok(InfoHash(out))
    }

    /// Reads an info hash from a string of 40 hex digits.
    pub fn from_string(s: &String) -> (r: Result<InfoHash, DecodeError>)
        ensures
            r is Ok <==> spec_info_hash_from_hex(string_bytes(*s)) is Some,
            r matches Ok(h) ==> Some(h.0@) == spec_info_hash_from_hex(string_bytes(*s)),
            r matches Err(e) ==> e == DecodeError::InfoHash,
    {
        InfoHash::parse(s.as_str().as_bytes())
    }

    /// Builds an info hash from a byte vector, which must hold exactly 20
    /// bytes.
    pub fn try_from_vec(value: &Vec<u8>) -> (r: Result<InfoHash, &'static str>)
        ensures
            r is Ok <==> value@.len() == 20,
            r matches Ok(h) ==> h.0@ == value@,
            r matches Err(e) ==> e@ == "Info Hash must be 20 bytes."@,
    {
        if value.len() != 20 {
            return Err("Info Hash must be 20 bytes.");
        }
        let mut out: [u8; 20] = [0; 20];
        let mut i: usize = 0;
        while i < 20
            invariant
                value@.len() == 20,
                0 <= i <= 20,
                out@.len() == 20,
                forall|j: int| 0 <= j < i ==> out@[j] == value@[j],
            decreases 20 - i,
        {
            out[i] = value[i];
            i = i + 1;
        }
        assert(out@ =~= value@);
        Ok(InfoHash(out))
    }

    /// The 40 upper-case hex digits of the info hash.
    pub fn to_hex(&self) -> (r: Vec<u8>)
        ensures
            r@ == hex_upper(self.0@),
    {
        bytes_to_hex(&self.0)
    }
}

/// Reading back the hex digits of a byte string gives the bytes.
pub proof fn lemma_hex_upper_roundtrip(bytes: Seq<u8>)
    ensures
        hex_to_bytes(hex_upper(bytes)) == Some(bytes),
    decreases bytes.len(),
{
    if bytes.len() > 0 {
        let front = bytes.drop_last();
        let b = bytes.last();
        lemma_hex_upper_roundtrip(front);
        lemma_hex_upper_len(front);
        crate::utils::lemma_hex_roundtrip(b);
        let h = hex_upper(bytes);
        assert(h.subrange(0, h.len() - 2) =~= hex_upper(front));
        assert(front.push(b) =~= bytes);
    }
}

/// Two hex digits per byte.
pub proof fn lemma_hex_upper_len(bytes: Seq<u8>)
    ensures
        hex_upper(bytes).len() == 2 * bytes.len(),
    decreases bytes.len(),
{
    if bytes.len() > 0 {
        lemma_hex_upper_len(bytes.drop_last());
    }
}

/// An info hash written out as hex digits reads back as itself.
pub proof fn lemma_info_hash_roundtrip(h: InfoHash)
    ensures
        spec_info_hash_from_hex(hex_upper(h.0@)) == Some(h.0@),
{
    lemma_hex_upper_roundtrip(h.0@);
    lemma_hex_upper_len(h.0@);
}

proof fn lemma_hex_to_bytes_prefix_none(s: Seq<u8>, n: int)
    requires
        0 <= n <= s.len(),
        n % 2 == 0,
        hex_to_bytes(s.subrange(0, n)) is None,
    ensures
        hex_to_bytes(s) is None,
    decreases s.len() - n,
{
    if n < s.len() {
        if n + 2 <= s.len() {
            let p = s.subrange(0, n + 2);
            assert(p.subrange(0, p.len() - 2) =~= s.subrange(0, n));
            lemma_hex_to_bytes_prefix_none(s, n + 2);
        } else {
            assert(s.subrange(0, n + 1) =~= s);
            assert(s.len() == n + 1);
            let q = s;
            if q.len() >= 2 {
                assert(q.subrange(0, q.len() - 2).len() % 2 == 1);
                lemma_odd_none(q.subrange(0, q.len() - 2));
            }
        }
    } else {
        assert(s.subrange(0, n) =~= s);
    }
}

proof fn lemma_odd_none(s: Seq<u8>)
    requires
        s.len() % 2 == 1,
    ensures
        hex_to_bytes(s) is None,
    decreases s.len(),
{
    if s.len() >= 2 {
        lemma_odd_none(s.subrange(0, s.len() - 2));
    }
}

/// Torrent moderation status.
#[derive(Clone, Copy, Debug, PartialEq, Eq, Structural)]
pub enum Status {
    /// In the moderation queue, not yet moderated.
    Pending,
    /// Passed moderation; available to all users.
    Approved,
    /// Moderated and rejected.
    Rejected,
    /// Moderated and postponed until edited.
    Postponed,
    /// A value the site's database should not hold.
    Unknown,
}

/// The status a database smallint stands for.
pub open spec fn spec_status_from_i16(status: i16) -> Status {
    if status == 0 {
        Status::Pending
    } else if status == 1 {
        Status::Approved
    } else if status == 2 {
        Status::Rejected
    } else if status == 3 {
        Status::Postponed
    } else {
        Status::Unknown
    }
}

impl Status {
    /// The status a database smallint stands for.
    pub fn from_i16(status: i16) -> (r: Status)
        ensures
            r == spec_status_from_i16(status),
    {
        match status {
            0 => Status::Pending,
            1 => Status::Approved,
            2 => Status::Rejected,
            3 => Status::Postponed,
            _ => Status::Unknown,
        }
    }

    /// The status's name.
    pub fn as_str(&self) -> (r: &'static str)
        ensures
            r@ == match self {
                Status::Pending => "Pending"@,
                Status::Approved => "Approved"@,
                Status::Rejected => "Rejected"@,
                Status::Postponed => "Postponed"@,
                Status::Unknown => "Unknown"@,
            },
    {
        match self {
            Status::Pending => "Pending",
            Status::Approved => "Approved",
            Status::Rejected => "Rejected",
            Status::Postponed => "Postponed",
            Status::Unknown => "Unknown",
        }
    }
}

/// A torrent row as loaded from the database.
#[derive(Clone, Copy, Debug)]
pub struct DBImportTorrent {
    pub id: u32,
    pub status: Status,
    pub seeders: u32,
    pub leechers: u32,
    pub times_completed: u32,
    pub download_factor: u8,
    pub upload_factor: u8,
    pub is_deleted: bool,
}

/// A torrent as the tracker keeps it in memory, with its peers.
pub struct Torrent {
    pub id: u32,
    pub status: Status,
    pub is_deleted: bool,
    pub peers: PeerStore,
    pub seeders: u32,
    pub leechers: u32,
    pub times_completed: u32,
    pub download_factor: u8,
    pub upload_factor: u8,
}

impl Torrent {
    /// A torrent without peers, as a database row describes it.
    pub fn from_db(t: DBImportTorrent) -> (r: Torrent)
        ensures
            r.id == t.id,
            r.status == t.status,
            r.is_deleted == t.is_deleted,
            r.peers@ == Map::<PeerKey, crate::peer::Peer>::empty(),
            r.seeders == t.seeders,
            r.leechers == t.leechers,
            r.times_completed == t.times_completed,
            r.download_factor == t.download_factor,
            r.upload_factor == t.upload_factor,
    {
        Torrent {
            id: t.id,
            status: t.status,
            is_deleted: t.is_deleted,
            peers: PeerStore::new(),
            seeders: t.seeders,
            leechers: t.leechers,
            times_completed: t.times_completed,
            download_factor: t.download_factor,
            upload_factor: t.upload_factor,
        }
    }
}

/// The placeholder torrent a store holds while a torrent is taken out: what
/// `Torrent::default` gives.
pub open spec fn is_placeholder(t: Torrent) -> bool {
    &&& t.id == 0
    &&& t.status == Status::Unknown
    &&& !t.is_deleted
    &&& t.peers@ == Map::<PeerKey, crate::peer::Peer>::empty()
    &&& t.seeders == 0
    &&& t.leechers == 0
    &&& t.times_completed == 0
    &&& t.download_factor == 0
    &&& t.upload_factor == 0
}

impl Default for Torrent {
    fn default() -> (r: Torrent)
        ensures
            r.id == 0,
            r.status == Status::Unknown,
            !r.is_deleted,
            r.peers@ == Map::<PeerKey, crate::peer::Peer>::empty(),
            r.seeders == 0,
            r.leechers == 0,
            r.times_completed == 0,
            r.download_factor == 0,
            r.upload_factor == 0,
    {
        Torrent {
            id: 0,
            status: Status::Unknown,
            is_deleted: false,
            peers: PeerStore::new(),
            seeders: 0,
            leechers: 0,
            times_completed: 0,
            download_factor: 0,
            upload_factor: 0,
        }
    }
}

/// A torrent as sent by the site to be inserted or updated.
#[derive(Clone, Debug)]
pub struct APIInsertTorrent {
    pub id: u32,
    pub status: Status,
    pub info_hash: String,
    pub is_deleted: bool,
    pub seeders: u32,
    pub leechers: u32,
    pub times_completed: u32,
    pub download_factor: u8,
    pub upload_factor: u8,
}

/// A torrent as sent by the site to be removed.
#[derive(Clone, Copy, Debug)]
pub struct APIRemoveTorrent {
    pub id: u32,
}

/// A torrent id to info hash row as loaded from the database.
#[derive(Clone, Copy, Debug)]
pub struct InfoHash2Id {
    pub id: u32,
    pub info_hash: InfoHash,
}

/// All torrents, by id.
pub struct TorrentStore {
    inner: TorrentIndexMap,
}

impl View for TorrentStore {
    type V = Map<u32, Torrent>;

    closed spec fn view(&self) -> Map<u32, Torrent> {
        torrent_map_contents(self.inner)
    }
}

impl TorrentStore {
    /// An empty torrent store.
    pub fn new() -> (r: TorrentStore)
        ensures
            r@ == Map::<u32, Torrent>::empty(),
    {
        TorrentStore { inner: torrent_map_new() }
    }

    /// The torrent with the given id, if any.
    pub fn get(&self, id: u32) -> (r: Option<&Torrent>)
        ensures
            r is Some <==> self@.dom().contains(id),
            r matches Some(t) ==> *t == self@[id],
    {
        torrent_map_get(&self.inner, id)
    }

    /// Moves the torrent with the given id out of the store; the store keeps
    /// a placeholder under that id until the torrent is put back.
    pub fn take(&mut self, id: u32) -> (r: Option<Torrent>)
        ensures
            r == old(self)@.get(id),
            final(self)@.dom() == old(self)@.dom(),
            forall|j: u32| j != id ==> final(self)@.get(j) == old(self)@.get(j),
            old(self)@.contains_key(id) ==> is_placeholder(final(self)@[id]),
    {
        torrent_map_take(&mut self.inner, id)
    }

    /// Places a peer loaded from the database into its torrent, keyed by its
    /// user and peer id. A peer of a torrent the store does not hold is
    /// dropped. Returns whether the peer was placed.
    pub fn place_peer(&mut self, torrent_id: u32, key: PeerKey, peer: Peer) -> (r: bool)
        ensures
            r == old(self)@.contains_key(torrent_id),
            !r ==> final(self)@ == old(self)@,
            r ==> {
                let before = old(self)@[torrent_id];
                let after = final(self)@[torrent_id];
                &&& final(self)@.dom() == old(self)@.dom()
                &&& forall|j: u32| j != torrent_id ==> final(self)@.get(j) == old(self)@.get(j)
                &&& after.peers@ == before.peers@.insert(key, peer)
                &&& after.id == before.id
                &&& after.status == before.status
                &&& after.is_deleted == before.is_deleted
                &&& after.seeders == before.seeders
                &&& after.leechers == before.leechers
                &&& after.times_completed == before.times_completed
                &&& after.download_factor == before.download_factor
                &&& after.upload_factor == before.upload_factor
            },
    {
        let ghost start = self@;
        match self.take(torrent_id) {
            Some(mut t) => {
                t.peers.insert(key, peer);
                self.insert(torrent_id, t);
                true
            },
            None => {
                assert forall|j: u32| self@.dom().contains(j) implies self@[j] == start[j] by {
                    assert(j != torrent_id);
                    assert(self@.get(j) == start.get(j));
                }
                assert(self@ =~= start);
                false
            },
        }
    }

    /// Stores `torrent` under `id`, returning the torrent it replaced.
    pub fn insert(&mut self, id: u32, torrent: Torrent) -> (r: Option<Torrent>)
        ensures
            r == old(self)@.get(id),
            final(self)@ == old(self)@.insert(id, torrent),
    {
        torrent_map_insert(&mut self.inner, id, torrent)
    }

    /// Removes the torrent with the given id, returning it.
    pub fn swap_remove(&mut self, id: u32) -> (r: Option<Torrent>)
        ensures
            r == old(self)@.get(id),
            final(self)@ == old(self)@.remove(id),
    {
        torrent_map_swap_remove(&mut self.inner, id)
    }

    /// Every torrent id, once each.
    pub fn ids(&self) -> (r: Vec<u32>)
        ensures
            r@.no_duplicates(),
            forall|k: u32| #[trigger] r@.contains(k) <==> self@.dom().contains(k),
            r@.len() == self@.len(),
    {
        torrent_map_keys(&self.inner)
    }

    /// The number of torrents.
    pub fn len(&self) -> (r: usize)
        ensures
            r == self@.len(),
    {
        let ids = self.ids();
        ids.len()
    }
}

/// Torrent ids by info hash.
pub struct InfoHash2IdStore {
    inner: InfoHashIndexMap,
}

impl View for InfoHash2IdStore {
    type V = Map<[u8; 20], u32>;

    closed spec fn view(&self) -> Map<[u8; 20], u32> {
        info_hash_map_contents(self.inner)
    }
}

impl InfoHash2IdStore {
    /// An empty info hash store.
    pub fn new() -> (r: InfoHash2IdStore)
        ensures
            r@ == Map::<[u8; 20], u32>::empty(),
    {
        InfoHash2IdStore { inner: info_hash_map_new() }
    }

    /// The torrent id of an info hash, if known.
    pub fn get(&self, info_hash: InfoHash) -> (r: Option<u32>)
        ensures
            r == self@.get(info_hash.0),
    {
        info_hash_map_get(&self.inner, info_hash.0)
    }

    /// Maps `info_hash` to `id`, returning the id it replaced.
    pub fn insert(&mut self, info_hash: InfoHash, id: u32) -> (r: Option<u32>)
        ensures
            r == old(self)@.get(info_hash.0),
            final(self)@ == old(self)@.insert(info_hash.0, id),
    {
        info_hash_map_insert(&mut self.inner, info_hash.0, id)
    }

    /// The number of info hashes.
    pub fn len(&self) -> (r: usize)
        ensures
            r == self@.len(),
    {
        info_hash_map_len(&self.inner)
    }
}

/// Inserts or replaces the torrent an API request describes, keeping the
/// peers of the torrent it replaces, and maps its info hash to it. Refuses
/// (returns false, changing nothing) a request whose info hash is not 40 hex
/// digits.
pub fn upsert_torrent(
    torrents: &mut TorrentStore,
    infohash2id: &mut InfoHash2IdStore,
    torrent: APIInsertTorrent,
) -> (r: bool)
    ensures
        r == (spec_info_hash_from_hex(string_bytes(torrent.info_hash)) is Some),
        !r ==> final(torrents)@ == old(torrents)@ && final(infohash2id)@ == old(infohash2id)@,
        r ==> {
            let t = final(torrents)@[torrent.id];
            &&& final(torrents)@.dom() == old(torrents)@.dom().insert(torrent.id)
            &&& forall|id: u32| id != torrent.id ==> final(torrents)@.get(id) == old(torrents)@.get(id)
            &&& t.id == torrent.id
            &&& t.status == torrent.status
            &&& t.is_deleted == torrent.is_deleted
            &&& t.seeders == torrent.seeders
            &&& t.leechers == torrent.leechers
            &&& t.times_completed == torrent.times_completed
            &&& t.download_factor == torrent.download_factor
            &&& t.upload_factor == torrent.upload_factor
            &&& t.peers@ == (if old(torrents)@.dom().contains(torrent.id) {
                old(torrents)@[torrent.id].peers@
            } else {
                Map::<PeerKey, crate::peer::Peer>::empty()
            })
            &&& exists|h: [u8; 20]| Some(h@) == spec_info_hash_from_hex(string_bytes(torrent.info_hash))
                && final(infohash2id)@ == old(infohash2id)@.insert(h, torrent.id)
        },
{
    let info_hash = match InfoHash::from_string(&torrent.info_hash) {
        Ok(h) => h,
        Err(_) => {
            return false;
        },
    };
    let old_torrent = torrents.swap_remove(torrent.id);
    let peers = match old_torrent {
        Some(t) => t.peers,
        None => PeerStore::new(),
    };
    let stored = Torrent {
        id: torrent.id,
        status: torrent.status,
        is_deleted: torrent.is_deleted,
        peers,
        seeders: torrent.seeders,
        leechers: torrent.leechers,
        times_completed: torrent.times_completed,
        download_factor: torrent.download_factor,
        upload_factor: torrent.upload_factor,
    };
    torrents.insert(torrent.id, stored);
    infohash2id.insert(info_hash, torrent.id);
    assert(torrents@.dom() =~= old(torrents)@.dom().insert(torrent.id));
    true
}

/// Marks the torrent an API request names as deleted. Returns false when
/// there is no such torrent.
pub fn destroy_torrent(torrents: &mut TorrentStore, torrent: APIRemoveTorrent) -> (r: bool)
    ensures
        r == old(torrents)@.dom().contains(torrent.id),
        !r ==> final(torrents)@ == old(torrents)@,
        r ==> {
            let before = old(torrents)@[torrent.id];
            let after = final(torrents)@[torrent.id];
            &&& final(torrents)@.dom() == old(torrents)@.dom()
            &&& forall|id: u32| id != torrent.id ==> final(torrents)@.get(id) == old(torrents)@.get(id)
            &&& after.is_deleted
            &&& after.id == before.id
            &&& after.status == before.status
            &&& after.peers == before.peers
            &&& after.seeders == before.seeders
            &&& after.leechers == before.leechers
            &&& after.times_completed == before.times_completed
            &&& after.download_factor == before.download_factor
            &&& after.upload_factor == before.upload_factor
        },
{
    match torrents.take(torrent.id) {
        Some(mut t) => {
            t.is_deleted = true;
            torrents.insert(torrent.id, t);
            assert(torrents@.dom() =~= old(torrents)@.dom());
            true
        },
        None => {
            assert forall|j: u32| #![auto] torrents@.dom().contains(j) implies torrents@[j] == old(torrents)@[j] by {
                assert(torrents@.get(j) == old(torrents)@.get(j));
            }
            assert(torrents@ =~= old(torrents)@);
            false
        },
    }
}

} // verus!
