//! Peers of a torrent and the per-torrent peer store.
use vstd::prelude::*;
use vstd::string::StringSliceAdditionalSpecFns;

use crate::collections::{PeerIndexMap, peer_map_contents, peer_map_get, peer_map_insert, peer_map_keys, peer_map_new, peer_map_swap_remove, PeerKey};
use crate::config::Config;
use crate::utils::{hex_digit, hex_encode};

verus! {

/// A BitTorrent peer id: 20 opaque bytes chosen by the client.
#[derive(Clone, Copy, Debug, PartialEq, Eq, Hash)]
pub struct PeerId(pub [u8; 20]);

impl PeerId {
    /// Builds a peer id from its 20 bytes.
    pub fn from_bytes(bytes: [u8; 20]) -> (r: PeerId)
        ensures
            r.0 == bytes,
    {
        PeerId(bytes)
    }

    /// Builds a peer id from a byte vector, which must hold exactly 20 bytes.
    pub fn try_from_vec(value: &Vec<u8>) -> (r: Result<PeerId, &'static str>)
        ensures
            r is Ok <==> value@.len() == 20,
            r matches Ok(p) ==> p.0@ == value@,
            r matches Err(e) ==> e@ == "Peer id must be 20 bytes."@,
    {
        if value.len() != 20 {
            return Err("Peer id must be 20 bytes.");
        }
        let mut out: [u8; 20] = [0; 20];
        let mut i: usize = 0;
        while i < 20
            invariant
                value@.len() == 20,
                0 <= i <= 20,
                out@.len() == 20,
                forall|j: int| 0 <= j < i ==> out@[j] == value@[j],
            decreases 20 - i,
        {
            out[i] = value[i];
            i = i + 1;
        }
        assert(out@ =~= value@);
        Ok(PeerId(out))
    }

    /// The 40 upper-case hex digits of the peer id.
    pub fn to_hex(&self) -> (r: Vec<u8>)
        ensures
            r@ == hex_upper(self.0@),
    {
        bytes_to_hex(&self.0)
    }
}

/// Upper-case hex encoding of a byte string, two digits per byte.
pub open spec fn hex_upper(s: Seq<u8>) -> Seq<u8>
    decreases s.len(),
{
    if s.len() == 0 {
        Seq::empty()
    } else {
        hex_upper(s.drop_last()) + seq![hex_digit(s.last() / 16), hex_digit(s.last() % 16)]
    }
}

/// Upper-case hex encoding of `bytes`.
pub fn bytes_to_hex(bytes: &[u8]) -> (r: Vec<u8>)
    ensures
        r@ == hex_upper(bytes@),
{
    let mut out: Vec<u8> = Vec::new();
    let mut i: usize = 0;
    while i < bytes.len()
        invariant
            0 <= i <= bytes@.len(),
            out@ == hex_upper(bytes@.subrange(0, i as int)),
        decreases bytes@.len() - i,
    {
        let pair = hex_encode(bytes[i]);
        out.push(pair[0]);
        out.push(pair[1]);
        proof {
            let p = bytes@.subrange(0, i + 1);
            assert(p.drop_last() =~= bytes@.subrange(0, i as int));
        }
        i = i + 1;
    }
    assert(bytes@.subrange(0, bytes@.len() as int) =~= bytes@);
    out
}

/// A client's user agent as peers store it: its first 64 bytes, padded with
/// spaces.
#[derive(Clone, Copy, Debug, PartialEq, Eq, Hash)]
pub struct UserAgent(pub [u8; 64]);

/// The first 64 bytes of `s`, padded with spaces.
pub open spec fn padded_agent(s: Seq<u8>) -> Seq<u8> {
    Seq::new(64, |i: int| if i < s.len() { s[i] } else { 32u8 })
}

impl UserAgent {
    /// Reads a user agent from a string (never fails).
    pub fn from_str(string: &str) -> (r: Result<UserAgent, crate::utils::Error>)
        ensures
            r matches Ok(a) && a.0@ == padded_agent(string.spec_bytes()),
    {
        let bytes = string.as_bytes();
        let mut out: [u8; 64] = [32; 64];
        let mut i: usize = 0;
        while i < 64
            invariant
                0 <= i <= 64,
                bytes@ == string.spec_bytes(),
                out@.len() == 64,
                forall|j: int| 0 <= j < i ==> out@[j] == padded_agent(bytes@)[j],
                forall|j: int| i <= j < 64 ==> out@[j] == 32u8,
            decreases 64 - i,
        {
            if i < bytes.len() {
                out[i] = bytes[i];
            }
            i = i + 1;
        }
        assert(out@ =~= padded_agent(bytes@));
        Ok(UserAgent(out))
    }
}

/// An IPv4 or IPv6 address, by its octets.
#[derive(Clone, Copy, Debug, PartialEq, Eq, Hash)]
pub enum IpAddress {
    V4([u8; 4]),
    V6([u8; 16]),
}

impl IpAddress {
    /// Reads an address stored as its octets: 4 for IPv4, 16 for IPv6.
    pub fn from_bytes(bytes: &[u8]) -> (r: Result<IpAddress, crate::error::DecodeError>)
        ensures
            bytes@.len() == 4 ==> (r matches Ok(IpAddress::V4(o)) && o@ == bytes@),
            bytes@.len() == 16 ==> (r matches Ok(IpAddress::V6(o)) && o@ == bytes@),
            bytes@.len() != 4 && bytes@.len() != 16 ==> r == Err::<IpAddress, crate::error::DecodeError>(
                crate::error::DecodeError::Ip,
            ),
    {
        if bytes.len() == 4 {
            let o: [u8; 4] = [bytes[0], bytes[1], bytes[2], bytes[3]];
            assert(o@ =~= bytes@);
            Ok(IpAddress::V4(o))
        } else if bytes.len() == 16 {
            let o: [u8; 16] = [
                bytes[0],
                bytes[1],
                bytes[2],
                bytes[3],
                bytes[4],
                bytes[5],
                bytes[6],
                bytes[7],
                bytes[8],
                bytes[9],
                bytes[10],
                bytes[11],
                bytes[12],
                bytes[13],
                bytes[14],
                bytes[15],
            ];
            assert(o@ =~= bytes@);
            Ok(IpAddress::V6(o))
        } else {
            Err(crate::error::DecodeError::Ip)
        }
    }

    /// The octets of the address, as it is stored.
    pub fn to_bytes(&self) -> (r: Vec<u8>)
        ensures
            r@ == match *self {
                IpAddress::V4(o) => o@,
                IpAddress::V6(o) => o@,
            },
    {
        let mut out: Vec<u8> = Vec::new();
        match self {
            IpAddress::V4(o) => crate::bytes::extend_bytes(&mut out, o),
            IpAddress::V6(o) => crate::bytes::extend_bytes(&mut out, o),
        }
        out
    }
}

/// Key of a peer within a torrent's peer store.
#[derive(Clone, Copy, Debug, PartialEq, Eq, Hash)]
pub struct Index {
    pub user_id: u32,
    pub peer_id: PeerId,
}

impl Index {
    /// The key under which this peer is stored.
    pub open spec fn spec_key(self) -> PeerKey {
        (self.user_id, self.peer_id.0)
    }

    /// The key under which this peer is stored.
    pub fn key(&self) -> (r: PeerKey)
        ensures
            r == self.spec_key(),
    {
        (self.user_id, self.peer_id.0)
    }

    /// `user_id-PEERIDHEX`, how a peer is named when the store is serialized.
    pub fn to_display(&self) -> (r: Vec<u8>)
        ensures
            r@ == crate::number::decimal(self.user_id as nat) + seq![45u8] + hex_upper(self.peer_id.0@),
    {
        let mut out: Vec<u8> = Vec::new();
        crate::number::push_decimal(self.user_id as u64, &mut out);
        out.push(45);
        let hex = self.peer_id.to_hex();
        crate::bytes::extend_bytes(&mut out, hex.as_slice());
        out
    }
}

/// A peer as the tracker remembers it between announces.
#[derive(Clone, Copy, Debug, PartialEq, Eq)]
pub struct Peer {
    pub ip_address: IpAddress,
    pub port: u16,
    pub is_seeder: bool,
    pub is_active: bool,
    pub is_visible: bool,
    pub is_connectable: bool,
    /// Time of the last announce, in microseconds since the unix epoch.
    pub updated_at: i64,
    pub uploaded: u64,
    pub downloaded: u64,
}

impl Peer {
    /// The peer is handed out in peer lists.
    pub open spec fn spec_in_peer_list(self, require_peer_connectivity: bool) -> bool {
        if require_peer_connectivity {
            self.is_active && self.is_visible && self.is_connectable
        } else {
            self.is_active && self.is_visible
        }
    }

    /// The peer counts as a seed of its torrent.
    pub open spec fn spec_in_seed_list(self, require_peer_connectivity: bool) -> bool {
        self.is_seeder && self.spec_in_peer_list(require_peer_connectivity)
    }

    /// The peer counts as a leech of its torrent.
    pub open spec fn spec_in_leech_list(self, require_peer_connectivity: bool) -> bool {
        !self.is_seeder && self.spec_in_peer_list(require_peer_connectivity)
    }

    /// Determines if the peer should be included in the peer list
    pub fn is_included_in_peer_list(&self, config: &Config) -> (r: bool)
        ensures
            r == self.spec_in_peer_list(config.require_peer_connectivity),
    {
        if config.require_peer_connectivity {
            self.is_active && self.is_visible && self.is_connectable
        } else {
            self.is_active && self.is_visible
        }
    }

    /// Determines if the peer should be included in the list of seeds
    pub fn is_included_in_seed_list(&self, config: &Config) -> (r: bool)
        ensures
            r == self.spec_in_seed_list(config.require_peer_connectivity),
    {
        self.is_seeder && self.is_included_in_peer_list(config)
    }

    /// Determines if the peer should be included in the list of leeches
    pub fn is_included_in_leech_list(&self, config: &Config) -> (r: bool)
        ensures
            r == self.spec_in_leech_list(config.require_peer_connectivity),
    {
        !self.is_seeder && self.is_included_in_peer_list(config)
    }
}

/// Keys of the active peers of a user.
pub open spec fn active_keys_of(peers: Map<PeerKey, Peer>, user_id: u32) -> Set<PeerKey> {
    peers.dom().filter(|k: PeerKey| k.0 == user_id && peers[k].is_active)
}

/// The peers of one torrent, keyed by user id and peer id.
pub struct PeerStore {
    inner: PeerIndexMap,
}

impl View for PeerStore {
    type V = Map<PeerKey, Peer>;

    closed spec fn view(&self) -> Map<PeerKey, Peer> {
        peer_map_contents(self.inner)
    }
}

impl PeerStore {
    /// An empty peer store.
    pub fn new() -> (r: PeerStore)
        ensures
            r@ == Map::<PeerKey, Peer>::empty(),
    {
        PeerStore { inner: peer_map_new() }
    }

    /// The peer stored under `key`, if any.
    pub fn get(&self, key: PeerKey) -> (r: Option<Peer>)
        ensures
            r == self@.get(key),
    {
        peer_map_get(&self.inner, key)
    }

    /// Stores `peer` under `key`, returning the peer it replaced.
    pub fn insert(&mut self, key: PeerKey, peer: Peer) -> (r: Option<Peer>)
        ensures
            r == old(self)@.get(key),
            final(self)@ == old(self)@.insert(key, peer),
    {
        peer_map_insert(&mut self.inner, key, peer)
    }

    /// Removes the peer stored under `key`, returning it.
    pub fn swap_remove(&mut self, key: PeerKey) -> (r: Option<Peer>)
        ensures
            r == old(self)@.get(key),
            final(self)@ == old(self)@.remove(key),
    {
        peer_map_swap_remove(&mut self.inner, key)
    }

    /// Every key of the store, once each.
    pub fn keys(&self) -> (r: Vec<PeerKey>)
        ensures
            r@.no_duplicates(),
            forall|k: PeerKey| #[trigger] r@.contains(k) <==> self@.dom().contains(k),
            r@.len() == self@.len(),
            r@.len() <= isize::MAX / 24,
    {
        peer_map_keys(&self.inner)
    }

    /// The number of active peers of a user.
    pub fn count_active_of(&self, user_id: u32) -> (r: usize)
        ensures
            active_keys_of(self@, user_id).finite(),
            r == active_keys_of(self@, user_id).len(),
    {
        let keys = self.keys();
        let ghost target = active_keys_of(self@, user_id);
        let ghost mut matched: Seq<PeerKey> = Seq::empty();
        let mut count: usize = 0;
        let mut i: usize = 0;
        while i < keys.len()
            invariant
                0 <= i <= keys@.len(),
                keys@.no_duplicates(),
                forall|k: PeerKey| #[trigger] keys@.contains(k) <==> self@.dom().contains(k),
                target == active_keys_of(self@, user_id),
                matched.no_duplicates(),
                count == matched.len(),
                count <= i,
                forall|k: PeerKey| #[trigger] matched.contains(k) <==> (keys@.subrange(0, i as int).contains(k) && target.contains(k)),
            decreases keys@.len() - i,
        {
            let k = keys[i];
            assert(keys@.contains(k));
            let peer = self.get(k).unwrap();
            let take = k.0 == user_id && peer.is_active;
            assert(take == target.contains(k));
            proof {
                assert forall|j: int| 0 <= j < i implies keys@.subrange(0, i as int)[j] != k by {
                    assert(keys@[j] != keys@[i as int]);
                }
            }
            let ghost old_matched = matched;
            if take {
                proof {
                    assert(!matched.contains(k));
                    matched = matched.push(k);
                    assert forall|a: int, b: int| 0 <= a < b < matched.len() implies matched[a] != matched[b] by {
                        if b == matched.len() - 1 {
                            assert(old_matched.contains(matched[a]));
                        } else {
                            assert(old_matched[a] != old_matched[b]);
                        }
                    }
                }
                count = count + 1;
            }
            proof {
                let pre = keys@.subrange(0, i as int);
                let next = keys@.subrange(0, i + 1);
                assert forall|q: PeerKey| #[trigger] next.contains(q) <==> (pre.contains(q) || q == k) by {
                    if next.contains(q) {
                        let j = choose|j: int| 0 <= j < next.len() && next[j] == q;
                        if j < i {
                            assert(pre[j] == q);
                        }
                    }
                    if pre.contains(q) {
                        let j = choose|j: int| 0 <= j < pre.len() && pre[j] == q;
                        assert(next[j] == q);
                    }
                    if q == k {
                        assert(next[i as int] == q);
                    }
                }
                assert forall|q: PeerKey| #[trigger] matched.contains(q) <==> (next.contains(q) && target.contains(q)) by {
                    if take {
                        if matched.contains(q) && q != k {
                            let j = choose|j: int| 0 <= j < matched.len() && matched[j] == q;
                            assert(old_matched[j] == q);
                        }
                        if old_matched.contains(q) {
                            let j = choose|j: int| 0 <= j < old_matched.len() && old_matched[j] == q;
                            assert(matched[j] == q);
                        }
                        if q == k {
                            assert(matched[old_matched.len() as int] == q);
                        }
                    }
                }
            }
            i = i + 1;
        }
        proof {
            assert(keys@.subrange(0, keys@.len() as int) =~= keys@);
            assert(matched.to_set() =~= target);
            matched.unique_seq_to_set();
        }
        count
    }

    /// The number of peers.
    pub fn len(&self) -> (r: usize)
        ensures
            r == self@.len(),
    {
        let keys = self.keys();
        keys.len()
    }
}

} // verus!
