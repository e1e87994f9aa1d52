//! The tracker's sets: blacklisted ports and clients, freeleech grants and
//! featured torrents.
use vstd::prelude::*;
use indexmap::IndexSet;

use crate::bytes::{is_prefix, starts_with};
use crate::collections::{
    bytes_set_contents, bytes_set_insert, bytes_set_members, bytes_set_new, bytes_set_swap_remove,
    id_set_contents, id_set_contains, id_set_insert, id_set_len, id_set_new, id_set_swap_remove,
    pair_set_contents, pair_set_contains, pair_set_insert, pair_set_len, pair_set_new,
    pair_set_swap_remove, port_set_contents, port_set_contains, port_set_insert, port_set_len,
    port_set_new,
};

verus! {

/// Ports peers may not announce: the system-reserved ports below 1024, and
/// ports of web servers, remote desktop and other file sharing programs.
pub open spec fn is_default_blacklisted_port(port: u16) -> bool {
    ||| port < 1024
    ||| port == 8080
    ||| port == 8081
    ||| port == 1214
    ||| port == 3389
    ||| port == 4662
    ||| port == 6346
    ||| port == 6347
    ||| port == 6699
}

/// Ports that peers may not announce.
pub struct BlacklistedPortStore {
    inner: IndexSet<u16>,
}

impl View for BlacklistedPortStore {
    type V = Set<u16>;

    closed spec fn view(&self) -> Set<u16> {
        port_set_contents(self.inner)
    }
}

impl BlacklistedPortStore {
    /// The default blacklist.
    pub fn new() -> (r: BlacklistedPortStore)
        ensures
            forall|p: u16| r@.contains(p) <==> is_default_blacklisted_port(p),
    {
        let mut set = port_set_new();
        // Hyper Text Transfer Protocol (HTTP) - port used for web traffic
        port_set_insert(&mut set, 8080);
        port_set_insert(&mut set, 8081);
        // Kazaa - peer-to-peer file sharing
        port_set_insert(&mut set, 1214);
        // Microsoft WBT Server, used for Windows Remote Desktop
        port_set_insert(&mut set, 3389);
        // eDonkey 2000 P2P file sharing service
        port_set_insert(&mut set, 4662);
        // Gnutella (FrostWire, Limewire, Shareaza, etc.), BearShare
        port_set_insert(&mut set, 6346);
        port_set_insert(&mut set, 6347);
        // Port used by p2p software, such as WinMX, Napster.
        port_set_insert(&mut set, 6699);
        let ghost listed = port_set_contents(set);
        assert(listed =~= listed.union(Set::new(|p: u16| p < 0)));
        // Block system-reserved ports (requires root for clients to listen on these ports)
        let mut port: u16 = 0;
        while port < 1024
            invariant
                0 <= port <= 1024,
                port_set_contents(set) == listed.union(Set::new(|p: u16| p < port)),
            decreases 1024 - port,
        {
            port_set_insert(&mut set, port);
            assert(port_set_contents(set) =~= listed.union(Set::new(|p: u16| p < port + 1)));
            port = port + 1;
        }
        let r = BlacklistedPortStore { inner: set };
        assert forall|p: u16| r@.contains(p) <==> is_default_blacklisted_port(p) by {
            assert(r@ == listed.union(Set::new(|q: u16| q < 1024)));
        }
        r
    }

    /// True when `port` is blacklisted.
    pub fn contains(&self, port: u16) -> (r: bool)
        ensures
            r == self@.contains(port),
    {
        port_set_contains(&self.inner, port)
    }

    /// The number of blacklisted ports.
    pub fn len(&self) -> (r: usize)
        ensures
            r == self@.len(),
    {
        port_set_len(&self.inner)
    }
}

/// A blacklisted client, by the prefix of the peer ids it generates.
#[derive(Clone, Debug)]
pub struct Agent {
    pub peer_id_prefix: Vec<u8>,
}

/// Peer id prefixes of blacklisted clients.
pub struct BlacklistedAgentStore {
    inner: IndexSet<Vec<u8>>,
}

impl View for BlacklistedAgentStore {
    type V = Set<Seq<u8>>;

    closed spec fn view(&self) -> Set<Seq<u8>> {
        bytes_set_contents(self.inner)
    }
}

impl BlacklistedAgentStore {
    /// An empty blacklist.
    pub fn new() -> (r: BlacklistedAgentStore)
        ensures
            r@ == Set::<Seq<u8>>::empty(),
    {
        BlacklistedAgentStore { inner: bytes_set_new() }
    }

    /// Blacklists a client.
    pub fn upsert(&mut self, agent: Agent)
        ensures
            final(self)@ == old(self)@.insert(agent.peer_id_prefix@),
    {
        bytes_set_insert(&mut self.inner, agent.peer_id_prefix);
    }

    /// Removes a client from the blacklist.
    pub fn destroy(&mut self, agent: &Agent)
        ensures
            final(self)@ == old(self)@.remove(agent.peer_id_prefix@),
    {
        bytes_set_swap_remove(&mut self.inner, &agent.peer_id_prefix);
    }

    /// The blacklisted prefixes, each once.
    pub fn prefixes(&self) -> (r: Vec<Vec<u8>>)
        ensures
            r@.len() == self@.len(),
            forall|i: int| 0 <= i < r@.len() ==> self@.contains(#[trigger] r@[i]@),
            forall|m: Seq<u8>| self@.contains(m) ==> exists|i: int| 0 <= i < r@.len() && #[trigger] r@[i]@ == m,
    {
        bytes_set_members(&self.inner)
    }

    /// True when some blacklisted prefix starts `peer_id`.
    pub fn matches(&self, peer_id: &[u8]) -> (r: bool)
        ensures
            r == exists|m: Seq<u8>| self@.contains(m) && is_prefix(m, peer_id@),
    {
        let prefixes = self.prefixes();
        let mut i: usize = 0;
        while i < prefixes.len()
            invariant
                0 <= i <= prefixes@.len(),
                forall|j: int| 0 <= j < prefixes@.len() ==> self@.contains(#[trigger] prefixes@[j]@),
                forall|m: Seq<u8>| self@.contains(m) ==> exists|j: int| 0 <= j < prefixes@.len() && #[trigger] prefixes@[j]@ == m,
                forall|j: int| 0 <= j < i ==> !is_prefix(#[trigger] prefixes@[j]@, peer_id@),
            decreases prefixes@.len() - i,
        {
            if starts_with(peer_id, prefixes[i].as_slice()) {
                assert(self@.contains(prefixes@[i as int]@));
                return true;
            }
            i = i + 1;
        }
        assert forall|m: Seq<u8>| self@.contains(m) implies !is_prefix(m, peer_id@) by {
            let j = choose|j: int| 0 <= j < prefixes@.len() && #[trigger] prefixes@[j]@ == m;
            assert(!is_prefix(prefixes@[j]@, peer_id@));
        }
        false
    }
}

/// A torrent on which downloads are free and uploads count double.
#[derive(Clone, Copy, Debug)]
pub struct FeaturedTorrent {
    pub torrent_id: u32,
}

/// A user's token making one torrent free to download.
#[derive(Clone, Copy, Debug)]
pub struct FreeleechToken {
    pub user_id: u32,
    pub torrent_id: u32,
}

/// A user for whom every download is free.
#[derive(Clone, Copy, Debug)]
pub struct PersonalFreeleech {
    pub user_id: u32,
}

/// Ids of the featured torrents.
pub struct FeaturedTorrentStore {
    inner: IndexSet<u32>,
}

impl View for FeaturedTorrentStore {
    type V = Set<u32>;

    closed spec fn view(&self) -> Set<u32> {
        id_set_contents(self.inner)
    }
}

impl FeaturedTorrentStore {
    /// No featured torrents.
    pub fn new() -> (r: FeaturedTorrentStore)
        ensures
            r@ == Set::<u32>::empty(),
    {
        FeaturedTorrentStore { inner: id_set_new() }
    }

    /// True when the torrent is featured.
    pub fn contains(&self, torrent_id: u32) -> (r: bool)
        ensures
            r == self@.contains(torrent_id),
    {
        id_set_contains(&self.inner, torrent_id)
    }

    /// Features a torrent.
    pub fn upsert(&mut self, token: FeaturedTorrent)
        ensures
            final(self)@ == old(self)@.insert(token.torrent_id),
    {
        id_set_insert(&mut self.inner, token.torrent_id);
    }

    /// Stops featuring a torrent.
    pub fn destroy(&mut self, token: FeaturedTorrent)
        ensures
            final(self)@ == old(self)@.remove(token.torrent_id),
    {
        id_set_swap_remove(&mut self.inner, token.torrent_id);
    }

    /// The number of featured torrents.
    pub fn len(&self) -> (r: usize)
        ensures
            r == self@.len(),
    {
        id_set_len(&self.inner)
    }
}

/// Ids of the users with personal freeleech.
pub struct PersonalFreeleechStore {
    inner: IndexSet<u32>,
}

impl View for PersonalFreeleechStore {
    type V = Set<u32>;

    closed spec fn view(&self) -> Set<u32> {
        id_set_contents(self.inner)
    }
}

impl PersonalFreeleechStore {
    /// No personal freeleeches.
    pub fn new() -> (r: PersonalFreeleechStore)
        ensures
            r@ == Set::<u32>::empty(),
    {
        PersonalFreeleechStore { inner: id_set_new() }
    }

    /// True when the user has personal freeleech.
    pub fn contains(&self, user_id: u32) -> (r: bool)
        ensures
            r == self@.contains(user_id),
    {
        id_set_contains(&self.inner, user_id)
    }

    /// Grants personal freeleech.
    pub fn upsert(&mut self, personal_freeleech: PersonalFreeleech)
        ensures
            final(self)@ == old(self)@.insert(personal_freeleech.user_id),
    {
        id_set_insert(&mut self.inner, personal_freeleech.user_id);
    }

    /// Revokes personal freeleech.
    pub fn destroy(&mut self, personal_freeleech: PersonalFreeleech)
        ensures
            final(self)@ == old(self)@.remove(personal_freeleech.user_id),
    {
        id_set_swap_remove(&mut self.inner, personal_freeleech.user_id);
    }

    /// The number of users with personal freeleech.
    pub fn len(&self) -> (r: usize)
        ensures
            r == self@.len(),
    {
        id_set_len(&self.inner)
    }
}

/// Freeleech tokens, as (user id, torrent id).
pub struct FreeleechTokenStore {
    inner: IndexSet<(u32, u32)>,
}

impl View for FreeleechTokenStore {
    type V = Set<(u32, u32)>;

    closed spec fn view(&self) -> Set<(u32, u32)> {
        pair_set_contents(self.inner)
    }
}

impl FreeleechTokenStore {
    /// No tokens.
    pub fn new() -> (r: FreeleechTokenStore)
        ensures
            r@ == Set::<(u32, u32)>::empty(),
    {
        FreeleechTokenStore { inner: pair_set_new() }
    }

    /// True when the user holds a token for the torrent.
    pub fn contains(&self, user_id: u32, torrent_id: u32) -> (r: bool)
        ensures
            r == self@.contains((user_id, torrent_id)),
    {
        pair_set_contains(&self.inner, (user_id, torrent_id))
    }

    /// Records a token.
    pub fn upsert(&mut self, token: FreeleechToken)
        ensures
            final(self)@ == old(self)@.insert((token.user_id, token.torrent_id)),
    {
        pair_set_insert(&mut self.inner, (token.user_id, token.torrent_id));
    }

    /// Forgets a token.
    pub fn destroy(&mut self, token: FreeleechToken)
        ensures
            final(self)@ == old(self)@.remove((token.user_id, token.torrent_id)),
    {
        pair_set_swap_remove(&mut self.inner, (token.user_id, token.torrent_id));
    }

    /// The number of tokens.
    pub fn len(&self) -> (r: usize)
        ensures
            r == self@.len(),
    {
        pair_set_len(&self.inner)
    }
}

} // verus!
