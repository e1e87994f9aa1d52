//! The announce handler: screening a request, updating the torrent's peers
//! and counts, answering, and recording what the database is to learn.
//!
//! An announce runs in three steps. `screen_announce` checks the request against the
//! blacklists and finds its user and torrent. The application then probes
//! whether the peer is connectable, which needs the network. `announce_on_torrent`
//! updates the torrent and writes the answer, and `settle_announce` updates
//! the user and yields the records, which `queue_records` queues.
use vstd::prelude::*;
use vstd::string::StringSliceAdditionalSpecFns;

use crate::announce::{Announce, Event};
use crate::bytes::{ascii_lower_seq, bytes_eq_str, contains_seq, contains_str, is_prefix, to_ascii_lowercase};
use crate::error::AnnounceError;
use crate::lists::{BlacklistedAgentStore, BlacklistedPortStore, FeaturedTorrentStore, FreeleechTokenStore, PersonalFreeleechStore};
use crate::peer::PeerId;
use crate::collections::{history_queue_upserted, peer_update_queue_upserted, user_update_queue_upserted};
use crate::scheduler::announce_update::{self, AnnounceUpdate};
use crate::scheduler::history_update::{self, HistoryUpdate};
use crate::scheduler::peer_update::{self, PeerUpdate};
use crate::scheduler::torrent_update::{self, TorrentUpdate};
use crate::scheduler::user_update::{self, UserUpdate};
use crate::scheduler::unregistered_info_hash_update::{self as unregistered, UnregisteredInfoHashUpdate};
use crate::torrent::InfoHash2IdStore;
use crate::collections::PeerKey;
use crate::config::Config;
use crate::group::{Group, GroupStore};
use crate::number::{clamp_u32, saturating_add_signed_u32};
use crate::peer::{active_keys_of, IpAddress, Peer, PeerStore};
use crate::peer_list::{compact_v4, compact_v6, encode_peers, has_valid_choice, leech_share, seed_share, select_peers};
use crate::response::{announce_response, write_announce_response};
use crate::torrent::{Status, Torrent, TorrentStore};
use crate::user::{string_bytes, Passkey, Passkey2IdStore, User, UserStore};
use crate::warning::{warning_message, AnnounceWarning, WarningCollection};

verus! {

/// Headers that browsers and download managers send and BitTorrent clients do
/// not (names in lower case, as HTTP header names are compared).
pub open spec fn is_abnormal_header_name(name: Seq<u8>) -> bool {
    ||| name == "accept-language".spec_bytes()
    ||| name == "referer".spec_bytes()
    ||| name == "accept-charset".spec_bytes()
    ||| name == "want-digest".spec_bytes()
}

/// Some header of the request is one a BitTorrent client would not send.
pub open spec fn has_abnormal_header(names: Seq<Seq<u8>>) -> bool {
    exists|i: int| 0 <= i < names.len() && is_abnormal_header_name(#[trigger] names[i])
}

/// The user agent, in lower case, names a browser, a crawler or an unknown
/// client.
pub open spec fn looks_like_browser(user_agent: Seq<u8>) -> bool {
    let l = ascii_lower_seq(user_agent);
    ||| contains_seq(l, "mozilla".spec_bytes())
    ||| contains_seq(l, "browser".spec_bytes())
    ||| contains_seq(l, "chrome".spec_bytes())
    ||| contains_seq(l, "safari".spec_bytes())
    ||| contains_seq(l, "applewebkit".spec_bytes())
    ||| contains_seq(l, "opera".spec_bytes())
    ||| contains_seq(l, "links".spec_bytes())
    ||| contains_seq(l, "lynx".spec_bytes())
    ||| contains_seq(l, "bot".spec_bytes())
    ||| contains_seq(l, "unknown".spec_bytes())
}

/// Some blacklisted prefix starts the peer id.
pub open spec fn is_blacklisted_client(prefixes: Set<Seq<u8>>, peer_id: Seq<u8>) -> bool {
    exists|m: Seq<u8>| prefixes.contains(m) && is_prefix(m, peer_id)
}

/// The first check of the request itself that fails, in the order they are
/// made; none when the request passes them all.
pub open spec fn request_check(
    agent_blacklist: Set<Seq<u8>>,
    port_blacklist: Set<u16>,
    header_names: Seq<Seq<u8>>,
    user_agent: Option<Seq<u8>>,
    peer_id: Seq<u8>,
    port: u16,
    event: Event,
    passkey: Seq<u8>,
) -> Option<AnnounceError> {
    if has_abnormal_header(header_names) {
        Some(AnnounceError::AbnormalAccess)
    } else if user_agent is None {
        Some(AnnounceError::InvalidUserAgent)
    } else if user_agent->0.len() > 64 {
        Some(AnnounceError::UserAgentTooLong)
    } else if is_blacklisted_client(agent_blacklist, peer_id) {
        Some(AnnounceError::BlacklistedClient)
    } else if looks_like_browser(user_agent->0) {
        Some(AnnounceError::NotAClient)
    } else if port_blacklist.contains(port) && event != Event::Stopped {
        Some(AnnounceError::BlacklistedPort(port))
    } else if passkey.len() != 32 {
        Some(AnnounceError::InvalidPasskey)
    } else {
        None
    }
}

/// The user id a passkey maps to.
pub open spec fn user_id_of(passkey2id: Map<[u8; 32], u32>, passkey: [u8; 32]) -> Result<u32, AnnounceError> {
    match passkey2id.get(passkey) {
        Some(id) => Ok(id),
        None => Err(AnnounceError::PasskeyNotFound),
    }
}

/// The user a passkey belongs to.
pub open spec fn user_of(passkey2id: Map<[u8; 32], u32>, users: Map<u32, User>, passkey: [u8; 32]) -> Result<User, AnnounceError> {
    match passkey2id.get(passkey) {
        Some(id) => match users.get(id) {
            Some(u) => Ok(u),
            None => Err(AnnounceError::UserNotFound),
        },
        None => Err(AnnounceError::UserNotFound),
    }
}

/// A screened announce: its torrent, and its user or why there is none
/// (reported only once the torrent has been checked).
pub struct Screened {
    pub torrent_id: u32,
    pub user_id: Result<u32, AnnounceError>,
    pub user: Result<User, AnnounceError>,
}

/// What `screen_announce` decides: the admission or the error to answer, and the record
/// of an announce by a known user for an unknown info hash.
pub struct ScreenOutcome {
    pub result: Result<Screened, AnnounceError>,
    pub unregistered: Option<(unregistered::Index, UnregisteredInfoHashUpdate)>,
}

/// True when one of the header names is one a BitTorrent client would not send.
fn any_abnormal_header(header_names: &Vec<Vec<u8>>) -> (r: bool)
    ensures
        r == has_abnormal_header(header_names@.map_values(|h: Vec<u8>| h@)),
{
    let ghost names = header_names@.map_values(|h: Vec<u8>| h@);
    let mut i: usize = 0;
    while i < header_names.len()
        invariant
            0 <= i <= header_names@.len(),
            names == header_names@.map_values(|h: Vec<u8>| h@),
            forall|j: int| 0 <= j < i ==> !is_abnormal_header_name(#[trigger] names[j]),
        decreases header_names@.len() - i,
    {
        let name = header_names[i].as_slice();
        if bytes_eq_str(name, "accept-language") || bytes_eq_str(name, "referer") || bytes_eq_str(name, "accept-charset")
            || bytes_eq_str(name, "want-digest") {
            assert(is_abnormal_header_name(names[i as int]));
            return true;
        }
        assert(!is_abnormal_header_name(names[i as int]));
        i = i + 1;
    }
    false
}

/// True when the user agent names a browser, a crawler or an unknown client.
fn is_browser(user_agent: &[u8]) -> (r: bool)
    ensures
        r == looks_like_browser(user_agent@),
{
    let lower = to_ascii_lowercase(user_agent);
    let l = lower.as_slice();
    contains_str(l, "mozilla") || contains_str(l, "browser") || contains_str(l, "chrome") || contains_str(l, "safari")
        || contains_str(l, "applewebkit") || contains_str(l, "opera") || contains_str(l, "links") || contains_str(l, "lynx")
        || contains_str(l, "bot") || contains_str(l, "unknown")
}

/// Checks an announce request and finds its user and torrent. `header_names`
/// are the names of the request's headers, in lower case; `user_agent` is the
/// user agent header, none when it is missing or not visible ASCII. An
/// announce by a known user for an info hash the tracker does not know is
/// refused, and recorded at `now`.
pub fn screen_announce(
    agent_blacklist: &BlacklistedAgentStore,
    port_blacklist: &BlacklistedPortStore,
    passkey2id: &Passkey2IdStore,
    users: &UserStore,
    infohash2id: &InfoHash2IdStore,
    header_names: &Vec<Vec<u8>>,
    user_agent: &Option<Vec<u8>>,
    passkey: &[u8],
    query: &Announce,
    now: i64,
) -> (r: ScreenOutcome)
    ensures
        ({
            let check = request_check(
                agent_blacklist@,
                port_blacklist@,
                header_names@.map_values(|h: Vec<u8>| h@),
                match user_agent {
                    Some(u) => Some(u@),
                    None => None,
                },
                query.peer_id.0@,
                query.port,
                query.event,
                passkey@,
            );
            match check {
                Some(e) => r.result == Err::<Screened, AnnounceError>(e) && r.unregistered is None,
                None => forall|key: [u8; 32]| key@ == passkey@ ==> {
                    let user = user_of(passkey2id@, users@, key);
                    &&& match infohash2id@.get(query.info_hash.0) {
                        Some(torrent_id) => r.result == Ok::<Screened, AnnounceError>(Screened {
                            torrent_id,
                            user_id: user_id_of(passkey2id@, key),
                            user,
                        }),
                        None => r.result == Err::<Screened, AnnounceError>(AnnounceError::InfoHashNotFound),
                    }
                    &&& r.unregistered == if user is Ok && !infohash2id@.contains_key(query.info_hash.0) {
                        Some((
                            unregistered::Index { user_id: user->Ok_0.id, info_hash: query.info_hash },
                            UnregisteredInfoHashUpdate { created_at: now, updated_at: now },
                        ))
                    } else {
                        None
                    }
                },
            }
        }),
{
    if any_abnormal_header(header_names) {
        return ScreenOutcome { result: Err(AnnounceError::AbnormalAccess), unregistered: None };
    }
    // User agent header is required.
    let agent = match user_agent {
        Some(a) => a.as_slice(),
        None => {
            return ScreenOutcome { result: Err(AnnounceError::InvalidUserAgent), unregistered: None };
        },
    };
    // Block user agent strings that are too long. (For Database reasons)
    if agent.len() > 64 {
        return ScreenOutcome { result: Err(AnnounceError::UserAgentTooLong), unregistered: None };
    }
    // Block user agent strings on the blacklist
    if agent_blacklist.matches(&query.peer_id.0) {
        return ScreenOutcome { result: Err(AnnounceError::BlacklistedClient), unregistered: None };
    }
    if is_browser(agent) {
        return ScreenOutcome { result: Err(AnnounceError::NotAClient), unregistered: None };
    }
    // Some clients send port 0 on the stopped event
    if port_blacklist.contains(query.port) && query.event != Event::Stopped {
        return ScreenOutcome { result: Err(AnnounceError::BlacklistedPort(query.port)), unregistered: None };
    }
    let key = match Passkey::parse(passkey) {
        Ok(k) => k,
        Err(_) => {
            return ScreenOutcome { result: Err(AnnounceError::InvalidPasskey), unregistered: None };
        },
    };
    proof {
        broadcast use vstd::array::group_array_axioms;
        assert forall|k: [u8; 32]| k@ == passkey@ implies k == key.0 by {
            assert(forall|i: int| 0 <= i < 32 ==> k[i] == k@[i] && key.0[i] == key.0@[i]);
            assert(k =~= key.0);
        }
    }
    let user_id = match passkey2id.get(key) {
        Some(id) => Ok(id),
        None => Err(AnnounceError::PasskeyNotFound),
    };
    let user = match user_id {
        Ok(id) => match users.get(id) {
            Some(u) => Ok(u),
            None => Err(AnnounceError::UserNotFound),
        },
        Err(_) => Err(AnnounceError::UserNotFound),
    };
    match infohash2id.get(query.info_hash) {
        Some(torrent_id) => ScreenOutcome { result: Ok(Screened { torrent_id, user_id, user }), unregistered: None },
        None => {
            let unregistered = match &user {
                Ok(u) => Some((
                    unregistered::Index { user_id: u.id, info_hash: query.info_hash },
                    UnregisteredInfoHashUpdate { created_at: now, updated_at: now },
                )),
                Err(_) => None,
            };
            ScreenOutcome { result: Err(AnnounceError::InfoHashNotFound), unregistered }
        },
    }
}

/// The peer stored after an announce that is not a stop: where it is reached,
/// what it has transferred and whether it seeds, announced `now`. A peer that
/// is new stays hidden while its user has no free download slot; a known
/// peer stays visible while it counts as a leech (judged with its new seeding
/// and connectivity but its old activity and visibility).
pub open spec fn announced_peer(
    old: Option<Peer>,
    q: Announce,
    ip: IpAddress,
    is_connectable: bool,
    now: i64,
    hit_slot_limit: bool,
    require_peer_connectivity: bool,
) -> Peer {
    match old {
        Some(p) => {
            let moved = Peer {
                ip_address: ip,
                port: q.port,
                is_seeder: q.left == 0,
                is_active: p.is_active,
                is_visible: p.is_visible,
                is_connectable,
                updated_at: p.updated_at,
                uploaded: p.uploaded,
                downloaded: p.downloaded,
            };
            Peer {
                ip_address: ip,
                port: q.port,
                is_seeder: q.left == 0,
                is_active: true,
                is_visible: moved.spec_in_leech_list(require_peer_connectivity) || !hit_slot_limit,
                is_connectable,
                updated_at: now,
                uploaded: q.uploaded,
                downloaded: q.downloaded,
            }
        },
        None => Peer {
            ip_address: ip,
            port: q.port,
            is_seeder: q.left == 0,
            is_active: true,
            is_visible: !hit_slot_limit,
            is_connectable,
            updated_at: now,
            uploaded: q.uploaded,
            downloaded: q.downloaded,
        },
    }
}

/// The peer under `key` after the announce: none after a stop.
pub open spec fn peer_after(
    old: Option<Peer>,
    q: Announce,
    ip: IpAddress,
    is_connectable: bool,
    now: i64,
    hit_slot_limit: bool,
    require_peer_connectivity: bool,
) -> Option<Peer> {
    if q.event == Event::Stopped {
        None
    } else {
        Some(announced_peer(old, q, ip, is_connectable, now, hit_slot_limit, require_peer_connectivity))
    }
}

/// The peers of the torrent after the announce.
pub open spec fn peers_after(peers: Map<PeerKey, Peer>, key: PeerKey, new: Option<Peer>) -> Map<PeerKey, Peer> {
    match new {
        Some(p) => peers.insert(key, p),
        None => peers.remove(key),
    }
}

/// One when the peer is there and counts as a seed.
pub open spec fn seed_bit(p: Option<Peer>, require_peer_connectivity: bool) -> int {
    match p {
        Some(p) => if p.spec_in_seed_list(require_peer_connectivity) { 1 } else { 0 },
        None => 0,
    }
}

/// One when the peer is there and counts as a leech.
pub open spec fn leech_bit(p: Option<Peer>, require_peer_connectivity: bool) -> int {
    match p {
        Some(p) => if p.spec_in_leech_list(require_peer_connectivity) { 1 } else { 0 },
        None => 0,
    }
}

/// `a - b`, or zero when `b` is larger.
pub open spec fn sat_sub(a: u64, b: u64) -> u64 {
    if a >= b { (a - b) as u64 } else { 0 }
}

/// What the peer has uploaded and downloaded since its last announce. A stop
/// counts what the client reports beyond the stored peer; an announce whose
/// counts went back is taken for a new session and counts nothing; a new peer
/// counts nothing.
pub open spec fn transfer_deltas(stopped: bool, old: Option<Peer>, uploaded: u64, downloaded: u64) -> (u64, u64) {
    match old {
        None => (0, 0),
        Some(p) => if stopped {
            (sat_sub(uploaded, p.uploaded), sat_sub(downloaded, p.downloaded))
        } else if uploaded < p.uploaded || downloaded < p.downloaded {
            (0, 0)
        } else {
            ((uploaded - p.uploaded) as u64, (downloaded - p.downloaded) as u64)
        },
    }
}

/// How one announce changes its peer's transfer and the torrent's counts.
#[derive(Clone, Copy, Debug, PartialEq, Eq, Structural)]
pub struct PeerDeltas {
    pub uploaded_delta: u64,
    pub downloaded_delta: u64,
    pub seeder_delta: i32,
    pub leecher_delta: i32,
    pub times_completed_delta: u32,
    pub is_visible: bool,
}

/// The changes an announce makes, from the peer before and after it.
pub open spec fn peer_deltas(
    stopped: bool,
    old: Option<Peer>,
    new: Option<Peer>,
    uploaded: u64,
    downloaded: u64,
    require_peer_connectivity: bool,
) -> PeerDeltas {
    PeerDeltas {
        uploaded_delta: transfer_deltas(stopped, old, uploaded, downloaded).0,
        downloaded_delta: transfer_deltas(stopped, old, uploaded, downloaded).1,
        seeder_delta: (seed_bit(new, require_peer_connectivity) - seed_bit(old, require_peer_connectivity)) as i32,
        leecher_delta: (leech_bit(new, require_peer_connectivity) - leech_bit(old, require_peer_connectivity)) as i32,
        times_completed_delta: if !stopped && old is Some && new is Some && new->0.is_seeder && !old->0.is_seeder {
            1
        } else {
            0
        },
        is_visible: match new {
            Some(p) => p.is_visible,
            None => false,
        },
    }
}

/// The peer announced again before `announce_min_enforced` seconds had passed
/// since `updated_at` (microseconds); a time past the end of the clock never
/// limits.
pub open spec fn is_rate_limited(updated_at: i64, announce_min_enforced: u32, now: i64) -> bool {
    let until = updated_at + announce_min_enforced * 1_000_000;
    until <= i64::MAX && until > now
}

/// The warnings raised while the peer is updated: a stop of an unknown peer;
/// a peer hidden for want of download slots; a peer announcing too soon.
pub open spec fn peer_warnings(
    stopped: bool,
    old: Option<Peer>,
    new: Option<Peer>,
    announce_min_enforced: u32,
    now: i64,
) -> Seq<AnnounceWarning> {
    if stopped {
        if old is None {
            seq![AnnounceWarning::StoppedPeerDoesntExist]
        } else {
            Seq::empty()
        }
    } else {
        (if new is Some && !new->0.is_visible {
            seq![AnnounceWarning::HitDownloadSlotLimit]
        } else {
            Seq::empty()
        }) + (if old is Some && is_rate_limited(old->0.updated_at, announce_min_enforced, now) {
            seq![AnnounceWarning::RateLimitExceeded]
        } else {
            Seq::empty()
        })
    }
}

/// A new peer would give its user more active peers on the torrent than the
/// configuration allows.
pub open spec fn over_peer_limit(stopped: bool, old: Option<Peer>, after: Map<PeerKey, Peer>, user_id: u32, max: u16) -> bool {
    !stopped && old is None && active_keys_of(after, user_id).len() > max
}

/// Adding a new active peer of a user counts one more active peer for it.
proof fn lemma_new_active_peer_counted(peers: Map<PeerKey, Peer>, key: PeerKey, p: Peer)
    requires
        !peers.dom().contains(key),
        p.is_active,
        active_keys_of(peers, key.0).finite(),
    ensures
        active_keys_of(peers.insert(key, p), key.0) == active_keys_of(peers, key.0).insert(key),
        active_keys_of(peers.insert(key, p), key.0).len() == active_keys_of(peers, key.0).len() + 1,
{
    assert(active_keys_of(peers.insert(key, p), key.0) =~= active_keys_of(peers, key.0).insert(key));
}

/// Applies an announce to the torrent's peers: a stop removes the peer, any
/// other event inserts or updates it. A new peer that would exceed the
/// per-user limit is refused, and the peers are left as they were.
fn update_peer(
    peers: &mut PeerStore,
    config: &Config,
    user_id: u32,
    query: &Announce,
    client_ip: IpAddress,
    is_connectable: bool,
    now: i64,
    hit_slot_limit: bool,
    warnings: &mut WarningCollection,
) -> (r: Result<PeerDeltas, AnnounceError>)
    ensures
        ({
            let key = (user_id, query.peer_id.0);
            let stopped = query.event == Event::Stopped;
            let req = config.require_peer_connectivity;
            let old_peer = old(peers)@.get(key);
            let new_peer = peer_after(old_peer, *query, client_ip, is_connectable, now, hit_slot_limit, req);
            let after = peers_after(old(peers)@, key, new_peer);
            &&& final(warnings)@ == old(warnings)@ + peer_warnings(stopped, old_peer, new_peer, config.announce_min_enforced, now)
            &&& if over_peer_limit(stopped, old_peer, after, user_id, config.max_peers_per_torrent_per_user) {
                &&& r == Err::<PeerDeltas, AnnounceError>(AnnounceError::PeersPerTorrentPerUserLimit(config.max_peers_per_torrent_per_user))
                &&& *final(peers) == *old(peers)
                &&& final(peers)@ == old(peers)@
            } else {
                &&& r == Ok::<PeerDeltas, AnnounceError>(peer_deltas(stopped, old_peer, new_peer, query.uploaded, query.downloaded, req))
                &&& final(peers)@ == after
            }
        }),
{
    let key: PeerKey = (user_id, query.peer_id.0);
    let req = config.require_peer_connectivity;
    let ghost old_peers = peers@;
    if query.event == Event::Stopped {
        // Try and remove the peer
        let removed = peers.swap_remove(key);
        match removed {
            Some(peer) => {
                // Calculate change in upload and download compared to previous announce
                let uploaded_delta = if query.uploaded >= peer.uploaded { query.uploaded - peer.uploaded } else { 0 };
                let downloaded_delta = if query.downloaded >= peer.downloaded { query.downloaded - peer.downloaded } else { 0 };
                let leecher_delta: i32 = if peer.is_included_in_leech_list(config) { -1 } else { 0 };
                let seeder_delta: i32 = if peer.is_included_in_seed_list(config) { -1 } else { 0 };
                assert(peer_warnings(true, Some(peer), None, config.announce_min_enforced, now) =~= Seq::<AnnounceWarning>::empty());
                assert(warnings@ =~= old(warnings)@ + Seq::<AnnounceWarning>::empty());
                Ok(PeerDeltas {
                    uploaded_delta,
                    downloaded_delta,
                    seeder_delta,
                    leecher_delta,
                    times_completed_delta: 0,
                    is_visible: false,
                })
            },
            None => {
                // Some clients (namely transmission) keep sending `stopped`
                // events until an announce succeeds. Their peer may have been
                // expired meanwhile, so answer with a warning, not an error,
                // lest the client loop on `stopped` forever.
                warnings.add(AnnounceWarning::StoppedPeerDoesntExist);
                assert(peers@ =~= old_peers.remove(key));
                Ok(PeerDeltas {
                    uploaded_delta: 0,
                    downloaded_delta: 0,
                    seeder_delta: 0,
                    leecher_delta: 0,
                    times_completed_delta: 0,
                    is_visible: false,
                })
            },
        }
    } else {
        let old_peer = peers.get(key);
        let new_peer = match old_peer {
            Some(p) => {
                let moved = Peer {
                    ip_address: client_ip,
                    port: query.port,
                    is_seeder: query.left == 0,
                    is_active: p.is_active,
                    is_visible: p.is_visible,
                    is_connectable,
                    updated_at: p.updated_at,
                    uploaded: p.uploaded,
                    downloaded: p.downloaded,
                };
                Peer {
                    ip_address: client_ip,
                    port: query.port,
                    is_seeder: query.left == 0,
                    is_active: true,
                    is_visible: moved.is_included_in_leech_list(config) || !hit_slot_limit,
                    is_connectable,
                    updated_at: now,
                    uploaded: query.uploaded,
                    downloaded: query.downloaded,
                }
            },
            None => Peer {
                ip_address: client_ip,
                port: query.port,
                is_seeder: query.left == 0,
                is_active: true,
                is_visible: !hit_slot_limit,
                is_connectable,
                updated_at: now,
                uploaded: query.uploaded,
                downloaded: query.downloaded,
            },
        };
        assert(new_peer == announced_peer(old_peer, *query, client_ip, is_connectable, now, hit_slot_limit, req));
        // Make sure user is only allowed N peers per torrent: a new peer is
        // active, so it would bring the user's active peers to one more.
        let over_limit = match old_peer {
            Some(_) => false,
            None => peers.count_active_of(user_id) >= config.max_peers_per_torrent_per_user as usize,
        };
        proof {
            if old_peer is None {
                lemma_new_active_peer_counted(old_peers, key, new_peer);
            }
        }
        if over_limit {
            if !new_peer.is_visible {
                warnings.add(AnnounceWarning::HitDownloadSlotLimit);
            }
            assert(warnings@ =~= old(warnings)@ + peer_warnings(false, old_peer, Some(new_peer), config.announce_min_enforced, now));
            return Err(AnnounceError::PeersPerTorrentPerUserLimit(config.max_peers_per_torrent_per_user));
        }
        peers.insert(key, new_peer);
        // Warn user if download slots are full
        let ghost w0 = warnings@;
        if !new_peer.is_visible {
            warnings.add(AnnounceWarning::HitDownloadSlotLimit);
        }
        let ghost w1 = warnings@;
        let new_leech: i32 = if new_peer.is_included_in_leech_list(config) { 1 } else { 0 };
        let new_seed: i32 = if new_peer.is_included_in_seed_list(config) { 1 } else { 0 };
        match old_peer {
            Some(p) => {
                let old_leech: i32 = if p.is_included_in_leech_list(config) { 1 } else { 0 };
                let old_seed: i32 = if p.is_included_in_seed_list(config) { 1 } else { 0 };
                let times_completed_delta: u32 = if new_peer.is_seeder && !p.is_seeder { 1 } else { 0 };
                let uploaded_delta;
                let downloaded_delta;
                if query.uploaded < p.uploaded || query.downloaded < p.downloaded {
                    // Client sent the same peer id but restarted the session
                    uploaded_delta = 0;
                    downloaded_delta = 0;
                } else {
                    // Assume client continues previously tracked session
                    uploaded_delta = query.uploaded - p.uploaded;
                    downloaded_delta = query.downloaded - p.downloaded;
                }
                // Warn user if peer last announced less than announce_min_enforced seconds ago
                let enforced: i64 = config.announce_min_enforced as i64 * 1_000_000;
                let limited = match p.updated_at.checked_add(enforced) {
                    Some(until) => until > now,
                    None => false,
                };
                if limited {
                    warnings.add(AnnounceWarning::RateLimitExceeded);
                }
                assert(warnings@ =~= old(warnings)@ + peer_warnings(false, old_peer, Some(new_peer), config.announce_min_enforced, now));
                Ok(PeerDeltas {
                    uploaded_delta,
                    downloaded_delta,
                    seeder_delta: new_seed - old_seed,
                    leecher_delta: new_leech - old_leech,
                    times_completed_delta,
                    is_visible: new_peer.is_visible,
                })
            },
            None => {
                assert(warnings@ =~= old(warnings)@ + peer_warnings(false, old_peer, Some(new_peer), config.announce_min_enforced, now));
                Ok(PeerDeltas {
                    uploaded_delta: 0,
                    downloaded_delta: 0,
                    seeder_delta: new_seed,
                    leecher_delta: new_leech,
                    times_completed_delta: 0,
                    is_visible: new_peer.is_visible,
                })
            },
        }
    }
}

/// Members of groups with these slugs may not announce.
pub open spec fn is_disabled_slug(slug: Seq<u8>) -> bool {
    ||| slug == "banned".spec_bytes()
    ||| slug == "validating".spec_bytes()
    ||| slug == "disabled".spec_bytes()
}

/// The error of a torrent's moderation status other than approved.
pub open spec fn status_error(status: Status) -> AnnounceError {
    match status {
        Status::Pending => AnnounceError::TorrentIsPendingModeration,
        Status::Rejected => AnnounceError::TorrentIsRejected,
        Status::Postponed => AnnounceError::TorrentIsPostponed,
        _ => AnnounceError::TorrentUnknownModerationStatus,
    }
}

/// The first check of the torrent, the user and the user's group that fails,
/// in the order they are made; none when all pass.
pub open spec fn torrent_check(
    is_deleted: bool,
    status: Status,
    user_id: Result<u32, AnnounceError>,
    user: Result<User, AnnounceError>,
    groups: Map<i32, Group>,
    left: u64,
) -> Option<AnnounceError> {
    if is_deleted {
        Some(AnnounceError::TorrentIsDeleted)
    } else if status != Status::Approved {
        Some(status_error(status))
    } else if user_id is Err {
        Some(user_id->Err_0)
    } else if user is Err {
        Some(user->Err_0)
    } else if !user->Ok_0.can_download && left != 0 {
        Some(AnnounceError::DownloadPrivilegesRevoked)
    } else if !groups.contains_key(user->Ok_0.group_id) {
        Some(AnnounceError::GroupNotFound)
    } else if is_disabled_slug(string_bytes(groups[user->Ok_0.group_id].slug)) {
        Some(AnnounceError::GroupNotEnabled(groups[user->Ok_0.group_id].slug))
    } else {
        None
    }
}

/// A leech whose group limits download slots already leeches as many torrents
/// as it may.
pub open spec fn hits_download_slot_limit(left: u64, slots: Option<u32>, num_leeching: u32) -> bool {
    left > 0 && match slots {
        Some(s) => num_leeching >= s,
        None => false,
    }
}

/// The warning raised when connectivity is required and the peer is not
/// connectable.
pub open spec fn connectivity_warnings(is_connectable: bool, require_peer_connectivity: bool) -> Seq<AnnounceWarning> {
    if !is_connectable && require_peer_connectivity {
        seq![AnnounceWarning::ConnectivityIssueDetected]
    } else {
        Seq::empty()
    }
}

/// The larger of two factors.
pub open spec fn max_u8(a: u8, b: u8) -> u8 {
    if a >= b { a } else { b }
}

/// The smaller of two factors.
pub open spec fn min_u8(a: u8, b: u8) -> u8 {
    if a <= b { a } else { b }
}

/// The upload factor (percent) of an announce: the best of the tracker's,
/// the group's and the torrent's, raised further for lifetime donors and
/// donors when the configuration says so.
pub open spec fn upload_factor_for(config: Config, group_factor: u8, torrent_factor: u8, user: User) -> u8 {
    let base = max_u8(config.upload_factor, max_u8(group_factor, torrent_factor));
    if user.is_lifetime {
        match config.lifetime_donor_upload_factor_override {
            Some(o) => max_u8(base, o),
            None => base,
        }
    } else if user.is_donor {
        match config.donor_upload_factor_override {
            Some(o) => max_u8(base, o),
            None => base,
        }
    } else {
        base
    }
}

/// The download factor (percent) of an announce: the least of the
/// tracker's, the group's and the torrent's, lowered further for lifetime
/// donors and donors when the configuration says so.
pub open spec fn download_factor_for(config: Config, group_factor: u8, torrent_factor: u8, user: User) -> u8 {
    let base = min_u8(config.download_factor, min_u8(group_factor, torrent_factor));
    if user.is_lifetime {
        match config.lifetime_donor_download_factor_override {
            Some(o) => min_u8(base, o),
            None => base,
        }
    } else if user.is_donor {
        match config.donor_download_factor_override {
            Some(o) => min_u8(base, o),
            None => base,
        }
    } else {
        base
    }
}

/// The answer to an announce, given the interval drawn and the peers chosen.
/// Peer lists are handed out unless the announce is a stop, the torrent has
/// no leeches or a warning was raised; a list over its rate limit is
/// requested but not handed out, and its count is answered as zero, as are
/// both counts when there is a warning.
pub open spec fn answer_for(
    config: Config,
    q: Announce,
    user_id: u32,
    peers: Map<PeerKey, Peer>,
    seeders: u32,
    leechers: u32,
    times_completed: u32,
    warnings: Seq<AnnounceWarning>,
    seed_list_under_limit: bool,
    leech_list_under_limit: bool,
    has_requested_seed_list: bool,
    has_requested_leech_list: bool,
    interval: u32,
    chosen: Seq<Peer>,
    response: Seq<u8>,
) -> bool {
    let req = config.require_peer_connectivity;
    let given = q.event != Event::Stopped && leechers > 0 && warnings.len() == 0;
    let over_seed = has_requested_seed_list && !seed_list_under_limit;
    let over_leech = has_requested_leech_list && !leech_list_under_limit;
    let n_seeds = seed_share(peers, user_id, req, q.numwant as nat, has_requested_seed_list && seed_list_under_limit);
    &&& config.announce_min <= interval <= config.announce_max
    &&& if given {
        &&& has_requested_seed_list == (q.left > 0 && seeders > 0 && q.numwant > 0)
        &&& has_requested_leech_list == (leechers > 0 && q.numwant > n_seeds)
        &&& chosen.len() == n_seeds + leech_share(
            peers,
            user_id,
            req,
            q.numwant as nat,
            n_seeds,
            has_requested_leech_list && leech_list_under_limit,
        )
        &&& has_valid_choice(peers, user_id, req, n_seeds, chosen)
    } else {
        &&& !has_requested_seed_list
        &&& !has_requested_leech_list
        &&& chosen.len() == 0
    }
    &&& response == announce_response(
        if over_seed || warnings.len() > 0 { 0 } else { seeders as nat },
        times_completed as nat,
        if over_leech || warnings.len() > 0 { 0 } else { leechers as nat },
        interval as nat,
        config.announce_min as nat,
        compact_v4(chosen),
        compact_v6(chosen),
        warning_message(warnings),
    )
}

/// Some interval and choice of peers give this answer; the interval is the
/// one drawn, where that is given.
pub open spec fn is_announce_answer_at(
    drawn: Option<u32>,
    config: Config,
    q: Announce,
    user_id: u32,
    peers: Map<PeerKey, Peer>,
    seeders: u32,
    leechers: u32,
    times_completed: u32,
    warnings: Seq<AnnounceWarning>,
    seed_list_under_limit: bool,
    leech_list_under_limit: bool,
    has_requested_seed_list: bool,
    has_requested_leech_list: bool,
    response: Seq<u8>,
) -> bool {
    exists|interval: u32, chosen: Seq<Peer>|
        (drawn matches Some(d) ==> interval == d) && #[trigger] answer_for(
            config,
            q,
            user_id,
            peers,
            seeders,
            leechers,
            times_completed,
            warnings,
            seed_list_under_limit,
            leech_list_under_limit,
            has_requested_seed_list,
            has_requested_leech_list,
            interval,
            chosen,
            response,
        )
}

/// Picks the seconds until the client's next announce at random between
/// `min` and `max`, with `rand::Rng::random_range` on `rand::rng()`.
///
/// Trusted: `random_range` panics on an empty range, which `requires` rules
/// out, and otherwise returns a value of the range. Which one is left open.
#[verifier::external_body]
fn random_interval(min: u32, max: u32) -> (r: u32)
    requires
        min <= max,
    ensures
        min <= r <= max,
{
    rand::Rng::random_range(&mut rand::rng(), min..=max)
}

/// The upload and download factors of an announce.
fn announce_factors(config: &Config, group: &Group, torrent_upload_factor: u8, torrent_download_factor: u8, user: &User) -> (r: (u8, u8))
    ensures
        r.0 == upload_factor_for(*config, group.upload_factor, torrent_upload_factor, *user),
        r.1 == download_factor_for(*config, group.download_factor, torrent_download_factor, *user),
{
    let mut upload_factor = if group.upload_factor >= torrent_upload_factor { group.upload_factor } else { torrent_upload_factor };
    if config.upload_factor >= upload_factor {
        upload_factor = config.upload_factor;
    }
    let mut download_factor = if group.download_factor <= torrent_download_factor {
        group.download_factor
    } else {
        torrent_download_factor
    };
    if config.download_factor <= download_factor {
        download_factor = config.download_factor;
    }
    let (up_override, down_override) = if user.is_lifetime {
        (config.lifetime_donor_upload_factor_override, config.lifetime_donor_download_factor_override)
    } else if user.is_donor {
        (config.donor_upload_factor_override, config.donor_download_factor_override)
    } else {
        (None, None)
    };
    if let Some(o) = up_override {
        if o > upload_factor {
            upload_factor = o;
        }
    }
    if let Some(o) = down_override {
        if o < download_factor {
            download_factor = o;
        }
    }
    (upload_factor, download_factor)
}

/// What the torrent-locked part of an announce yields.
pub struct TorrentOutcome {
    pub upload_factor: u8,
    pub download_factor: u8,
    pub deltas: PeerDeltas,
    pub user: User,
    pub user_id: u32,
    pub group: Group,
    pub has_requested_seed_list: bool,
    pub has_requested_leech_list: bool,
    pub should_early_return: bool,
    pub response: Vec<u8>,
}

/// The counts and peers of a torrent are those it had: the peer store is
/// the same value, its order included.
pub open spec fn torrent_unchanged(before: Torrent, after: Torrent) -> bool {
    &&& after.peers == before.peers
    &&& after.peers@ == before.peers@
    &&& after.seeders == before.seeders
    &&& after.leechers == before.leechers
    &&& after.times_completed == before.times_completed
}

/// The torrent's identity, status and factors are those it had.
pub open spec fn torrent_terms_kept(before: Torrent, after: Torrent) -> bool {
    &&& after.id == before.id
    &&& after.status == before.status
    &&& after.is_deleted == before.is_deleted
    &&& after.download_factor == before.download_factor
    &&& after.upload_factor == before.upload_factor
}

/// Everything an accepted announce does to its torrent and answers: the peer
/// stored or removed, the counts moved by the deltas (saturating), the
/// factors, and the bencoded answer.
pub open spec fn announce_applied_at(
    drawn: Option<u32>,
    before: Torrent,
    after: Torrent,
    out: TorrentOutcome,
    config: Config,
    groups: Map<i32, Group>,
    user_id: u32,
    user: User,
    q: Announce,
    client_ip: IpAddress,
    is_connectable: bool,
    now: i64,
    seed_list_under_limit: bool,
    leech_list_under_limit: bool,
) -> bool {
    let group = groups[user.group_id];
    let req = config.require_peer_connectivity;
    let stopped = q.event == Event::Stopped;
    let key = (user_id, q.peer_id.0);
    let hit = hits_download_slot_limit(q.left, group.download_slots, user.num_leeching);
    let old_peer = before.peers@.get(key);
    let new_peer = peer_after(old_peer, q, client_ip, is_connectable, now, hit, req);
    let peers = peers_after(before.peers@, key, new_peer);
    let warnings = connectivity_warnings(is_connectable, req) + peer_warnings(
        stopped,
        old_peer,
        new_peer,
        config.announce_min_enforced,
        now,
    );
    let d = peer_deltas(stopped, old_peer, new_peer, q.uploaded, q.downloaded, req);
    &&& after.peers@ == peers
    &&& after.seeders == clamp_u32(before.seeders + d.seeder_delta)
    &&& after.leechers == clamp_u32(before.leechers + d.leecher_delta)
    &&& after.times_completed == clamp_u32(before.times_completed + d.times_completed_delta)
    &&& out.deltas == d
    &&& out.user == user
    &&& out.user_id == user_id
    &&& out.group == group
    &&& out.should_early_return == warnings.contains(AnnounceWarning::StoppedPeerDoesntExist)
    &&& out.upload_factor == upload_factor_for(config, group.upload_factor, before.upload_factor, user)
    &&& out.download_factor == download_factor_for(config, group.download_factor, before.download_factor, user)
    &&& is_announce_answer_at(
        drawn,
        config,
        q,
        user_id,
        peers,
        after.seeders,
        after.leechers,
        after.times_completed,
        warnings,
        seed_list_under_limit,
        leech_list_under_limit,
        out.has_requested_seed_list,
        out.has_requested_leech_list,
        out.response@,
    )
}

/// The announce refused because a new peer would exceed the per-user limit.
pub open spec fn announce_over_limit(
    before: Torrent,
    config: Config,
    groups: Map<i32, Group>,
    user_id: u32,
    user: User,
    q: Announce,
    client_ip: IpAddress,
    is_connectable: bool,
    now: i64,
) -> bool {
    let group = groups[user.group_id];
    let req = config.require_peer_connectivity;
    let stopped = q.event == Event::Stopped;
    let key = (user_id, q.peer_id.0);
    let hit = hits_download_slot_limit(q.left, group.download_slots, user.num_leeching);
    let old_peer = before.peers@.get(key);
    let new_peer = peer_after(old_peer, q, client_ip, is_connectable, now, hit, req);
    over_peer_limit(stopped, old_peer, peers_after(before.peers@, key, new_peer), user_id, config.max_peers_per_torrent_per_user)
}

/// What the torrent-locked part of an announce does: the first failing
/// check's error, leaving the torrent as it was; the per-user peer limit's
/// error, likewise; or the announce applied.
pub open spec fn announce_outcome_at(
    drawn: Option<u32>,
    before: Torrent,
    after: Torrent,
    r: Result<TorrentOutcome, AnnounceError>,
    config: Config,
    groups: Map<i32, Group>,
    user_id: Result<u32, AnnounceError>,
    user: Result<User, AnnounceError>,
    q: Announce,
    client_ip: IpAddress,
    is_connectable: bool,
    now: i64,
    seed_list_under_limit: bool,
    leech_list_under_limit: bool,
) -> bool {
    &&& torrent_terms_kept(before, after)
    &&& match torrent_check(before.is_deleted, before.status, user_id, user, groups, q.left) {
        Some(e) => r == Err::<TorrentOutcome, AnnounceError>(e) && torrent_unchanged(before, after),
        None => if announce_over_limit(before, config, groups, user_id->Ok_0, user->Ok_0, q, client_ip, is_connectable, now) {
            &&& r == Err::<TorrentOutcome, AnnounceError>(
                AnnounceError::PeersPerTorrentPerUserLimit(config.max_peers_per_torrent_per_user),
            )
            &&& torrent_unchanged(before, after)
        } else {
            &&& r is Ok
            &&& announce_applied_at(
                drawn,
                before,
                after,
                r->Ok_0,
                config,
                groups,
                user_id->Ok_0,
                user->Ok_0,
                q,
                client_ip,
                is_connectable,
                now,
                seed_list_under_limit,
                leech_list_under_limit,
            )
        },
    }
}

/// What the torrent-locked part of an announce does, for some interval
/// drawn from the configured range.
pub open spec fn announce_outcome(
    before: Torrent,
    after: Torrent,
    r: Result<TorrentOutcome, AnnounceError>,
    config: Config,
    groups: Map<i32, Group>,
    user_id: Result<u32, AnnounceError>,
    user: Result<User, AnnounceError>,
    q: Announce,
    client_ip: IpAddress,
    is_connectable: bool,
    now: i64,
    seed_list_under_limit: bool,
    leech_list_under_limit: bool,
) -> bool {
    announce_outcome_at(
        None,
        before,
        after,
        r,
        config,
        groups,
        user_id,
        user,
        q,
        client_ip,
        is_connectable,
        now,
        seed_list_under_limit,
        leech_list_under_limit,
    )
}

/// A stop that is accepted removes the announcing peer from the torrent;
/// any other accepted announce leaves it stored, active, with what it
/// reported and the time it announced.
pub proof fn lemma_accepted_announce_stores_peer(
    before: Torrent,
    after: Torrent,
    r: Result<TorrentOutcome, AnnounceError>,
    config: Config,
    groups: Map<i32, Group>,
    user_id: Result<u32, AnnounceError>,
    user: Result<User, AnnounceError>,
    q: Announce,
    client_ip: IpAddress,
    is_connectable: bool,
    now: i64,
    seed_list_under_limit: bool,
    leech_list_under_limit: bool,
)
    requires
        announce_outcome(
            before,
            after,
            r,
            config,
            groups,
            user_id,
            user,
            q,
            client_ip,
            is_connectable,
            now,
            seed_list_under_limit,
            leech_list_under_limit,
        ),
        r is Ok,
    ensures
        ({
            let key = (user_id->Ok_0, q.peer_id.0);
            if q.event == Event::Stopped {
                !after.peers@.contains_key(key)
            } else {
                &&& after.peers@.contains_key(key)
                &&& after.peers@[key].is_active
                &&& after.peers@[key].updated_at == now
                &&& after.peers@[key].ip_address == client_ip
                &&& after.peers@[key].port == q.port
                &&& after.peers@[key].is_seeder == (q.left == 0)
                &&& after.peers@[key].uploaded == q.uploaded
                &&& after.peers@[key].downloaded == q.downloaded
            }
        }),
{
}

/// A user is only allowed so many active peers per torrent: an accepted
/// announce of a new peer leaves the user with at most the configured number
/// of active peers on the torrent. (A known peer that was inactive and
/// announces again is not counted against the limit.)
pub proof fn lemma_new_peer_within_limit(
    before: Torrent,
    after: Torrent,
    r: Result<TorrentOutcome, AnnounceError>,
    config: Config,
    groups: Map<i32, Group>,
    user_id: Result<u32, AnnounceError>,
    user: Result<User, AnnounceError>,
    q: Announce,
    client_ip: IpAddress,
    is_connectable: bool,
    now: i64,
    seed_list_under_limit: bool,
    leech_list_under_limit: bool,
)
    requires
        announce_outcome(
            before,
            after,
            r,
            config,
            groups,
            user_id,
            user,
            q,
            client_ip,
            is_connectable,
            now,
            seed_list_under_limit,
            leech_list_under_limit,
        ),
        r is Ok,
        q.event != Event::Stopped,
        !before.peers@.contains_key((user_id->Ok_0, q.peer_id.0)),
    ensures
        active_keys_of(after.peers@, user_id->Ok_0).len() <= config.max_peers_per_torrent_per_user,
{
}

/// A refused announce changes neither the peers nor the counts of its
/// torrent.
pub proof fn lemma_refused_announce_changes_nothing(
    before: Torrent,
    after: Torrent,
    r: Result<TorrentOutcome, AnnounceError>,
    config: Config,
    groups: Map<i32, Group>,
    user_id: Result<u32, AnnounceError>,
    user: Result<User, AnnounceError>,
    q: Announce,
    client_ip: IpAddress,
    is_connectable: bool,
    now: i64,
    seed_list_under_limit: bool,
    leech_list_under_limit: bool,
)
    requires
        announce_outcome(
            before,
            after,
            r,
            config,
            groups,
            user_id,
            user,
            q,
            client_ip,
            is_connectable,
            now,
            seed_list_under_limit,
            leech_list_under_limit,
        ),
        r is Err,
    ensures
        torrent_unchanged(before, after),
        torrent_terms_kept(before, after),
{
}

/// Adds a signed delta to a counter, saturating.
fn add_count(count: u32, delta: u32) -> (r: u32)
    ensures
        r == clamp_u32(count + delta),
{
    if count > u32::MAX - delta { u32::MAX } else { count + delta }
}

/// The torrent-locked part of an announce: checks the torrent, the user and
/// the group, updates the peer and the torrent's counts, and writes the
/// answer.
fn announce_to(
    t: &mut Torrent,
    groups: &GroupStore,
    config: &Config,
    user_id: Result<u32, AnnounceError>,
    user: Result<User, AnnounceError>,
    query: &Announce,
    client_ip: IpAddress,
    is_connectable: bool,
    now: i64,
    seed_list_under_limit: bool,
    leech_list_under_limit: bool,
    interval: u32,
) -> (r: Result<TorrentOutcome, AnnounceError>)
    requires
        config.announce_min <= interval <= config.announce_max,
    ensures
        announce_outcome_at(
            Some(interval),
            *old(t),
            *final(t),
            r,
            *config,
            groups@,
            user_id,
            user,
            *query,
            client_ip,
            is_connectable,
            now,
            seed_list_under_limit,
            leech_list_under_limit,
        ),
{
    let req = config.require_peer_connectivity;
    let mut warnings = WarningCollection::new();
    if !is_connectable && req {
        warnings.add(AnnounceWarning::ConnectivityIssueDetected);
    }
    assert(warnings@ =~= connectivity_warnings(is_connectable, req));
    if t.is_deleted {
        return Err(AnnounceError::TorrentIsDeleted);
    }
    match t.status {
        Status::Approved => {},
        Status::Pending => {
            return Err(AnnounceError::TorrentIsPendingModeration);
        },
        Status::Rejected => {
            return Err(AnnounceError::TorrentIsRejected);
        },
        Status::Postponed => {
            return Err(AnnounceError::TorrentIsPostponed);
        },
        Status::Unknown => {
            return Err(AnnounceError::TorrentUnknownModerationStatus);
        },
    }
    let user_id = match user_id {
        Ok(id) => id,
        Err(e) => {
            return Err(e);
        },
    };
    let user = match user {
        Ok(u) => u,
        Err(e) => {
            return Err(e);
        },
    };
    // Validate user
    if !user.can_download && query.left != 0 {
        return Err(AnnounceError::DownloadPrivilegesRevoked);
    }
    let group = match groups.get(user.group_id) {
        Some(g) => g.duplicate(),
        None => {
            return Err(AnnounceError::GroupNotFound);
        },
    };
    let slug = group.slug.as_str().as_bytes();
    if bytes_eq_str(slug, "banned") || bytes_eq_str(slug, "validating") || bytes_eq_str(slug, "disabled") {
        return Err(AnnounceError::GroupNotEnabled(group.slug.clone()));
    }
    // Make sure user isn't leeching more torrents than their group allows
    let hit_slot_limit = if query.left > 0 {
        match group.download_slots {
            Some(slots) => user.num_leeching >= slots,
            None => false,
        }
    } else {
        false
    };
    let ghost before = *t;
    let deltas = match update_peer(&mut t.peers, config, user_id, query, client_ip, is_connectable, now, hit_slot_limit, &mut warnings) {
        Ok(d) => d,
        Err(e) => {
            return Err(e);
        },
    };
    let ghost all_warnings = warnings@;
    // Compute this before the warnings are turned into a message.
    let should_early_return = warnings.should_early_return();
    // Has to be adjusted before the peer list is generated
    t.seeders = saturating_add_signed_u32(t.seeders, deltas.seeder_delta);
    t.leechers = saturating_add_signed_u32(t.leechers, deltas.leecher_delta);
    t.times_completed = add_count(t.times_completed, deltas.times_completed_delta);

    // Only provide peer lists if it is not a stopped event, there exist
    // leechers, and there is no warning in the response.
    let no_warnings = warnings.is_empty();
    let mut v4: Vec<u8> = Vec::new();
    let mut v6: Vec<u8> = Vec::new();
    let mut has_requested_seed_list = false;
    let mut has_requested_leech_list = false;
    let mut is_over_seed_list_rate_limit = false;
    let mut is_over_leech_list_rate_limit = false;
    let ghost mut chosen: Seq<Peer> = Seq::empty();
    if query.event != Event::Stopped && t.leechers > 0 && no_warnings {
        let selection = select_peers(
            &t.peers,
            user_id,
            req,
            query.left,
            query.numwant,
            t.seeders,
            t.leechers,
            seed_list_under_limit,
            leech_list_under_limit,
        );
        let encoded = encode_peers(&selection.peers);
        v4 = encoded.0;
        v6 = encoded.1;
        has_requested_seed_list = selection.has_requested_seed_list;
        has_requested_leech_list = selection.has_requested_leech_list;
        is_over_seed_list_rate_limit = selection.is_over_seed_list_rate_limit;
        is_over_leech_list_rate_limit = selection.is_over_leech_list_rate_limit;
        proof {
            chosen = selection.peers@;
        }
    }
    let complete = if is_over_seed_list_rate_limit || !no_warnings { 0 } else { t.seeders };
    let incomplete = if is_over_leech_list_rate_limit || !no_warnings { 0 } else { t.leechers };
    let message = warnings.into_message();
    let response = write_announce_response(
        complete,
        t.times_completed,
        incomplete,
        interval,
        config.announce_min,
        v4.as_slice(),
        v6.as_slice(),
        &message,
    );
    let factors = announce_factors(config, &group, t.upload_factor, t.download_factor, &user);
    let out = TorrentOutcome {
        upload_factor: factors.0,
        download_factor: factors.1,
        deltas,
        user,
        user_id,
        group,
        has_requested_seed_list,
        has_requested_leech_list,
        should_early_return,
        response,
    };
    proof {
        assert(answer_for(
            *config,
            *query,
            user_id,
            t.peers@,
            t.seeders,
            t.leechers,
            t.times_completed,
            all_warnings,
            seed_list_under_limit,
            leech_list_under_limit,
            has_requested_seed_list,
            has_requested_leech_list,
            interval,
            chosen,
            out.response@,
        ));
    }
    Ok(out)
}

/// The torrent-locked part of an announce (see `announce_outcome_at`), on
/// the torrent with the given id, answering with the given interval (drawn
/// from the configured range); an unknown id is refused and changes nothing.
pub fn announce_on_torrent_at(
    torrents: &mut TorrentStore,
    groups: &GroupStore,
    config: &Config,
    torrent_id: u32,
    user_id: Result<u32, AnnounceError>,
    user: Result<User, AnnounceError>,
    query: &Announce,
    client_ip: IpAddress,
    is_connectable: bool,
    now: i64,
    seed_list_under_limit: bool,
    leech_list_under_limit: bool,
    interval: u32,
) -> (r: Result<TorrentOutcome, AnnounceError>)
    requires
        config.announce_min <= interval <= config.announce_max,
    ensures
        final(torrents)@.dom() == old(torrents)@.dom(),
        forall|j: u32| j != torrent_id ==> final(torrents)@.get(j) == old(torrents)@.get(j),
        !old(torrents)@.contains_key(torrent_id) ==> r == Err::<TorrentOutcome, AnnounceError>(AnnounceError::TorrentNotFound),
        old(torrents)@.contains_key(torrent_id) ==> announce_outcome_at(
            Some(interval),
            old(torrents)@[torrent_id],
            final(torrents)@[torrent_id],
            r,
            *config,
            groups@,
            user_id,
            user,
            *query,
            client_ip,
            is_connectable,
            now,
            seed_list_under_limit,
            leech_list_under_limit,
        ),
{
    let ghost before = torrents@;
    match torrents.take(torrent_id) {
        None => Err(AnnounceError::TorrentNotFound),
        Some(mut torrent) => {
            let r = announce_to(
                &mut torrent,
                groups,
                config,
                user_id,
                user,
                query,
                client_ip,
                is_connectable,
                now,
                seed_list_under_limit,
                leech_list_under_limit,
                interval,
            );
            torrents.insert(torrent_id, torrent);
            assert(torrents@.dom() =~= before.dom());
            r
        },
    }
}

/// An answer with a drawn interval is an answer for some interval.
proof fn lemma_drawn_outcome(
    interval: u32,
    before: Torrent,
    after: Torrent,
    r: Result<TorrentOutcome, AnnounceError>,
    config: Config,
    groups: Map<i32, Group>,
    user_id: Result<u32, AnnounceError>,
    user: Result<User, AnnounceError>,
    q: Announce,
    client_ip: IpAddress,
    is_connectable: bool,
    now: i64,
    seed_list_under_limit: bool,
    leech_list_under_limit: bool,
)
    requires
        announce_outcome_at(
            Some(interval),
            before,
            after,
            r,
            config,
            groups,
            user_id,
            user,
            q,
            client_ip,
            is_connectable,
            now,
            seed_list_under_limit,
            leech_list_under_limit,
        ),
    ensures
        announce_outcome(
            before,
            after,
            r,
            config,
            groups,
            user_id,
            user,
            q,
            client_ip,
            is_connectable,
            now,
            seed_list_under_limit,
            leech_list_under_limit,
        ),
{
}

/// The torrent-locked part of an announce (see `announce_outcome`), on the
/// torrent with the given id; the interval is drawn at random from the
/// configured range, which must not be empty. An unknown id is refused and
/// changes nothing.
pub fn announce_on_torrent(
    torrents: &mut TorrentStore,
    groups: &GroupStore,
    config: &Config,
    torrent_id: u32,
    user_id: Result<u32, AnnounceError>,
    user: Result<User, AnnounceError>,
    query: &Announce,
    client_ip: IpAddress,
    is_connectable: bool,
    now: i64,
    seed_list_under_limit: bool,
    leech_list_under_limit: bool,
) -> (r: Result<TorrentOutcome, AnnounceError>)
    requires
        config.announce_min <= config.announce_max,
    ensures
        final(torrents)@.dom() == old(torrents)@.dom(),
        forall|j: u32| j != torrent_id ==> final(torrents)@.get(j) == old(torrents)@.get(j),
        !old(torrents)@.contains_key(torrent_id) ==> r == Err::<TorrentOutcome, AnnounceError>(AnnounceError::TorrentNotFound),
        old(torrents)@.contains_key(torrent_id) ==> announce_outcome(
            old(torrents)@[torrent_id],
            final(torrents)@[torrent_id],
            r,
            *config,
            groups@,
            user_id,
            user,
            *query,
            client_ip,
            is_connectable,
            now,
            seed_list_under_limit,
            leech_list_under_limit,
        ),
{
    let interval = random_interval(config.announce_min, config.announce_max);
    let ghost before = torrents@;
    let r = announce_on_torrent_at(
        torrents,
        groups,
        config,
        torrent_id,
        user_id,
        user,
        query,
        client_ip,
        is_connectable,
        now,
        seed_list_under_limit,
        leech_list_under_limit,
        interval,
    );
    proof {
        if before.contains_key(torrent_id) {
            lemma_drawn_outcome(
                interval,
                before[torrent_id],
                torrents@[torrent_id],
                r,
                *config,
                groups@,
                user_id,
                user,
                *query,
                client_ip,
                is_connectable,
                now,
                seed_list_under_limit,
                leech_list_under_limit,
            );
        }
    }
    r
}

/// Downloads count nothing for a user on personal freeleech, with a
/// freeleech token for the torrent, or on a featured torrent.
pub open spec fn effective_download_factor(
    personal_freeleeches: Set<u32>,
    freeleech_tokens: Set<(u32, u32)>,
    featured_torrents: Set<u32>,
    user_id: u32,
    torrent_id: u32,
    factor: u8,
) -> u8 {
    if personal_freeleeches.contains(user_id) || freeleech_tokens.contains((user_id, torrent_id))
        || featured_torrents.contains(torrent_id) {
        0
    } else {
        factor
    }
}

/// Uploads count double on a featured torrent.
pub open spec fn effective_upload_factor(featured_torrents: Set<u32>, torrent_id: u32, factor: u8) -> u8 {
    if featured_torrents.contains(torrent_id) { 200 } else { factor }
}

/// The credited amount of a transfer: the factor (percent) times the amount,
/// over a hundred; the product wraps at 2^64 as unsigned arithmetic does in
/// an optimized build.
pub open spec fn credited(factor: u8, delta: u64) -> u64 {
    (((factor as nat * delta as nat) % 0x1_0000_0000_0000_0000nat) / 100) as u64
}

/// Whether the user's history on the torrent is immune to hit and run rules:
/// the group's immunity, unless the configuration overrides it for lifetime
/// donors or donors.
pub open spec fn immunity(config: Config, user: User, group: Group) -> bool {
    if user.is_lifetime {
        match config.lifetime_donor_immunity_override {
            Some(o) => o,
            None => group.is_immune,
        }
    } else if user.is_donor {
        match config.donor_immunity_override {
            Some(o) => o,
            None => group.is_immune,
        }
    } else {
        group.is_immune
    }
}

/// The smaller of `v` and `i64::MAX`.
pub open spec fn cap_i64(v: u64) -> int {
    if v > i64::MAX { i64::MAX as int } else { v as int }
}

/// The user's seeding and leeching counts moved by the deltas (saturating).
pub open spec fn user_with_counts(u: User, seeder_delta: i32, leecher_delta: i32) -> User {
    User {
        id: u.id,
        group_id: u.group_id,
        passkey: u.passkey,
        can_download: u.can_download,
        num_seeding: clamp_u32(u.num_seeding + seeder_delta),
        num_leeching: clamp_u32(u.num_leeching + leecher_delta),
        is_donor: u.is_donor,
        is_lifetime: u.is_lifetime,
    }
}

/// What an accepted announce leaves to be written to the database, and
/// which of the user's peer list rates it ticks.
pub struct AnnounceRecords {
    pub peer: (peer_update::Index, PeerUpdate),
    pub history: (history_update::Index, HistoryUpdate),
    pub user: Option<(user_update::Index, UserUpdate)>,
    pub torrent: Option<(torrent_update::Index, TorrentUpdate)>,
    pub announce: Option<AnnounceUpdate>,
    /// The user, known to the tracker, was handed a list of seeds.
    pub tick_seed_list_rates: bool,
    /// The user, known to the tracker, was handed a list of leeches.
    pub tick_leech_list_rates: bool,
}

/// The records of an announce, field by field.
pub open spec fn records_of(
    r: AnnounceRecords,
    config: Config,
    personal_freeleeches: Set<u32>,
    freeleech_tokens: Set<(u32, u32)>,
    featured_torrents: Set<u32>,
    torrent_id: u32,
    q: Announce,
    user_agent: Seq<u8>,
    client_ip: IpAddress,
    is_connectable: bool,
    now: i64,
    o: TorrentOutcome,
) -> bool {
    let d = o.deltas;
    let download_factor = effective_download_factor(
        personal_freeleeches,
        freeleech_tokens,
        featured_torrents,
        o.user_id,
        torrent_id,
        o.download_factor,
    );
    let upload_factor = effective_upload_factor(featured_torrents, torrent_id, o.upload_factor);
    let credited_up = credited(upload_factor, d.uploaded_delta);
    let credited_down = credited(download_factor, d.downloaded_delta);
    let stopped = q.event == Event::Stopped;
    &&& r.peer.0 == peer_update::Index { user_id: o.user_id, torrent_id, peer_id: q.peer_id }
    &&& r.peer.1.ip == client_ip
    &&& r.peer.1.port == q.port
    &&& r.peer.1.agent@ == user_agent
    &&& r.peer.1.uploaded == q.uploaded
    &&& r.peer.1.downloaded == q.downloaded
    &&& r.peer.1.is_active == !stopped
    &&& r.peer.1.is_seeder == (q.left == 0)
    &&& r.peer.1.is_visible == d.is_visible
    &&& r.peer.1.left == q.left
    &&& r.peer.1.created_at == now
    &&& r.peer.1.updated_at == now
    &&& r.peer.1.connectable == is_connectable
    &&& r.history.0 == history_update::Index { torrent_id, user_id: o.user_id }
    &&& r.history.1.user_agent@ == user_agent
    &&& r.history.1.is_active == !stopped
    &&& r.history.1.is_seeder == (q.left == 0)
    &&& r.history.1.is_immune == immunity(config, o.user, o.group)
    &&& r.history.1.uploaded == q.uploaded
    &&& r.history.1.downloaded == q.downloaded
    &&& r.history.1.uploaded_delta == d.uploaded_delta
    &&& r.history.1.downloaded_delta == d.downloaded_delta
    &&& r.history.1.credited_uploaded_delta == credited_up
    &&& r.history.1.credited_downloaded_delta == credited_down
    &&& r.history.1.completed_at == if q.event == Event::Completed { Some(now) } else { None }
    &&& r.history.1.created_at == now
    &&& r.history.1.updated_at == now
    &&& r.user == if credited_up != 0 || credited_down != 0 {
        Some((user_update::Index { user_id: o.user_id }, UserUpdate { uploaded_delta: credited_up, downloaded_delta: credited_down }))
    } else {
        None
    }
    &&& r.torrent == if d.seeder_delta != 0 || d.leecher_delta != 0 || d.times_completed_delta != 0 || d.uploaded_delta != 0
        || d.downloaded_delta != 0 {
        Some((
            torrent_update::Index { torrent_id },
            TorrentUpdate {
                seeder_delta: d.seeder_delta,
                leecher_delta: d.leecher_delta,
                times_completed_delta: d.times_completed_delta,
                balance_delta: (cap_i64(d.uploaded_delta) - cap_i64(d.downloaded_delta)) as i64,
            },
        ))
    } else {
        None
    }
    &&& (r.announce is Some <==> config.is_announce_logging_enabled)
    &&& r.announce matches Some(a) ==> {
        &&& a.user_id == o.user_id
        &&& a.torrent_id == torrent_id
        &&& a.uploaded == q.uploaded
        &&& a.downloaded == q.downloaded
        &&& a.left == q.left
        &&& a.corrupt == q.corrupt
        &&& a.peer_id == q.peer_id
        &&& a.port == q.port
        &&& a.numwant == if q.numwant > u16::MAX { u16::MAX } else { q.numwant as u16 }
        &&& a.created_at == now
        &&& a.event == q.event
        &&& match (a.key, q.key) {
            (Some(k), Some(qk)) => k@ == qk@,
            (None, None) => true,
            _ => false,
        }
    }
}

/// Copies a byte slice into a new vector.
fn bytes_to_vec(s: &[u8]) -> (r: Vec<u8>)
    ensures
        r@ == s@,
{
    let mut v: Vec<u8> = Vec::new();
    crate::bytes::extend_bytes(&mut v, s);
    assert(v@ =~= s@);
    v
}

/// The credited amount of a transfer (see `credited`).
fn credit(factor: u8, delta: u64) -> (r: u64)
    ensures
        r == credited(factor, delta),
{
    (factor as u64).wrapping_mul(delta) / 100
}

/// The part of an accepted announce after the torrent: updates the user's
/// seeding and leeching counts when they moved or a peer list was
/// requested, and yields the records to be written. (An announce whose
/// outcome asks to return early skips this step.)
pub fn settle_announce(
    users: &mut UserStore,
    personal_freeleeches: &PersonalFreeleechStore,
    freeleech_tokens: &FreeleechTokenStore,
    featured_torrents: &FeaturedTorrentStore,
    config: &Config,
    torrent_id: u32,
    query: &Announce,
    user_agent: &[u8],
    client_ip: IpAddress,
    is_connectable: bool,
    now: i64,
    outcome: &TorrentOutcome,
) -> (r: AnnounceRecords)
    ensures
        final(users)@ == if (outcome.deltas.seeder_delta != 0 || outcome.deltas.leecher_delta != 0
            || outcome.has_requested_seed_list || outcome.has_requested_leech_list) && old(users)@.contains_key(outcome.user_id) {
            old(users)@.insert(
                outcome.user_id,
                user_with_counts(old(users)@[outcome.user_id], outcome.deltas.seeder_delta, outcome.deltas.leecher_delta),
            )
        } else {
            old(users)@
        },
        r.tick_seed_list_rates == (outcome.has_requested_seed_list && old(users)@.contains_key(outcome.user_id)),
        r.tick_leech_list_rates == (outcome.has_requested_leech_list && old(users)@.contains_key(outcome.user_id)),
        records_of(
            r,
            *config,
            personal_freeleeches@,
            freeleech_tokens@,
            featured_torrents@,
            torrent_id,
            *query,
            user_agent@,
            client_ip,
            is_connectable,
            now,
            *outcome,
        ),
{
    let user_id = outcome.user_id;
    let d = outcome.deltas;
    let is_featured = featured_torrents.contains(torrent_id);
    let download_factor = if personal_freeleeches.contains(user_id) || freeleech_tokens.contains(user_id, torrent_id)
        || is_featured {
        0
    } else {
        outcome.download_factor
    };
    let upload_factor = if is_featured { 200 } else { outcome.upload_factor };
    let credited_uploaded_delta = credit(upload_factor, d.uploaded_delta);
    let credited_downloaded_delta = credit(download_factor, d.downloaded_delta);
    let completed_at = if query.event == Event::Completed { Some(now) } else { None };

    let is_known = users.get(user_id).is_some();
    if d.seeder_delta != 0 || d.leecher_delta != 0 || outcome.has_requested_seed_list || outcome.has_requested_leech_list {
        match users.get(user_id) {
            Some(u) => {
                let updated = User {
                    num_seeding: saturating_add_signed_u32(u.num_seeding, d.seeder_delta),
                    num_leeching: saturating_add_signed_u32(u.num_leeching, d.leecher_delta),
                    ..u
                };
                users.insert(user_id, updated);
            },
            None => {},
        }
    }
    let stopped = query.event == Event::Stopped;
    let peer = (
        peer_update::Index { user_id, torrent_id, peer_id: query.peer_id },
        PeerUpdate {
            ip: client_ip,
            port: query.port,
            agent: bytes_to_vec(user_agent),
            uploaded: query.uploaded,
            downloaded: query.downloaded,
            is_active: !stopped,
            is_seeder: query.left == 0,
            is_visible: d.is_visible,
            left: query.left,
            created_at: now,
            updated_at: now,
            connectable: is_connectable,
        },
    );
    let user = outcome.user;
    let is_immune = if user.is_lifetime {
        match config.lifetime_donor_immunity_override {
            Some(o) => o,
            None => outcome.group.is_immune,
        }
    } else if user.is_donor {
        match config.donor_immunity_override {
            Some(o) => o,
            None => outcome.group.is_immune,
        }
    } else {
        outcome.group.is_immune
    };
    let history = (
        history_update::Index { torrent_id, user_id },
        HistoryUpdate {
            user_agent: bytes_to_vec(user_agent),
            is_active: !stopped,
            is_seeder: query.left == 0,
            is_immune,
            uploaded: query.uploaded,
            downloaded: query.downloaded,
            uploaded_delta: d.uploaded_delta,
            downloaded_delta: d.downloaded_delta,
            credited_uploaded_delta,
            credited_downloaded_delta,
            completed_at,
            created_at: now,
            updated_at: now,
        },
    );
    let user_record = if credited_uploaded_delta != 0 || credited_downloaded_delta != 0 {
        Some((
            user_update::Index { user_id },
            UserUpdate { uploaded_delta: credited_uploaded_delta, downloaded_delta: credited_downloaded_delta },
        ))
    } else {
        None
    };
    let torrent_record = if d.seeder_delta != 0 || d.leecher_delta != 0 || d.times_completed_delta != 0
        || d.uploaded_delta != 0 || d.downloaded_delta != 0 {
        let up: i64 = if d.uploaded_delta > i64::MAX as u64 { i64::MAX } else { d.uploaded_delta as i64 };
        let down: i64 = if d.downloaded_delta > i64::MAX as u64 { i64::MAX } else { d.downloaded_delta as i64 };
        Some((
            torrent_update::Index { torrent_id },
            TorrentUpdate {
                seeder_delta: d.seeder_delta,
                leecher_delta: d.leecher_delta,
                times_completed_delta: d.times_completed_delta,
                balance_delta: up - down,
            },
        ))
    } else {
        None
    };
    let announce = if config.is_announce_logging_enabled {
        let key = match &query.key {
            Some(k) => Some(bytes_to_vec(k.as_slice())),
            None => None,
        };
        Some(AnnounceUpdate {
            user_id,
            torrent_id,
            uploaded: query.uploaded,
            downloaded: query.downloaded,
            left: query.left,
            corrupt: query.corrupt,
            peer_id: query.peer_id,
            port: query.port,
            numwant: if query.numwant > u16::MAX as usize { u16::MAX } else { query.numwant as u16 },
            created_at: now,
            event: query.event,
            key,
        })
    } else {
        None
    };
    AnnounceRecords {
        peer,
        history,
        user: user_record,
        torrent: torrent_record,
        announce,
        tick_seed_list_rates: outcome.has_requested_seed_list && is_known,
        tick_leech_list_rates: outcome.has_requested_leech_list && is_known,
    }
}

/// Queues the records of an announce for the database: the peer's write,
/// the history write, and the user's change, the torrent's change and the
/// logged announce where there are ones. Returns `false`, having queued only
/// the peer's write, when merging the history write into the one queued for
/// that user and torrent would take a delta past `u64`.
pub fn queue_records(
    records: AnnounceRecords,
    peers: &mut peer_update::Queue,
    histories: &mut history_update::Queue,
    users: &mut user_update::Queue,
    torrents: &mut torrent_update::Queue,
    announces: &mut announce_update::Queue,
) -> (fits: bool)
    ensures
        peer_update_queue_upserted(old(peers)@, final(peers)@, peer_update::index_key(records.peer.0), records.peer.1),
        fits == history_update::upsert_fits(old(histories)@, history_update::index_key(records.history.0), records.history.1),
        !fits ==> {
            &&& final(histories)@ == old(histories)@
            &&& final(users)@ == old(users)@
            &&& final(torrents)@ == old(torrents)@
            &&& final(announces).0@ == old(announces).0@
        },
        fits ==> {
            &&& history_queue_upserted(
                old(histories)@,
                final(histories)@,
                history_update::index_key(records.history.0),
                records.history.1,
            )
            &&& match records.user {
                Some((index, update)) => user_update_queue_upserted(
                    old(users)@,
                    final(users)@,
                    user_update::index_key(index),
                    update,
                ),
                None => final(users)@ == old(users)@,
            }
            &&& match records.torrent {
                Some((index, update)) => final(torrents)@ == torrent_update::queued_update(
                    old(torrents)@,
                    torrent_update::index_key(index),
                    update,
                ),
                None => final(torrents)@ == old(torrents)@,
            }
            &&& match records.announce {
                Some(a) => final(announces).0@ == old(announces).0@.push(a),
                None => final(announces).0@ == old(announces).0@,
            }
        },
{
    let AnnounceRecords { peer, history, user, torrent, announce, .. } = records;
    peers.upsert(peer.0, peer.1);
    if !histories.upsert(history.0, history.1) {
        return false;
    }
    match user {
        Some((index, update)) => users.upsert(index, update),
        None => {},
    }
    match torrent {
        Some((index, update)) => torrents.upsert(index, update),
        None => {},
    }
    match announce {
        Some(a) => announces.upsert(a),
        None => {},
    }
    true
}

/// The override of a factor that applies to a user: the lifetime donors'
/// one for lifetime donors, the donors' one for other donors, none else.
pub open spec fn factor_override(user: User, lifetime: Option<u8>, donor: Option<u8>) -> Option<u8> {
    if user.is_lifetime {
        lifetime
    } else if user.is_donor {
        donor
    } else {
        None
    }
}

/// The download factor of an announce is the least of the tracker's, the
/// group's and the torrent's factor, and of the user's override where one
/// applies: it is at most each of them and equal to one of them. So a
/// freeleech group (factor 0) is never charged, whatever the torrent says.
pub proof fn lemma_download_factor_is_least(config: Config, group_factor: u8, torrent_factor: u8, user: User)
    ensures
        ({
            let f = download_factor_for(config, group_factor, torrent_factor, user);
            let o = factor_override(
                user,
                config.lifetime_donor_download_factor_override,
                config.donor_download_factor_override,
            );
            &&& f <= config.download_factor
            &&& f <= group_factor
            &&& f <= torrent_factor
            &&& o matches Some(v) ==> f <= v
            &&& f == config.download_factor || f == group_factor || f == torrent_factor || o == Some(f)
        }),
{
}

/// The upload factor of an announce is the greatest of the tracker's, the
/// group's and the torrent's factor, and of the user's override where one
/// applies: it is at least each of them and equal to one of them.
pub proof fn lemma_upload_factor_is_greatest(config: Config, group_factor: u8, torrent_factor: u8, user: User)
    ensures
        ({
            let f = upload_factor_for(config, group_factor, torrent_factor, user);
            let o = factor_override(
                user,
                config.lifetime_donor_upload_factor_override,
                config.donor_upload_factor_override,
            );
            &&& f >= config.upload_factor
            &&& f >= group_factor
            &&& f >= torrent_factor
            &&& o matches Some(v) ==> f >= v
            &&& f == config.upload_factor || f == group_factor || f == torrent_factor || o == Some(f)
        }),
{
}

/// An accepted announce is charged downloads at most at the user's group's
/// factor, the torrent's and the tracker's, and credited uploads at least at
/// each of them.
pub proof fn lemma_announce_factors_bounded(
    before: Torrent,
    after: Torrent,
    r: Result<TorrentOutcome, AnnounceError>,
    config: Config,
    groups: Map<i32, Group>,
    user_id: Result<u32, AnnounceError>,
    user: Result<User, AnnounceError>,
    q: Announce,
    client_ip: IpAddress,
    is_connectable: bool,
    now: i64,
    seed_list_under_limit: bool,
    leech_list_under_limit: bool,
)
    requires
        announce_outcome(
            before,
            after,
            r,
            config,
            groups,
            user_id,
            user,
            q,
            client_ip,
            is_connectable,
            now,
            seed_list_under_limit,
            leech_list_under_limit,
        ),
        r is Ok,
    ensures
        ({
            let o = r->Ok_0;
            let g = groups[user->Ok_0.group_id];
            &&& o.group == g
            &&& o.download_factor <= g.download_factor
            &&& o.download_factor <= before.download_factor
            &&& o.download_factor <= config.download_factor
            &&& o.upload_factor >= g.upload_factor
            &&& o.upload_factor >= before.upload_factor
            &&& o.upload_factor >= config.upload_factor
        }),
{
    let o = r->Ok_0;
    let g = groups[user->Ok_0.group_id];
    lemma_download_factor_is_least(config, g.download_factor, before.download_factor, user->Ok_0);
    lemma_upload_factor_is_greatest(config, g.upload_factor, before.upload_factor, user->Ok_0);
}

/// The history record of an announce carries the immunity of the user's
/// group, except that a configured override replaces it for lifetime donors
/// (the lifetime donors' override) and other donors (the donors' override).
pub proof fn lemma_history_immunity(
    r: AnnounceRecords,
    config: Config,
    personal_freeleeches: Set<u32>,
    freeleech_tokens: Set<(u32, u32)>,
    featured_torrents: Set<u32>,
    torrent_id: u32,
    q: Announce,
    user_agent: Seq<u8>,
    client_ip: IpAddress,
    is_connectable: bool,
    now: i64,
    o: TorrentOutcome,
)
    requires
        records_of(
            r,
            config,
            personal_freeleeches,
            freeleech_tokens,
            featured_torrents,
            torrent_id,
            q,
            user_agent,
            client_ip,
            is_connectable,
            now,
            o,
        ),
    ensures
        !o.user.is_donor && !o.user.is_lifetime ==> r.history.1.is_immune == o.group.is_immune,
        o.user.is_lifetime ==> r.history.1.is_immune == match config.lifetime_donor_immunity_override {
            Some(b) => b,
            None => o.group.is_immune,
        },
        o.user.is_donor && !o.user.is_lifetime ==> r.history.1.is_immune == match config.donor_immunity_override {
            Some(b) => b,
            None => o.group.is_immune,
        },
{
}

/// What an accepted announce credits its user. A download on a freeleech
/// torrent for the user (personal freeleech, a freeleech token, or a
/// featured torrent) is credited as nothing. Otherwise the credited download
/// is the download times the announce's download factor, in percent, rounded
/// down; uploads likewise with the upload factor, which is 200 on a featured
/// torrent (as long as the product fits in 64 bits). The user gets a record
/// exactly when something is credited, holding what was credited.
pub proof fn lemma_settled_credits(
    r: AnnounceRecords,
    config: Config,
    personal_freeleeches: Set<u32>,
    freeleech_tokens: Set<(u32, u32)>,
    featured_torrents: Set<u32>,
    torrent_id: u32,
    q: Announce,
    user_agent: Seq<u8>,
    client_ip: IpAddress,
    is_connectable: bool,
    now: i64,
    o: TorrentOutcome,
)
    requires
        records_of(
            r,
            config,
            personal_freeleeches,
            freeleech_tokens,
            featured_torrents,
            torrent_id,
            q,
            user_agent,
            client_ip,
            is_connectable,
            now,
            o,
        ),
    ensures
        ({
            let h = r.history.1;
            let down = o.deltas.downloaded_delta;
            let up = o.deltas.uploaded_delta;
            let free = personal_freeleeches.contains(o.user_id) || freeleech_tokens.contains((o.user_id, torrent_id))
                || featured_torrents.contains(torrent_id);
            let up_factor = if featured_torrents.contains(torrent_id) { 200 } else { o.upload_factor as int };
            &&& free ==> h.credited_downloaded_delta == 0
            &&& !free && o.download_factor * down <= u64::MAX ==> h.credited_downloaded_delta * 100 <= o.download_factor * down
                < h.credited_downloaded_delta * 100 + 100
            &&& up_factor * up <= u64::MAX ==> h.credited_uploaded_delta * 100 <= up_factor * up < h.credited_uploaded_delta
                * 100 + 100
            &&& h.uploaded_delta == up && h.downloaded_delta == down
            &&& (r.user is Some <==> h.credited_uploaded_delta != 0 || h.credited_downloaded_delta != 0)
            &&& r.user matches Some(u) ==> u.0.user_id == o.user_id && u.1.uploaded_delta == h.credited_uploaded_delta
                && u.1.downloaded_delta == h.credited_downloaded_delta
        }),
{
    let down = o.deltas.downloaded_delta;
    let up = o.deltas.uploaded_delta;
    let df = effective_download_factor(personal_freeleeches, freeleech_tokens, featured_torrents, o.user_id, torrent_id, o.download_factor);
    let uf = effective_upload_factor(featured_torrents, torrent_id, o.upload_factor);
    if df as nat * down as nat <= u64::MAX {
        assert((df as nat * down as nat) % 0x1_0000_0000_0000_0000nat == df as nat * down as nat);
    }
    if uf as nat * up as nat <= u64::MAX {
        assert((uf as nat * up as nat) % 0x1_0000_0000_0000_0000nat == uf as nat * up as nat);
    }
    if df == 0 {
        assert(df as nat * down as nat == 0);
    }
}

/// What an accepted announce counts as transferred: nothing for a new peer;
/// for a known peer, what its reported totals grew by since its last
/// announce, or nothing when a total went down (the client restarted its
/// session), except that a stop counts each total's growth on its own. A
/// download is counted as completed exactly when a known leech announces,
/// without stopping, that it has nothing left.
pub proof fn lemma_announce_transfer(
    before: Torrent,
    after: Torrent,
    r: Result<TorrentOutcome, AnnounceError>,
    config: Config,
    groups: Map<i32, Group>,
    user_id: Result<u32, AnnounceError>,
    user: Result<User, AnnounceError>,
    q: Announce,
    client_ip: IpAddress,
    is_connectable: bool,
    now: i64,
    seed_list_under_limit: bool,
    leech_list_under_limit: bool,
)
    requires
        announce_outcome(
            before,
            after,
            r,
            config,
            groups,
            user_id,
            user,
            q,
            client_ip,
            is_connectable,
            now,
            seed_list_under_limit,
            leech_list_under_limit,
        ),
        r is Ok,
    ensures
        ({
            let d = r->Ok_0.deltas;
            let old = before.peers@.get((user_id->Ok_0, q.peer_id.0));
            let stopped = q.event == Event::Stopped;
            &&& old is None ==> d.uploaded_delta == 0 && d.downloaded_delta == 0 && d.times_completed_delta == 0
            &&& old matches Some(p) ==> {
                &&& q.uploaded >= p.uploaded && q.downloaded >= p.downloaded ==> d.uploaded_delta == q.uploaded
                    - p.uploaded && d.downloaded_delta == q.downloaded - p.downloaded
                &&& !stopped && (q.uploaded < p.uploaded || q.downloaded < p.downloaded) ==> d.uploaded_delta == 0
                    && d.downloaded_delta == 0
                &&& stopped ==> d.uploaded_delta == (if q.uploaded >= p.uploaded { q.uploaded - p.uploaded } else { 0 })
                    && d.downloaded_delta == (if q.downloaded >= p.downloaded { q.downloaded - p.downloaded } else { 0 })
                &&& d.times_completed_delta == (if !stopped && !p.is_seeder && q.left == 0 { 1u32 } else { 0u32 })
            }
            &&& after.times_completed as int == if before.times_completed as int + d.times_completed_delta
                > u32::MAX { u32::MAX as int } else { before.times_completed as int + d.times_completed_delta }
        }),
{
}

} // verus!
