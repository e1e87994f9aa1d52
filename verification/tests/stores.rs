use unit3d_announce::announce::Event;
use unit3d_announce::client_ip::{forwarded_address_text, proxy_header_name, rightmost_entry};
use unit3d_announce::scheduler::due_tasks;
use unit3d_announce::config::Config;
use unit3d_announce::connectivity::{connectivity_step, probed, ConnectablePort, ConnectivityStep};
use unit3d_announce::error::{decode_error_message, AnnounceError, DecodeError};
use unit3d_announce::group::{APIInsertGroup, APIRemoveGroup, GroupStore};
use unit3d_announce::lists::{Agent, BlacklistedAgentStore, BlacklistedPortStore};
use unit3d_announce::peer::{Index, IpAddress, Peer, PeerId, PeerStore, UserAgent};
use unit3d_announce::peer_list::{append_chosen, encode_peers, select_peers};
use unit3d_announce::reap::{cutoffs, reap_store, reap_torrent, release_slots};
use unit3d_announce::response::write_announce_response;
use unit3d_announce::scheduler::announce_update::{AnnounceUpdate, Queue as AnnounceQueue};
use unit3d_announce::scheduler::peer_deletion::Queue as DeletionQueue;
use unit3d_announce::scheduler::history_update::{self, HistoryUpdate};
use unit3d_announce::scheduler::peer_deactivation::{self, PeerDeactivation};
use unit3d_announce::scheduler::peer_update::{self, PeerUpdate};
use unit3d_announce::scheduler::torrent_update::{self, TorrentUpdate};
use unit3d_announce::scheduler::unregistered_info_hash_update::{self, UnregisteredInfoHashUpdate};
use unit3d_announce::scheduler::user_update::{self, UserUpdate};
use unit3d_announce::torrent::{
    destroy_torrent, upsert_torrent, APIInsertTorrent, APIRemoveTorrent, DBImportTorrent, InfoHash, InfoHash2IdStore,
    Status, Torrent, TorrentStore,
};
use unit3d_announce::user::{destroy_user, upsert_user, APIInsertUser, APIRemoveUser, Passkey, Passkey2IdStore, User, UserStore};
use unit3d_announce::warning::{AnnounceWarning, WarningCollection};

const NOW: i64 = 1_700_000_000_000_000;
const SECOND: i64 = 1_000_000;

fn peer(active: bool, seeder: bool, updated_at: i64) -> Peer {
    Peer {
        ip_address: IpAddress::V4([10, 0, 0, 1]),
        port: 6881,
        is_seeder: seeder,
        is_active: active,
        is_visible: true,
        is_connectable: true,
        updated_at,
        uploaded: 0,
        downloaded: 0,
    }
}

fn torrent_with(peers: &[((u32, [u8; 20]), Peer)], seeders: u32, leechers: u32) -> Torrent {
    let mut t = Torrent::from_db(DBImportTorrent {
        id: 3,
        status: Status::Approved,
        seeders,
        leechers,
        times_completed: 0,
        download_factor: 100,
        upload_factor: 100,
        is_deleted: false,
    });
    for (k, p) in peers {
        t.peers.insert(*k, *p);
    }
    t
}

fn user(id: u32, seeding: u32, leeching: u32) -> User {
    User {
        id,
        group_id: 1,
        passkey: Passkey([b'a'; 32]),
        can_download: true,
        num_seeding: seeding,
        num_leeching: leeching,
        is_donor: false,
        is_lifetime: false,
    }
}

#[test]
fn reap_forgets_old_inactive_and_deactivates_stale_peers() {
    let stale = NOW - 8000 * SECOND;
    let ancient = NOW - 2_000_000 * SECOND;
    let mut t = torrent_with(
        &[
            ((1, [1; 20]), peer(true, true, stale)),
            ((2, [2; 20]), peer(true, false, NOW)),
            ((3, [3; 20]), peer(false, false, ancient)),
            ((4, [4; 20]), peer(true, false, stale)),
        ],
        1,
        2,
    );
    let (active_cutoff, inactive_cutoff) = (NOW - 7200 * SECOND, NOW - 1814400 * SECOND);
    let out = reap_torrent(&mut t, active_cutoff, inactive_cutoff, false);
    assert_eq!(t.peers.len(), 3);
    assert!(t.peers.get((3, [3; 20])).is_none());
    assert!(!t.peers.get((1, [1; 20])).unwrap().is_active);
    assert!(t.peers.get((2, [2; 20])).unwrap().is_active);
    let mut deactivated = out.deactivated.clone();
    deactivated.sort();
    assert_eq!(deactivated, vec![(1, [1; 20]), (4, [4; 20])]);
    let mut released = out.released.clone();
    released.sort();
    assert_eq!(released, vec![(1, true), (4, false)]);
    assert_eq!((t.seeders, t.leechers), (0, 1));
    let (index, update) = out.torrent_update.unwrap();
    assert_eq!(index.torrent_id, 3);
    assert_eq!((update.seeder_delta, update.leecher_delta), (-1, -1));

    let mut users = UserStore::new();
    users.insert(1, user(1, 1, 0));
    users.insert(4, user(4, 0, 0));
    release_slots(&mut users, &out.released);
    assert_eq!(users.get(1).unwrap().num_seeding, 0);
    // Never below zero.
    assert_eq!(users.get(4).unwrap().num_leeching, 0);
}

#[test]
fn reaping_the_store_releases_slots_and_queues_records() {
    let stale = NOW - 8000 * SECOND;
    let mut torrents = TorrentStore::new();
    torrents.insert(3, torrent_with(&[((1, [1; 20]), peer(true, true, stale)), ((2, [2; 20]), peer(true, false, NOW))], 1, 1));
    let mut quiet = torrent_with(&[((2, [5; 20]), peer(true, false, NOW))], 0, 1);
    quiet.id = 8;
    torrents.insert(8, quiet);
    let mut users = UserStore::new();
    users.insert(1, user(1, 1, 0));
    users.insert(2, user(2, 0, 2));
    let mut deactivations = peer_deactivation::Queue::new();
    let mut updates = torrent_update::Queue::new();
    updates.upsert(
        torrent_update::Index { torrent_id: 3 },
        TorrentUpdate { seeder_delta: 2, leecher_delta: 0, times_completed_delta: 1, balance_delta: 0 },
    );
    let out = reap_store(
        &mut torrents,
        &mut users,
        &mut deactivations,
        &mut updates,
        NOW - 7200 * SECOND,
        NOW - 1814400 * SECOND,
        false,
    );
    let mut ids: Vec<u32> = out.iter().map(|o| o.0).collect();
    ids.sort();
    assert_eq!(ids, vec![3, 8]);
    assert_eq!((torrents.get(3).unwrap().seeders, torrents.get(3).unwrap().leechers), (0, 1));
    assert!(!torrents.get(3).unwrap().peers.get((1, [1; 20])).unwrap().is_active);
    assert_eq!(users.get(1).unwrap().num_seeding, 0);
    assert_eq!(users.get(2).unwrap().num_leeching, 2);
    let d = deactivations.take_batch();
    assert_eq!(d.len(), 1);
    assert_eq!(d[0].0, (1, 3, [1; 20]));
    let u = updates.take_batch();
    assert_eq!(u.len(), 1);
    assert_eq!(u[0].0, 3);
    assert_eq!((u[0].1.seeder_delta, u[0].1.times_completed_delta), (1, 1));
}

#[test]
fn reap_without_stale_peers_changes_nothing() {
    let mut t = torrent_with(&[((1, [1; 20]), peer(true, true, NOW))], 1, 0);
    let out = reap_torrent(&mut t, NOW - 7200 * SECOND, NOW - 1814400 * SECOND, false);
    assert!(out.deactivated.is_empty());
    assert!(out.torrent_update.is_none());
    assert_eq!(t.seeders, 1);
}

#[test]
fn reap_cutoffs() {
    let config = Config {
        flush_interval_milliseconds: 3000,
        numwant_default: 25,
        numwant_max: 50,
        announce_min: 1800,
        announce_max: 1800,
        announce_min_enforced: 1740,
        upload_factor: 100,
        download_factor: 100,
        peer_expiry_interval: 1800,
        active_peer_ttl: 7200,
        inactive_peer_ttl: 1814400,
        max_peers_per_torrent_per_user: 3,
        is_connectivity_check_enabled: false,
        connectivity_check_interval: 1800,
        require_peer_connectivity: false,
        is_announce_logging_enabled: false,
        donor_immunity_override: None,
        donor_upload_factor_override: None,
        donor_download_factor_override: None,
        lifetime_donor_immunity_override: None,
        lifetime_donor_upload_factor_override: None,
        lifetime_donor_download_factor_override: None,
    };
    assert_eq!(cutoffs(&config, NOW), (NOW - 7200 * SECOND, NOW - 1814400 * SECOND));
}

#[test]
fn connectivity_is_cached_while_fresh() {
    let cached = Some(ConnectablePort { connectable: true, updated_at: NOW - 10 * SECOND });
    assert_eq!(connectivity_step(false, cached, 1800, NOW), ConnectivityStep::Known(false));
    assert_eq!(connectivity_step(true, cached, 1800, NOW), ConnectivityStep::Known(true));
    assert_eq!(connectivity_step(true, cached, 5, NOW), ConnectivityStep::Probe);
    assert_eq!(connectivity_step(true, None, 1800, NOW), ConnectivityStep::Probe);
    assert_eq!(probed(false, NOW), ConnectablePort { connectable: false, updated_at: NOW });
}

#[test]
fn response_is_bencoded_in_key_order() {
    let r = write_announce_response(3, 7, 2, 1900, 1800, &[1, 2, 3, 4, 0, 80], &[], &Some(b"hi".to_vec()));
    let mut expected = b"d8:completei3e10:downloadedi7e10:incompletei2e8:intervali1900e12:min intervali1800e5:peers6:".to_vec();
    expected.extend_from_slice(&[1, 2, 3, 4, 0, 80]);
    expected.extend_from_slice(b"15:warning message2:hie");
    assert_eq!(r, expected);
}

#[test]
fn peers_are_encoded_compactly() {
    let mut v6 = peer(true, true, NOW);
    v6.ip_address = IpAddress::V6([0xFE; 16]);
    v6.port = 0x1234;
    let (a, b) = encode_peers(&vec![peer(true, true, NOW), v6]);
    assert_eq!(a, vec![10, 0, 0, 1, 0x1A, 0xE1]);
    let mut expected = vec![0xFE; 16];
    expected.extend_from_slice(&[0x12, 0x34]);
    assert_eq!(b, expected);
}

#[test]
fn selection_honours_numwant_and_prefers_seeds() {
    let mut store = PeerStore::new();
    for i in 0..5u8 {
        store.insert((10 + i as u32, [i; 20]), peer(true, true, NOW));
    }
    for i in 5..10u8 {
        store.insert((10 + i as u32, [i; 20]), peer(true, false, NOW));
    }
    let s = select_peers(&store, 99, false, 100, 7, 5, 5, true, true);
    assert_eq!(s.peers.len(), 7);
    assert_eq!(s.peers.iter().filter(|p| p.is_seeder).count(), 5);
    assert!(s.has_requested_seed_list && s.has_requested_leech_list);
    // A seed gets leeches only.
    let s = select_peers(&store, 99, false, 0, 3, 5, 5, true, true);
    assert_eq!(s.peers.len(), 3);
    assert!(s.peers.iter().all(|p| !p.is_seeder));
    assert!(!s.has_requested_seed_list);
    // Over the leech list rate limit: requested, not handed out.
    let s = select_peers(&store, 99, false, 0, 3, 5, 5, true, false);
    assert!(s.peers.is_empty());
    assert!(s.is_over_leech_list_rate_limit);
}

#[test]
fn warnings_join_shown_texts() {
    assert!(WarningCollection::new().into_message().is_none());
    let mut w = WarningCollection::new();
    assert!(w.is_empty());
    w.add(AnnounceWarning::RateLimitExceeded);
    assert!(!w.is_empty());
    w.add(AnnounceWarning::HitDownloadSlotLimit);
    w.add(AnnounceWarning::ConnectivityIssueDetected);
    assert_eq!(w.max_byte_length(), 3 * 66);
    assert!(!w.should_early_return());
    let max = w.max_byte_length();
    let m = w.into_message().unwrap();
    assert!(m.len() <= max);
    assert_eq!(
        String::from_utf8(m).unwrap(),
        "Download slot limit reached; Connectivity issue detected. Enable port-forwarding to resolve."
    );
}

#[test]
fn silent_warnings_give_no_message() {
    let mut w = WarningCollection::new();
    w.add(AnnounceWarning::RateLimitExceeded);
    assert!(w.into_message().is_none());
    let mut w = WarningCollection::new();
    w.add(AnnounceWarning::StoppedPeerDoesntExist);
    assert!(w.should_early_return());
}

#[test]
fn error_responses() {
    let r = AnnounceError::InfoHashNotFound.failure_response();
    assert_eq!(String::from_utf8(r).unwrap(), "d14:failure reason19:InfoHash not found.8:intervali5400e12:min intervali5400ee");
    let r = AnnounceError::TorrentIsPendingModeration.failure_response();
    assert_eq!(
        String::from_utf8(r).unwrap(),
        "d14:failure reason30:Torrent is pending moderation.8:intervali30e12:min intervali30ee"
    );
    let m = AnnounceError::BlacklistedPort(8080).message();
    assert_eq!(String::from_utf8(m).unwrap(), "Illegal port: 8080. Port should be between 6881-64999.");
    let m = AnnounceError::GroupNotEnabled(String::from("banned")).message();
    assert_eq!(String::from_utf8(m).unwrap(), "Your account is not enabled. (Current: banned).");
    let m = AnnounceError::PeersPerTorrentPerUserLimit(3).message();
    assert_eq!(String::from_utf8(m).unwrap(), "You already have 3 peers on this torrent. Ignoring.");
    assert_eq!(decode_error_message(DecodeError::InfoHash), "Invalid infohash.");
}

#[test]
fn info_hash_hex_round_trip() {
    let h = InfoHash([0xAB; 20]);
    let hex = h.to_hex();
    assert_eq!(hex, b"ABABABABABABABABABABABABABABABABABABABAB".to_vec());
    assert_eq!(InfoHash::parse(&hex).unwrap(), h);
    assert_eq!(InfoHash::parse(b"abababababababababababababababababababab").unwrap(), h);
    assert_eq!(InfoHash::parse(b"abab"), Err(DecodeError::InfoHash));
    assert_eq!(InfoHash::parse(b"zbababababababababababababababababababab"), Err(DecodeError::InfoHash));
}

#[test]
fn peer_id_and_index_display() {
    let id = PeerId([0x2D; 20]);
    assert_eq!(id.to_hex(), b"2D2D2D2D2D2D2D2D2D2D2D2D2D2D2D2D2D2D2D2D".to_vec());
    let index = Index { user_id: 42, peer_id: id };
    assert_eq!(index.to_display(), b"42-2D2D2D2D2D2D2D2D2D2D2D2D2D2D2D2D2D2D2D2D".to_vec());
    assert_eq!(PeerId::try_from_vec(&vec![1; 20]).unwrap(), PeerId([1; 20]));
    assert!(PeerId::try_from_vec(&vec![1; 3]).is_err());
}

#[test]
fn user_agents_are_padded() {
    let a = UserAgent::from_str("qBittorrent").unwrap();
    assert_eq!(&a.0[..11], b"qBittorrent");
    assert!(a.0[11..].iter().all(|&b| b == b' '));
    let long = "x".repeat(100);
    assert_eq!(UserAgent::from_str(&long).unwrap().0, [b'x'; 64]);
}

#[test]
fn merges() {
    let mut u = UserUpdate { uploaded_delta: u64::MAX - 1, downloaded_delta: 5 };
    u.merge(&UserUpdate { uploaded_delta: 10, downloaded_delta: 6 });
    assert_eq!((u.uploaded_delta, u.downloaded_delta), (u64::MAX, 11));
    let mut t = TorrentUpdate { seeder_delta: 1, leecher_delta: -1, times_completed_delta: 2, balance_delta: -5 };
    t.merge(&TorrentUpdate { seeder_delta: -3, leecher_delta: 4, times_completed_delta: 1, balance_delta: 7 });
    assert_eq!((t.seeder_delta, t.leecher_delta, t.times_completed_delta, t.balance_delta), (-2, 3, 3, 2));
    let mut t = TorrentUpdate { seeder_delta: i32::MAX, leecher_delta: 0, times_completed_delta: u32::MAX, balance_delta: i64::MIN };
    t.merge(&TorrentUpdate { seeder_delta: 1, leecher_delta: 0, times_completed_delta: 1, balance_delta: -1 });
    assert_eq!((t.seeder_delta, t.times_completed_delta, t.balance_delta), (i32::MAX, u32::MAX, i64::MIN));
}

#[test]
fn merging_in_any_order_gives_the_same_change() {
    let a = UserUpdate { uploaded_delta: u64::MAX - 3, downloaded_delta: 1 };
    let b = UserUpdate { uploaded_delta: 2, downloaded_delta: 2 };
    let c = UserUpdate { uploaded_delta: 9, downloaded_delta: 3 };
    let (mut ab_c, mut bc) = (a, b);
    ab_c.merge(&b);
    ab_c.merge(&c);
    bc.merge(&c);
    let mut a_bc = a;
    a_bc.merge(&bc);
    assert_eq!(ab_c, a_bc);
    assert_eq!(ab_c, UserUpdate { uploaded_delta: u64::MAX, downloaded_delta: 6 });

    let x = TorrentUpdate { seeder_delta: 3, leecher_delta: -2, times_completed_delta: 1, balance_delta: -40 };
    let y = TorrentUpdate { seeder_delta: -5, leecher_delta: 7, times_completed_delta: 0, balance_delta: 15 };
    let (mut xy, mut yx) = (x, y);
    xy.merge(&y);
    yx.merge(&x);
    assert_eq!(xy, yx);
    assert_eq!((xy.seeder_delta, xy.leecher_delta, xy.balance_delta), (-2, 5, -25));
}

#[test]
fn deletion_queue_keeps_each_peer_once() {
    let mut q = DeletionQueue::new();
    q.upsert(1, 2, PeerId([3; 20]));
    q.upsert(1, 2, PeerId([3; 20]));
    q.upsert(1, 2, PeerId([4; 20]));
    assert_eq!(q.len(), 2);
    let batch = q.take_batch();
    assert_eq!(batch.len(), 2);
    assert_eq!(batch[0].peer_id, PeerId([3; 20]));
    assert_eq!(q.len(), 0);
}

#[test]
fn announce_queue_batches_oldest_first() {
    let mut q = AnnounceQueue::new();
    for i in 0..3u32 {
        q.upsert(AnnounceUpdate {
            user_id: i,
            torrent_id: 1,
            uploaded: 0,
            downloaded: 0,
            left: 0,
            corrupt: None,
            peer_id: PeerId([0; 20]),
            port: 6881,
            numwant: 25,
            created_at: NOW,
            event: Event::Started,
            key: None,
        });
    }
    let batch = q.take_batch();
    assert_eq!(batch.0.len(), 3);
    assert_eq!(batch.0[0].user_id, 0);
    assert!(q.0.is_empty());
    q.upsert_batch(batch);
    assert_eq!(q.0.len(), 3);
}

#[test]
fn default_port_blacklist() {
    let ports = BlacklistedPortStore::new();
    assert!(ports.contains(0) && ports.contains(1023) && ports.contains(8080) && ports.contains(6699));
    assert!(!ports.contains(1024) && !ports.contains(51413) && !ports.contains(6881));
}

#[test]
fn agent_blacklist_matches_prefixes() {
    let mut agents = BlacklistedAgentStore::new();
    agents.upsert(Agent { peer_id_prefix: b"-BOW".to_vec() });
    assert!(agents.matches(b"-BOW1234-aaaaaaaaaaaa"));
    assert!(!agents.matches(b"-qB4650-aaaaaaaaaaaa"));
    agents.destroy(&Agent { peer_id_prefix: b"-BOW".to_vec() });
    assert!(!agents.matches(b"-BOW1234-aaaaaaaaaaaa"));
}

#[test]
fn torrents_from_the_site() {
    let mut torrents = TorrentStore::new();
    let mut hashes = InfoHash2IdStore::new();
    let t = APIInsertTorrent {
        id: 4,
        status: Status::Approved,
        info_hash: String::from("0123456789abcdef0123456789ABCDEF01234567"),
        is_deleted: false,
        seeders: 1,
        leechers: 2,
        times_completed: 3,
        download_factor: 50,
        upload_factor: 100,
    };
    assert!(upsert_torrent(&mut torrents, &mut hashes, t.clone()));
    let id = hashes.get(InfoHash::parse(b"0123456789ABCDEF0123456789ABCDEF01234567").unwrap());
    assert_eq!(id, Some(4));
    assert_eq!(torrents.get(4).unwrap().download_factor, 50);
    let mut bad = t;
    bad.info_hash = String::from("xyz");
    assert!(!upsert_torrent(&mut torrents, &mut hashes, bad));
    assert!(destroy_torrent(&mut torrents, APIRemoveTorrent { id: 4 }));
    assert!(torrents.get(4).unwrap().is_deleted);
}

#[test]
fn users_from_the_site() {
    let mut users = UserStore::new();
    let mut passkeys = Passkey2IdStore::new();
    let u = APIInsertUser {
        id: 8,
        group_id: 1,
        passkey: "a".repeat(32),
        new_passkey: None,
        can_download: true,
        num_seeding: 0,
        num_leeching: 0,
        is_donor: false,
        is_lifetime: false,
    };
    let (ok, _) = upsert_user(&mut users, &mut passkeys, u);
    assert!(ok);
    assert_eq!(passkeys.get(Passkey([b'a'; 32])), Some(8));
    assert_eq!(users.get(8).unwrap().group_id, 1);
    assert!(destroy_user(&mut users, &mut passkeys, APIRemoveUser { id: 8, passkey: "a".repeat(32) }));
    assert!(users.get(8).is_none());
    assert!(passkeys.get(Passkey([b'a'; 32])).is_none());
}

#[test]
fn groups_from_the_site() {
    let mut groups = GroupStore::new();
    groups.upsert(APIInsertGroup {
        id: 2,
        slug: String::from("power-user"),
        download_slots: Some(5),
        is_immune: true,
        is_freeleech: true,
        is_double_upload: true,
    });
    let g = groups.get(2).unwrap();
    assert_eq!((g.download_factor, g.upload_factor), (0, 200));
    groups.destroy(APIRemoveGroup { id: 2 });
    assert!(groups.get(2).is_none());
}

#[test]
fn rightmost_forwarded_entry() {
    assert_eq!(rightmost_entry(b"203.0.113.1, 198.51.100.7 "), b"198.51.100.7".to_vec());
    assert_eq!(rightmost_entry(b"  2001:db8::1\t"), b"2001:db8::1".to_vec());
    assert_eq!(rightmost_entry(b"1.2.3.4,"), Vec::<u8>::new());
}

#[test]
fn empty_proxy_header_means_no_proxy() {
    assert_eq!(proxy_header_name(None), None);
    assert_eq!(proxy_header_name(Some(String::new())), None);
    assert_eq!(proxy_header_name(Some("X-Real-IP".to_string())), Some("X-Real-IP".to_string()));
}

#[test]
fn loaded_peers_are_placed_in_their_torrents() {
    let mut torrents = TorrentStore::new();
    torrents.insert(3, torrent_with(&[], 0, 0));
    assert!(torrents.place_peer(3, (7, [1; 20]), peer(true, true, NOW)));
    assert!(!torrents.place_peer(9, (7, [2; 20]), peer(true, true, NOW)));
    assert_eq!(torrents.len(), 1);
    let t = torrents.get(3).unwrap();
    assert_eq!(t.peers.len(), 1);
    assert!(t.peers.get((7, [1; 20])).unwrap().is_seeder);
}

#[test]
fn scheduler_ticks() {
    let mut config = Config {
        flush_interval_milliseconds: 3000,
        numwant_default: 25,
        numwant_max: 50,
        announce_min: 1800,
        announce_max: 1800,
        announce_min_enforced: 1740,
        upload_factor: 100,
        download_factor: 100,
        peer_expiry_interval: 1800,
        active_peer_ttl: 7200,
        inactive_peer_ttl: 1814400,
        max_peers_per_torrent_per_user: 3,
        is_connectivity_check_enabled: false,
        connectivity_check_interval: 1800,
        require_peer_connectivity: false,
        is_announce_logging_enabled: false,
        donor_immunity_override: None,
        donor_upload_factor_override: None,
        donor_download_factor_override: None,
        lifetime_donor_immunity_override: None,
        lifetime_donor_upload_factor_override: None,
        lifetime_donor_download_factor_override: None,
    };
    assert_eq!(due_tasks(3000, &config), (true, false));
    assert_eq!(due_tasks(1_800_000, &config), (true, true));
    assert_eq!(due_tasks(1, &config), (false, false));
    config.flush_interval_milliseconds = 7;
    assert_eq!(due_tasks(1_800_002, &config), (false, false));
}

#[test]
fn stored_addresses() {
    assert_eq!(IpAddress::from_bytes(&[1, 2, 3, 4]), Ok(IpAddress::V4([1, 2, 3, 4])));
    assert_eq!(IpAddress::from_bytes(&[9; 16]), Ok(IpAddress::V6([9; 16])));
    assert_eq!(IpAddress::from_bytes(&[1, 2, 3]), Err(DecodeError::Ip));
    assert_eq!(IpAddress::V4([1, 2, 3, 4]).to_bytes(), vec![1, 2, 3, 4]);
    assert_eq!(InfoHash::try_from_vec(&vec![5; 20]), Ok(InfoHash([5; 20])));
    assert_eq!(InfoHash::try_from_vec(&vec![5; 19]), Err("Info Hash must be 20 bytes."));
}

fn history(delta: u64, updated_at: i64) -> HistoryUpdate {
    HistoryUpdate {
        user_agent: b"client".to_vec(),
        is_active: true,
        is_seeder: false,
        is_immune: false,
        uploaded: delta,
        downloaded: 0,
        uploaded_delta: delta,
        downloaded_delta: 0,
        credited_uploaded_delta: delta,
        credited_downloaded_delta: 0,
        completed_at: None,
        created_at: updated_at,
        updated_at,
    }
}

#[test]
fn user_queue_merges_per_user_and_keeps_order() {
    let mut q = user_update::Queue::new();
    q.upsert(user_update::Index { user_id: 7 }, UserUpdate { uploaded_delta: 1, downloaded_delta: 2 });
    q.upsert(user_update::Index { user_id: 3 }, UserUpdate { uploaded_delta: 5, downloaded_delta: 0 });
    q.upsert(user_update::Index { user_id: 7 }, UserUpdate { uploaded_delta: 10, downloaded_delta: 20 });
    assert_eq!(q.len(), 2);
    let batch = q.take_batch();
    assert_eq!(q.len(), 0);
    assert_eq!(batch.len(), 2);
    assert_eq!(batch[0].0, 7);
    assert_eq!((batch[0].1.uploaded_delta, batch[0].1.downloaded_delta), (11, 22));
    assert_eq!(batch[1].0, 3);
}

#[test]
fn torrent_queue_batch_is_bounded() {
    let mut q = torrent_update::Queue::new();
    let n = torrent_update::BATCH_LIMIT as u32 + 2;
    for torrent_id in 0..n {
        let change = TorrentUpdate { seeder_delta: 1, leecher_delta: 0, times_completed_delta: 0, balance_delta: 0 };
        q.upsert(torrent_update::Index { torrent_id }, change);
    }
    assert_eq!(torrent_update::BATCH_LIMIT, 4369);
    let batch = q.take_batch();
    assert_eq!(batch.len(), 4369);
    assert_eq!(batch[0].0, 0);
    assert_eq!(q.len(), 2);
    let rest = q.take_batch();
    assert_eq!(rest.iter().map(|r| r.0).collect::<Vec<_>>(), vec![n - 2, n - 1]);
}

#[test]
fn history_queue_refuses_overflowing_merge() {
    let mut q = history_update::Queue::new();
    let index = history_update::Index { torrent_id: 1, user_id: 2 };
    assert!(q.upsert(index, history(u64::MAX - 1, NOW)));
    assert!(q.upsert(index, history(1, NOW + SECOND)));
    assert!(!q.upsert(index, history(1, NOW + 2 * SECOND)));
    let batch = q.take_batch();
    assert_eq!(batch.len(), 1);
    assert_eq!(batch[0].0, (1, 2));
    assert_eq!(batch[0].1.uploaded_delta, u64::MAX);
    assert_eq!(batch[0].1.updated_at, NOW + SECOND);
    assert_eq!(batch[0].1.created_at, NOW);
}

#[test]
fn peer_queue_keeps_latest_write() {
    let mut q = peer_update::Queue::new();
    let index = peer_update::Index { user_id: 1, torrent_id: 2, peer_id: PeerId([9; 20]) };
    let write = |uploaded: u64, at: i64| PeerUpdate {
        ip: IpAddress::V4([10, 0, 0, 1]),
        port: 6881,
        agent: b"client".to_vec(),
        uploaded,
        downloaded: 0,
        is_active: true,
        is_seeder: false,
        is_visible: true,
        left: 10,
        created_at: at,
        updated_at: at,
        connectable: false,
    };
    q.upsert(index, write(5, NOW + SECOND));
    q.upsert(index, write(3, NOW));
    let batch = q.take_batch();
    assert_eq!(batch.len(), 1);
    assert_eq!(batch[0].0, (1, 2, [9; 20]));
    assert_eq!(batch[0].1.uploaded, 5);
    assert_eq!(batch[0].1.created_at, NOW);
}

#[test]
fn deactivation_and_unregistered_queues_collapse_repeats() {
    let mut d = peer_deactivation::Queue::new();
    let index = peer_update::Index { user_id: 1, torrent_id: 2, peer_id: PeerId([9; 20]) };
    d.upsert(index, PeerDeactivation);
    d.upsert(index, PeerDeactivation);
    assert_eq!(d.len(), 1);
    assert_eq!(d.take_batch()[0].0, (1, 2, [9; 20]));

    let mut u = unregistered_info_hash_update::Queue::new();
    let index = unregistered_info_hash_update::Index { user_id: 4, info_hash: InfoHash([1; 20]) };
    u.upsert(index, UnregisteredInfoHashUpdate { created_at: NOW, updated_at: NOW });
    u.upsert(index, UnregisteredInfoHashUpdate { created_at: NOW + SECOND, updated_at: NOW + SECOND });
    let batch = u.take_batch();
    assert_eq!(batch.len(), 1);
    assert_eq!(batch[0].1, UnregisteredInfoHashUpdate { created_at: NOW, updated_at: NOW + SECOND });
}

#[test]
fn forwarded_address_is_read_from_the_last_header_value() {
    assert_eq!(forwarded_address_text(&vec![]), None);
    let values = vec![b"10.0.0.1".to_vec(), b"203.0.113.1,\t198.51.100.7".to_vec()];
    assert_eq!(forwarded_address_text(&values), Some(b"198.51.100.7".to_vec()));
    assert_eq!(forwarded_address_text(&vec![vec![b'1', 0x80]]), None);
    assert_eq!(forwarded_address_text(&vec![b"a\x7f".to_vec()]), None);
}

#[test]
fn chosen_positions_pick_their_candidates() {
    let t = torrent_with(&[((1, [1; 20]), peer(true, true, NOW)), ((2, [2; 20]), peer(true, false, NOW))], 1, 1);
    let cands = vec![(1, [1; 20]), (2, [2; 20])];
    let (mut keys, mut peers) = (Vec::new(), Vec::new());
    append_chosen(&t.peers, &cands, &vec![1, 0], &mut keys, &mut peers);
    assert_eq!(keys, vec![(2, [2; 20]), (1, [1; 20])]);
    assert!(!peers[0].is_seeder && peers[1].is_seeder);
}

#[test]
fn message_is_the_shown_texts_joined() {
    let mut w = WarningCollection::new();
    w.add(AnnounceWarning::HitDownloadSlotLimit);
    w.add(AnnounceWarning::RateLimitExceeded);
    w.add(AnnounceWarning::StoppedPeerDoesntExist);
    let shown: Vec<&str> = vec![AnnounceWarning::HitDownloadSlotLimit.text(), AnnounceWarning::StoppedPeerDoesntExist.text()];
    assert_eq!(w.into_message().unwrap(), shown.join("; ").into_bytes());
    let mut silent = WarningCollection::new();
    silent.add(AnnounceWarning::RateLimitExceeded);
    assert!(silent.into_message().is_none());
}
