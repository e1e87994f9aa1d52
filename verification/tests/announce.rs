use unit3d_announce::announce::{Announce, Event, Query};
use unit3d_announce::config::Config;
use unit3d_announce::error::AnnounceError;
use unit3d_announce::group::{Group, GroupStore};
use unit3d_announce::handler::{announce_on_torrent, announce_on_torrent_at, queue_records, screen_announce, settle_announce, TorrentOutcome};
use unit3d_announce::scheduler::{announce_update, history_update, peer_update, torrent_update, user_update};
use unit3d_announce::lists::{
    Agent, BlacklistedAgentStore, BlacklistedPortStore, FeaturedTorrent, FeaturedTorrentStore, FreeleechToken,
    FreeleechTokenStore, PersonalFreeleech, PersonalFreeleechStore,
};
use unit3d_announce::peer::{IpAddress, Peer, PeerId};
use unit3d_announce::torrent::{DBImportTorrent, InfoHash, InfoHash2IdStore, Status, Torrent, TorrentStore};
use unit3d_announce::user::{Passkey, Passkey2IdStore, User, UserStore};

const PASSKEY: &[u8; 32] = b"0123456789abcdef0123456789abcdef";
const NOW: i64 = 1_700_000_000_000_000;

fn config() -> Config {
    Config {
        flush_interval_milliseconds: 3000,
        numwant_default: 25,
        numwant_max: 50,
        announce_min: 1800,
        announce_max: 1800,
        announce_min_enforced: 1740,
        upload_factor: 100,
        download_factor: 100,
        peer_expiry_interval: 1800,
        active_peer_ttl: 7200,
        inactive_peer_ttl: 1814400,
        max_peers_per_torrent_per_user: 3,
        is_connectivity_check_enabled: false,
        connectivity_check_interval: 1800,
        require_peer_connectivity: false,
        is_announce_logging_enabled: false,
        donor_immunity_override: None,
        donor_upload_factor_override: None,
        donor_download_factor_override: None,
        lifetime_donor_immunity_override: None,
        lifetime_donor_upload_factor_override: None,
        lifetime_donor_download_factor_override: None,
    }
}

fn user(id: u32, group_id: i32) -> User {
    User {
        id,
        group_id,
        passkey: Passkey(*PASSKEY),
        can_download: true,
        num_seeding: 0,
        num_leeching: 0,
        is_donor: false,
        is_lifetime: false,
    }
}

fn group(id: i32, slug: &str) -> Group {
    Group {
        id,
        slug: String::from(slug),
        download_slots: None,
        is_immune: false,
        download_factor: 100,
        upload_factor: 100,
    }
}

fn torrent(id: u32, status: Status) -> Torrent {
    Torrent::from_db(DBImportTorrent {
        id,
        status,
        seeders: 0,
        leechers: 0,
        times_completed: 0,
        download_factor: 100,
        upload_factor: 100,
        is_deleted: false,
    })
}

fn announce(peer_byte: u8, left: u64, event: Event, uploaded: u64, downloaded: u64) -> Announce {
    Announce {
        info_hash: InfoHash([7; 20]),
        peer_id: PeerId([peer_byte; 20]),
        port: 51413,
        uploaded,
        downloaded,
        left,
        event,
        numwant: 25,
        corrupt: None,
        key: None,
    }
}

fn groups() -> GroupStore {
    let mut g = GroupStore::new();
    g.insert(1, group(1, "user"));
    g.insert(2, group(2, "banned"));
    g
}

fn run(
    torrents: &mut TorrentStore,
    groups: &GroupStore,
    config: &Config,
    u: User,
    q: &Announce,
    ip: IpAddress,
    now: i64,
) -> Result<TorrentOutcome, AnnounceError> {
    announce_on_torrent(torrents, groups, config, 1, Ok(u.id), Ok(u), q, ip, true, now, true, true)
}

fn text(bytes: &[u8]) -> String {
    String::from_utf8_lossy(bytes).to_string()
}

#[test]
fn query_string_is_read() {
    let q = b"info_hash=%07%07%07%07%07%07%07%07%07%07%07%07%07%07%07%07%07%07%07%07&peer_id=-qB4650-aaaaaaaaaaaa&port=51413&uploaded=10&downloaded=20&left=30&compact=1&event=started&numwant=200";
    let Query(a) = Query::<Announce>::from_query_string(q, &config()).ok().unwrap();
    assert_eq!(a.info_hash.0, [7; 20]);
    assert_eq!(&a.peer_id.0, b"-qB4650-aaaaaaaaaaaa");
    assert_eq!(a.port, 51413);
    assert_eq!((a.uploaded, a.downloaded, a.left), (10, 20, 30));
    assert_eq!(a.event, Event::Started);
    // numwant is capped at the configured maximum
    assert_eq!(a.numwant, 50);
}

#[test]
fn query_string_defaults_and_stopped() {
    let base = "info_hash=33333333333333333333&peer_id=33333333333333333333&port=1&uploaded=0&downloaded=0&left=0";
    let Query(a) = Query::<Announce>::from_query_string(base.as_bytes(), &config()).ok().unwrap();
    assert_eq!(a.numwant, 25);
    assert_eq!(a.event, Event::Empty);
    let stopped = format!("{}&event=stopped&numwant=10", base);
    let Query(a) = Query::<Announce>::from_query_string(stopped.as_bytes(), &config()).ok().unwrap();
    assert_eq!(a.event, Event::Stopped);
    assert_eq!(a.numwant, 0);
}

#[test]
fn query_string_errors() {
    let c = config();
    let missing = b"peer_id=33333333333333333333&port=1&uploaded=0&downloaded=0&left=0";
    assert!(matches!(Query::<Announce>::from_query_string(missing, &c), Err(AnnounceError::MissingInfoHash)));
    let bad_port = b"info_hash=33333333333333333333&port=x";
    assert!(matches!(Query::<Announce>::from_query_string(bad_port, &c), Err(AnnounceError::InvalidPort)));
    let bad_compact = b"compact=0";
    assert!(matches!(Query::<Announce>::from_query_string(bad_compact, &c), Err(AnnounceError::InvalidCompact)));
    let bad_event = b"event=jumped";
    assert!(matches!(Query::<Announce>::from_query_string(bad_event, &c), Err(AnnounceError::UnsupportedEvent)));
    let bad_hash = b"info_hash=%00";
    assert!(matches!(Query::<Announce>::from_query_string(bad_hash, &c), Err(AnnounceError::InvalidInfoHash)));
    let no_left = b"info_hash=33333333333333333333&peer_id=33333333333333333333&port=1&uploaded=0&downloaded=0";
    assert!(matches!(Query::<Announce>::from_query_string(no_left, &c), Err(AnnounceError::MissingLeft)));
}

fn screening_stores() -> (BlacklistedAgentStore, BlacklistedPortStore, Passkey2IdStore, UserStore, InfoHash2IdStore) {
    let mut agents = BlacklistedAgentStore::new();
    agents.upsert(Agent { peer_id_prefix: b"-XX".to_vec() });
    let ports = BlacklistedPortStore::new();
    let mut passkeys = Passkey2IdStore::new();
    passkeys.insert(Passkey(*PASSKEY), 5);
    let mut users = UserStore::new();
    users.insert(5, user(5, 1));
    let mut hashes = InfoHash2IdStore::new();
    hashes.insert(InfoHash([7; 20]), 1);
    (agents, ports, passkeys, users, hashes)
}

#[test]
fn screening_accepts_a_client() {
    let (agents, ports, passkeys, users, hashes) = screening_stores();
    let q = announce(1, 0, Event::Started, 0, 0);
    let out = screen_announce(&agents, &ports, &passkeys, &users, &hashes, &vec![b"user-agent".to_vec()], &Some(b"qBittorrent/4.6.5".to_vec()), PASSKEY, &q, NOW);
    let s = out.result.ok().unwrap();
    assert_eq!(s.torrent_id, 1);
    assert_eq!(s.user_id.ok(), Some(5));
    assert_eq!(s.user.ok().map(|u| u.id), Some(5));
    assert!(out.unregistered.is_none());
}

#[test]
fn screening_refusals() {
    let (agents, ports, passkeys, users, hashes) = screening_stores();
    let ua = Some(b"Transmission/4.0".to_vec());
    let q = announce(1, 0, Event::Started, 0, 0);
    let headers = vec![b"accept-language".to_vec()];
    let r = screen_announce(&agents, &ports, &passkeys, &users, &hashes, &headers, &ua, PASSKEY, &q, NOW);
    assert!(matches!(r.result, Err(AnnounceError::AbnormalAccess)));
    let r = screen_announce(&agents, &ports, &passkeys, &users, &hashes, &vec![], &None, PASSKEY, &q, NOW);
    assert!(matches!(r.result, Err(AnnounceError::InvalidUserAgent)));
    let long = Some(vec![b'a'; 65]);
    let r = screen_announce(&agents, &ports, &passkeys, &users, &hashes, &vec![], &long, PASSKEY, &q, NOW);
    assert!(matches!(r.result, Err(AnnounceError::UserAgentTooLong)));
    let mut blacklisted = announce(1, 0, Event::Started, 0, 0);
    blacklisted.peer_id = PeerId(*b"-XX1234-aaaaaaaaaaaa");
    let r = screen_announce(&agents, &ports, &passkeys, &users, &hashes, &vec![], &ua, PASSKEY, &blacklisted, NOW);
    assert!(matches!(r.result, Err(AnnounceError::BlacklistedClient)));
    let browser = Some(b"Mozilla/5.0 (X11; Linux x86_64)".to_vec());
    let r = screen_announce(&agents, &ports, &passkeys, &users, &hashes, &vec![], &browser, PASSKEY, &q, NOW);
    assert!(matches!(r.result, Err(AnnounceError::NotAClient)));
    let mut low_port = announce(1, 0, Event::Started, 0, 0);
    low_port.port = 80;
    let r = screen_announce(&agents, &ports, &passkeys, &users, &hashes, &vec![], &ua, PASSKEY, &low_port, NOW);
    assert!(matches!(r.result, Err(AnnounceError::BlacklistedPort(80))));
    // Some clients send port 0 on the stopped event
    low_port.event = Event::Stopped;
    low_port.port = 0;
    let r = screen_announce(&agents, &ports, &passkeys, &users, &hashes, &vec![], &ua, PASSKEY, &low_port, NOW);
    assert!(r.result.is_ok());
    let r = screen_announce(&agents, &ports, &passkeys, &users, &hashes, &vec![], &ua, b"short", &q, NOW);
    assert!(matches!(r.result, Err(AnnounceError::InvalidPasskey)));
}

#[test]
fn screening_unknown_passkey_and_info_hash() {
    let (agents, ports, passkeys, users, hashes) = screening_stores();
    let ua = Some(b"Transmission/4.0".to_vec());
    let other = b"ffffffffffffffffffffffffffffffff";
    let q = announce(1, 0, Event::Started, 0, 0);
    let r = screen_announce(&agents, &ports, &passkeys, &users, &hashes, &vec![], &ua, other, &q, NOW);
    let s = r.result.ok().unwrap();
    assert!(matches!(s.user_id, Err(AnnounceError::PasskeyNotFound)));
    assert!(matches!(s.user, Err(AnnounceError::UserNotFound)));
    let mut unknown = announce(1, 0, Event::Started, 0, 0);
    unknown.info_hash = InfoHash([9; 20]);
    let r = screen_announce(&agents, &ports, &passkeys, &users, &hashes, &vec![], &ua, PASSKEY, &unknown, NOW);
    assert!(matches!(r.result, Err(AnnounceError::InfoHashNotFound)));
    let (index, record) = r.unregistered.unwrap();
    assert_eq!(index.user_id, 5);
    assert_eq!(index.info_hash.0, [9; 20]);
    assert_eq!((record.created_at, record.updated_at), (NOW, NOW));
    let r = screen_announce(&agents, &ports, &passkeys, &users, &hashes, &vec![], &ua, other, &unknown, NOW);
    assert!(matches!(r.result, Err(AnnounceError::InfoHashNotFound)));
    assert!(r.unregistered.is_none());
}

#[test]
fn first_announce_of_a_leech() {
    let mut torrents = TorrentStore::new();
    torrents.insert(1, torrent(1, Status::Approved));
    let q = announce(1, 100, Event::Started, 0, 0);
    let out = run(&mut torrents, &groups(), &config(), user(5, 1), &q, IpAddress::V4([10, 0, 0, 1]), NOW).ok().unwrap();
    assert_eq!(out.deltas.leecher_delta, 1);
    assert_eq!(out.deltas.seeder_delta, 0);
    assert!(out.deltas.is_visible);
    assert!(!out.should_early_return);
    let t = torrents.get(1).unwrap();
    assert_eq!((t.seeders, t.leechers), (0, 1));
    let stored = t.peers.get((5, [1; 20])).unwrap();
    assert!(stored.is_active && !stored.is_seeder);
    assert_eq!(stored.port, 51413);
    // A lone leech is answered with an empty peer list.
    assert_eq!(
        text(&out.response),
        "d8:completei0e10:downloadedi0e10:incompletei1e8:intervali1800e12:min intervali1800e5:peers0:e"
    );
}

#[test]
fn leech_is_handed_the_seed() {
    let mut torrents = TorrentStore::new();
    torrents.insert(1, torrent(1, Status::Approved));
    let c = config();
    let seed = announce(1, 0, Event::Started, 0, 0);
    run(&mut torrents, &groups(), &c, user(5, 1), &seed, IpAddress::V4([10, 0, 0, 1]), NOW).ok().unwrap();
    let leech = announce(2, 100, Event::Started, 0, 0);
    let out = run(&mut torrents, &groups(), &c, user(6, 1), &leech, IpAddress::V4([10, 0, 0, 2]), NOW).ok().unwrap();
    assert!(out.has_requested_seed_list);
    assert_eq!(
        out.response,
        [
            b"d8:completei1e10:downloadedi0e10:incompletei1e8:intervali1800e12:min intervali1800e5:peers6:".to_vec(),
            vec![10, 0, 0, 1, 0xC8, 0xD5],
            b"e".to_vec()
        ]
        .concat()
    );
}

#[test]
fn own_peers_are_not_handed_out() {
    let mut torrents = TorrentStore::new();
    torrents.insert(1, torrent(1, Status::Approved));
    let c = config();
    let seed = announce(1, 0, Event::Started, 0, 0);
    run(&mut torrents, &groups(), &c, user(5, 1), &seed, IpAddress::V4([10, 0, 0, 1]), NOW).ok().unwrap();
    let leech = announce(2, 100, Event::Started, 0, 0);
    let out = run(&mut torrents, &groups(), &c, user(5, 1), &leech, IpAddress::V4([10, 0, 0, 2]), NOW).ok().unwrap();
    assert!(text(&out.response).contains("5:peers0:"));
}

#[test]
fn ipv6_peers_are_listed_apart() {
    let mut torrents = TorrentStore::new();
    torrents.insert(1, torrent(1, Status::Approved));
    let c = config();
    let seed = announce(1, 0, Event::Started, 0, 0);
    run(&mut torrents, &groups(), &c, user(5, 1), &seed, IpAddress::V6([1; 16]), NOW).ok().unwrap();
    let leech = announce(2, 100, Event::Started, 0, 0);
    let out = run(&mut torrents, &groups(), &c, user(6, 1), &leech, IpAddress::V4([10, 0, 0, 2]), NOW).ok().unwrap();
    let mut expected = b"d8:completei1e10:downloadedi0e10:incompletei1e8:intervali1800e12:min intervali1800e5:peers0:6:peers618:".to_vec();
    expected.extend_from_slice(&[1; 16]);
    expected.extend_from_slice(&[0xC8, 0xD5]);
    expected.push(b'e');
    assert_eq!(out.response, expected);
}

#[test]
fn completing_counts_a_download() {
    let mut torrents = TorrentStore::new();
    torrents.insert(1, torrent(1, Status::Approved));
    let c = config();
    let leech = announce(1, 100, Event::Started, 0, 0);
    run(&mut torrents, &groups(), &c, user(5, 1), &leech, IpAddress::V4([10, 0, 0, 1]), NOW).ok().unwrap();
    let done = announce(1, 0, Event::Completed, 500, 100);
    let later = NOW + 1800 * 1_000_000;
    let out = run(&mut torrents, &groups(), &c, user(5, 1), &done, IpAddress::V4([10, 0, 0, 1]), later).ok().unwrap();
    assert_eq!(out.deltas.times_completed_delta, 1);
    assert_eq!((out.deltas.seeder_delta, out.deltas.leecher_delta), (1, -1));
    assert_eq!((out.deltas.uploaded_delta, out.deltas.downloaded_delta), (500, 100));
    let t = torrents.get(1).unwrap();
    assert_eq!((t.seeders, t.leechers, t.times_completed), (1, 0, 1));
}

#[test]
fn announcing_too_soon_is_silently_limited() {
    let mut torrents = TorrentStore::new();
    torrents.insert(1, torrent(1, Status::Approved));
    let c = config();
    let leech = announce(1, 100, Event::Started, 0, 0);
    run(&mut torrents, &groups(), &c, user(5, 1), &leech, IpAddress::V4([10, 0, 0, 1]), NOW).ok().unwrap();
    let again = announce(1, 100, Event::Empty, 0, 0);
    let out = run(&mut torrents, &groups(), &c, user(5, 1), &again, IpAddress::V4([10, 0, 0, 1]), NOW + 1).ok().unwrap();
    // The warning is silent: counts are answered as zero, with no message.
    assert_eq!(
        text(&out.response),
        "d8:completei0e10:downloadedi0e10:incompletei0e8:intervali1800e12:min intervali1800e5:peers0:e"
    );
}

#[test]
fn restarted_session_counts_nothing() {
    let mut torrents = TorrentStore::new();
    torrents.insert(1, torrent(1, Status::Approved));
    let c = config();
    let first = announce(1, 100, Event::Started, 1000, 1000);
    run(&mut torrents, &groups(), &c, user(5, 1), &first, IpAddress::V4([10, 0, 0, 1]), NOW).ok().unwrap();
    let restarted = announce(1, 100, Event::Empty, 10, 2000);
    let later = NOW + 3600 * 1_000_000;
    let out = run(&mut torrents, &groups(), &c, user(5, 1), &restarted, IpAddress::V4([10, 0, 0, 1]), later).ok().unwrap();
    assert_eq!((out.deltas.uploaded_delta, out.deltas.downloaded_delta), (0, 0));
}

#[test]
fn stopping_an_unknown_peer_warns_and_returns_early() {
    let mut torrents = TorrentStore::new();
    torrents.insert(1, torrent(1, Status::Approved));
    let q = announce(1, 100, Event::Stopped, 0, 0);
    let out = run(&mut torrents, &groups(), &config(), user(5, 1), &q, IpAddress::V4([10, 0, 0, 1]), NOW).ok().unwrap();
    assert!(out.should_early_return);
    assert_eq!(
        text(&out.response),
        "d8:completei0e10:downloadedi0e10:incompletei0e8:intervali1800e12:min intervali1800e5:peers0:15:warning message27:Stopped peer doesn't exist.e"
    );
}

#[test]
fn stopping_removes_the_peer() {
    let mut torrents = TorrentStore::new();
    torrents.insert(1, torrent(1, Status::Approved));
    let c = config();
    let start = announce(1, 100, Event::Started, 100, 0);
    run(&mut torrents, &groups(), &c, user(5, 1), &start, IpAddress::V4([10, 0, 0, 1]), NOW).ok().unwrap();
    let stop = announce(1, 100, Event::Stopped, 250, 40);
    let out = run(&mut torrents, &groups(), &c, user(5, 1), &stop, IpAddress::V4([10, 0, 0, 1]), NOW + 5).ok().unwrap();
    assert_eq!(out.deltas.leecher_delta, -1);
    assert_eq!((out.deltas.uploaded_delta, out.deltas.downloaded_delta), (150, 40));
    assert!(!out.deltas.is_visible);
    let t = torrents.get(1).unwrap();
    assert!(t.peers.get((5, [1; 20])).is_none());
    assert_eq!(t.leechers, 0);
}

#[test]
fn per_user_peer_limit() {
    let mut torrents = TorrentStore::new();
    torrents.insert(1, torrent(1, Status::Approved));
    let c = config();
    for b in 1..=3u8 {
        let q = announce(b, 0, Event::Started, 0, 0);
        run(&mut torrents, &groups(), &c, user(5, 1), &q, IpAddress::V4([10, 0, 0, b]), NOW).ok().unwrap();
    }
    let keys_before = torrents.get(1).unwrap().peers.keys();
    let fourth = announce(4, 0, Event::Started, 0, 0);
    let r = run(&mut torrents, &groups(), &c, user(5, 1), &fourth, IpAddress::V4([10, 0, 0, 4]), NOW);
    assert!(matches!(r, Err(AnnounceError::PeersPerTorrentPerUserLimit(3))));
    let t = torrents.get(1).unwrap();
    assert!(t.peers.get((5, [4; 20])).is_none());
    assert_eq!(t.seeders, 3);
    assert_eq!(t.peers.len(), 3);
    assert_eq!(t.peers.keys(), keys_before);
}

#[test]
fn event_names_read_back() {
    for e in [Event::Completed, Event::Empty, Event::Started, Event::Stopped] {
        assert_eq!(Event::parse(e.as_str().as_bytes()).unwrap(), e);
    }
}

#[test]
fn torrent_and_group_refusals() {
    let c = config();
    let q = announce(1, 100, Event::Started, 0, 0);
    let ip = IpAddress::V4([10, 0, 0, 1]);
    let mut torrents = TorrentStore::new();
    assert!(matches!(run(&mut torrents, &groups(), &c, user(5, 1), &q, ip, NOW), Err(AnnounceError::TorrentNotFound)));
    torrents.insert(1, torrent(1, Status::Pending));
    assert!(matches!(run(&mut torrents, &groups(), &c, user(5, 1), &q, ip, NOW), Err(AnnounceError::TorrentIsPendingModeration)));
    torrents.insert(1, torrent(1, Status::Rejected));
    assert!(matches!(run(&mut torrents, &groups(), &c, user(5, 1), &q, ip, NOW), Err(AnnounceError::TorrentIsRejected)));
    torrents.insert(1, torrent(1, Status::Postponed));
    assert!(matches!(run(&mut torrents, &groups(), &c, user(5, 1), &q, ip, NOW), Err(AnnounceError::TorrentIsPostponed)));
    torrents.insert(1, torrent(1, Status::Unknown));
    assert!(matches!(
        run(&mut torrents, &groups(), &c, user(5, 1), &q, ip, NOW),
        Err(AnnounceError::TorrentUnknownModerationStatus)
    ));
    let mut deleted = torrent(1, Status::Approved);
    deleted.is_deleted = true;
    torrents.insert(1, deleted);
    assert!(matches!(run(&mut torrents, &groups(), &c, user(5, 1), &q, ip, NOW), Err(AnnounceError::TorrentIsDeleted)));
    torrents.insert(1, torrent(1, Status::Approved));
    match run(&mut torrents, &groups(), &c, user(5, 2), &q, ip, NOW) {
        Err(AnnounceError::GroupNotEnabled(slug)) => assert_eq!(slug, "banned"),
        _ => panic!("expected GroupNotEnabled"),
    }
    assert!(matches!(run(&mut torrents, &groups(), &c, user(5, 9), &q, ip, NOW), Err(AnnounceError::GroupNotFound)));
    let mut no_download = user(5, 1);
    no_download.can_download = false;
    assert!(matches!(run(&mut torrents, &groups(), &c, no_download, &q, ip, NOW), Err(AnnounceError::DownloadPrivilegesRevoked)));
    let r = announce_on_torrent(
        &mut torrents, &groups(), &c, 1, Err(AnnounceError::PasskeyNotFound), Err(AnnounceError::UserNotFound), &q, ip, true, NOW, true, true,
    );
    assert!(matches!(r, Err(AnnounceError::PasskeyNotFound)));
    assert_eq!(torrents.get(1).unwrap().peers.len(), 0);
}

#[test]
fn download_slot_limit_hides_the_peer() {
    let mut torrents = TorrentStore::new();
    torrents.insert(1, torrent(1, Status::Approved));
    let mut gs = GroupStore::new();
    let mut g = group(1, "user");
    g.download_slots = Some(1);
    gs.insert(1, g);
    let mut u = user(5, 1);
    u.num_leeching = 1;
    let q = announce(1, 100, Event::Started, 0, 0);
    let out = run(&mut torrents, &gs, &config(), u, &q, IpAddress::V4([10, 0, 0, 1]), NOW).ok().unwrap();
    assert!(!out.deltas.is_visible);
    assert_eq!(out.deltas.leecher_delta, 0);
    assert!(text(&out.response).ends_with("15:warning message27:Download slot limit reachede"));
}

#[test]
fn unconnectable_peer_is_warned_when_connectivity_is_required() {
    let mut torrents = TorrentStore::new();
    torrents.insert(1, torrent(1, Status::Approved));
    let mut c = config();
    c.require_peer_connectivity = true;
    let q = announce(1, 0, Event::Started, 0, 0);
    let u = user(5, 1);
    let out = announce_on_torrent(&mut torrents, &groups(), &c, 1, Ok(5), Ok(u), &q, IpAddress::V4([10, 0, 0, 1]), false, NOW, true, true)
        .ok()
        .unwrap();
    assert!(text(&out.response)
        .ends_with("15:warning message63:Connectivity issue detected. Enable port-forwarding to resolve.e"));
    // Not connectable: not counted as a seed when connectivity is required.
    assert_eq!(out.deltas.seeder_delta, 0);
}

#[test]
fn seed_list_over_rate_limit_is_not_handed_out() {
    let mut torrents = TorrentStore::new();
    torrents.insert(1, torrent(1, Status::Approved));
    let c = config();
    let seed = announce(1, 0, Event::Started, 0, 0);
    run(&mut torrents, &groups(), &c, user(5, 1), &seed, IpAddress::V4([10, 0, 0, 1]), NOW).ok().unwrap();
    let leech = announce(2, 100, Event::Started, 0, 0);
    let out = announce_on_torrent(&mut torrents, &groups(), &c, 1, Ok(6), Ok(user(6, 1)), &leech, IpAddress::V4([10, 0, 0, 2]), true, NOW, false, true)
        .ok()
        .unwrap();
    assert!(out.has_requested_seed_list);
    assert!(text(&out.response).starts_with("d8:completei0e"));
    assert!(text(&out.response).contains("5:peers0:"));
}

#[test]
fn factors_and_records_of_an_announce() {
    let mut torrents = TorrentStore::new();
    torrents.insert(1, torrent(1, Status::Approved));
    let mut c = config();
    c.is_announce_logging_enabled = true;
    c.donor_upload_factor_override = Some(150);
    let mut u = user(5, 1);
    u.is_donor = true;
    let start = announce(1, 100, Event::Started, 0, 0);
    run(&mut torrents, &groups(), &c, u, &start, IpAddress::V4([10, 0, 0, 1]), NOW).ok().unwrap();
    let later = NOW + 3600 * 1_000_000;
    let next = announce(1, 100, Event::Empty, 1000, 400);
    let out = run(&mut torrents, &groups(), &c, u, &next, IpAddress::V4([10, 0, 0, 1]), later).ok().unwrap();
    assert_eq!(out.upload_factor, 150);
    assert_eq!(out.download_factor, 100);
    let mut users = UserStore::new();
    users.insert(5, u);
    let records = settle_announce(
        &mut users,
        &PersonalFreeleechStore::new(),
        &FreeleechTokenStore::new(),
        &FeaturedTorrentStore::new(),
        &c,
        1,
        &next,
        b"qBittorrent/4.6.5",
        IpAddress::V4([10, 0, 0, 1]),
        true,
        later,
        &out,
    );
    assert_eq!(records.history.1.credited_uploaded_delta, 1500);
    assert_eq!(records.history.1.credited_downloaded_delta, 400);
    let (index, update) = records.user.unwrap();
    assert_eq!(index.user_id, 5);
    assert_eq!((update.uploaded_delta, update.downloaded_delta), (1500, 400));
    let (_, t) = records.torrent.unwrap();
    assert_eq!(t.balance_delta, 600);
    assert_eq!(records.peer.1.agent, b"qBittorrent/4.6.5".to_vec());
    assert!(records.peer.1.is_active);
    assert_eq!(records.announce.unwrap().numwant, 25);
}

#[test]
fn freeleech_and_featured_torrents() {
    let mut torrents = TorrentStore::new();
    torrents.insert(1, torrent(1, Status::Approved));
    let c = config();
    let u = user(5, 1);
    let start = announce(1, 100, Event::Started, 0, 0);
    run(&mut torrents, &groups(), &c, u, &start, IpAddress::V4([10, 0, 0, 1]), NOW).ok().unwrap();
    let later = NOW + 3600 * 1_000_000;
    let next = announce(1, 100, Event::Empty, 1000, 400);
    let out = run(&mut torrents, &groups(), &c, u, &next, IpAddress::V4([10, 0, 0, 1]), later).ok().unwrap();
    let mut users = UserStore::new();
    users.insert(5, u);
    let mut tokens = FreeleechTokenStore::new();
    tokens.upsert(FreeleechToken { user_id: 5, torrent_id: 1 });
    let records = settle_announce(
        &mut users, &PersonalFreeleechStore::new(), &tokens, &FeaturedTorrentStore::new(), &c, 1, &next, b"ua",
        IpAddress::V4([10, 0, 0, 1]), true, later, &out,
    );
    assert_eq!(records.history.1.credited_downloaded_delta, 0);
    assert_eq!(records.history.1.credited_uploaded_delta, 1000);
    let mut personal = PersonalFreeleechStore::new();
    personal.upsert(PersonalFreeleech { user_id: 5 });
    let mut featured = FeaturedTorrentStore::new();
    featured.upsert(FeaturedTorrent { torrent_id: 1 });
    let records = settle_announce(
        &mut users, &personal, &FreeleechTokenStore::new(), &featured, &c, 1, &next, b"ua", IpAddress::V4([10, 0, 0, 1]),
        true, later, &out,
    );
    assert_eq!(records.history.1.credited_uploaded_delta, 2000);
    assert_eq!(records.history.1.credited_downloaded_delta, 0);
    assert!(records.announce.is_none());
}

#[test]
fn settling_moves_the_user_counts() {
    let mut torrents = TorrentStore::new();
    torrents.insert(1, torrent(1, Status::Approved));
    let c = config();
    let u = user(5, 1);
    let start = announce(1, 0, Event::Started, 0, 0);
    let out = run(&mut torrents, &groups(), &c, u, &start, IpAddress::V4([10, 0, 0, 1]), NOW).ok().unwrap();
    let mut users = UserStore::new();
    users.insert(5, u);
    let records = settle_announce(
        &mut users, &PersonalFreeleechStore::new(), &FreeleechTokenStore::new(), &FeaturedTorrentStore::new(), &c, 1,
        &start, b"ua", IpAddress::V4([10, 0, 0, 1]), true, NOW, &out,
    );
    assert_eq!(users.get(5).unwrap().num_seeding, 1);
    assert!(records.user.is_none());
    let (_, t) = records.torrent.unwrap();
    assert_eq!(t.seeder_delta, 1);
}

#[test]
fn records_are_queued_for_the_database() {
    let mut torrents = TorrentStore::new();
    torrents.insert(1, torrent(1, Status::Approved));
    let c = config();
    let u = user(5, 1);
    let start = announce(1, 0, Event::Started, 0, 0);
    let out = run(&mut torrents, &groups(), &c, u, &start, IpAddress::V4([10, 0, 0, 1]), NOW).ok().unwrap();
    let mut users = UserStore::new();
    users.insert(5, u);
    let settle = |users: &mut UserStore| {
        settle_announce(
            users, &PersonalFreeleechStore::new(), &FreeleechTokenStore::new(), &FeaturedTorrentStore::new(), &c, 1,
            &start, b"ua", IpAddress::V4([10, 0, 0, 1]), true, NOW, &out,
        )
    };
    let (mut peers, mut histories, mut user_changes, mut torrent_changes, mut announces) = (
        peer_update::Queue::new(),
        history_update::Queue::new(),
        user_update::Queue::new(),
        torrent_update::Queue::new(),
        announce_update::Queue::new(),
    );
    let records = settle(&mut users);
    assert_eq!(records.tick_seed_list_rates, out.has_requested_seed_list);
    assert_eq!(records.tick_leech_list_rates, out.has_requested_leech_list);
    let unknown = settle(&mut UserStore::new());
    assert!(!unknown.tick_seed_list_rates && !unknown.tick_leech_list_rates);
    let logged = records.announce.is_some();
    assert!(queue_records(records, &mut peers, &mut histories, &mut user_changes, &mut torrent_changes, &mut announces));
    assert_eq!((peers.len(), histories.len(), user_changes.len(), torrent_changes.len()), (1, 1, 0, 1));
    assert_eq!(announces.0.len(), if logged { 1 } else { 0 });
    // The same announce again merges into the queued records.
    let records = settle(&mut users);
    assert!(queue_records(records, &mut peers, &mut histories, &mut user_changes, &mut torrent_changes, &mut announces));
    assert_eq!((peers.len(), histories.len(), torrent_changes.len()), (1, 1, 1));
    assert_eq!(torrent_changes.take_batch()[0].1.seeder_delta, 2);
}

fn interval_of(response: &[u8]) -> u32 {
    let s = text(response);
    let start = s.find("8:intervali").unwrap() + "8:intervali".len();
    let end = start + s[start..].find('e').unwrap();
    s[start..end].parse().unwrap()
}

#[test]
fn interval_is_drawn_between_min_and_max() {
    let mut torrents = TorrentStore::new();
    torrents.insert(1, torrent(1, Status::Approved));
    let mut c = config();
    c.announce_min = 1800;
    c.announce_max = 2000;
    let mut seen_other = false;
    for i in 0..50u32 {
        let q = announce(1, 100, Event::Empty, 0, 0);
        let now = NOW + (i as i64) * 2000 * 1_000_000;
        let out = run(&mut torrents, &groups(), &c, user(5, 1), &q, IpAddress::V4([10, 0, 0, 1]), now).ok().unwrap();
        let interval = interval_of(&out.response);
        assert!((1800..=2000).contains(&interval));
        assert!(text(&out.response).contains("12:min intervali1800e"));
        if interval != 1800 {
            seen_other = true;
        }
    }
    assert!(seen_other);
}

#[test]
fn answer_carries_the_drawn_interval() {
    let mut torrents = TorrentStore::new();
    torrents.insert(1, torrent(1, Status::Approved));
    let mut c = config();
    c.announce_min = 1800;
    c.announce_max = 2000;
    let q = announce(1, 100, Event::Started, 0, 0);
    let u = user(5, 1);
    let out = announce_on_torrent_at(
        &mut torrents, &groups(), &c, 1, Ok(u.id), Ok(u), &q, IpAddress::V4([10, 0, 0, 1]), true, NOW, true, true, 1937,
    )
    .ok()
    .unwrap();
    assert_eq!(interval_of(&out.response), 1937);
}
