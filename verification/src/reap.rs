//! Expiry of peers that stopped announcing: inactive peers are forgotten
//! after a while, active ones are deactivated when they miss their announces.
use vstd::prelude::*;

use crate::collections::PeerKey;
use crate::config::Config;
use crate::number::{clamp_u32, saturating_add_signed_u32};
use crate::peer::{Peer, PeerStore};
use crate::collections::{PeerUpdateKey, TorrentUpdateRecord};
use crate::peer::PeerId;
use crate::scheduler::peer_deactivation::{self, lemma_queued_deactivations_concat, queued_deactivations, PeerDeactivation};
use crate::scheduler::peer_update;
use crate::scheduler::torrent_update::{self, lemma_queued_updates_concat, queued_updates, TorrentUpdate};
use crate::torrent::{Torrent, TorrentStore};
use crate::user::{User, UserStore};

verus! {

/// An inactive peer is kept until it has not announced for the inactive
/// time to live; an active one is always kept.
pub open spec fn is_kept(p: Peer, inactive_cutoff: i64) -> bool {
    inactive_cutoff <= p.updated_at || p.is_active
}

/// An active peer that has not announced since the cutoff is deactivated.
pub open spec fn is_expired(p: Peer, active_cutoff: i64) -> bool {
    p.updated_at < active_cutoff && p.is_active
}

/// The peer after expiry.
pub open spec fn reaped_peer(p: Peer, active_cutoff: i64) -> Peer {
    if is_expired(p, active_cutoff) {
        Peer { is_active: false, ..p }
    } else {
        p
    }
}

/// The peers of a torrent after expiry.
pub open spec fn reaped_peers(peers: Map<PeerKey, Peer>, active_cutoff: i64, inactive_cutoff: i64) -> Map<PeerKey, Peer> {
    Map::new(
        |k: PeerKey| peers.dom().contains(k) && is_kept(peers[k], inactive_cutoff),
        |k: PeerKey| reaped_peer(peers[k], active_cutoff),
    )
}

/// Keys of the peers that expiry deactivates.
pub open spec fn expired_keys(peers: Map<PeerKey, Peer>, active_cutoff: i64, inactive_cutoff: i64) -> Set<PeerKey> {
    peers.dom().filter(|k: PeerKey| is_kept(peers[k], inactive_cutoff) && is_expired(peers[k], active_cutoff))
}

/// Whether the peer under a key is handed out in peer lists.
pub open spec fn listed_in(peers: Map<PeerKey, Peer>, require_peer_connectivity: bool) -> spec_fn(PeerKey) -> bool {
    |k: PeerKey| peers[k].spec_in_peer_list(require_peer_connectivity)
}

/// The user slot a peer holds: its user, and whether it seeds.
pub open spec fn slot_of(peers: Map<PeerKey, Peer>) -> spec_fn(PeerKey) -> (u32, bool) {
    |k: PeerKey| (k.0, peers[k].is_seeder)
}

/// How many of the released slots were seeding.
pub open spec fn count_seeding(s: Seq<(u32, bool)>) -> nat
    decreases s.len(),
{
    if s.len() == 0 {
        0
    } else {
        count_seeding(s.drop_last()) + if s.last().1 { 1nat } else { 0nat }
    }
}

/// How many of the released slots were leeching.
pub open spec fn count_leeching(s: Seq<(u32, bool)>) -> nat
    decreases s.len(),
{
    if s.len() == 0 {
        0
    } else {
        count_leeching(s.drop_last()) + if s.last().1 { 0nat } else { 1nat }
    }
}

/// The cutoffs of an expiry at `now` (microseconds): peers that have not
/// announced since `now` less the active time to live are deactivated, and
/// inactive ones older than `now` less the inactive time to live forgotten.
pub open spec fn spec_cutoffs(config: Config, now: i64) -> (i64, i64) {
    (
        (now - config.active_peer_ttl * 1_000_000) as i64,
        (now - config.inactive_peer_ttl * 1_000_000) as i64,
    )
}

/// The expiry cutoffs at `now`. Each time to live must be a duration of at
/// most `i64::MAX / 1000` seconds that `now` can step back by.
pub fn cutoffs(config: &Config, now: i64) -> (r: (i64, i64))
    requires
        config.active_peer_ttl <= i64::MAX / 1000,
        config.inactive_peer_ttl <= i64::MAX / 1000,
        now - config.active_peer_ttl * 1_000_000 >= i64::MIN,
        now - config.inactive_peer_ttl * 1_000_000 >= i64::MIN,
    ensures
        r == spec_cutoffs(*config, now),
{
    let active: i128 = now as i128 - config.active_peer_ttl as i128 * 1_000_000;
    let inactive: i128 = now as i128 - config.inactive_peer_ttl as i128 * 1_000_000;
    (active as i64, inactive as i64)
}

/// What expiring one torrent's peers yields.
pub struct ReapOutcome {
    /// Keys of the peers deactivated, each once.
    pub deactivated: Vec<PeerKey>,
    /// For each deactivated peer that was handed out in peer lists, its user
    /// and whether it was seeding: the user's slot to release.
    pub released: Vec<(u32, bool)>,
    /// The change of the torrent's counts, when there is one.
    pub torrent_update: Option<(torrent_update::Index, TorrentUpdate)>,
}

/// Expires the peers of one torrent: forgets the inactive peers that are too
/// old, deactivates the active ones that missed their announces, and moves
/// the torrent's seed and leech counts for each deactivated peer that was
/// handed out in peer lists.
pub fn reap_torrent(t: &mut Torrent, active_cutoff: i64, inactive_cutoff: i64, require_peer_connectivity: bool) -> (r: ReapOutcome)
    requires
        old(t).peers@.len() <= i32::MAX,
    ensures
        final(t).id == old(t).id,
        final(t).status == old(t).status,
        final(t).is_deleted == old(t).is_deleted,
        final(t).download_factor == old(t).download_factor,
        final(t).upload_factor == old(t).upload_factor,
        final(t).times_completed == old(t).times_completed,
        final(t).peers@ == reaped_peers(old(t).peers@, active_cutoff, inactive_cutoff),
        r.deactivated@.no_duplicates(),
        r.deactivated@.to_set() == expired_keys(old(t).peers@, active_cutoff, inactive_cutoff),
        r.released@ == r.deactivated@.filter(listed_in(old(t).peers@, require_peer_connectivity)).map_values(
            slot_of(old(t).peers@),
        ),
        final(t).seeders == clamp_u32(old(t).seeders - count_seeding(r.released@)),
        final(t).leechers == clamp_u32(old(t).leechers - count_leeching(r.released@)),
        r.torrent_update == if count_seeding(r.released@) != 0 || count_leeching(r.released@) != 0 {
            Some((
                torrent_update::Index { torrent_id: old(t).id },
                TorrentUpdate {
                    seeder_delta: -count_seeding(r.released@) as i32,
                    leecher_delta: -count_leeching(r.released@) as i32,
                    times_completed_delta: 0,
                    balance_delta: 0,
                },
            ))
        } else {
            None
        },
{
    let keys = t.peers.keys();
    let ghost t0 = *t;
    let ghost before = t.peers@;
    let ghost target = expired_keys(before, active_cutoff, inactive_cutoff);
    let ghost listed = listed_in(before, require_peer_connectivity);
    let ghost slot = slot_of(before);
    let mut deactivated: Vec<PeerKey> = Vec::new();
    let mut released: Vec<(u32, bool)> = Vec::new();
    let mut seeder_delta: i32 = 0;
    let mut leecher_delta: i32 = 0;
    let mut i: usize = 0;
    while i < keys.len()
        invariant
            0 <= i <= keys@.len(),
            keys@.no_duplicates(),
            keys@.len() == before.len(),
            before.len() <= i32::MAX,
            t.id == t0.id,
            t.status == t0.status,
            t.is_deleted == t0.is_deleted,
            t.download_factor == t0.download_factor,
            t.upload_factor == t0.upload_factor,
            t.times_completed == t0.times_completed,
            t.seeders == t0.seeders,
            t.leechers == t0.leechers,
            before == t0.peers@,
            forall|k: PeerKey| #[trigger] keys@.contains(k) <==> before.dom().contains(k),
            target == expired_keys(before, active_cutoff, inactive_cutoff),
            listed == listed_in(before, require_peer_connectivity),
            slot == slot_of(before),
            forall|k: PeerKey|
                #![trigger t.peers@.dom().contains(k)]
                keys@.subrange(0, i as int).contains(k) ==> (t.peers@.dom().contains(k) <==> is_kept(
                    before[k],
                    inactive_cutoff,
                )),
            forall|k: PeerKey|
                #![trigger t.peers@[k]]
                keys@.subrange(0, i as int).contains(k) && t.peers@.dom().contains(k) ==> t.peers@[k] == reaped_peer(
                    before[k],
                    active_cutoff,
                ),
            forall|k: PeerKey|
                #![trigger t.peers@.get(k)]
                !keys@.subrange(0, i as int).contains(k) ==> t.peers@.get(k) == before.get(k),
            deactivated@.no_duplicates(),
            deactivated@.len() <= i,
            forall|k: PeerKey| #[trigger] deactivated@.contains(k) <==> (keys@.subrange(0, i as int).contains(k) && target.contains(k)),
            released@ == deactivated@.filter(listed).map_values(slot),
            released@.len() <= deactivated@.len(),
            seeder_delta == -count_seeding(released@),
            leecher_delta == -count_leeching(released@),
            count_seeding(released@) + count_leeching(released@) == released@.len(),
        decreases keys@.len() - i,
    {
        let k = keys[i];
        assert(keys@.contains(k));
        let ghost pre = keys@.subrange(0, i as int);
        let ghost next = keys@.subrange(0, i + 1);
        proof {
            assert forall|j: int| 0 <= j < i implies pre[j] != k by {
                assert(keys@[j] != keys@[i as int]);
            }
            assert forall|q: PeerKey| #[trigger] next.contains(q) <==> (pre.contains(q) || q == k) by {
                if next.contains(q) {
                    let j = choose|j: int| 0 <= j < next.len() && next[j] == q;
                    if j < i {
                        assert(pre[j] == q);
                    }
                }
                if pre.contains(q) {
                    let j = choose|j: int| 0 <= j < pre.len() && pre[j] == q;
                    assert(next[j] == q);
                }
                if q == k {
                    assert(next[i as int] == q);
                }
            }
        }
        assert(t.peers@.get(k) == before.get(k));
        let ghost mid = t.peers@;
        let peer = t.peers.get(k).unwrap();
        let ghost old_deactivated = deactivated@;
        let ghost old_released = released@;
        if !(inactive_cutoff <= peer.updated_at || peer.is_active) {
            // Inactive for longer than the inactive time to live: forget it.
            t.peers.swap_remove(k);
        } else if peer.updated_at < active_cutoff && peer.is_active {
            let was_included = if require_peer_connectivity {
                peer.is_active && peer.is_visible && peer.is_connectable
            } else {
                peer.is_active && peer.is_visible
            };
            t.peers.insert(k, Peer { is_active: false, ..peer });
            assert(!deactivated@.contains(k));
            deactivated.push(k);
            proof {
                assert(deactivated@ =~= old_deactivated.push(k));
                old_deactivated.lemma_filter_push(k, listed);
                assert forall|a: int, b: int| 0 <= a < b < deactivated@.len() implies deactivated@[a] != deactivated@[b] by {
                    if b == deactivated@.len() - 1 {
                        assert(old_deactivated.contains(deactivated@[a]));
                    } else {
                        assert(old_deactivated[a] != old_deactivated[b]);
                    }
                }
            }
            if was_included {
                released.push((k.0, peer.is_seeder));
                proof {
                    let f = old_deactivated.filter(listed);
                    assert(deactivated@.filter(listed) == f.push(k));
                    assert(f.push(k).map_values(slot) =~= f.map_values(slot).push(slot(k)));
                    assert(released@.drop_last() =~= old_released);
                }
                if peer.is_seeder {
                    seeder_delta = seeder_delta - 1;
                } else {
                    leecher_delta = leecher_delta - 1;
                }
            } else {
                proof {
                    assert(deactivated@.filter(listed) == old_deactivated.filter(listed));
                }
            }
        }
        proof {
            assert forall|q: PeerKey| q != k implies #[trigger] t.peers@.get(q) == mid.get(q) by {}
            assert forall|q: PeerKey| #[trigger] deactivated@.contains(q) <==> (next.contains(q) && target.contains(q)) by {
                if deactivated@ != old_deactivated {
                    if deactivated@.contains(q) && q != k {
                        let j = choose|j: int| 0 <= j < deactivated@.len() && deactivated@[j] == q;
                        assert(old_deactivated[j] == q);
                    }
                    if old_deactivated.contains(q) {
                        let j = choose|j: int| 0 <= j < old_deactivated.len() && old_deactivated[j] == q;
                        assert(deactivated@[j] == q);
                    }
                    if q == k {
                        assert(deactivated@[old_deactivated.len() as int] == q);
                    }
                }
            }
        }
        i = i + 1;
    }
    proof {
        assert(keys@.subrange(0, keys@.len() as int) =~= keys@);
        assert(deactivated@.to_set() =~= target);
        let reaped = reaped_peers(before, active_cutoff, inactive_cutoff);
        assert forall|q: PeerKey| t.peers@.dom().contains(q) <==> reaped.dom().contains(q) by {
            if !before.dom().contains(q) {
                assert(!keys@.contains(q));
                assert(t.peers@.get(q) == before.get(q));
            } else {
                assert(keys@.contains(q));
            }
        }
        assert forall|q: PeerKey| t.peers@.dom().contains(q) implies t.peers@[q] == reaped[q] by {
            if !before.dom().contains(q) {
                assert(!keys@.contains(q));
                assert(t.peers@.get(q) == before.get(q));
            } else {
                assert(keys@.contains(q));
            }
        }
        assert(t.peers@ =~= reaped);
    }
    let seeders_before = t.seeders;
    let leechers_before = t.leechers;
    // Update peer count of torrents and users
    let torrent_update = if seeder_delta != 0 || leecher_delta != 0 {
        t.seeders = saturating_add_signed_u32(t.seeders, seeder_delta);
        t.leechers = saturating_add_signed_u32(t.leechers, leecher_delta);
        Some((
            torrent_update::Index { torrent_id: t.id },
            TorrentUpdate { seeder_delta, leecher_delta, times_completed_delta: 0, balance_delta: 0 },
        ))
    } else {
        None
    };
    ReapOutcome { deactivated, released, torrent_update }
}

/// The user with one seeding (or leeching) torrent less, not going below
/// zero.
pub open spec fn user_released(u: User, was_seeder: bool) -> User {
    if was_seeder {
        User { num_seeding: if u.num_seeding > 0 { (u.num_seeding - 1) as u32 } else { 0 }, ..u }
    } else {
        User { num_leeching: if u.num_leeching > 0 { (u.num_leeching - 1) as u32 } else { 0 }, ..u }
    }
}

/// The users after releasing the given slots in order; unknown users are
/// skipped.
pub open spec fn users_released(users: Map<u32, User>, slots: Seq<(u32, bool)>) -> Map<u32, User>
    decreases slots.len(),
{
    if slots.len() == 0 {
        users
    } else {
        let before = users_released(users, slots.drop_last());
        let (id, was_seeder) = slots.last();
        if before.contains_key(id) {
            before.insert(id, user_released(before[id], was_seeder))
        } else {
            before
        }
    }
}

/// Releases the users' slots of deactivated peers.
pub fn release_slots(users: &mut UserStore, released: &Vec<(u32, bool)>)
    ensures
        final(users)@ == users_released(old(users)@, released@),
{
    let mut i: usize = 0;
    while i < released.len()
        invariant
            0 <= i <= released@.len(),
            users@ == users_released(old(users)@, released@.subrange(0, i as int)),
        decreases released@.len() - i,
    {
        let (id, was_seeder) = released[i];
        proof {
            assert(released@.subrange(0, i + 1).drop_last() =~= released@.subrange(0, i as int));
        }
        match users.get(id) {
            Some(u) => {
                let updated = if was_seeder {
                    User { num_seeding: if u.num_seeding > 0 { u.num_seeding - 1 } else { 0 }, ..u }
                } else {
                    User { num_leeching: if u.num_leeching > 0 { u.num_leeching - 1 } else { 0 }, ..u }
                };
                users.insert(id, updated);
            },
            None => {},
        }
        i = i + 1;
    }
    assert(released@.subrange(0, released@.len() as int) =~= released@);
}

/// `after` is `before` with its stale peers expired, as `reap_torrent`
/// leaves it, and `o` is what that expiry yields.
pub open spec fn torrent_reaped(
    before: Torrent,
    after: Torrent,
    o: ReapOutcome,
    active_cutoff: i64,
    inactive_cutoff: i64,
    require_peer_connectivity: bool,
) -> bool {
    &&& after.id == before.id
    &&& after.status == before.status
    &&& after.is_deleted == before.is_deleted
    &&& after.download_factor == before.download_factor
    &&& after.upload_factor == before.upload_factor
    &&& after.times_completed == before.times_completed
    &&& after.peers@ == reaped_peers(before.peers@, active_cutoff, inactive_cutoff)
    &&& o.deactivated@.no_duplicates()
    &&& o.deactivated@.to_set() == expired_keys(before.peers@, active_cutoff, inactive_cutoff)
    &&& o.released@ == o.deactivated@.filter(listed_in(before.peers@, require_peer_connectivity)).map_values(
        slot_of(before.peers@),
    )
    &&& after.seeders == clamp_u32(before.seeders - count_seeding(o.released@))
    &&& after.leechers == clamp_u32(before.leechers - count_leeching(o.released@))
    &&& o.torrent_update == if count_seeding(o.released@) != 0 || count_leeching(o.released@) != 0 {
        Some((
            torrent_update::Index { torrent_id: before.id },
            TorrentUpdate {
                seeder_delta: -count_seeding(o.released@) as i32,
                leecher_delta: -count_leeching(o.released@) as i32,
                times_completed_delta: 0,
                balance_delta: 0,
            },
        ))
    } else {
        None
    }
}

/// Expiry forgets exactly the inactive peers that have not announced since
/// the inactive cutoff: every peer that announced since then is kept, active
/// or not, and so is every active peer. A kept peer is deactivated exactly
/// when it was active and has not announced since the active cutoff; nothing
/// else about it changes. The peers deactivated are exactly those.
pub proof fn lemma_reap_keeps_recent_peers(
    before: Torrent,
    after: Torrent,
    o: ReapOutcome,
    active_cutoff: i64,
    inactive_cutoff: i64,
    require_peer_connectivity: bool,
)
    requires
        torrent_reaped(before, after, o, active_cutoff, inactive_cutoff, require_peer_connectivity),
    ensures
        forall|k: PeerKey| #[trigger] after.peers@.contains_key(k) <==> (before.peers@.contains_key(k) && (
            before.peers@[k].is_active || before.peers@[k].updated_at >= inactive_cutoff)),
        forall|k: PeerKey| #[trigger] after.peers@.contains_key(k) ==> {
            let p = before.peers@[k];
            let a = after.peers@[k];
            &&& a.is_active == (p.is_active && p.updated_at >= active_cutoff)
            &&& a.ip_address == p.ip_address
            &&& a.port == p.port
            &&& a.is_seeder == p.is_seeder
            &&& a.is_visible == p.is_visible
            &&& a.is_connectable == p.is_connectable
            &&& a.updated_at == p.updated_at
            &&& a.uploaded == p.uploaded
            &&& a.downloaded == p.downloaded
        },
        forall|k: PeerKey| #[trigger] o.deactivated@.contains(k) <==> (before.peers@.contains_key(k)
            && before.peers@[k].is_active && before.peers@[k].updated_at < active_cutoff),
{
    assert forall|k: PeerKey| #[trigger] o.deactivated@.contains(k) <==> (before.peers@.contains_key(k)
        && before.peers@[k].is_active && before.peers@[k].updated_at < active_cutoff) by {
        assert(o.deactivated@.to_set().contains(k) == o.deactivated@.contains(k));
    }
}

/// The user slots released by the expiry of several torrents, in order.
pub open spec fn all_released(outcomes: Seq<(u32, ReapOutcome)>) -> Seq<(u32, bool)>
    decreases outcomes.len(),
{
    if outcomes.len() == 0 {
        Seq::empty()
    } else {
        all_released(outcomes.drop_last()) + outcomes.last().1.released@
    }
}

/// The torrent ids of the outcomes, in order.
pub open spec fn outcome_ids(outcomes: Seq<(u32, ReapOutcome)>) -> Seq<u32> {
    outcomes.map_values(|e: (u32, ReapOutcome)| e.0)
}

proof fn lemma_users_released_concat(users: Map<u32, User>, a: Seq<(u32, bool)>, b: Seq<(u32, bool)>)
    ensures
        users_released(users, a + b) == users_released(users_released(users, a), b),
    decreases b.len(),
{
    if b.len() == 0 {
        assert(a + b =~= a);
    } else {
        assert((a + b).drop_last() =~= a + b.drop_last());
        lemma_users_released_concat(users, a, b.drop_last());
    }
}

/// The deactivations that the expiry of torrent `id` queues: the user,
/// torrent and peer id of each deactivated peer, in order.
pub open spec fn torrent_deactivation_keys(id: u32, deactivated: Seq<PeerKey>) -> Seq<PeerUpdateKey> {
    deactivated.map_values(|k: PeerKey| (k.0, id, k.1))
}

/// The deactivations that the expiry of several torrents queues, in order.
pub open spec fn deactivation_keys(outcomes: Seq<(u32, ReapOutcome)>) -> Seq<PeerUpdateKey>
    decreases outcomes.len(),
{
    if outcomes.len() == 0 {
        Seq::empty()
    } else {
        deactivation_keys(outcomes.drop_last()) + torrent_deactivation_keys(
            outcomes.last().0,
            outcomes.last().1.deactivated@,
        )
    }
}

/// The torrent change that an outcome queues, if any.
pub open spec fn update_of(o: ReapOutcome) -> Seq<TorrentUpdateRecord> {
    match o.torrent_update {
        Some((index, update)) => seq![(index.torrent_id, update)],
        None => Seq::empty(),
    }
}

/// The torrent changes that the expiry of several torrents queues, in order.
pub open spec fn torrent_updates_of(outcomes: Seq<(u32, ReapOutcome)>) -> Seq<TorrentUpdateRecord>
    decreases outcomes.len(),
{
    if outcomes.len() == 0 {
        Seq::empty()
    } else {
        torrent_updates_of(outcomes.drop_last()) + update_of(outcomes.last().1)
    }
}

/// Queues the deactivation of each peer deactivated on torrent `id`.
fn queue_deactivations(queue: &mut peer_deactivation::Queue, id: u32, deactivated: &Vec<PeerKey>)
    ensures
        final(queue)@ == queued_deactivations(old(queue)@, torrent_deactivation_keys(id, deactivated@)),
{
    let ghost start = queue@;
    let mut j: usize = 0;
    assert(torrent_deactivation_keys(id, deactivated@.take(0)) =~= Seq::<PeerUpdateKey>::empty());
    while j < deactivated.len()
        invariant
            0 <= j <= deactivated@.len(),
            queue@ == queued_deactivations(start, torrent_deactivation_keys(id, deactivated@.take(j as int))),
        decreases deactivated@.len() - j,
    {
        let k = deactivated[j];
        queue.upsert(peer_update::Index { user_id: k.0, torrent_id: id, peer_id: PeerId(k.1) }, PeerDeactivation);
        proof {
            let before = torrent_deactivation_keys(id, deactivated@.take(j as int));
            let after = torrent_deactivation_keys(id, deactivated@.take(j + 1));
            assert(after.drop_last() =~= before);
            assert(after.last() == (k.0, id, k.1));
        }
        j = j + 1;
    }
    assert(deactivated@.take(deactivated@.len() as int) =~= deactivated@);
}

/// Queues the change of a torrent's counts, if there is one.
fn queue_update(queue: &mut torrent_update::Queue, o: &ReapOutcome)
    ensures
        final(queue)@ == queued_updates(old(queue)@, update_of(*o)),
{
    let ghost before = queue@;
    match &o.torrent_update {
        Some((index, update)) => {
            queue.upsert(*index, *update);
            proof {
                let u = update_of(*o);
                assert(u =~= seq![(index.torrent_id, *update)]);
                assert(u.drop_last() =~= Seq::<TorrentUpdateRecord>::empty());
                assert(queued_updates(before, u.drop_last()) == before);
                assert(u.last() == (index.torrent_id, *update));
            }
        },
        None => {
            assert(update_of(*o) =~= Seq::<TorrentUpdateRecord>::empty());
        },
    }
}

/// Expires the stale peers of every torrent, releases the user slots of the
/// deactivated peers that were handed out in peer lists, and queues the
/// deactivations and the changes of the torrents' counts for the database.
/// Returns, for each torrent once, its id and what expiring it yields.
pub fn reap_store(
    torrents: &mut TorrentStore,
    users: &mut UserStore,
    deactivations: &mut peer_deactivation::Queue,
    torrent_updates: &mut torrent_update::Queue,
    active_cutoff: i64,
    inactive_cutoff: i64,
    require_peer_connectivity: bool,
) -> (r: Vec<(u32, ReapOutcome)>)
    requires
        forall|id: u32| #[trigger] old(torrents)@.contains_key(id) ==> old(torrents)@[id].peers@.len() <= i32::MAX,
    ensures
        final(torrents)@.dom() == old(torrents)@.dom(),
        outcome_ids(r@).no_duplicates(),
        outcome_ids(r@).to_set() == old(torrents)@.dom(),
        forall|i: int|
            0 <= i < r@.len() ==> torrent_reaped(
                old(torrents)@[#[trigger] r@[i].0],
                final(torrents)@[r@[i].0],
                r@[i].1,
                active_cutoff,
                inactive_cutoff,
                require_peer_connectivity,
            ),
        final(users)@ == users_released(old(users)@, all_released(r@)),
        final(deactivations)@ == queued_deactivations(old(deactivations)@, deactivation_keys(r@)),
        final(torrent_updates)@ == queued_updates(old(torrent_updates)@, torrent_updates_of(r@)),
{
    let ids = torrents.ids();
    let ghost start = torrents@;
    let ghost users_start = users@;
    let ghost deactivations_start = deactivations@;
    let ghost updates_start = torrent_updates@;
    let mut out: Vec<(u32, ReapOutcome)> = Vec::new();
    let mut i: usize = 0;
    while i < ids.len()
        invariant
            0 <= i <= ids@.len(),
            ids@.no_duplicates(),
            forall|k: u32| #[trigger] ids@.contains(k) <==> start.dom().contains(k),
            forall|id: u32| #[trigger] start.contains_key(id) ==> start[id].peers@.len() <= i32::MAX,
            torrents@.dom() == start.dom(),
            out@.len() == i,
            forall|j: int| 0 <= j < i ==> (#[trigger] out@[j]).0 == ids@[j],
            forall|j: int|
                0 <= j < i ==> torrent_reaped(
                    start[#[trigger] ids@[j]],
                    torrents@[ids@[j]],
                    out@[j].1,
                    active_cutoff,
                    inactive_cutoff,
                    require_peer_connectivity,
                ),
            forall|id: u32| !ids@.subrange(0, i as int).contains(id) ==> #[trigger] torrents@.get(id) == start.get(id),
            users@ == users_released(users_start, all_released(out@)),
            deactivations@ == queued_deactivations(deactivations_start, deactivation_keys(out@)),
            torrent_updates@ == queued_updates(updates_start, torrent_updates_of(out@)),
        decreases ids@.len() - i,
    {
        let id = ids[i];
        assert(ids@.contains(id));
        proof {
            assert(!ids@.subrange(0, i as int).contains(id)) by {
                if ids@.subrange(0, i as int).contains(id) {
                    let j = choose|j: int| 0 <= j < i && ids@.subrange(0, i as int)[j] == id;
                    assert(ids@[j] == ids@[i as int]);
                }
            }
        }
        assert(torrents@.get(id) == start.get(id));
        let ghost mid = torrents@;
        let mut t = torrents.take(id).unwrap();
        let ghost taken = torrents@;
        let outcome = reap_torrent(&mut t, active_cutoff, inactive_cutoff, require_peer_connectivity);
        torrents.insert(id, t);
        assert(torrents@ == taken.insert(id, t));
        release_slots(users, &outcome.released);
        queue_deactivations(deactivations, id, &outcome.deactivated);
        queue_update(torrent_updates, &outcome);
        let ghost old_out = out@;
        out.push((id, outcome));
        proof {
            assert(out@.drop_last() =~= old_out);
            lemma_users_released_concat(users_start, all_released(old_out), out@.last().1.released@);
            lemma_queued_deactivations_concat(
                deactivations_start,
                deactivation_keys(old_out),
                torrent_deactivation_keys(id, out@.last().1.deactivated@),
            );
            lemma_queued_updates_concat(updates_start, torrent_updates_of(old_out), update_of(out@.last().1));
            assert forall|j: int| 0 <= j < i implies torrents@[ids@[j]] == mid[ids@[j]] by {
                assert(ids@[j] != id);
                assert(taken.get(ids@[j]) == mid.get(ids@[j]));
                assert(ids@.contains(ids@[j]));
            }
            assert forall|q: u32| !ids@.subrange(0, i + 1).contains(q) implies #[trigger] torrents@.get(q) == start.get(q) by {
                assert(!ids@.subrange(0, i as int).contains(q)) by {
                    if ids@.subrange(0, i as int).contains(q) {
                        let j = choose|j: int| 0 <= j < i && ids@.subrange(0, i as int)[j] == q;
                        assert(ids@.subrange(0, i + 1)[j] == q);
                    }
                }
                if q == id {
                    assert(ids@.subrange(0, i + 1)[i as int] == q);
                }
                assert(taken.get(q) == mid.get(q));
            }
        }
        i = i + 1;
    }
    proof {
        assert(outcome_ids(out@) =~= ids@);
        assert(ids@.to_set() =~= start.dom());
    }
    out
}

} // verus!
