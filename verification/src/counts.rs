//! The seed and leech counts of a torrent follow its peers: the announce and
//! the expiry move them by exactly the peers that enter or leave the lists.
use vstd::prelude::*;

use crate::collections::PeerKey;
use crate::config::Config;
use crate::group::Group;
use crate::handler::{
    announce_outcome, leech_bit, peer_after, peers_after, seed_bit, torrent_check, TorrentOutcome,
};
use crate::announce::Announce;
use crate::error::AnnounceError;
use crate::number::clamp_u32;
use crate::peer::{IpAddress, Peer};
use crate::reap::{
    count_leeching, count_seeding, expired_keys, is_expired, is_kept, listed_in, outcome_ids, reaped_peers, slot_of,
    torrent_reaped, ReapOutcome,
};
use crate::torrent::Torrent;
use crate::user::User;

verus! {

/// Keys of the peers that satisfy `pred`.
pub open spec fn keys_with(peers: Map<PeerKey, Peer>, pred: spec_fn(Peer) -> bool) -> Set<PeerKey> {
    peers.dom().filter(|k: PeerKey| pred(peers[k]))
}

/// Keys of the peers counted as seeds.
pub open spec fn seed_keys(peers: Map<PeerKey, Peer>, require_peer_connectivity: bool) -> Set<PeerKey> {
    keys_with(peers, |p: Peer| p.spec_in_seed_list(require_peer_connectivity))
}

/// Keys of the peers counted as leeches.
pub open spec fn leech_keys(peers: Map<PeerKey, Peer>, require_peer_connectivity: bool) -> Set<PeerKey> {
    keys_with(peers, |p: Peer| p.spec_in_leech_list(require_peer_connectivity))
}

/// The torrent's counts are the numbers of its seeds and leeches.
pub open spec fn counts_in_step(t: Torrent, require_peer_connectivity: bool) -> bool {
    &&& t.peers@.dom().finite()
    &&& t.seeders == seed_keys(t.peers@, require_peer_connectivity).len()
    &&& t.leechers == leech_keys(t.peers@, require_peer_connectivity).len()
}

/// One when the peer is there and satisfies `pred`.
pub open spec fn bit_with(p: Option<Peer>, pred: spec_fn(Peer) -> bool) -> int {
    match p {
        Some(p) => if pred(p) { 1 } else { 0 },
        None => 0,
    }
}

/// Storing or removing one peer moves the number of peers that satisfy a
/// predicate by that peer alone.
proof fn lemma_keys_with_after(m: Map<PeerKey, Peer>, k: PeerKey, new: Option<Peer>, pred: spec_fn(Peer) -> bool)
    requires
        m.dom().finite(),
    ensures
        peers_after(m, k, new).dom().finite(),
        keys_with(m, pred).finite(),
        keys_with(peers_after(m, k, new), pred).len() == keys_with(m, pred).len() - bit_with(m.get(k), pred) + bit_with(
            new,
            pred,
        ),
{
    let before = keys_with(m, pred);
    let after = peers_after(m, k, new);
    m.dom().lemma_len_filter(|q: PeerKey| pred(m[q]));
    let removed = before.remove(k);
    assert(before.contains(k) <==> bit_with(m.get(k), pred) == 1);
    match new {
        Some(p) => {
            assert(after.dom() =~= m.dom().insert(k));
            if pred(p) {
                assert(keys_with(after, pred) =~= removed.insert(k));
            } else {
                assert(keys_with(after, pred) =~= removed);
            }
        },
        None => {
            assert(after.dom() =~= m.dom().remove(k));
            assert(keys_with(after, pred) =~= removed);
        },
    }
}

/// Announces keep a torrent's counts in step with its peers: whatever an
/// announce does (refused, or applied), a torrent whose seed and leech counts
/// were the numbers of its seeds and leeches still has that property after
/// it. (The counts are `u32`: the torrent holds fewer peers than that.)
pub proof fn lemma_announce_keeps_counts(
    before: Torrent,
    after: Torrent,
    r: Result<TorrentOutcome, AnnounceError>,
    config: Config,
    groups: Map<i32, Group>,
    user_id: Result<u32, AnnounceError>,
    user: Result<User, AnnounceError>,
    q: Announce,
    client_ip: IpAddress,
    is_connectable: bool,
    now: i64,
    seed_list_under_limit: bool,
    leech_list_under_limit: bool,
)
    requires
        announce_outcome(
            before,
            after,
            r,
            config,
            groups,
            user_id,
            user,
            q,
            client_ip,
            is_connectable,
            now,
            seed_list_under_limit,
            leech_list_under_limit,
        ),
        counts_in_step(before, config.require_peer_connectivity),
        before.peers@.len() < u32::MAX,
    ensures
        counts_in_step(after, config.require_peer_connectivity),
{
    let req = config.require_peer_connectivity;
    if r is Ok {
        let uid = user_id->Ok_0;
        let u = user->Ok_0;
        let group = groups[u.group_id];
        let key = (uid, q.peer_id.0);
        let hit = crate::handler::hits_download_slot_limit(q.left, group.download_slots, u.num_leeching);
        let old_peer = before.peers@.get(key);
        let new_peer = peer_after(old_peer, q, client_ip, is_connectable, now, hit, req);
        let seed_pred = |p: Peer| p.spec_in_seed_list(req);
        let leech_pred = |p: Peer| p.spec_in_leech_list(req);
        lemma_keys_with_after(before.peers@, key, new_peer, seed_pred);
        lemma_keys_with_after(before.peers@, key, new_peer, leech_pred);
        assert(bit_with(old_peer, seed_pred) == seed_bit(old_peer, req));
        assert(bit_with(new_peer, seed_pred) == seed_bit(new_peer, req));
        assert(bit_with(old_peer, leech_pred) == leech_bit(old_peer, req));
        assert(bit_with(new_peer, leech_pred) == leech_bit(new_peer, req));
        let after_peers = peers_after(before.peers@, key, new_peer);
        assert(after_peers.dom().subset_of(before.peers@.dom().insert(key)));
        vstd::set_lib::lemma_len_subset(after_peers.dom(), before.peers@.dom().insert(key));
        vstd::set_lib::lemma_len_subset(seed_keys(after_peers, req), after_peers.dom());
        vstd::set_lib::lemma_len_subset(leech_keys(after_peers, req), after_peers.dom());
    }
}

/// Counting the released slots of distinct expired peers counts the expired
/// seeds and leeches that were handed out.
proof fn lemma_released_counts(peers: Map<PeerKey, Peer>, s: Seq<PeerKey>, require_peer_connectivity: bool)
    requires
        s.no_duplicates(),
    ensures
        s.to_set().finite(),
        count_seeding(s.filter(listed_in(peers, require_peer_connectivity)).map_values(slot_of(peers))) == s.to_set().filter(
            |k: PeerKey| peers[k].spec_in_seed_list(require_peer_connectivity),
        ).len(),
        count_leeching(s.filter(listed_in(peers, require_peer_connectivity)).map_values(slot_of(peers))) == s.to_set().filter(
            |k: PeerKey| peers[k].spec_in_leech_list(require_peer_connectivity),
        ).len(),
    decreases s.len(),
{
    let req = require_peer_connectivity;
    let listed = listed_in(peers, req);
    let slot = slot_of(peers);
    let seeds = |k: PeerKey| peers[k].spec_in_seed_list(req);
    let leeches = |k: PeerKey| peers[k].spec_in_leech_list(req);
    if s.len() == 0 {
        assert(s.to_set() =~= Set::<PeerKey>::empty());
        assert(s.to_set().filter(seeds) =~= Set::<PeerKey>::empty());
        assert(s.to_set().filter(leeches) =~= Set::<PeerKey>::empty());
        reveal(Seq::filter);
        assert(s.filter(listed).map_values(slot) =~= Seq::<(u32, bool)>::empty());
    } else {
        let prev = s.drop_last();
        let x = s.last();
        assert(s =~= prev.push(x));
        assert(prev.no_duplicates()) by {
            assert forall|a: int, b: int| 0 <= a < b < prev.len() implies prev[a] != prev[b] by {
                assert(s[a] != s[b]);
            }
        }
        assert(!prev.contains(x)) by {
            if prev.contains(x) {
                let j = choose|j: int| 0 <= j < prev.len() && prev[j] == x;
                assert(s[j] == s[s.len() - 1]);
            }
        }
        lemma_released_counts(peers, prev, req);
        prev.lemma_filter_push(x, listed);
        assert(s.to_set() =~= prev.to_set().insert(x));
        let pf = prev.filter(listed);
        if listed(x) {
            let m = pf.push(x).map_values(slot);
            assert(m =~= pf.map_values(slot).push(slot(x)));
            assert(m.drop_last() =~= pf.map_values(slot));
            if peers[x].is_seeder {
                assert(s.to_set().filter(seeds) =~= prev.to_set().filter(seeds).insert(x));
                assert(s.to_set().filter(leeches) =~= prev.to_set().filter(leeches));
            } else {
                assert(s.to_set().filter(seeds) =~= prev.to_set().filter(seeds));
                assert(s.to_set().filter(leeches) =~= prev.to_set().filter(leeches).insert(x));
            }
        } else {
            assert(s.to_set().filter(seeds) =~= prev.to_set().filter(seeds));
            assert(s.to_set().filter(leeches) =~= prev.to_set().filter(leeches));
        }
        prev.to_set().lemma_len_filter(seeds);
        prev.to_set().lemma_len_filter(leeches);
    }
}

/// Expiry keeps a torrent's counts in step with its peers: a torrent whose
/// seed and leech counts were the numbers of its seeds and leeches still has
/// that property after its stale peers are expired.
pub proof fn lemma_reap_keeps_counts(
    before: Torrent,
    after: Torrent,
    deactivated: Seq<PeerKey>,
    released: Seq<(u32, bool)>,
    active_cutoff: i64,
    inactive_cutoff: i64,
    require_peer_connectivity: bool,
)
    requires
        counts_in_step(before, require_peer_connectivity),
        after.peers@ == reaped_peers(before.peers@, active_cutoff, inactive_cutoff),
        deactivated.no_duplicates(),
        deactivated.to_set() == expired_keys(before.peers@, active_cutoff, inactive_cutoff),
        released == deactivated.filter(listed_in(before.peers@, require_peer_connectivity)).map_values(
            slot_of(before.peers@),
        ),
        after.seeders == clamp_u32(before.seeders - count_seeding(released)),
        after.leechers == clamp_u32(before.leechers - count_leeching(released)),
    ensures
        counts_in_step(after, require_peer_connectivity),
{
    let req = require_peer_connectivity;
    let b = before.peers@;
    let a = after.peers@;
    let seeds = |k: PeerKey| b[k].spec_in_seed_list(req);
    let leeches = |k: PeerKey| b[k].spec_in_leech_list(req);
    lemma_released_counts(b, deactivated, req);
    let gone_seeds = deactivated.to_set().filter(seeds);
    let gone_leeches = deactivated.to_set().filter(leeches);
    assert(a.dom() =~= b.dom().filter(|k: PeerKey| is_kept(b[k], inactive_cutoff)));
    b.dom().lemma_len_filter(|k: PeerKey| is_kept(b[k], inactive_cutoff));
    b.dom().lemma_len_filter(|k: PeerKey| b[k].spec_in_seed_list(req));
    b.dom().lemma_len_filter(|k: PeerKey| b[k].spec_in_leech_list(req));
    assert(seed_keys(a, req) =~= seed_keys(b, req).difference(gone_seeds));
    assert(leech_keys(a, req) =~= leech_keys(b, req).difference(gone_leeches));
    assert(gone_seeds.subset_of(seed_keys(b, req)));
    assert(gone_leeches.subset_of(leech_keys(b, req)));
    vstd::set_lib::lemma_len_subset(gone_seeds, seed_keys(b, req));
    vstd::set_lib::lemma_len_subset(gone_leeches, leech_keys(b, req));
    vstd::set_lib::lemma_set_difference_len(seed_keys(b, req), gone_seeds);
    vstd::set_lib::lemma_set_difference_len(leech_keys(b, req), gone_leeches);
    assert(seed_keys(b, req).intersect(gone_seeds) =~= gone_seeds);
    assert(leech_keys(b, req).intersect(gone_leeches) =~= gone_leeches);
    assert(a.dom().finite());
    assert(after.seeders == seed_keys(a, req).len());
    assert(after.leechers == leech_keys(a, req).len());
}

/// Expiring every torrent keeps every torrent's counts in step with its
/// peers: when each torrent's seed and leech counts were the numbers of its
/// seeds and leeches, they still are after the expiry of the whole store.
pub proof fn lemma_reap_store_keeps_counts(
    before: Map<u32, Torrent>,
    after: Map<u32, Torrent>,
    outcomes: Seq<(u32, ReapOutcome)>,
    active_cutoff: i64,
    inactive_cutoff: i64,
    require_peer_connectivity: bool,
)
    requires
        forall|id: u32| #[trigger] before.contains_key(id) ==> counts_in_step(before[id], require_peer_connectivity),
        after.dom() == before.dom(),
        outcome_ids(outcomes).to_set() == before.dom(),
        forall|i: int|
            0 <= i < outcomes.len() ==> torrent_reaped(
                before[#[trigger] outcomes[i].0],
                after[outcomes[i].0],
                outcomes[i].1,
                active_cutoff,
                inactive_cutoff,
                require_peer_connectivity,
            ),
    ensures
        forall|id: u32| #[trigger] after.contains_key(id) ==> counts_in_step(after[id], require_peer_connectivity),
{
    assert forall|id: u32| #[trigger] after.contains_key(id) implies counts_in_step(after[id], require_peer_connectivity) by {
        assert(outcome_ids(outcomes).to_set().contains(id));
        let i = choose|i: int| 0 <= i < outcome_ids(outcomes).len() && outcome_ids(outcomes)[i] == id;
        assert(outcomes[i].0 == id);
        let o = outcomes[i].1;
        lemma_reap_keeps_counts(
            before[id],
            after[id],
            o.deactivated@,
            o.released@,
            active_cutoff,
            inactive_cutoff,
            require_peer_connectivity,
        );
    }
}

} // verus!
