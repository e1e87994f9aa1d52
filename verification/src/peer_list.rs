//! Choosing the peers handed to an announcing client, and their compact
//! encoding.
use vstd::prelude::*;

use crate::collections::PeerKey;
use crate::peer::{IpAddress, Peer, PeerStore};

verus! {

/// Peers of other users that are handed out and seed.
pub open spec fn seed_candidates(peers: Map<PeerKey, Peer>, user_id: u32, require_peer_connectivity: bool) -> Set<PeerKey> {
    peers.dom().filter(|k: PeerKey| k.0 != user_id && peers[k].spec_in_peer_list(require_peer_connectivity) && peers[k].is_seeder)
}

/// Peers of other users that are handed out and leech.
pub open spec fn leech_candidates(peers: Map<PeerKey, Peer>, user_id: u32, require_peer_connectivity: bool) -> Set<PeerKey> {
    peers.dom().filter(|k: PeerKey| k.0 != user_id && peers[k].spec_in_peer_list(require_peer_connectivity) && !peers[k].is_seeder)
}

/// The smaller of two numbers.
pub open spec fn min_nat(a: nat, b: nat) -> nat {
    if a < b { a } else { b }
}

/// Picks `min(n, amount)` distinct positions below `n` at random, with
/// `rand::seq::IteratorRandom::choose_multiple` over `0..n` and `rand::rng()`.
///
/// Trusted: `choose_multiple` fills a reservoir with the first `amount` items
/// and then overwrites slots with later items, so it returns each item of the
/// range at most once, and all of them when there are no more than `amount`.
/// Which positions come back is left open. The reservoir is allocated for
/// `amount` items up front, which panics past `isize::MAX` bytes; `requires`
/// keeps `amount` below that.
#[verifier::external_body]
fn choose_positions(n: usize, amount: usize) -> (r: Vec<usize>)
    requires
        amount <= isize::MAX / 8,
    ensures
        r@.len() == min_nat(n as nat, amount as nat),
        r@.no_duplicates(),
        forall|i: int| 0 <= i < r@.len() ==> r@[i] < n,
{
    rand::seq::IteratorRandom::choose_multiple(0..n, &mut rand::rng(), amount)
}

/// The peers chosen for one announce.
pub struct PeerSelection {
    pub peers: Vec<Peer>,
    pub has_requested_seed_list: bool,
    pub has_requested_leech_list: bool,
    pub is_over_seed_list_rate_limit: bool,
    pub is_over_leech_list_rate_limit: bool,
}

/// `chosen` names `n_seeds` distinct seed candidates, then distinct leech
/// candidates, and `peers` holds their peers in that order.
pub open spec fn is_valid_choice(
    store: Map<PeerKey, Peer>,
    user_id: u32,
    require_peer_connectivity: bool,
    chosen: Seq<PeerKey>,
    n_seeds: nat,
    peers: Seq<Peer>,
) -> bool {
    &&& n_seeds <= chosen.len()
    &&& chosen.no_duplicates()
    &&& peers.len() == chosen.len()
    &&& forall|i: int| 0 <= i < n_seeds ==> seed_candidates(store, user_id, require_peer_connectivity).contains(#[trigger] chosen[i])
    &&& forall|i: int| n_seeds <= i < chosen.len() ==> leech_candidates(store, user_id, require_peer_connectivity).contains(#[trigger] chosen[i])
    &&& forall|i: int| 0 <= i < chosen.len() ==> peers[i] == store[#[trigger] chosen[i]]
}

/// Collects the keys of `store` that satisfy the seed (or leech) candidate
/// condition.
fn candidates(store: &PeerStore, user_id: u32, require_peer_connectivity: bool, seeds: bool) -> (r: Vec<PeerKey>)
    ensures
        r@.no_duplicates(),
        seeds ==> r@.to_set() == seed_candidates(store@, user_id, require_peer_connectivity),
        !seeds ==> r@.to_set() == leech_candidates(store@, user_id, require_peer_connectivity),
        r@.len() == if seeds {
            seed_candidates(store@, user_id, require_peer_connectivity).len()
        } else {
            leech_candidates(store@, user_id, require_peer_connectivity).len()
        },
        r@.len() <= isize::MAX / 24,
{
    let keys = store.keys();
    let ghost target = if seeds {
        seed_candidates(store@, user_id, require_peer_connectivity)
    } else {
        leech_candidates(store@, user_id, require_peer_connectivity)
    };
    let mut out: Vec<PeerKey> = Vec::new();
    let mut i: usize = 0;
    while i < keys.len()
        invariant
            0 <= i <= keys@.len(),
            keys@.no_duplicates(),
            forall|k: PeerKey| #[trigger] keys@.contains(k) <==> store@.dom().contains(k),
            target == if seeds {
                seed_candidates(store@, user_id, require_peer_connectivity)
            } else {
                leech_candidates(store@, user_id, require_peer_connectivity)
            },
            out@.no_duplicates(),
            out@.len() <= i,
            keys@.len() <= isize::MAX / 24,
            forall|k: PeerKey| #[trigger] out@.contains(k) <==> (keys@.subrange(0, i as int).contains(k) && target.contains(k)),
        decreases keys@.len() - i,
    {
        let k = keys[i];
        assert(keys@.contains(k));
        let p = store.get(k);
        let peer = p.unwrap();
        let included = if require_peer_connectivity {
            peer.is_active && peer.is_visible && peer.is_connectable
        } else {
            peer.is_active && peer.is_visible
        };
        let take = k.0 != user_id && included && (peer.is_seeder == seeds);
        assert(take == target.contains(k));
        proof {
            assert forall|j: int| 0 <= j < i implies keys@.subrange(0, i as int)[j] != k by {
                assert(keys@[j] != keys@[i as int]);
            }
        }
        let ghost old_out = out@;
        if take {
            assert(!out@.contains(k));
            out.push(k);
        }
        proof {
            let pre = keys@.subrange(0, i as int);
            let next = keys@.subrange(0, i + 1);
            assert forall|q: PeerKey| #[trigger] next.contains(q) <==> (pre.contains(q) || q == k) by {
                if next.contains(q) {
                    let j = choose|j: int| 0 <= j < next.len() && next[j] == q;
                    if j < i {
                        assert(pre[j] == q);
                    }
                }
                if pre.contains(q) {
                    let j = choose|j: int| 0 <= j < pre.len() && pre[j] == q;
                    assert(next[j] == q);
                }
                if q == k {
                    assert(next[i as int] == q);
                }
            }
            assert forall|q: PeerKey| #[trigger] out@.contains(q) <==> (next.contains(q) && target.contains(q)) by {
                if take {
                    assert(out@ == old_out.push(k));
                    if out@.contains(q) && q != k {
                        let j = choose|j: int| 0 <= j < out@.len() && out@[j] == q;
                        assert(old_out[j] == q);
                    }
                    if old_out.contains(q) {
                        let j = choose|j: int| 0 <= j < old_out.len() && old_out[j] == q;
                        assert(out@[j] == q);
                    }
                    if q == k {
                        assert(out@[old_out.len() as int] == q);
                    }
                }
            }
        }
        i = i + 1;
    }
    assert(keys@.subrange(0, keys@.len() as int) =~= keys@);
    assert(out@.to_set() =~= target);
    proof {
        out@.unique_seq_to_set();
    }
    out
}

/// Appends the candidates at the given positions, in the order of the
/// positions, with their peers.
pub fn append_chosen(
    store: &PeerStore,
    cands: &Vec<PeerKey>,
    positions: &Vec<usize>,
    keys: &mut Vec<PeerKey>,
    peers: &mut Vec<Peer>,
)
    requires
        old(keys)@.len() == old(peers)@.len(),
        forall|i: int| 0 <= i < cands@.len() ==> store@.dom().contains(#[trigger] cands@[i]),
        forall|i: int| 0 <= i < positions@.len() ==> positions@[i] < cands@.len(),
    ensures
        final(keys)@ == old(keys)@ + positions@.map_values(|p: usize| cands@[p as int]),
        final(peers)@ == old(peers)@ + positions@.map_values(|p: usize| store@[cands@[p as int]]),
{
    let ghost base = keys@.len();
    let mut j: usize = 0;
    while j < positions.len()
        invariant
            0 <= j <= positions@.len(),
            forall|i: int| 0 <= i < positions@.len() ==> positions@[i] < cands@.len(),
            forall|i: int| 0 <= i < cands@.len() ==> store@.dom().contains(#[trigger] cands@[i]),
            base == old(keys)@.len(),
            keys@ == old(keys)@ + positions@.take(j as int).map_values(|p: usize| cands@[p as int]),
            peers@ == old(peers)@ + positions@.take(j as int).map_values(|p: usize| store@[cands@[p as int]]),
        decreases positions@.len() - j,
    {
        let k = cands[positions[j]];
        assert(store@.dom().contains(k));
        let peer = store.get(k).unwrap();
        keys.push(k);
        peers.push(peer);
        assert(positions@.take(j + 1) =~= positions@.take(j as int).push(positions@[j as int]));
        assert(keys@ =~= old(keys)@ + positions@.take(j + 1).map_values(|p: usize| cands@[p as int]));
        assert(peers@ =~= old(peers)@ + positions@.take(j + 1).map_values(|p: usize| store@[cands@[p as int]]));
        j = j + 1;
    }
    assert(positions@.take(positions@.len() as int) =~= positions@);
}

/// Picks `amount` candidates (or all, if fewer) at random and appends their
/// keys and peers. No more positions than there are candidates are asked
/// for: the draw gives the same positions either way.
fn append_random(store: &PeerStore, cands: &Vec<PeerKey>, amount: usize, keys: &mut Vec<PeerKey>, peers: &mut Vec<Peer>)
    requires
        cands@.len() <= isize::MAX / 24,
        old(keys)@.len() == old(peers)@.len(),
        forall|i: int| 0 <= i < cands@.len() ==> store@.dom().contains(#[trigger] cands@[i]),
        cands@.no_duplicates(),
    ensures
        final(keys)@.len() == final(peers)@.len(),
        final(keys)@.len() == old(keys)@.len() + min_nat(cands@.len(), amount as nat),
        final(keys)@.subrange(0, old(keys)@.len() as int) == old(keys)@,
        final(peers)@.subrange(0, old(peers)@.len() as int) == old(peers)@,
        forall|i: int| old(keys)@.len() <= i < final(keys)@.len() ==> cands@.contains(#[trigger] final(keys)@[i]),
        final(keys)@.subrange(old(keys)@.len() as int, final(keys)@.len() as int).no_duplicates(),
        forall|i: int| old(keys)@.len() <= i < final(keys)@.len() ==> final(peers)@[i] == store@[#[trigger] final(keys)@[i]],
{
    let capped = if amount < cands.len() { amount } else { cands.len() };
    let positions = choose_positions(cands.len(), capped);
    let ghost base = keys@.len();
    append_chosen(store, cands, &positions, keys, peers);
    proof {
        let added = keys@.subrange(base as int, keys@.len() as int);
        assert(keys@.subrange(0, base as int) =~= old(keys)@);
        assert(peers@.subrange(0, base as int) =~= old(peers)@);
        assert forall|i: int| 0 <= i < positions@.len() implies #[trigger] keys@[base + i] == cands@[positions@[i] as int] by {}
        assert forall|a: int, b: int| 0 <= a < added.len() && 0 <= b < added.len() && a != b implies added[a] != added[b] by {
            assert(added[a] == keys@[base + a]);
            assert(added[b] == keys@[base + b]);
            assert(positions@[a] != positions@[b]);
        }
        assert forall|i: int| base <= i < keys@.len() implies cands@.contains(#[trigger] keys@[i]) by {
            assert(keys@[base + (i - base)] == cands@[positions@[i - base] as int]);
        }
        assert forall|i: int| base <= i < keys@.len() implies peers@[i] == store@[#[trigger] keys@[i]] by {
            assert(keys@[base + (i - base)] == cands@[positions@[i - base] as int]);
        }
    }
}

/// Some choice of `n_seeds` seed candidates followed by leech candidates
/// yields exactly `peers`.
pub open spec fn has_valid_choice(store: Map<PeerKey, Peer>, user_id: u32, require_peer_connectivity: bool, n_seeds: nat, peers: Seq<Peer>) -> bool {
    exists|chosen: Seq<PeerKey>| #[trigger] is_valid_choice(store, user_id, require_peer_connectivity, chosen, n_seeds, peers)
}

/// How many seeds are handed out: up to `numwant`, when the seed list is
/// handed out at all.
pub open spec fn seed_share(store: Map<PeerKey, Peer>, user_id: u32, require_peer_connectivity: bool, numwant: nat, handed: bool) -> nat {
    if handed {
        min_nat(numwant, seed_candidates(store, user_id, require_peer_connectivity).len())
    } else {
        0
    }
}

/// How many leeches are handed out: enough to fill `numwant` after the
/// `n_seeds` seeds, when the leech list is handed out at all.
pub open spec fn leech_share(store: Map<PeerKey, Peer>, user_id: u32, require_peer_connectivity: bool, numwant: nat, n_seeds: nat, handed: bool) -> nat {
    if handed {
        min_nat((numwant - n_seeds) as nat, leech_candidates(store, user_id, require_peer_connectivity).len())
    } else {
        0
    }
}

/// Chooses the peers handed to an announcing leech or seed (only called when
/// the announce is not a stop, the torrent has leeches, and no warning was
/// raised). Leeches get seeds first, up to `numwant`; the list is then filled
/// with leeches. A list whose rate limit is exceeded is requested but not
/// handed out. Which candidates are chosen is random.
#[verifier::spinoff_prover]
pub fn select_peers(
    store: &PeerStore,
    user_id: u32,
    require_peer_connectivity: bool,
    left: u64,
    numwant: usize,
    seeders: u32,
    leechers: u32,
    seed_list_under_limit: bool,
    leech_list_under_limit: bool,
) -> (r: PeerSelection)
    ensures
        r.has_requested_seed_list == (left > 0 && seeders > 0 && numwant > 0),
        r.is_over_seed_list_rate_limit == (r.has_requested_seed_list && !seed_list_under_limit),
        r.has_requested_leech_list == (leechers > 0 && numwant > seed_share(
            store@,
            user_id,
            require_peer_connectivity,
            numwant as nat,
            r.has_requested_seed_list && seed_list_under_limit,
        )),
        r.is_over_leech_list_rate_limit == (r.has_requested_leech_list && !leech_list_under_limit),
        r.peers@.len() == seed_share(
            store@,
            user_id,
            require_peer_connectivity,
            numwant as nat,
            r.has_requested_seed_list && seed_list_under_limit,
        ) + leech_share(
            store@,
            user_id,
            require_peer_connectivity,
            numwant as nat,
            seed_share(
                store@,
                user_id,
                require_peer_connectivity,
                numwant as nat,
                r.has_requested_seed_list && seed_list_under_limit,
            ),
            r.has_requested_leech_list && leech_list_under_limit,
        ),
        has_valid_choice(
            store@,
            user_id,
            require_peer_connectivity,
            seed_share(
                store@,
                user_id,
                require_peer_connectivity,
                numwant as nat,
                r.has_requested_seed_list && seed_list_under_limit,
            ),
            r.peers@,
        ),
{
    let mut keys: Vec<PeerKey> = Vec::new();
    let mut peers: Vec<Peer> = Vec::new();
    let mut has_requested_seed_list = false;
    let mut has_requested_leech_list = false;
    let mut is_over_seed_list_rate_limit = false;
    let mut is_over_leech_list_rate_limit = false;

    let ghost seeds_set = seed_candidates(store@, user_id, require_peer_connectivity);
    let ghost leeches_set = leech_candidates(store@, user_id, require_peer_connectivity);

    // Make sure leech peer lists are filled with seeds
    if left > 0 && seeders > 0 && numwant > 0 {
        has_requested_seed_list = true;
        if seed_list_under_limit {
            let cands = candidates(store, user_id, require_peer_connectivity, true);
            proof {
                assert forall|i: int| 0 <= i < cands@.len() implies store@.dom().contains(#[trigger] cands@[i]) by {
                    assert(cands@.to_set().contains(cands@[i]));
                }
            }
            append_random(store, &cands, numwant, &mut keys, &mut peers);
            proof {
                assert(keys@.subrange(0, keys@.len() as int) =~= keys@);
                assert forall|i: int| 0 <= i < keys@.len() implies seeds_set.contains(#[trigger] keys@[i]) by {
                    assert(cands@.contains(keys@[i]));
                    assert(cands@.to_set().contains(keys@[i]));
                }
            }
        } else {
            is_over_seed_list_rate_limit = true;
        }
    }
    let ghost n_seeds = keys@.len();
    let ghost seed_keys = keys@;
    let ghost seed_peers = peers@;
    assert(keys@.no_duplicates()) by {
        if keys@.len() > 0 {
            assert(keys@.subrange(0, keys@.len() as int) =~= keys@);
        }
    }
    assert(forall|i: int| 0 <= i < n_seeds ==> seeds_set.contains(#[trigger] keys@[i]));
    assert(forall|i: int| 0 <= i < n_seeds ==> peers@[i] == store@[#[trigger] keys@[i]]);
    assert(n_seeds == seed_share(store@, user_id, require_peer_connectivity, numwant as nat, has_requested_seed_list && seed_list_under_limit));
    assert(peers@.len() == n_seeds);

    // Otherwise only send leeches until the numwant is reached
    if leechers > 0 && numwant > peers.len() {
        has_requested_leech_list = true;
        if leech_list_under_limit {
            let cands = candidates(store, user_id, require_peer_connectivity, false);
            proof {
                assert forall|i: int| 0 <= i < cands@.len() implies store@.dom().contains(#[trigger] cands@[i]) by {
                    assert(cands@.to_set().contains(cands@[i]));
                }
            }
            append_random(store, &cands, numwant - peers.len(), &mut keys, &mut peers);
            proof {
                assert forall|i: int| 0 <= i < n_seeds implies keys@[i] == #[trigger] seed_keys[i] by {
                    assert(keys@.subrange(0, n_seeds as int)[i] == keys@[i]);
                }
                assert forall|i: int| 0 <= i < n_seeds implies peers@[i] == #[trigger] seed_peers[i] by {
                    assert(peers@.subrange(0, n_seeds as int)[i] == peers@[i]);
                }
                assert forall|i: int| n_seeds <= i < keys@.len() implies leeches_set.contains(#[trigger] keys@[i]) by {
                    assert(cands@.contains(keys@[i]));
                    assert(cands@.to_set().contains(keys@[i]));
                }
                assert forall|i: int| 0 <= i < n_seeds implies seeds_set.contains(#[trigger] keys@[i]) by {
                    assert(keys@[i] == seed_keys[i]);
                }
                assert forall|i: int| 0 <= i < keys@.len() implies peers@[i] == store@[#[trigger] keys@[i]] by {
                    if i < n_seeds {
                        assert(keys@[i] == seed_keys[i]);
                        assert(peers@[i] == seed_peers[i]);
                    }
                }
                let added = keys@.subrange(n_seeds as int, keys@.len() as int);
                assert forall|a: int, b: int| 0 <= a < keys@.len() && 0 <= b < keys@.len() && a != b implies keys@[a] != keys@[b] by {
                    if a < n_seeds && b < n_seeds {
                        assert(keys@[a] == seed_keys[a]);
                        assert(keys@[b] == seed_keys[b]);
                    } else if a >= n_seeds && b >= n_seeds {
                        assert(added[a - n_seeds] == keys@[a]);
                        assert(added[b - n_seeds] == keys@[b]);
                    } else if a < n_seeds {
                        assert(seeds_set.contains(keys@[a]));
                        assert(store@[keys@[a]].is_seeder);
                        assert(leeches_set.contains(keys@[b]));
                        assert(!store@[keys@[b]].is_seeder);
                    } else {
                        assert(seeds_set.contains(keys@[b]));
                        assert(store@[keys@[b]].is_seeder);
                        assert(leeches_set.contains(keys@[a]));
                        assert(!store@[keys@[a]].is_seeder);
                    }
                }
            }
        } else {
            is_over_leech_list_rate_limit = true;
        }
    }
    proof {
        let ns = seed_share(store@, user_id, require_peer_connectivity, numwant as nat, has_requested_seed_list && seed_list_under_limit);
        assert(ns == n_seeds);
        assert(is_valid_choice(store@, user_id, require_peer_connectivity, keys@, ns, peers@));
    }
    PeerSelection {
        peers,
        has_requested_seed_list,
        has_requested_leech_list,
        is_over_seed_list_rate_limit,
        is_over_leech_list_rate_limit,
    }
}

/// The peers handed out for an announce belong to other users, are handed
/// out in peer lists (active, visible and, when required, connectable), are
/// distinct peers of the torrent, and are no more than the client wanted.
pub proof fn lemma_handed_peers_eligible(
    store: Map<PeerKey, Peer>,
    user_id: u32,
    require_peer_connectivity: bool,
    numwant: nat,
    seeds_handed: bool,
    leeches_handed: bool,
    peers: Seq<Peer>,
)
    requires
        has_valid_choice(
            store,
            user_id,
            require_peer_connectivity,
            seed_share(store, user_id, require_peer_connectivity, numwant, seeds_handed),
            peers,
        ),
        peers.len() == seed_share(store, user_id, require_peer_connectivity, numwant, seeds_handed) + leech_share(
            store,
            user_id,
            require_peer_connectivity,
            numwant,
            seed_share(store, user_id, require_peer_connectivity, numwant, seeds_handed),
            leeches_handed,
        ),
    ensures
        peers.len() <= numwant,
        forall|i: int| 0 <= i < peers.len() ==> #[trigger] peers[i].spec_in_peer_list(require_peer_connectivity),
        exists|chosen: Seq<PeerKey>|
            {
                &&& chosen.no_duplicates()
                &&& chosen.len() == peers.len()
                &&& forall|i: int|
                    0 <= i < chosen.len() ==> {
                        &&& (#[trigger] chosen[i]).0 != user_id
                        &&& store.dom().contains(chosen[i])
                        &&& store[chosen[i]] == peers[i]
                    }
            },
{
    let n_seeds = seed_share(store, user_id, require_peer_connectivity, numwant, seeds_handed);
    let chosen = choose|chosen: Seq<PeerKey>| is_valid_choice(store, user_id, require_peer_connectivity, chosen, n_seeds, peers);
    assert forall|i: int| 0 <= i < chosen.len() implies {
        &&& (#[trigger] chosen[i]).0 != user_id
        &&& store.dom().contains(chosen[i])
        &&& store[chosen[i]] == peers[i]
        &&& peers[i].spec_in_peer_list(require_peer_connectivity)
    } by {
        if i < n_seeds {
            assert(seed_candidates(store, user_id, require_peer_connectivity).contains(chosen[i]));
        } else {
            assert(leech_candidates(store, user_id, require_peer_connectivity).contains(chosen[i]));
        }
    }
    assert forall|i: int| 0 <= i < peers.len() implies #[trigger] peers[i].spec_in_peer_list(require_peer_connectivity) by {
        assert(store[chosen[i]] == peers[i]);
        assert(chosen[i] == chosen[i]);
    }
}

/// The two bytes of a port, most significant first.
pub open spec fn port_bytes(port: u16) -> Seq<u8> {
    seq![(port / 256) as u8, (port % 256) as u8]
}

/// Compact encoding of the IPv4 peers of a list: 4 address bytes and 2 port
/// bytes each, in list order.
pub open spec fn compact_v4(peers: Seq<Peer>) -> Seq<u8>
    decreases peers.len(),
{
    if peers.len() == 0 {
        Seq::empty()
    } else {
        compact_v4(peers.drop_last()) + match peers.last().ip_address {
            IpAddress::V4(octets) => octets@ + port_bytes(peers.last().port),
            IpAddress::V6(_) => Seq::empty(),
        }
    }
}

/// Compact encoding of the IPv6 peers of a list: 16 address bytes and 2 port
/// bytes each, in list order.
pub open spec fn compact_v6(peers: Seq<Peer>) -> Seq<u8>
    decreases peers.len(),
{
    if peers.len() == 0 {
        Seq::empty()
    } else {
        compact_v6(peers.drop_last()) + match peers.last().ip_address {
            IpAddress::V4(_) => Seq::empty(),
            IpAddress::V6(octets) => octets@ + port_bytes(peers.last().port),
        }
    }
}

/// Splits the chosen peers into IPv4 and IPv6 and writes each compactly, as
/// the BitTorrent spec asks.
pub fn encode_peers(peers: &Vec<Peer>) -> (r: (Vec<u8>, Vec<u8>))
    ensures
        r.0@ == compact_v4(peers@),
        r.1@ == compact_v6(peers@),
{
    let mut v4: Vec<u8> = Vec::new();
    let mut v6: Vec<u8> = Vec::new();
    let mut i: usize = 0;
    while i < peers.len()
        invariant
            0 <= i <= peers@.len(),
            v4@ == compact_v4(peers@.subrange(0, i as int)),
            v6@ == compact_v6(peers@.subrange(0, i as int)),
        decreases peers@.len() - i,
    {
        let peer = peers[i];
        let hi = (peer.port / 256) as u8;
        let lo = (peer.port % 256) as u8;
        match peer.ip_address {
            IpAddress::V4(octets) => {
                crate::bytes::extend_bytes(&mut v4, &octets);
                v4.push(hi);
                v4.push(lo);
            },
            IpAddress::V6(octets) => {
                crate::bytes::extend_bytes(&mut v6, &octets);
                v6.push(hi);
                v6.push(lo);
            },
        }
        proof {
            let p = peers@.subrange(0, i + 1);
            assert(p.drop_last() =~= peers@.subrange(0, i as int));
            assert(p.last() == peer);
            assert(v4@ =~= compact_v4(p));
            assert(v6@ =~= compact_v6(p));
        }
        i = i + 1;
    }
    assert(peers@.subrange(0, peers@.len() as int) =~= peers@);
    (v4, v6)
}

} // verus!
