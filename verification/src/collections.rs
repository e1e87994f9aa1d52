//! The in-memory stores keep the tracker's state in `indexmap` collections.
//! Verus sees them through the trusted items of this module: for each kind of
//! map or set a name for its contents, and one wrapper per method the logic
//! calls, whose contract says what `indexmap`'s documentation promises.
use vstd::prelude::*;
use indexmap::{IndexMap, IndexSet};

use crate::group::Group;
use crate::peer::Peer;
use crate::scheduler::history_update::HistoryUpdate;
use crate::scheduler::peer_deactivation::PeerDeactivation;
use crate::scheduler::peer_update::PeerUpdate;
use crate::scheduler::torrent_update::TorrentUpdate;
use crate::scheduler::unregistered_info_hash_update::UnregisteredInfoHashUpdate;
use crate::scheduler::user_update::UserUpdate;
use crate::torrent::Torrent;
use crate::user::User;

verus! {

#[verifier::external_type_specification]
#[verifier::external_body]
#[verifier::reject_recursive_types(K)]
#[verifier::reject_recursive_types(V)]
#[verifier::reject_recursive_types(S)]
pub struct ExIndexMap<K, V, S>(IndexMap<K, V, S>);

#[verifier::external_type_specification]
#[verifier::external_body]
#[verifier::reject_recursive_types(T)]
#[verifier::reject_recursive_types(S)]
pub struct ExIndexSet<T, S>(IndexSet<T, S>);

/// Key of a peer within a torrent: the user id and the 20-byte peer id.
pub type PeerKey = (u32, [u8; 20]);

/// Peers of one torrent.
pub type PeerIndexMap = IndexMap<PeerKey, Peer>;
/// Torrents by id.
pub type TorrentIndexMap = IndexMap<u32, Torrent>;
/// Users by id.
pub type UserIndexMap = IndexMap<u32, User>;
/// Groups by id.
pub type GroupIndexMap = IndexMap<i32, Group>;
/// User ids by passkey.
pub type PasskeyIndexMap = IndexMap<[u8; 32], u32>;
/// Torrent ids by info hash.
pub type InfoHashIndexMap = IndexMap<[u8; 20], u32>;

// ---------------------------------------------------------------------------
// Peers of one torrent: PeerIndexMap

/// What a peer map holds, key to value.
pub uninterp spec fn peer_map_contents(m: PeerIndexMap) -> Map<PeerKey, Peer>;

/// `IndexMap::new`: an empty map.
#[verifier::external_body]
pub(crate) fn peer_map_new() -> (r: PeerIndexMap)
    ensures
        peer_map_contents(r).dom() == Set::<PeerKey>::empty(),
{
    IndexMap::new()
}

/// `IndexMap::get`, copied out: the value stored under `k`, if any.
#[verifier::external_body]
pub(crate) fn peer_map_get(m: &PeerIndexMap, k: PeerKey) -> (r: Option<Peer>)
    ensures
        r == peer_map_contents(*m).get(k),
{
    m.get(&k).copied()
}

/// `IndexMap::insert`: stores `v` under `k` and returns the value it replaced.
#[verifier::external_body]
pub(crate) fn peer_map_insert(m: &mut PeerIndexMap, k: PeerKey, v: Peer) -> (r: Option<Peer>)
    ensures
        r == peer_map_contents(*old(m)).get(k),
        peer_map_contents(*final(m)) == peer_map_contents(*old(m)).insert(k, v),
{
    m.insert(k, v)
}

/// `IndexMap::swap_remove`: removes `k` and returns its value, if it was there.
#[verifier::external_body]
pub(crate) fn peer_map_swap_remove(m: &mut PeerIndexMap, k: PeerKey) -> (r: Option<Peer>)
    ensures
        r == peer_map_contents(*old(m)).get(k),
        peer_map_contents(*final(m)) == peer_map_contents(*old(m)).remove(k),
{
    m.swap_remove(&k)
}

/// `IndexMap::keys`, collected: every key of the map, once each. The keys
/// (at least 24 bytes each) sit in a `Vec`, which never holds more than
/// `isize::MAX` bytes.
#[verifier::external_body]
pub(crate) fn peer_map_keys(m: &PeerIndexMap) -> (r: Vec<PeerKey>)
    ensures
        r@.no_duplicates(),
        forall|k: PeerKey| #[trigger] r@.contains(k) <==> peer_map_contents(*m).dom().contains(k),
        r@.len() == peer_map_contents(*m).len(),
        r@.len() <= isize::MAX / 24,
{
    m.keys().copied().collect()
}

// ---------------------------------------------------------------------------
// Torrents: TorrentIndexMap

/// What the torrent map holds, torrent id to torrent.
pub uninterp spec fn torrent_map_contents(m: TorrentIndexMap) -> Map<u32, Torrent>;

/// `IndexMap::new`: an empty map.
#[verifier::external_body]
pub(crate) fn torrent_map_new() -> (r: TorrentIndexMap)
    ensures
        torrent_map_contents(r).dom() == Set::<u32>::empty(),
{
    IndexMap::new()
}

/// `IndexMap::get`: a reference to the torrent stored under `k`, if any.
#[verifier::external_body]
pub(crate) fn torrent_map_get(m: &TorrentIndexMap, k: u32) -> (r: Option<&Torrent>)
    ensures
        r is Some <==> torrent_map_contents(*m).dom().contains(k),
        r matches Some(t) ==> *t == torrent_map_contents(*m)[k],
{
    m.get(&k)
}

/// `IndexMap::get_mut` with `std::mem::take`: moves the torrent stored under
/// `k` out, leaving `Torrent::default()` in its place (the key keeps its
/// place); the placeholder is what that verified `default` ensures.
#[verifier::external_body]
pub(crate) fn torrent_map_take(m: &mut TorrentIndexMap, k: u32) -> (r: Option<Torrent>)
    ensures
        r == torrent_map_contents(*old(m)).get(k),
        torrent_map_contents(*final(m)).dom() == torrent_map_contents(*old(m)).dom(),
        forall|j: u32| j != k ==> torrent_map_contents(*final(m)).get(j) == torrent_map_contents(*old(m)).get(j),
        torrent_map_contents(*old(m)).contains_key(k) ==> crate::torrent::is_placeholder(torrent_map_contents(*final(m))[k]),
{
    m.get_mut(&k).map(std::mem::take)
}

/// `IndexMap::insert`: stores `v` under `k`, returning the replaced value.
#[verifier::external_body]
pub(crate) fn torrent_map_insert(m: &mut TorrentIndexMap, k: u32, v: Torrent) -> (r: Option<Torrent>)
    ensures
        r == torrent_map_contents(*old(m)).get(k),
        torrent_map_contents(*final(m)) == torrent_map_contents(*old(m)).insert(k, v),
{
    m.insert(k, v)
}

/// `IndexMap::swap_remove`: removes `k` and returns its value, if it was there.
#[verifier::external_body]
pub(crate) fn torrent_map_swap_remove(m: &mut TorrentIndexMap, k: u32) -> (r: Option<Torrent>)
    ensures
        r == torrent_map_contents(*old(m)).get(k),
        torrent_map_contents(*final(m)) == torrent_map_contents(*old(m)).remove(k),
{
    m.swap_remove(&k)
}

/// `IndexMap::keys`, collected: every key of the map, once each.
#[verifier::external_body]
pub(crate) fn torrent_map_keys(m: &TorrentIndexMap) -> (r: Vec<u32>)
    ensures
        r@.no_duplicates(),
        forall|k: u32| #[trigger] r@.contains(k) <==> torrent_map_contents(*m).dom().contains(k),
        r@.len() == torrent_map_contents(*m).len(),
{
    m.keys().copied().collect()
}

// ---------------------------------------------------------------------------
// Users: UserIndexMap

/// What the user map holds, user id to user.
pub uninterp spec fn user_map_contents(m: UserIndexMap) -> Map<u32, User>;

/// `IndexMap::new`: an empty map.
#[verifier::external_body]
pub(crate) fn user_map_new() -> (r: UserIndexMap)
    ensures
        user_map_contents(r).dom() == Set::<u32>::empty(),
{
    IndexMap::new()
}

/// `IndexMap::get`, copied out: the user stored under `k`, if any.
#[verifier::external_body]
pub(crate) fn user_map_get(m: &UserIndexMap, k: u32) -> (r: Option<User>)
    ensures
        r == user_map_contents(*m).get(k),
{
    m.get(&k).copied()
}

/// `IndexMap::insert`: stores `v` under `k`, returning the replaced value.
#[verifier::external_body]
pub(crate) fn user_map_insert(m: &mut UserIndexMap, k: u32, v: User) -> (r: Option<User>)
    ensures
        r == user_map_contents(*old(m)).get(k),
        user_map_contents(*final(m)) == user_map_contents(*old(m)).insert(k, v),
{
    m.insert(k, v)
}

/// `IndexMap::swap_remove`: removes `k` and returns its value, if it was there.
#[verifier::external_body]
pub(crate) fn user_map_swap_remove(m: &mut UserIndexMap, k: u32) -> (r: Option<User>)
    ensures
        r == user_map_contents(*old(m)).get(k),
        user_map_contents(*final(m)) == user_map_contents(*old(m)).remove(k),
{
    m.swap_remove(&k)
}

/// `IndexMap::len`: the number of users.
#[verifier::external_body]
pub(crate) fn user_map_len(m: &UserIndexMap) -> (r: usize)
    ensures
        r == user_map_contents(*m).len(),
{
    m.len()
}

// ---------------------------------------------------------------------------
// Groups: GroupIndexMap

/// What the group map holds, group id to group.
pub uninterp spec fn group_map_contents(m: GroupIndexMap) -> Map<i32, Group>;

/// `IndexMap::new`: an empty map.
#[verifier::external_body]
pub(crate) fn group_map_new() -> (r: GroupIndexMap)
    ensures
        group_map_contents(r).dom() == Set::<i32>::empty(),
{
    IndexMap::new()
}

/// `IndexMap::get`: a reference to the group stored under `k`, if any.
#[verifier::external_body]
pub(crate) fn group_map_get(m: &GroupIndexMap, k: i32) -> (r: Option<&Group>)
    ensures
        r is Some <==> group_map_contents(*m).dom().contains(k),
        r matches Some(g) ==> *g == group_map_contents(*m)[k],
{
    m.get(&k)
}

/// `IndexMap::insert`: stores `v` under `k`, returning the replaced value.
#[verifier::external_body]
pub(crate) fn group_map_insert(m: &mut GroupIndexMap, k: i32, v: Group) -> (r: Option<Group>)
    ensures
        r == group_map_contents(*old(m)).get(k),
        group_map_contents(*final(m)) == group_map_contents(*old(m)).insert(k, v),
{
    m.insert(k, v)
}

/// `IndexMap::swap_remove`: removes `k` and returns its value, if it was there.
#[verifier::external_body]
pub(crate) fn group_map_swap_remove(m: &mut GroupIndexMap, k: i32) -> (r: Option<Group>)
    ensures
        r == group_map_contents(*old(m)).get(k),
        group_map_contents(*final(m)) == group_map_contents(*old(m)).remove(k),
{
    m.swap_remove(&k)
}

/// `IndexMap::len`: the number of groups.
#[verifier::external_body]
pub(crate) fn group_map_len(m: &GroupIndexMap) -> (r: usize)
    ensures
        r == group_map_contents(*m).len(),
{
    m.len()
}

// ---------------------------------------------------------------------------
// Passkey to user id: PasskeyIndexMap

/// What the passkey map holds, passkey bytes to user id.
pub uninterp spec fn passkey_map_contents(m: PasskeyIndexMap) -> Map<[u8; 32], u32>;

/// `IndexMap::new`: an empty map.
#[verifier::external_body]
pub(crate) fn passkey_map_new() -> (r: PasskeyIndexMap)
    ensures
        passkey_map_contents(r).dom() == Set::<[u8; 32]>::empty(),
{
    IndexMap::new()
}

/// `IndexMap::get`, copied out: the user id stored under `k`, if any.
#[verifier::external_body]
pub(crate) fn passkey_map_get(m: &PasskeyIndexMap, k: [u8; 32]) -> (r: Option<u32>)
    ensures
        r == passkey_map_contents(*m).get(k),
{
    m.get(&k).copied()
}

/// `IndexMap::insert`: stores `v` under `k`, returning the replaced value.
#[verifier::external_body]
pub(crate) fn passkey_map_insert(m: &mut PasskeyIndexMap, k: [u8; 32], v: u32) -> (r: Option<u32>)
    ensures
        r == passkey_map_contents(*old(m)).get(k),
        passkey_map_contents(*final(m)) == passkey_map_contents(*old(m)).insert(k, v),
{
    m.insert(k, v)
}

/// `IndexMap::swap_remove`: removes `k` and returns its value, if it was there.
#[verifier::external_body]
pub(crate) fn passkey_map_swap_remove(m: &mut PasskeyIndexMap, k: [u8; 32]) -> (r: Option<u32>)
    ensures
        r == passkey_map_contents(*old(m)).get(k),
        passkey_map_contents(*final(m)) == passkey_map_contents(*old(m)).remove(k),
{
    m.swap_remove(&k)
}

/// `IndexMap::len`: the number of passkeys.
#[verifier::external_body]
pub(crate) fn passkey_map_len(m: &PasskeyIndexMap) -> (r: usize)
    ensures
        r == passkey_map_contents(*m).len(),
{
    m.len()
}

// ---------------------------------------------------------------------------
// Info hash to torrent id: InfoHashIndexMap

/// What the info hash map holds, info hash bytes to torrent id.
pub uninterp spec fn info_hash_map_contents(m: InfoHashIndexMap) -> Map<[u8; 20], u32>;

/// `IndexMap::new`: an empty map.
#[verifier::external_body]
pub(crate) fn info_hash_map_new() -> (r: InfoHashIndexMap)
    ensures
        info_hash_map_contents(r).dom() == Set::<[u8; 20]>::empty(),
{
    IndexMap::new()
}

/// `IndexMap::get`, copied out: the torrent id stored under `k`, if any.
#[verifier::external_body]
pub(crate) fn info_hash_map_get(m: &InfoHashIndexMap, k: [u8; 20]) -> (r: Option<u32>)
    ensures
        r == info_hash_map_contents(*m).get(k),
{
    m.get(&k).copied()
}

/// `IndexMap::insert`: stores `v` under `k`, returning the replaced value.
#[verifier::external_body]
pub(crate) fn info_hash_map_insert(m: &mut InfoHashIndexMap, k: [u8; 20], v: u32) -> (r: Option<u32>)
    ensures
        r == info_hash_map_contents(*old(m)).get(k),
        info_hash_map_contents(*final(m)) == info_hash_map_contents(*old(m)).insert(k, v),
{
    m.insert(k, v)
}

/// `IndexMap::len`: the number of info hashes.
#[verifier::external_body]
pub(crate) fn info_hash_map_len(m: &InfoHashIndexMap) -> (r: usize)
    ensures
        r == info_hash_map_contents(*m).len(),
{
    m.len()
}

// ---------------------------------------------------------------------------
// Sets of ids: IndexSet<u32> (personal freeleeches, featured torrents)

/// What a set of ids holds.
pub uninterp spec fn id_set_contents(s: IndexSet<u32>) -> Set<u32>;

/// `IndexSet::new`: an empty set.
#[verifier::external_body]
pub(crate) fn id_set_new() -> (r: IndexSet<u32>)
    ensures
        id_set_contents(r) == Set::<u32>::empty(),
{
    IndexSet::new()
}

/// `IndexSet::contains`.
#[verifier::external_body]
pub(crate) fn id_set_contains(s: &IndexSet<u32>, v: u32) -> (r: bool)
    ensures
        r == id_set_contents(*s).contains(v),
{
    s.contains(&v)
}

/// `IndexSet::insert`: adds `v`; true when it was not there yet.
#[verifier::external_body]
pub(crate) fn id_set_insert(s: &mut IndexSet<u32>, v: u32) -> (r: bool)
    ensures
        r == !id_set_contents(*old(s)).contains(v),
        id_set_contents(*final(s)) == id_set_contents(*old(s)).insert(v),
{
    s.insert(v)
}

/// `IndexSet::swap_remove`: removes `v`; true when it was there.
#[verifier::external_body]
pub(crate) fn id_set_swap_remove(s: &mut IndexSet<u32>, v: u32) -> (r: bool)
    ensures
        r == id_set_contents(*old(s)).contains(v),
        id_set_contents(*final(s)) == id_set_contents(*old(s)).remove(v),
{
    s.swap_remove(&v)
}

/// `IndexSet::len`: the number of ids.
#[verifier::external_body]
pub(crate) fn id_set_len(s: &IndexSet<u32>) -> (r: usize)
    ensures
        r == id_set_contents(*s).len(),
{
    s.len()
}

// ---------------------------------------------------------------------------
// Sets of id pairs: IndexSet<(u32, u32)> (freeleech tokens)

/// What a set of id pairs holds.
pub uninterp spec fn pair_set_contents(s: IndexSet<(u32, u32)>) -> Set<(u32, u32)>;

/// `IndexSet::new`: an empty set.
#[verifier::external_body]
pub(crate) fn pair_set_new() -> (r: IndexSet<(u32, u32)>)
    ensures
        pair_set_contents(r) == Set::<(u32, u32)>::empty(),
{
    IndexSet::new()
}

/// `IndexSet::contains`.
#[verifier::external_body]
pub(crate) fn pair_set_contains(s: &IndexSet<(u32, u32)>, v: (u32, u32)) -> (r: bool)
    ensures
        r == pair_set_contents(*s).contains(v),
{
    s.contains(&v)
}

/// `IndexSet::insert`: adds `v`; true when it was not there yet.
#[verifier::external_body]
pub(crate) fn pair_set_insert(s: &mut IndexSet<(u32, u32)>, v: (u32, u32)) -> (r: bool)
    ensures
        r == !pair_set_contents(*old(s)).contains(v),
        pair_set_contents(*final(s)) == pair_set_contents(*old(s)).insert(v),
{
    s.insert(v)
}

/// `IndexSet::swap_remove`: removes `v`; true when it was there.
#[verifier::external_body]
pub(crate) fn pair_set_swap_remove(s: &mut IndexSet<(u32, u32)>, v: (u32, u32)) -> (r: bool)
    ensures
        r == pair_set_contents(*old(s)).contains(v),
        pair_set_contents(*final(s)) == pair_set_contents(*old(s)).remove(v),
{
    s.swap_remove(&v)
}

/// `IndexSet::len`: the number of pairs.
#[verifier::external_body]
pub(crate) fn pair_set_len(s: &IndexSet<(u32, u32)>) -> (r: usize)
    ensures
        r == pair_set_contents(*s).len(),
{
    s.len()
}

// ---------------------------------------------------------------------------
// Sets of ports: IndexSet<u16> (blacklisted ports)

/// What a set of ports holds.
pub uninterp spec fn port_set_contents(s: IndexSet<u16>) -> Set<u16>;

/// `IndexSet::new`: an empty set.
#[verifier::external_body]
pub(crate) fn port_set_new() -> (r: IndexSet<u16>)
    ensures
        port_set_contents(r) == Set::<u16>::empty(),
{
    IndexSet::new()
}

/// `IndexSet::contains`.
#[verifier::external_body]
pub(crate) fn port_set_contains(s: &IndexSet<u16>, v: u16) -> (r: bool)
    ensures
        r == port_set_contents(*s).contains(v),
{
    s.contains(&v)
}

/// `IndexSet::insert`: adds `v`; true when it was not there yet.
#[verifier::external_body]
pub(crate) fn port_set_insert(s: &mut IndexSet<u16>, v: u16) -> (r: bool)
    ensures
        r == !port_set_contents(*old(s)).contains(v),
        port_set_contents(*final(s)) == port_set_contents(*old(s)).insert(v),
{
    s.insert(v)
}

/// `IndexSet::len`: the number of ports.
#[verifier::external_body]
pub(crate) fn port_set_len(s: &IndexSet<u16>) -> (r: usize)
    ensures
        r == port_set_contents(*s).len(),
{
    s.len()
}

// ---------------------------------------------------------------------------
// Sets of byte strings: IndexSet<Vec<u8>> (blacklisted peer id prefixes)

/// What a set of byte strings holds, each by its bytes.
pub uninterp spec fn bytes_set_contents(s: IndexSet<Vec<u8>>) -> Set<Seq<u8>>;

/// `IndexSet::new`: an empty set.
#[verifier::external_body]
pub(crate) fn bytes_set_new() -> (r: IndexSet<Vec<u8>>)
    ensures
        bytes_set_contents(r) == Set::<Seq<u8>>::empty(),
{
    IndexSet::new()
}

/// `IndexSet::insert`: adds `v`; true when it was not there yet.
#[verifier::external_body]
pub(crate) fn bytes_set_insert(s: &mut IndexSet<Vec<u8>>, v: Vec<u8>) -> (r: bool)
    ensures
        r == !bytes_set_contents(*old(s)).contains(v@),
        bytes_set_contents(*final(s)) == bytes_set_contents(*old(s)).insert(v@),
{
    s.insert(v)
}

/// `IndexSet::swap_remove`: removes `v`; true when it was there.
#[verifier::external_body]
pub(crate) fn bytes_set_swap_remove(s: &mut IndexSet<Vec<u8>>, v: &Vec<u8>) -> (r: bool)
    ensures
        r == bytes_set_contents(*old(s)).contains(v@),
        bytes_set_contents(*final(s)) == bytes_set_contents(*old(s)).remove(v@),
{
    s.swap_remove(v)
}

/// `IndexSet::iter`, cloned and collected: every member, once each.
#[verifier::external_body]
pub(crate) fn bytes_set_members(s: &IndexSet<Vec<u8>>) -> (r: Vec<Vec<u8>>)
    ensures
        r@.len() == bytes_set_contents(*s).len(),
        forall|i: int| 0 <= i < r@.len() ==> bytes_set_contents(*s).contains(#[trigger] r@[i]@),
        forall|m: Seq<u8>| bytes_set_contents(*s).contains(m) ==> exists|i: int| 0 <= i < r@.len() && #[trigger] r@[i]@ == m,
{
    s.iter().cloned().collect()
}

// ---------------------------------------------------------------------------
// Pending peer deletions: IndexSet<DeletionKey>

/// Key of a pending peer deletion: torrent id, user id and peer id.
pub type DeletionKey = (u32, u32, [u8; 20]);
/// Pending peer deletions, in insertion order.
pub type DeletionIndexSet = IndexSet<DeletionKey>;

/// What a deletion set holds, in insertion order.
pub uninterp spec fn deletion_set_contents(s: DeletionIndexSet) -> Seq<DeletionKey>;

/// `IndexSet::new`: an empty set.
#[verifier::external_body]
pub(crate) fn deletion_set_new() -> (r: DeletionIndexSet)
    ensures
        deletion_set_contents(r) == Seq::<DeletionKey>::empty(),
{
    IndexSet::new()
}

/// `IndexSet::insert`: appends `v` unless it is already there (then nothing
/// moves), and says whether it was appended.
#[verifier::external_body]
pub(crate) fn deletion_set_insert(s: &mut DeletionIndexSet, v: DeletionKey) -> (r: bool)
    ensures
        r == !deletion_set_contents(*old(s)).contains(v),
        deletion_set_contents(*final(s)) == if r {
            deletion_set_contents(*old(s)).push(v)
        } else {
            deletion_set_contents(*old(s))
        },
{
    s.insert(v)
}

/// `IndexSet::len`: the number of items.
#[verifier::external_body]
pub(crate) fn deletion_set_len(s: &DeletionIndexSet) -> (r: usize)
    ensures
        r == deletion_set_contents(*s).len(),
{
    s.len()
}

/// `IndexSet::split_off`, collected: removes the items from position `at`
/// on and returns them in order.
#[verifier::external_body]
pub(crate) fn deletion_set_split_off(s: &mut DeletionIndexSet, at: usize) -> (r: Vec<DeletionKey>)
    requires
        at <= deletion_set_contents(*old(s)).len(),
    ensures
        r@ == deletion_set_contents(*old(s)).subrange(at as int, deletion_set_contents(*old(s)).len() as int),
        deletion_set_contents(*final(s)) == deletion_set_contents(*old(s)).subrange(0, at as int),
{
    s.split_off(at).into_iter().collect()
}

// ---------------------------------------------------------------------------
// Queues of records for the database: IndexMap<key, record>, oldest first.
// Writing a record merges it into the one queued under its key (which keeps
// its place) or appends it.

/// Key of pending peer writes: user id, torrent id and peer id.
pub type PeerUpdateKey = (u32, u32, [u8; 20]);
/// Pending peer writes, by key.
pub type PeerUpdateIndexMap = IndexMap<PeerUpdateKey, PeerUpdate>;
/// One of the pending peer writes, with its key.
pub type PeerUpdateRecord = (PeerUpdateKey, PeerUpdate);

/// What a queue of pending peer writes holds, oldest first.
pub uninterp spec fn peer_update_queue_contents(m: PeerUpdateIndexMap) -> Seq<PeerUpdateRecord>;

/// The keys of the records, in order.
pub open spec fn peer_update_queue_keys(s: Seq<PeerUpdateRecord>) -> Seq<PeerUpdateKey> {
    s.map_values(|r: PeerUpdateRecord| r.0)
}

/// `after` is `before` with `v` written under `k`: merged into the record
/// queued under `k`, which keeps its place, or appended.
pub open spec fn peer_update_queue_upserted(before: Seq<PeerUpdateRecord>, after: Seq<PeerUpdateRecord>, k: PeerUpdateKey, v: PeerUpdate) -> bool {
    if peer_update_queue_keys(before).contains(k) {
        let i = peer_update_queue_keys(before).index_of(k);
        let a = before[i].1;
        let b = v;
        let c = after[i].1;
        &&& after.len() == before.len()
        &&& after[i].0 == k
        &&& crate::scheduler::peer_update::merges_into(a, b, c)
        &&& forall|j: int| 0 <= j < before.len() && j != i ==> after[j] == before[j]
    } else {
        after == before.push((k, v))
    }
}

/// `IndexMap::new`: an empty queue.
#[verifier::external_body]
pub(crate) fn peer_update_queue_new() -> (r: PeerUpdateIndexMap)
    ensures
        peer_update_queue_contents(r) == Seq::<PeerUpdateRecord>::empty(),
{
    IndexMap::new()
}

/// `IndexMap::entry`, `Entry::and_modify` with `PeerUpdate::merge`, and
/// `Entry::or_insert`: merges `v` into the record queued under `k` (which
/// keeps its place), or appends it.
#[verifier::external_body]
pub(crate) fn peer_update_queue_upsert(m: &mut PeerUpdateIndexMap, k: PeerUpdateKey, v: PeerUpdate)
    ensures
        peer_update_queue_upserted(peer_update_queue_contents(*old(m)), peer_update_queue_contents(*final(m)), k, v),
{
    m.entry(k).and_modify(|queued| queued.merge(&v)).or_insert(v);
}

/// `IndexMap::len`: the number of records.
#[verifier::external_body]
pub(crate) fn peer_update_queue_len(m: &PeerUpdateIndexMap) -> (r: usize)
    ensures
        r == peer_update_queue_contents(*m).len(),
{
    m.len()
}

/// `IndexMap::drain` of the first `n` positions, collected: removes the
/// `n` oldest records and returns them in order.
#[verifier::external_body]
pub(crate) fn peer_update_queue_drain_front(m: &mut PeerUpdateIndexMap, n: usize) -> (r: Vec<PeerUpdateRecord>)
    requires
        n <= peer_update_queue_contents(*old(m)).len(),
    ensures
        r@ == peer_update_queue_contents(*old(m)).subrange(0, n as int),
        peer_update_queue_contents(*final(m)) == peer_update_queue_contents(*old(m)).subrange(n as int, peer_update_queue_contents(*old(m)).len() as int),
{
    m.drain(0..n).collect()
}

/// Key of pending history writes: torrent id and user id.
pub type HistoryKey = (u32, u32);
/// Pending history writes, by key.
pub type HistoryIndexMap = IndexMap<HistoryKey, HistoryUpdate>;
/// One of the pending history writes, with its key.
pub type HistoryRecord = (HistoryKey, HistoryUpdate);

/// What a queue of pending history writes holds, oldest first.
pub uninterp spec fn history_queue_contents(m: HistoryIndexMap) -> Seq<HistoryRecord>;

/// The keys of the records, in order.
pub open spec fn history_queue_keys(s: Seq<HistoryRecord>) -> Seq<HistoryKey> {
    s.map_values(|r: HistoryRecord| r.0)
}

/// `after` is `before` with `v` written under `k`: merged into the record
/// queued under `k`, which keeps its place, or appended.
pub open spec fn history_queue_upserted(before: Seq<HistoryRecord>, after: Seq<HistoryRecord>, k: HistoryKey, v: HistoryUpdate) -> bool {
    if history_queue_keys(before).contains(k) {
        let i = history_queue_keys(before).index_of(k);
        let a = before[i].1;
        let b = v;
        let c = after[i].1;
        &&& after.len() == before.len()
        &&& after[i].0 == k
        &&& crate::scheduler::history_update::merges_into(a, b, c)
        &&& forall|j: int| 0 <= j < before.len() && j != i ==> after[j] == before[j]
    } else {
        after == before.push((k, v))
    }
}

/// `IndexMap::new`: an empty queue.
#[verifier::external_body]
pub(crate) fn history_queue_new() -> (r: HistoryIndexMap)
    ensures
        history_queue_contents(r) == Seq::<HistoryRecord>::empty(),
{
    IndexMap::new()
}

/// `IndexMap::get`: the record queued under `k`, if any.
#[verifier::external_body]
pub(crate) fn history_queue_get(m: &HistoryIndexMap, k: HistoryKey) -> (r: Option<&HistoryUpdate>)
    ensures
        r is Some <==> history_queue_keys(history_queue_contents(*m)).contains(k),
        r matches Some(v) ==> *v == history_queue_contents(*m)[history_queue_keys(history_queue_contents(*m)).index_of(k)].1,
{
    m.get(&k)
}

/// `IndexMap::entry`, `Entry::and_modify` with `HistoryUpdate::merge`, and
/// `Entry::or_insert`: merges `v` into the record queued under `k` (which
/// keeps its place), or appends it. A merge must keep the deltas in range.
#[verifier::external_body]
pub(crate) fn history_queue_upsert(m: &mut HistoryIndexMap, k: HistoryKey, v: HistoryUpdate)
    requires
        history_queue_keys(history_queue_contents(*old(m))).contains(k) ==> crate::scheduler::history_update::merge_fits(
            history_queue_contents(*old(m))[history_queue_keys(history_queue_contents(*old(m))).index_of(k)].1,
            v,
        ),
    ensures
        history_queue_upserted(history_queue_contents(*old(m)), history_queue_contents(*final(m)), k, v),
{
    m.entry(k).and_modify(|queued| queued.merge(&v)).or_insert(v);
}

/// `IndexMap::len`: the number of records.
#[verifier::external_body]
pub(crate) fn history_queue_len(m: &HistoryIndexMap) -> (r: usize)
    ensures
        r == history_queue_contents(*m).len(),
{
    m.len()
}

/// `IndexMap::drain` of the first `n` positions, collected: removes the
/// `n` oldest records and returns them in order.
#[verifier::external_body]
pub(crate) fn history_queue_drain_front(m: &mut HistoryIndexMap, n: usize) -> (r: Vec<HistoryRecord>)
    requires
        n <= history_queue_contents(*old(m)).len(),
    ensures
        r@ == history_queue_contents(*old(m)).subrange(0, n as int),
        history_queue_contents(*final(m)) == history_queue_contents(*old(m)).subrange(n as int, history_queue_contents(*old(m)).len() as int),
{
    m.drain(0..n).collect()
}

/// Key of pending torrent changes: torrent id.
pub type TorrentUpdateKey = u32;
/// Pending torrent changes, by key.
pub type TorrentUpdateIndexMap = IndexMap<TorrentUpdateKey, TorrentUpdate>;
/// One of the pending torrent changes, with its key.
pub type TorrentUpdateRecord = (TorrentUpdateKey, TorrentUpdate);

/// What a queue of pending torrent changes holds, oldest first.
pub uninterp spec fn torrent_update_queue_contents(m: TorrentUpdateIndexMap) -> Seq<TorrentUpdateRecord>;

/// The keys of the records, in order.
pub open spec fn torrent_update_queue_keys(s: Seq<TorrentUpdateRecord>) -> Seq<TorrentUpdateKey> {
    s.map_values(|r: TorrentUpdateRecord| r.0)
}

/// `after` is `before` with `v` written under `k`: merged into the record
/// queued under `k`, which keeps its place, or appended.
pub open spec fn torrent_update_queue_upserted(before: Seq<TorrentUpdateRecord>, after: Seq<TorrentUpdateRecord>, k: TorrentUpdateKey, v: TorrentUpdate) -> bool {
    if torrent_update_queue_keys(before).contains(k) {
        let i = torrent_update_queue_keys(before).index_of(k);
        let a = before[i].1;
        let b = v;
        let c = after[i].1;
        &&& after.len() == before.len()
        &&& after[i].0 == k
        &&& c == crate::scheduler::torrent_update::merged(a, b)
        &&& forall|j: int| 0 <= j < before.len() && j != i ==> after[j] == before[j]
    } else {
        after == before.push((k, v))
    }
}

/// `IndexMap::new`: an empty queue.
#[verifier::external_body]
pub(crate) fn torrent_update_queue_new() -> (r: TorrentUpdateIndexMap)
    ensures
        torrent_update_queue_contents(r) == Seq::<TorrentUpdateRecord>::empty(),
{
    IndexMap::new()
}

/// `IndexMap::entry`, `Entry::and_modify` with `TorrentUpdate::merge`, and
/// `Entry::or_insert`: merges `v` into the record queued under `k` (which
/// keeps its place), or appends it.
#[verifier::external_body]
pub(crate) fn torrent_update_queue_upsert(m: &mut TorrentUpdateIndexMap, k: TorrentUpdateKey, v: TorrentUpdate)
    ensures
        torrent_update_queue_upserted(torrent_update_queue_contents(*old(m)), torrent_update_queue_contents(*final(m)), k, v),
{
    m.entry(k).and_modify(|queued| queued.merge(&v)).or_insert(v);
}

/// `IndexMap::len`: the number of records.
#[verifier::external_body]
pub(crate) fn torrent_update_queue_len(m: &TorrentUpdateIndexMap) -> (r: usize)
    ensures
        r == torrent_update_queue_contents(*m).len(),
{
    m.len()
}

/// `IndexMap::drain` of the first `n` positions, collected: removes the
/// `n` oldest records and returns them in order.
#[verifier::external_body]
pub(crate) fn torrent_update_queue_drain_front(m: &mut TorrentUpdateIndexMap, n: usize) -> (r: Vec<TorrentUpdateRecord>)
    requires
        n <= torrent_update_queue_contents(*old(m)).len(),
    ensures
        r@ == torrent_update_queue_contents(*old(m)).subrange(0, n as int),
        torrent_update_queue_contents(*final(m)) == torrent_update_queue_contents(*old(m)).subrange(n as int, torrent_update_queue_contents(*old(m)).len() as int),
{
    m.drain(0..n).collect()
}

/// Key of pending user changes: user id.
pub type UserUpdateKey = u32;
/// Pending user changes, by key.
pub type UserUpdateIndexMap = IndexMap<UserUpdateKey, UserUpdate>;
/// One of the pending user changes, with its key.
pub type UserUpdateRecord = (UserUpdateKey, UserUpdate);

/// What a queue of pending user changes holds, oldest first.
pub uninterp spec fn user_update_queue_contents(m: UserUpdateIndexMap) -> Seq<UserUpdateRecord>;

/// The keys of the records, in order.
pub open spec fn user_update_queue_keys(s: Seq<UserUpdateRecord>) -> Seq<UserUpdateKey> {
    s.map_values(|r: UserUpdateRecord| r.0)
}

/// `after` is `before` with `v` written under `k`: merged into the record
/// queued under `k`, which keeps its place, or appended.
pub open spec fn user_update_queue_upserted(before: Seq<UserUpdateRecord>, after: Seq<UserUpdateRecord>, k: UserUpdateKey, v: UserUpdate) -> bool {
    if user_update_queue_keys(before).contains(k) {
        let i = user_update_queue_keys(before).index_of(k);
        let a = before[i].1;
        let b = v;
        let c = after[i].1;
        &&& after.len() == before.len()
        &&& after[i].0 == k
        &&& c == crate::scheduler::user_update::merged(a, b)
        &&& forall|j: int| 0 <= j < before.len() && j != i ==> after[j] == before[j]
    } else {
        after == before.push((k, v))
    }
}

/// `IndexMap::new`: an empty queue.
#[verifier::external_body]
pub(crate) fn user_update_queue_new() -> (r: UserUpdateIndexMap)
    ensures
        user_update_queue_contents(r) == Seq::<UserUpdateRecord>::empty(),
{
    IndexMap::new()
}

/// `IndexMap::entry`, `Entry::and_modify` with `UserUpdate::merge`, and
/// `Entry::or_insert`: merges `v` into the record queued under `k` (which
/// keeps its place), or appends it.
#[verifier::external_body]
pub(crate) fn user_update_queue_upsert(m: &mut UserUpdateIndexMap, k: UserUpdateKey, v: UserUpdate)
    ensures
        user_update_queue_upserted(user_update_queue_contents(*old(m)), user_update_queue_contents(*final(m)), k, v),
{
    m.entry(k).and_modify(|queued| queued.merge(&v)).or_insert(v);
}

/// `IndexMap::len`: the number of records.
#[verifier::external_body]
pub(crate) fn user_update_queue_len(m: &UserUpdateIndexMap) -> (r: usize)
    ensures
        r == user_update_queue_contents(*m).len(),
{
    m.len()
}

/// `IndexMap::drain` of the first `n` positions, collected: removes the
/// `n` oldest records and returns them in order.
#[verifier::external_body]
pub(crate) fn user_update_queue_drain_front(m: &mut UserUpdateIndexMap, n: usize) -> (r: Vec<UserUpdateRecord>)
    requires
        n <= user_update_queue_contents(*old(m)).len(),
    ensures
        r@ == user_update_queue_contents(*old(m)).subrange(0, n as int),
        user_update_queue_contents(*final(m)) == user_update_queue_contents(*old(m)).subrange(n as int, user_update_queue_contents(*old(m)).len() as int),
{
    m.drain(0..n).collect()
}

/// Key of pending records of unknown info hashes: user id and info hash.
pub type UnregisteredKey = (u32, [u8; 20]);
/// Pending records of unknown info hashes, by key.
pub type UnregisteredIndexMap = IndexMap<UnregisteredKey, UnregisteredInfoHashUpdate>;
/// One of the pending records of unknown info hashes, with its key.
pub type UnregisteredRecord = (UnregisteredKey, UnregisteredInfoHashUpdate);

/// What a queue of pending records of unknown info hashes holds, oldest first.
pub uninterp spec fn unregistered_queue_contents(m: UnregisteredIndexMap) -> Seq<UnregisteredRecord>;

/// The keys of the records, in order.
pub open spec fn unregistered_queue_keys(s: Seq<UnregisteredRecord>) -> Seq<UnregisteredKey> {
    s.map_values(|r: UnregisteredRecord| r.0)
}

/// `after` is `before` with `v` written under `k`: merged into the record
/// queued under `k`, which keeps its place, or appended.
pub open spec fn unregistered_queue_upserted(before: Seq<UnregisteredRecord>, after: Seq<UnregisteredRecord>, k: UnregisteredKey, v: UnregisteredInfoHashUpdate) -> bool {
    if unregistered_queue_keys(before).contains(k) {
        let i = unregistered_queue_keys(before).index_of(k);
        let a = before[i].1;
        let b = v;
        let c = after[i].1;
        &&& after.len() == before.len()
        &&& after[i].0 == k
        &&& c == crate::scheduler::unregistered_info_hash_update::merged(a, b)
        &&& forall|j: int| 0 <= j < before.len() && j != i ==> after[j] == before[j]
    } else {
        after == before.push((k, v))
    }
}

/// `IndexMap::new`: an empty queue.
#[verifier::external_body]
pub(crate) fn unregistered_queue_new() -> (r: UnregisteredIndexMap)
    ensures
        unregistered_queue_contents(r) == Seq::<UnregisteredRecord>::empty(),
{
    IndexMap::new()
}

/// `IndexMap::entry`, `Entry::and_modify` with `UnregisteredInfoHashUpdate::merge`, and
/// `Entry::or_insert`: merges `v` into the record queued under `k` (which
/// keeps its place), or appends it.
#[verifier::external_body]
pub(crate) fn unregistered_queue_upsert(m: &mut UnregisteredIndexMap, k: UnregisteredKey, v: UnregisteredInfoHashUpdate)
    ensures
        unregistered_queue_upserted(unregistered_queue_contents(*old(m)), unregistered_queue_contents(*final(m)), k, v),
{
    m.entry(k).and_modify(|queued| queued.merge(&v)).or_insert(v);
}

/// `IndexMap::len`: the number of records.
#[verifier::external_body]
pub(crate) fn unregistered_queue_len(m: &UnregisteredIndexMap) -> (r: usize)
    ensures
        r == unregistered_queue_contents(*m).len(),
{
    m.len()
}

/// `IndexMap::drain` of the first `n` positions, collected: removes the
/// `n` oldest records and returns them in order.
#[verifier::external_body]
pub(crate) fn unregistered_queue_drain_front(m: &mut UnregisteredIndexMap, n: usize) -> (r: Vec<UnregisteredRecord>)
    requires
        n <= unregistered_queue_contents(*old(m)).len(),
    ensures
        r@ == unregistered_queue_contents(*old(m)).subrange(0, n as int),
        unregistered_queue_contents(*final(m)) == unregistered_queue_contents(*old(m)).subrange(n as int, unregistered_queue_contents(*old(m)).len() as int),
{
    m.drain(0..n).collect()
}

/// Pending peer deactivations, by key.
pub type DeactivationIndexMap = IndexMap<PeerUpdateKey, PeerDeactivation>;
/// One of the pending peer deactivations, with its key.
pub type DeactivationRecord = (PeerUpdateKey, PeerDeactivation);

/// What a queue of pending peer deactivations holds, oldest first.
pub uninterp spec fn deactivation_queue_contents(m: DeactivationIndexMap) -> Seq<DeactivationRecord>;

/// The keys of the records, in order.
pub open spec fn deactivation_queue_keys(s: Seq<DeactivationRecord>) -> Seq<PeerUpdateKey> {
    s.map_values(|r: DeactivationRecord| r.0)
}

/// `after` is `before` with `v` written under `k`: merged into the record
/// queued under `k`, which keeps its place, or appended.
pub open spec fn deactivation_queue_upserted(before: Seq<DeactivationRecord>, after: Seq<DeactivationRecord>, k: PeerUpdateKey, v: PeerDeactivation) -> bool {
    if deactivation_queue_keys(before).contains(k) {
        let i = deactivation_queue_keys(before).index_of(k);
        let a = before[i].1;
        let b = v;
        let c = after[i].1;
        &&& after.len() == before.len()
        &&& after[i].0 == k
        &&& c == a
        &&& forall|j: int| 0 <= j < before.len() && j != i ==> after[j] == before[j]
    } else {
        after == before.push((k, v))
    }
}

/// `IndexMap::new`: an empty queue.
#[verifier::external_body]
pub(crate) fn deactivation_queue_new() -> (r: DeactivationIndexMap)
    ensures
        deactivation_queue_contents(r) == Seq::<DeactivationRecord>::empty(),
{
    IndexMap::new()
}

/// `IndexMap::entry`, `Entry::and_modify` with `PeerDeactivation::merge`, and
/// `Entry::or_insert`: merges `v` into the record queued under `k` (which
/// keeps its place), or appends it.
#[verifier::external_body]
pub(crate) fn deactivation_queue_upsert(m: &mut DeactivationIndexMap, k: PeerUpdateKey, v: PeerDeactivation)
    ensures
        deactivation_queue_upserted(deactivation_queue_contents(*old(m)), deactivation_queue_contents(*final(m)), k, v),
{
    m.entry(k).and_modify(|queued| queued.merge(&v)).or_insert(v);
}

/// `IndexMap::len`: the number of records.
#[verifier::external_body]
pub(crate) fn deactivation_queue_len(m: &DeactivationIndexMap) -> (r: usize)
    ensures
        r == deactivation_queue_contents(*m).len(),
{
    m.len()
}

/// `IndexMap::drain` of the first `n` positions, collected: removes the
/// `n` oldest records and returns them in order.
#[verifier::external_body]
pub(crate) fn deactivation_queue_drain_front(m: &mut DeactivationIndexMap, n: usize) -> (r: Vec<DeactivationRecord>)
    requires
        n <= deactivation_queue_contents(*old(m)).len(),
    ensures
        r@ == deactivation_queue_contents(*old(m)).subrange(0, n as int),
        deactivation_queue_contents(*final(m)) == deactivation_queue_contents(*old(m)).subrange(n as int, deactivation_queue_contents(*old(m)).len() as int),
{
    m.drain(0..n).collect()
}

} // verus!
