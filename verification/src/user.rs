//! Users, their passkeys, and the user and passkey stores.
use vstd::prelude::*;
use vstd::string::StringSliceAdditionalSpecFns;

use crate::collections::{UserIndexMap, PasskeyIndexMap, passkey_map_contents, passkey_map_get, passkey_map_insert, passkey_map_len, passkey_map_new, passkey_map_swap_remove, user_map_contents, user_map_get, user_map_insert, user_map_len, user_map_new, user_map_swap_remove};
use crate::utils::Error;

verus! {

/// The bytes of a string, utf-8 encoded.
pub open spec fn string_bytes(s: String) -> Seq<u8> {
    vstd::utf8::encode_utf8(s@)
}

/// A user's secret 32-byte passkey, as it appears in announce urls.
#[derive(Clone, Copy, Debug, PartialEq, Eq, Hash)]
pub struct Passkey(pub [u8; 32]);

impl Passkey {
    /// Reads a passkey: exactly 32 bytes, taken as they are.
    pub fn parse(s: &[u8]) -> (r: Result<Passkey, Error>)
        ensures
            r is Ok <==> s@.len() == 32,
            r matches Ok(p) ==> p.0@ == s@,
            r matches Err(e) ==> e.0@ == "Invalid passkey length."@,
    {
        if s.len() != 32 {
            return Err(Error("Invalid passkey length."));
        }
        let mut out: [u8; 32] = [0; 32];
        let mut i: usize = 0;
        while i < 32
            invariant
                s@.len() == 32,
                0 <= i <= 32,
                out@.len() == 32,
                forall|j: int| 0 <= j < i ==> out@[j] == s@[j],
            decreases 32 - i,
        {
            out[i] = s[i];
            i = i + 1;
        }
        assert(out@ =~= s@);
        Ok(Passkey(out))
    }

    /// Reads a passkey from a string (its utf-8 bytes).
    pub fn from_string(s: &String) -> (r: Result<Passkey, Error>)
        ensures
            r is Ok <==> string_bytes(*s).len() == 32,
            r matches Ok(p) ==> p.0@ == string_bytes(*s),
            r matches Err(e) ==> e.0@ == "Invalid passkey length."@,
    {
        Passkey::parse(s.as_str().as_bytes())
    }
}

/// A user as the tracker keeps it in memory.
#[derive(Clone, Copy, Debug, PartialEq, Eq)]
pub struct User {
    pub id: u32,
    pub group_id: i32,
    pub passkey: Passkey,
    pub can_download: bool,
    pub num_seeding: u32,
    pub num_leeching: u32,
    pub is_donor: bool,
    pub is_lifetime: bool,
}

/// A user row as loaded from the database.
#[derive(Clone, Copy, Debug)]
pub struct DBImportUser {
    pub id: u32,
    pub group_id: i32,
    pub passkey: Passkey,
    pub can_download: bool,
    pub num_seeding: u32,
    pub num_leeching: u32,
    pub is_donor: bool,
    pub is_lifetime: bool,
}

/// A user as sent by the site to be inserted or updated.
#[derive(Clone, Debug)]
pub struct APIInsertUser {
    pub id: u32,
    pub group_id: i32,
    pub passkey: String,
    pub new_passkey: Option<String>,
    pub can_download: bool,
    pub num_seeding: u32,
    pub num_leeching: u32,
    pub is_donor: bool,
    pub is_lifetime: bool,
}

/// A user as sent by the site to be removed.
#[derive(Clone, Debug)]
pub struct APIRemoveUser {
    pub id: u32,
    pub passkey: String,
}

/// A passkey to user id row as loaded from the database.
#[derive(Clone, Copy, Debug)]
pub struct Passkey2Id {
    pub id: u32,
    pub passkey: Passkey,
}

impl User {
    /// The in-memory user a database row describes.
    pub fn from_db(u: DBImportUser) -> (r: User)
        ensures
            r == (User {
                id: u.id,
                group_id: u.group_id,
                passkey: u.passkey,
                can_download: u.can_download,
                num_seeding: u.num_seeding,
                num_leeching: u.num_leeching,
                is_donor: u.is_donor,
                is_lifetime: u.is_lifetime,
            }),
    {
        User {
            id: u.id,
            group_id: u.group_id,
            passkey: u.passkey,
            can_download: u.can_download,
            num_seeding: u.num_seeding,
            num_leeching: u.num_leeching,
            is_donor: u.is_donor,
            is_lifetime: u.is_lifetime,
        }
    }
}

/// All users, by id.
pub struct UserStore {
    inner: UserIndexMap,
}

impl View for UserStore {
    type V = Map<u32, User>;

    closed spec fn view(&self) -> Map<u32, User> {
        user_map_contents(self.inner)
    }
}

impl UserStore {
    /// An empty user store.
    pub fn new() -> (r: UserStore)
        ensures
            r@ == Map::<u32, User>::empty(),
    {
        UserStore { inner: user_map_new() }
    }

    /// The user with the given id, if any.
    pub fn get(&self, id: u32) -> (r: Option<User>)
        ensures
            r == self@.get(id),
    {
        user_map_get(&self.inner, id)
    }

    /// Stores `user` under `id`, returning the user it replaced.
    pub fn insert(&mut self, id: u32, user: User) -> (r: Option<User>)
        ensures
            r == old(self)@.get(id),
            final(self)@ == old(self)@.insert(id, user),
    {
        user_map_insert(&mut self.inner, id, user)
    }

    /// Removes the user with the given id, returning it.
    pub fn swap_remove(&mut self, id: u32) -> (r: Option<User>)
        ensures
            r == old(self)@.get(id),
            final(self)@ == old(self)@.remove(id),
    {
        user_map_swap_remove(&mut self.inner, id)
    }

    /// The number of users.
    pub fn len(&self) -> (r: usize)
        ensures
            r == self@.len(),
    {
        user_map_len(&self.inner)
    }
}

/// User ids by passkey.
pub struct Passkey2IdStore {
    inner: PasskeyIndexMap,
}

impl View for Passkey2IdStore {
    type V = Map<[u8; 32], u32>;

    closed spec fn view(&self) -> Map<[u8; 32], u32> {
        passkey_map_contents(self.inner)
    }
}

impl Passkey2IdStore {
    /// An empty passkey store.
    pub fn new() -> (r: Passkey2IdStore)
        ensures
            r@ == Map::<[u8; 32], u32>::empty(),
    {
        Passkey2IdStore { inner: passkey_map_new() }
    }

    /// The user id of a passkey, if known.
    pub fn get(&self, passkey: Passkey) -> (r: Option<u32>)
        ensures
            r == self@.get(passkey.0),
    {
        passkey_map_get(&self.inner, passkey.0)
    }

    /// Maps `passkey` to `id`, returning the id it replaced.
    pub fn insert(&mut self, passkey: Passkey, id: u32) -> (r: Option<u32>)
        ensures
            r == old(self)@.get(passkey.0),
            final(self)@ == old(self)@.insert(passkey.0, id),
    {
        passkey_map_insert(&mut self.inner, passkey.0, id)
    }

    /// Forgets `passkey`, returning the id it mapped to.
    pub fn swap_remove(&mut self, passkey: Passkey) -> (r: Option<u32>)
        ensures
            r == old(self)@.get(passkey.0),
            final(self)@ == old(self)@.remove(passkey.0),
    {
        passkey_map_swap_remove(&mut self.inner, passkey.0)
    }

    /// The number of passkeys.
    pub fn len(&self) -> (r: usize)
        ensures
            r == self@.len(),
    {
        passkey_map_len(&self.inner)
    }
}

/// The user an API insert request describes, with the given passkey.
pub open spec fn api_user(user: APIInsertUser, passkey: Passkey) -> User {
    User {
        id: user.id,
        group_id: user.group_id,
        passkey: passkey,
        can_download: user.can_download,
        num_seeding: user.num_seeding,
        num_leeching: user.num_leeching,
        is_donor: user.is_donor,
        is_lifetime: user.is_lifetime,
    }
}

/// Inserts or replaces the user an API request describes, and maps its
/// passkey to it. When `new_passkey` is given, the old passkey is forgotten and
/// the new one used. Returns whether the request was accepted, and the user
/// that was replaced.
///
/// A request whose passkey is not 32 bytes changes nothing. A request whose
/// `new_passkey` is not 32 bytes is refused after the old user was removed.
pub fn upsert_user(
    users: &mut UserStore,
    passkey2id: &mut Passkey2IdStore,
    user: APIInsertUser,
) -> (r: (bool, Option<User>))
    ensures
        string_bytes(user.passkey).len() != 32 ==> r == (false, None::<User>)
            && final(users)@ == old(users)@ && final(passkey2id)@ == old(passkey2id)@,
        string_bytes(user.passkey).len() == 32 ==> {
            let passkey = string_bytes(user.passkey);
            &&& r.1 == old(users)@.get(user.id)
            &&& match user.new_passkey {
                Some(np) => if string_bytes(np).len() == 32 {
                    let new_key = string_bytes(np);
                    &&& r.0
                    &&& final(users)@.dom() == old(users)@.dom().insert(user.id)
                    &&& forall|id: u32| id != user.id ==> final(users)@.get(id) == old(users)@.get(id)
                    &&& final(users)@[user.id].passkey.0@ == new_key
                    &&& final(users)@[user.id] == api_user(user, final(users)@[user.id].passkey)
                    &&& exists|pk: [u8; 32]| pk@ == passkey
                        && final(passkey2id)@ == old(passkey2id)@.remove(pk).insert(final(users)@[user.id].passkey.0, user.id)
                } else {
                    &&& !r.0
                    &&& final(users)@ == old(users)@.remove(user.id)
                    &&& final(passkey2id)@ == old(passkey2id)@
                },
                None => {
                    &&& r.0
                    &&& final(users)@.dom() == old(users)@.dom().insert(user.id)
                    &&& forall|id: u32| id != user.id ==> final(users)@.get(id) == old(users)@.get(id)
                    &&& final(users)@[user.id].passkey.0@ == passkey
                    &&& final(users)@[user.id] == api_user(user, final(users)@[user.id].passkey)
                    &&& final(passkey2id)@ == old(passkey2id)@.insert(final(users)@[user.id].passkey.0, user.id)
                },
            }
        },
{
    let passkey = match Passkey::from_string(&user.passkey) {
        Ok(p) => p,
        Err(_) => {
            return (false, None);
        },
    };
    let old_user = users.swap_remove(user.id);
    let new_passkey = match &user.new_passkey {
        Some(np) => match Passkey::from_string(np) {
            Ok(new_passkey) => {
                passkey2id.swap_remove(passkey);
                new_passkey
            },
            Err(_) => {
                return (false, old_user);
            },
        },
        None => passkey,
    };
    let stored = User {
        id: user.id,
        group_id: user.group_id,
        passkey: new_passkey,
        can_download: user.can_download,
        num_seeding: user.num_seeding,
        num_leeching: user.num_leeching,
        is_donor: user.is_donor,
        is_lifetime: user.is_lifetime,
    };
    users.insert(user.id, stored);
    passkey2id.insert(new_passkey, user.id);
    assert(users@.dom() =~= old(users)@.dom().insert(user.id));
    (true, old_user)
}

/// Removes the user an API request names and forgets its passkey. Returns
/// false, changing nothing, when the passkey is not 32 bytes.
pub fn destroy_user(users: &mut UserStore, passkey2id: &mut Passkey2IdStore, user: APIRemoveUser) -> (r: bool)
    ensures
        r == (string_bytes(user.passkey).len() == 32),
        !r ==> final(users)@ == old(users)@ && final(passkey2id)@ == old(passkey2id)@,
        r ==> final(users)@ == old(users)@.remove(user.id)
            && exists|pk: [u8; 32]| pk@ == string_bytes(user.passkey) && final(passkey2id)@ == old(passkey2id)@.remove(pk),
{
    match Passkey::from_string(&user.passkey) {
        Ok(passkey) => {
            users.swap_remove(user.id);
            passkey2id.swap_remove(passkey);
            true
        },
        Err(_) => false,
    }
}

} // verus!
