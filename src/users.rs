//! The credential directory: one record per user, reachable by username and by
//! identity, with usernames and identities each unique.
use crate::password::{
    generate_salt, hash_password, new_identity, pbkdf2_phc, pbkdf2_verifies, phc_layout,
    verify_password,
};
use vstd::prelude::*;

verus! {

/// Why a user could not be created.
#[derive(Debug, Clone, Copy, PartialEq, Eq, Structural)]
pub enum UserError {
    /// A record with this username exists already.
    DuplicateUsername,
    /// The key-derivation function failed (for instance on a malformed salt).
    HashingFailure,
    /// The freshly drawn identity belongs to a record already. With 122 random
    /// bits this is not expected to happen; the directory is left unchanged.
    IdentityCollision,
}

/// What a user record holds, as mathematical text.
pub struct UserRecord {
    pub identity: Seq<char>,
    pub username: Seq<char>,
    pub password_hash: Seq<char>,
}

/// A user record. Its fields are never handed out: callers see identities and
/// pass/fail outcomes only.
pub struct User {
    user_uuid: String,
    username: String,
    password_hash: String,
}

impl View for User {
    type V = UserRecord;

    closed spec fn view(&self) -> UserRecord {
        UserRecord {
            identity: self.user_uuid@,
            username: self.username@,
            password_hash: self.password_hash@,
        }
    }
}

/// Whether no two records share a username and no two share an identity.
pub open spec fn keys_unique(d: Seq<UserRecord>) -> bool {
    forall|i: int, j: int|
        #![trigger d[i], d[j]]
        0 <= i < d.len() && 0 <= j < d.len() && i != j ==> {
            &&& d[i].username != d[j].username
            &&& d[i].identity != d[j].identity
        }
}

/// Whether `d` holds a record with username `u`.
pub open spec fn has_username(d: Seq<UserRecord>, u: Seq<char>) -> bool {
    exists|i: int| 0 <= i < d.len() && #[trigger] d[i].username == u
}

/// Whether `d` holds a record with identity `id`.
pub open spec fn has_identity(d: Seq<UserRecord>, id: Seq<char>) -> bool {
    exists|i: int| 0 <= i < d.len() && #[trigger] d[i].identity == id
}

/// The position of the record with username `u` (meaningful where there is one).
pub open spec fn username_index(d: Seq<UserRecord>, u: Seq<char>) -> int {
    choose|i: int| 0 <= i < d.len() && #[trigger] d[i].username == u
}

/// The position of the record with identity `id` (meaningful where there is one).
pub open spec fn identity_index(d: Seq<UserRecord>, id: Seq<char>) -> int {
    choose|i: int| 0 <= i < d.len() && #[trigger] d[i].identity == id
}

/// The identity that signing in as `u` with password `p` yields: the identity of
/// the record named `u` when `p` verifies against its hash, else nothing.
pub open spec fn authenticated(d: Seq<UserRecord>, u: Seq<char>, p: Seq<char>) -> Option<Seq<char>> {
    if has_username(d, u) && pbkdf2_verifies(p, d[username_index(d, u)].password_hash) {
        Some(d[username_index(d, u)].identity)
    } else {
        None
    }
}

/// The directory `d` once the record with identity `id` is gone (`d` itself where
/// there is no such record).
pub open spec fn without_identity(d: Seq<UserRecord>, id: Seq<char>) -> Seq<UserRecord> {
    if has_identity(d, id) {
        d.remove(identity_index(d, id))
    } else {
        d
    }
}

/// What inserting a record with an already hashed password does: refuse a taken
/// username, then a taken identity, else append the record.
pub open spec fn inserted(
    d: Seq<UserRecord>,
    new_d: Seq<UserRecord>,
    rec: UserRecord,
    r: Result<(), UserError>,
) -> bool {
    if has_username(d, rec.username) {
        r == Err::<(), UserError>(UserError::DuplicateUsername) && new_d == d
    } else if has_identity(d, rec.identity) {
        r == Err::<(), UserError>(UserError::IdentityCollision) && new_d == d
    } else {
        r == Ok::<(), UserError>(()) && new_d == d.push(rec)
    }
}


/// What creating user `u` with password `p`, salt `salt` and identity `id` does:
/// refuse a taken username, then a failed derivation, then a taken identity, else
/// append a record that holds the derived hash.
pub open spec fn created_with(
    d: Seq<UserRecord>,
    new_d: Seq<UserRecord>,
    u: Seq<char>,
    p: Seq<char>,
    salt: Seq<char>,
    id: Seq<char>,
    r: Result<(), UserError>,
) -> bool {
    if has_username(d, u) {
        r == Err::<(), UserError>(UserError::DuplicateUsername) && new_d == d
    } else {
        match pbkdf2_phc(p, salt) {
            None => r == Err::<(), UserError>(UserError::HashingFailure) && new_d == d,
            Some(h) => inserted(d, new_d, UserRecord { identity: id, username: u, password_hash: h }, r),
        }
    }
}

/// What creating user `u` with password `p` does, whatever salt and identity
/// were drawn: a taken username is refused and nothing changes; otherwise either
/// nothing changes and a hashing failure or identity collision is reported, or
/// one record is appended, named `u`, with an identity new to the directory and
/// a hash that `p` derives under some salt, that is laid out for that salt, and
/// that `p` verifies against.
pub open spec fn created(
    d: Seq<UserRecord>,
    new_d: Seq<UserRecord>,
    u: Seq<char>,
    p: Seq<char>,
    r: Result<(), UserError>,
) -> bool {
    if has_username(d, u) {
        r == Err::<(), UserError>(UserError::DuplicateUsername) && new_d == d
    } else {
        match r {
            Ok(()) => {
                &&& new_d.len() == d.len() + 1
                &&& new_d.drop_last() == d
                &&& new_d.last().username == u
                &&& !has_identity(d, new_d.last().identity)
                &&& pbkdf2_verifies(p, new_d.last().password_hash)
                &&& exists|salt: Seq<char>|
                    #[trigger] pbkdf2_phc(p, salt) == Some(new_d.last().password_hash)
                    && phc_layout(new_d.last().password_hash, salt)
            },
            Err(e) => {
                &&& (e == UserError::HashingFailure || e == UserError::IdentityCollision)
                &&& new_d == d
            },
        }
    }
}

/// The view of an optional identity.
pub open spec fn identity_view(r: Option<String>) -> Option<Seq<char>> {
    match r {
        Some(id) => Some(id@),
        None => None,
    }
}

/// The credential store: create users, authenticate them, delete them.
pub trait Users {
    /// The records the store holds.
    spec fn directory(&self) -> Seq<UserRecord>;

    /// Creates user `username` with a fresh salt and a fresh identity.
    fn create_user(&mut self, username: String, password: String) -> (r: Result<(), UserError>)
        requires
            keys_unique(old(self).directory()),
        ensures
            keys_unique(final(self).directory()),
            created(old(self).directory(), final(self).directory(), username@, password@, r),
    ;

    /// The identity of user `username` when `password` verifies against the
    /// stored hash; nothing for an unknown user or a wrong password alike.
    fn get_user_uuid(&self, username: String, password: String) -> (r: Option<String>)
        requires
            keys_unique(self.directory()),
        ensures
            identity_view(r) == authenticated(self.directory(), username@, password@),
    ;

    /// Removes the record with identity `user_uuid`; an unknown identity changes nothing.
    fn delete_user(&mut self, user_uuid: String)
        requires
            keys_unique(old(self).directory()),
        ensures
            keys_unique(final(self).directory()),
            final(self).directory() == without_identity(old(self).directory(), user_uuid@),
    ;
}

/// The credential directory.
pub struct UsersImpl {
    users: Vec<User>,
}

impl View for UsersImpl {
    type V = Seq<UserRecord>;

    closed spec fn view(&self) -> Seq<UserRecord> {
        self.users@.map_values(|u: User| u@)
    }
}

impl UsersImpl {
    /// An empty directory.
    pub fn new() -> (r: Self)
        ensures
            r@ == Seq::<UserRecord>::empty(),
            keys_unique(r@),
    {
        let r = UsersImpl { users: Vec::new() };
        assert(r@ =~= Seq::<UserRecord>::empty());
        r
    }

    /// Inserts a record whose password has already been hashed by the
    /// key-derivation function: refuses a taken username, then a taken identity.
    pub fn insert_hashed(
        &mut self,
        username: String,
        password_hash: String,
        identity: String,
    ) -> (r: Result<(), UserError>)
        requires
            keys_unique(old(self)@),
        ensures
            keys_unique(final(self)@),
            inserted(
                old(self)@,
                final(self)@,
                UserRecord { identity: identity@, username: username@, password_hash: password_hash@ },
                r,
            ),
    {
        if self.find_username(&username).is_some() {
            return Err(UserError::DuplicateUsername);
        }
        if self.find_identity(&identity).is_some() {
            return Err(UserError::IdentityCollision);
        }
        let user = User { user_uuid: identity, username, password_hash };
        let ghost d = self@;
        self.users.push(user);
        assert(self@ =~= d.push(user@));
        assert(keys_unique(self@)) by {
            assert forall|i: int, j: int|
                0 <= i < self@.len() && 0 <= j < self@.len() && i != j implies
                #[trigger] self@[i].username != #[trigger] self@[j].username
                && self@[i].identity != self@[j].identity by {
                if i == d.len() {
                    assert(d[j].username == self@[j].username);
                } else if j == d.len() {
                    assert(d[i].username == self@[i].username);
                }
            }
        }
        Ok(())
    }

    /// Creates user `username`, hashing `password` with the B64 salt `salt` and
    /// giving the record the identity `identity`.
    pub fn create_user_with(
        &mut self,
        username: String,
        password: String,
        salt: String,
        identity: String,
    ) -> (r: Result<(), UserError>)
        requires
            keys_unique(old(self)@),
        ensures
            keys_unique(final(self)@),
            created_with(old(self)@, final(self)@, username@, password@, salt@, identity@, r),
            r is Ok ==> pbkdf2_verifies(password@, final(self)@.last().password_hash),
            r is Ok ==> phc_layout(final(self)@.last().password_hash, salt@),
    {
        if self.find_username(&username).is_some() {
            return Err(UserError::DuplicateUsername);
        }
        match hash_password(password.as_str(), salt.as_str()) {
            None => Err(UserError::HashingFailure),
            Some(h) => self.insert_hashed(username, h, identity),
        }
    }

    /// The number of records.
    pub fn len(&self) -> (r: usize)
        ensures
            r == self@.len(),
    {
        self.users.len()
    }

    /// Whether the directory holds no record.
    pub fn is_empty(&self) -> (r: bool)
        ensures
            r == (self@.len() == 0),
    {
        self.users.len() == 0
    }

    /// The position of the record named `username`, if any.
    fn find_username(&self, username: &String) -> (r: Option<usize>)
        ensures
            match r {
                Some(i) => i < self@.len() && self@[i as int].username == username@,
                None => !has_username(self@, username@),
            },
    {
        let mut i: usize = 0;
        while i < self.users.len()
            invariant
                i <= self.users.len(),
                self@.len() == self.users.len(),
                forall|k: int| 0 <= k < i ==> #[trigger] self@[k].username != username@,
            decreases self.users.len() - i,
        {
            if self.users[i].username == *username {
                return Some(i);
            }
            i = i + 1;
        }
        None
    }

    /// The position of the record with identity `identity`, if any.
    fn find_identity(&self, identity: &String) -> (r: Option<usize>)
        ensures
            match r {
                Some(i) => i < self@.len() && self@[i as int].identity == identity@,
                None => !has_identity(self@, identity@),
            },
    {
        let mut i: usize = 0;
        while i < self.users.len()
            invariant
                i <= self.users.len(),
                self@.len() == self.users.len(),
                forall|k: int| 0 <= k < i ==> #[trigger] self@[k].identity != identity@,
            decreases self.users.len() - i,
        {
            if self.users[i].user_uuid == *identity {
                return Some(i);
            }
            i = i + 1;
        }
        None
    }

    /// Whether a record named `username` exists.
    pub fn contains_username(&self, username: &String) -> (r: bool)
        ensures
            r == has_username(self@, username@),
    {
        self.find_username(username).is_some()
    }

    /// Whether a record with identity `identity` exists.
    pub fn contains_identity(&self, identity: &String) -> (r: bool)
        ensures
            r == has_identity(self@, identity@),
    {
        self.find_identity(identity).is_some()
    }
}


impl Default for UsersImpl {
    /// An empty directory.
    fn default() -> (r: Self)
        ensures
            r@ == Seq::<UserRecord>::empty(),
            keys_unique(r@),
    {
        UsersImpl::new()
    }
}

impl Users for UsersImpl {
    open spec fn directory(&self) -> Seq<UserRecord> {
        self@
    }

    fn create_user(&mut self, username: String, password: String) -> (r: Result<(), UserError>) {
        if self.find_username(&username).is_some() {
            return Err(UserError::DuplicateUsername);
        }
        let salt = generate_salt();
        let identity = new_identity();
        let ghost d = self@;
        let r = self.create_user_with(username, password, salt, identity);
        if r.is_ok() {
            assert(self@.drop_last() =~= d);
            assert(pbkdf2_phc(password@, salt@) == Some(self@.last().password_hash));
        }
        r
    }

    fn get_user_uuid(&self, username: String, password: String) -> (r: Option<String>) {
        match self.find_username(&username) {
            None => None,
            Some(i) => {
                assert(i == username_index(self@, username@));
                let user = &self.users[i];
                if verify_password(password.as_str(), user.password_hash.as_str()) {
                    Some(user.user_uuid.clone())
                } else {
                    None
                }
            },
        }
    }

    fn delete_user(&mut self, user_uuid: String) {
        if let Some(i) = self.find_identity(&user_uuid) {
            let ghost d = self@;
            assert(d[i as int].identity == user_uuid@);
            let ghost j = identity_index(d, user_uuid@);
            assert(d[j].identity == user_uuid@);
            assert(i == j);
            self.users.remove(i);
            assert(self@ =~= d.remove(i as int));
        }
    }
}

} // verus!
