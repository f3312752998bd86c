//! Facts about sequences of directory operations, stated over the contracts of
//! `Users`.
use crate::password::{pbkdf2_phc, pbkdf2_verifies, phc_layout, phc_string};
use crate::users::{
    authenticated, created, has_identity, has_username, identity_index, keys_unique,
    username_index, without_identity, UserError, UserRecord,
};
use vstd::prelude::*;

verus! {

/// A successful creation keeps usernames and identities unique.
pub proof fn lemma_create_keeps_keys_unique(d: Seq<UserRecord>, d1: Seq<UserRecord>, u: Seq<char>, p: Seq<char>)
    requires
        keys_unique(d),
        created(d, d1, u, p, Ok(())),
    ensures
        keys_unique(d1),
        has_username(d1, u),
        d1.last().username == u,
{
    let n = d.len() as int;
    assert(d1[n] == d1.last());
    assert forall|i: int, j: int| #![trigger d1[i], d1[j]]
        0 <= i < d1.len() && 0 <= j < d1.len() && i != j implies
        d1[i].username != d1[j].username && d1[i].identity != d1[j].identity by {
        if i < n && j < n {
            assert(d1[i] == d[i] && d1[j] == d[j]);
        } else if i < n {
            assert(d1[i] == d[i]);
        } else {
            assert(d1[j] == d[j]);
        }
    }
}

/// Once user `u` has been created, creating `u` again, with any password, is
/// refused as a duplicate and changes nothing: at most one record is ever named `u`.
pub proof fn lemma_second_create_refused(
    d: Seq<UserRecord>,
    d1: Seq<UserRecord>,
    d2: Seq<UserRecord>,
    u: Seq<char>,
    p: Seq<char>,
    p2: Seq<char>,
    r2: Result<(), UserError>,
)
    requires
        keys_unique(d),
        created(d, d1, u, p, Ok(())),
        created(d1, d2, u, p2, r2),
    ensures
        r2 == Err::<(), UserError>(UserError::DuplicateUsername),
        d2 == d1,
        keys_unique(d2),
{
    lemma_create_keeps_keys_unique(d, d1, u, p);
}

/// In a directory whose keys are unique, no two records share a username.
pub proof fn lemma_at_most_one_record_per_username(d: Seq<UserRecord>, u: Seq<char>, i: int, j: int)
    requires
        keys_unique(d),
        0 <= i < d.len(),
        0 <= j < d.len(),
        d[i].username == u,
        d[j].username == u,
    ensures
        i == j,
{
    if i != j {
        assert(d[i].username != d[j].username);
    }
}

/// The hash stored for a created user is one that its password verifies against,
/// derived from it under a salt that the hash string carries.
pub proof fn lemma_created_hash_verifies(d: Seq<UserRecord>, d1: Seq<UserRecord>, u: Seq<char>, p: Seq<char>)
    requires
        created(d, d1, u, p, Ok(())),
    ensures
        pbkdf2_verifies(p, d1.last().password_hash),
        exists|salt: Seq<char>|
            #[trigger] pbkdf2_phc(p, salt) == Some(d1.last().password_hash)
            && phc_layout(d1.last().password_hash, salt),
{
}

/// Hash strings laid out for two different salts differ: hashing a password
/// under another salt never reproduces a stored hash.
pub proof fn lemma_distinct_salts_distinct_hashes(h1: Seq<char>, s1: Seq<char>, h2: Seq<char>, s2: Seq<char>)
    requires
        phc_layout(h1, s1),
        phc_layout(h2, s2),
        s1 != s2,
    ensures
        h1 != h2,
{
    let e1 = choose|e: Seq<char>| e.len() == 43 && #[trigger] phc_string(s1, e) == h1;
    let e2 = choose|e: Seq<char>| e.len() == 43 && #[trigger] phc_string(s2, e) == h2;
    let head = "$pbkdf2-sha256$i=600000,l=32$"@;
    let n = head.len() as int;
    assert(h1 == phc_string(s1, e1) && h2 == phc_string(s2, e2));
    assert(h1.len() == n + s1.len() + 44);
    assert(h2.len() == n + s2.len() + 44);
    if h1 == h2 {
        assert(h1.subrange(n, n + s1.len() as int) =~= s1);
        assert(h2.subrange(n, n + s2.len() as int) =~= s2);
    }
}

/// After user `u` is created with password `p`, signing in as `u` with `p` yields
/// the new record's identity; any other password yields it exactly when it
/// verifies against the stored hash, and nothing otherwise.
pub proof fn lemma_authenticate_after_create(
    d: Seq<UserRecord>,
    d1: Seq<UserRecord>,
    u: Seq<char>,
    p: Seq<char>,
    p2: Seq<char>,
)
    requires
        keys_unique(d),
        created(d, d1, u, p, Ok(())),
    ensures
        authenticated(d1, u, p) == Some(d1.last().identity),
        authenticated(d1, u, p2) == (if pbkdf2_verifies(p2, d1.last().password_hash) {
            Some(d1.last().identity)
        } else {
            None::<Seq<char>>
        }),
{
    lemma_create_keeps_keys_unique(d, d1, u, p);
    let n = d.len() as int;
    assert(d1[n].username == u);
    let k = username_index(d1, u);
    lemma_at_most_one_record_per_username(d1, u, k, n);
}

/// Signing in as a username that the directory does not hold yields nothing.
pub proof fn lemma_authenticate_unknown(d: Seq<UserRecord>, u: Seq<char>, p: Seq<char>)
    requires
        !has_username(d, u),
    ensures
        authenticated(d, u, p) is None,
{
}

/// Deleting a known identity removes exactly one record, after which its user
/// can no longer sign in, with any password, and deleting it again changes nothing.
pub proof fn lemma_delete_known(d: Seq<UserRecord>, id: Seq<char>, p: Seq<char>)
    requires
        keys_unique(d),
        has_identity(d, id),
    ensures
        without_identity(d, id).len() == d.len() - 1,
        authenticated(without_identity(d, id), d[identity_index(d, id)].username, p) is None,
        !has_identity(without_identity(d, id), id),
        without_identity(without_identity(d, id), id) == without_identity(d, id),
{
    let k = identity_index(d, id);
    let u = d[k].username;
    let d1 = without_identity(d, id);
    assert(d1 == d.remove(k));
    assert forall|i: int| 0 <= i < d1.len() implies #[trigger] d1[i].username != u
        && d1[i].identity != id by {
        if i < k {
            assert(d1[i] == d[i]);
        } else {
            assert(d1[i] == d[i + 1]);
        }
    }
}

/// Deleting an identity that the directory does not hold changes nothing.
pub proof fn lemma_delete_unknown(d: Seq<UserRecord>, id: Seq<char>)
    requires
        !has_identity(d, id),
    ensures
        without_identity(d, id) == d,
        without_identity(d, id).len() == d.len(),
{
}

} // verus!
