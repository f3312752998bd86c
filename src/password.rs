//! The password-hashing primitive and the random sources the directory draws on.
use pbkdf2::password_hash::rand_core::OsRng;
use pbkdf2::password_hash::{PasswordHash, PasswordHasher, PasswordVerifier, SaltString};
use pbkdf2::Pbkdf2;
use vstd::prelude::*;

verus! {

/// The PHC string (algorithm, parameters, salt and digest) that PBKDF2 with its
/// default parameters derives from `password` and the B64 salt `salt`, or `None`
/// where the derivation fails.
pub uninterp spec fn pbkdf2_phc(password: Seq<char>, salt: Seq<char>) -> Option<Seq<char>>;

/// Whether `password` verifies against the PHC string `phc` under PBKDF2.
pub uninterp spec fn pbkdf2_verifies(password: Seq<char>, phc: Seq<char>) -> bool;

/// The PHC string `$pbkdf2-sha256$i=600000,l=32$<salt>$<digest>`, as PBKDF2-SHA256
/// with its default 600 000 rounds and 32-byte output writes it.
pub open spec fn phc_string(salt: Seq<char>, digest: Seq<char>) -> Seq<char> {
    "$pbkdf2-sha256$i=600000,l=32$"@ + salt + seq!['$'] + digest
}

/// Whether `h` is the PHC string written for `salt` with some digest of 43 B64
/// characters (32 bytes).
pub open spec fn phc_layout(h: Seq<char>, salt: Seq<char>) -> bool {
    exists|digest: Seq<char>| digest.len() == 43 && #[trigger] phc_string(salt, digest) == h
}

/// Relies on `SaltString::generate` fed by `OsRng`: a fresh random B64 salt.
#[verifier::external_body]
pub(crate) fn generate_salt() -> (r: String) {
    SaltString::generate(&mut OsRng).as_str().to_string()
}

/// Relies on `SaltString::from_b64` and `Pbkdf2::hash_password`: the result is a
/// function of the password and the salt alone. `verify_password` recomputes the
/// digest with the salt and parameters that the PHC string carries, so the
/// password a hash was made from verifies against it. The string is written by
/// `PasswordHash`'s `Display`: algorithm, parameters, the salt as given, and the
/// digest in unpadded B64.
#[verifier::external_body]
pub(crate) fn hash_password(password: &str, salt: &str) -> (r: Option<String>)
    ensures
        match r {
            Some(h) => pbkdf2_phc(password@, salt@) == Some(h@),
            None => pbkdf2_phc(password@, salt@) is None,
        },
        r matches Some(h) ==> pbkdf2_verifies(password@, h@),
        r matches Some(h) ==> phc_layout(h@, salt@),
{
    let salt = SaltString::from_b64(salt).ok()?;
    Pbkdf2.hash_password(password.as_bytes(), &salt).ok().map(|h| h.to_string())
}

/// Relies on `PasswordHash::new` and `Pbkdf2::verify_password` (whose digest
/// comparison is constant-time): a PHC string that does not parse verifies nothing.
#[verifier::external_body]
pub(crate) fn verify_password(password: &str, phc: &str) -> (r: bool)
    ensures
        r == pbkdf2_verifies(password@, phc@),
{
    match PasswordHash::new(phc) {
        Ok(parsed) => Pbkdf2.verify_password(password.as_bytes(), &parsed).is_ok(),
        Err(_) => false,
    }
}

/// Relies on `uuid::Uuid::new_v4` and its hyphenated text form: a fresh random identity.
#[verifier::external_body]
pub(crate) fn new_identity() -> (r: String) {
    uuid::Uuid::new_v4().to_string()
}

} // verus!
