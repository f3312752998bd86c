//! Credential directory of an authentication service: user records reachable
//! by username and by identity, passwords kept only as salted PBKDF2 hashes.
use vstd::prelude::*;

pub mod lemmas;
pub mod password;
pub mod users;

pub use users::{User, UserError, UserRecord, Users, UsersImpl};

verus! {

} // verus!
