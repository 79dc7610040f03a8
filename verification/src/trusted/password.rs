//! Password hashes, made and checked by the `argon2` crate.

use vstd::prelude::*;
use argon2::password_hash::rand_core::OsRng;
use argon2::password_hash::SaltString;
use argon2::{Argon2, PasswordHash, PasswordHasher, PasswordVerifier};

verus! {

/// What checking a password against a stored hash came to.
#[derive(Debug, Clone, Copy, PartialEq, Eq, Structural)]
pub enum PasswordCheck {
    /// The hash was made from this password.
    Accepted,
    /// The hash was not made from this password.
    Rejected,
    /// The stored text is no password hash.
    Unreadable,
}

/// What `PasswordHash::new` and then Argon2's `verify_password` make of the
/// password and the stored hash text.
pub uninterp spec fn argon2_check(password: Seq<char>, stored: Seq<char>) -> PasswordCheck;

/// `PasswordHash::new`, then `Argon2::default().verify_password`: reads the
/// stored text as a PHC string and checks the password against it, with the
/// salt and the parameters that the string holds. The result depends on the
/// two texts alone.
#[verifier::external_body]
pub(crate) fn check_password(password: &str, stored: &str) -> (r: PasswordCheck)
    ensures
        r == argon2_check(password@, stored@),
{
    match PasswordHash::new(stored) {
        Err(_) => PasswordCheck::Unreadable,
        Ok(hash) => match Argon2::default().verify_password(password.as_bytes(), &hash) {
            Ok(()) => PasswordCheck::Accepted,
            Err(_) => PasswordCheck::Rejected,
        },
    }
}

/// `Argon2::default().hash_password` with a salt from `SaltString::generate`:
/// hashes the password under a fresh random salt and writes the hash as a
/// PHC string, or says in words why it could not. Which hash comes out is
/// open; whichever does, checking the same password against it recomputes
/// it from the salt and parameters it holds, and so accepts.
#[verifier::external_body]
pub(crate) fn hash_password(password: &str) -> (r: Result<String, String>)
    ensures
        r matches Ok(hash) ==> argon2_check(password@, hash@) == PasswordCheck::Accepted,
{
    let salt = SaltString::generate(&mut OsRng);
    Argon2::default().hash_password(password.as_bytes(), &salt).map(|hash| hash.to_string()).map_err(
        |e| e.to_string(),
    )
}

} // verus!
