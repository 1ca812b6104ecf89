//! Hashing and checking of login passwords with Argon2.

use argon2::password_hash::rand_core::OsRng;
use argon2::password_hash::{PasswordHash, PasswordHasher, PasswordVerifier, SaltString};
use argon2::Argon2;
use vstd::prelude::*;
use vstd::utf8::*;

verus! {

/// The longest password, in bytes, that Argon2 hashes.
pub const PASSWORD_LIMIT: u64 = 0xffff_ffff;

/// Whether `PasswordVerifier::verify_password` of `Argon2`, with its default
/// parameters, accepts a password for a hash in PHC string format. A string
/// that is no such hash accepts nothing.
pub uninterp spec fn argon2_verifies(password: Seq<u8>, hashed: Seq<char>) -> bool;

/// Hashes a password under a fresh random salt, by `SaltString::generate`
/// and `PasswordHasher::hash_password` of `Argon2` with its default
/// parameters, and returns the hash in PHC string format. Argon2 refuses a
/// password of more than `PASSWORD_LIMIT` bytes, for which the result is
/// `None`. Of the hash itself the contract states one thing: the password
/// that was hashed verifies against it.
#[verifier::external_body]
pub fn hash_password(password: &str) -> (hashed: Option<String>)
    ensures
        hashed is Some <==> encode_utf8(password@).len() <= PASSWORD_LIMIT,
        hashed is Some ==> argon2_verifies(encode_utf8(password@), hashed->0@),
{
    let salt = SaltString::generate(&mut OsRng);
    match Argon2::default().hash_password(password.as_bytes(), &salt) {
        Ok(hash) => Some(hash.to_string()),
        Err(_) => None,
    }
}

/// Checks a password against a stored hash, by `PasswordHash::new` and
/// `PasswordVerifier::verify_password` of `Argon2` with its default
/// parameters. A stored string that does not parse as a hash matches no
/// password.
#[verifier::external_body]
pub fn verify_password(password: &str, hashed_password: &str) -> (matches: bool)
    ensures
        matches == argon2_verifies(encode_utf8(password@), hashed_password@),
{
    match PasswordHash::new(hashed_password) {
        Ok(parsed) => Argon2::default().verify_password(password.as_bytes(), &parsed).is_ok(),
        Err(_) => false,
    }
}

} // verus!
