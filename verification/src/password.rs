//! One-way salted password hashing and verification, backed by argon2.
//!
//! A hash is a self-describing PHC-encoded string carrying the algorithm
//! id, its parameters, the salt and the digest. Verification re-derives
//! the digest from the parameters and salt found in the encoded string
//! and compares; it fails closed on any parse error or mismatch.

use vstd::prelude::*;

use argon2::PasswordHasher as Argon2HasherTrait;
use argon2::PasswordVerifier as Argon2VerifierTrait;

verus! {

/// Whether argon2 accepts `password` against the PHC-encoded string
/// `encoded`: the digest re-derived from `password` with the algorithm,
/// parameters and salt carried in `encoded` equals the digest stored
/// there. A function of the two arguments alone.
pub uninterp spec fn argon2_matches(password: Seq<char>, encoded: Seq<char>) -> bool;

/// Password sizes the hasher accepts outright. argon2 refuses only a
/// password over 2^32 - 1 bytes, and a char encodes to at most four
/// bytes, so any password of at most 0x3FFF_FFFF characters hashes.
pub open spec fn password_within_hash_bound(password: Seq<char>) -> bool {
    password.len() <= 0x3FFF_FFFF
}

/// Relies on password_hash::SaltString::generate (over rand's OsRng) and
/// argon2::Argon2::hash_password: hashing a password with a freshly
/// generated salt yields a PHC-encoded string that verifies against that
/// same password. With default parameters and a generated salt the
/// derivation refuses only a password over 2^32 - 1 bytes, so it cannot
/// come back empty-handed within the stated bound. The salt is random,
/// so nothing ties two calls' results to each other.
#[verifier::external_body]
fn argon2_hash(password: &str) -> (r: Option<String>)
    ensures
        r matches Some(h) ==> argon2_matches(password@, h@),
        r is None ==> !password_within_hash_bound(password@),
{
    let salt = argon2::password_hash::SaltString::generate(&mut rand::rngs::OsRng);
    match argon2::Argon2::default().hash_password(password.as_bytes(), &salt) {
        Ok(h) => Some(h.to_string()),
        Err(_) => None,
    }
}

/// Relies on password_hash::PasswordHash::new and
/// argon2::Argon2::verify_password: parses the encoded string, re-derives
/// the digest from the parameters and salt found there, and compares.
/// Both steps are deterministic in the two arguments; a parse failure or
/// a digest mismatch both come back as false.
#[verifier::external_body]
fn argon2_verify(password: &str, encoded: &str) -> (r: bool)
    ensures
        r == argon2_matches(password@, encoded@),
{
    match argon2::password_hash::PasswordHash::new(encoded) {
        Ok(parsed) => {
            argon2::Argon2::default().verify_password(password.as_bytes(), &parsed).is_ok()
        },
        Err(_) => false,
    }
}

/// Derives a salted one-way hash of `password` with a fresh random salt,
/// as a self-describing encoded string. Succeeds on every password
/// within the hash bound; every returned string verifies against
/// `password`.
pub fn hash_password(password: &str) -> (r: Option<String>)
    ensures
        r matches Some(h) ==> argon2_matches(password@, h@),
        password_within_hash_bound(password@) ==> r is Some,
{
    argon2_hash(password)
}

/// Checks `password` against a stored encoded hash. True exactly when the
/// digest re-derived from `password` matches the one in `encoded`; a
/// malformed `encoded` and a wrong password both yield false, with no
/// distinction surfaced to the caller.
pub fn verify_password(password: &str, encoded: &str) -> (r: bool)
    ensures
        r == argon2_matches(password@, encoded@),
{
    argon2_verify(password, encoded)
}

} // verus!
