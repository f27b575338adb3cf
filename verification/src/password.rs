//! Password hashing and verification, through argon2. The login flow hashes a
//! password when an account is created and verifies a presented password
//! against the stored hash.
use vstd::prelude::*;

use password_hash::{PasswordHasher, PasswordVerifier};

verus! {

/// Whether argon2 verification of `password` against the PHC-format string
/// `hash` succeeds: the hash string names its own salt and parameters, so
/// this is a function of the two strings alone.
pub uninterp spec fn argon2_verifies(password: Seq<char>, hash: Seq<char>) -> bool;

/// Relies on argon2::Argon2::verify_password (with the default parameters,
/// via password_hash): it recomputes the hash from the password and the salt
/// and parameters named inside `hash`, and succeeds exactly when the result
/// matches; a string that does not parse as a PHC hash verifies nothing.
#[verifier::external_body]
pub fn validate_password(password: &str, hash: &str) -> (r: Result<(), String>)
    ensures
        r is Ok <==> argon2_verifies(password@, hash@),
{
    let parsed = match password_hash::PasswordHash::new(hash) {
        Ok(p) => p,
        Err(e) => return Err(e.to_string()),
    };
    argon2::Argon2::default()
        .verify_password(password.as_bytes(), &parsed)
        .map(|_| ())
        .map_err(|_| "Failed to verify password".to_string())
}

/// Relies on argon2's hash_password with a salt drawn from the operating
/// system's randomness: the hash string depends on that salt, so nothing is
/// fixed about the string itself — but any hash it produces verifies for the
/// password that produced it, since verification recomputes the same function
/// from the salt and parameters the hash string names.
#[verifier::external_body]
pub fn encrypt_password(password: &str) -> (r: Result<String, String>)
    ensures
        r matches Ok(h) ==> argon2_verifies(password@, h@),
{
    let salt = password_hash::SaltString::generate(&mut password_hash::rand_core::OsRng);
    match argon2::Argon2::default().hash_password(password.as_bytes(), &salt) {
        Ok(h) => Ok(h.to_string()),
        Err(_) => Err("Failed to hash password".to_string()),
    }
}

} // verus!
