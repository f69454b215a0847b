//! A slow cryptographic hash meant for passwords.
//!
//! To hash regular data, the [`non_password`] module should be used
//! instead.
//!
//! [`non_password`]: crate::non_password
//!
//! ## Algorithm
//! This module uses the Argon2 hashing algorithm, via the [`argon2`]
//! crate, with a fresh random salt for every hash.

use vstd::prelude::*;

use argon2::password_hash::SaltString;
use argon2::{Argon2, PasswordHasher, PasswordVerifier};
use rand_core::OsRng;

verus! {

/// Failure of password hashing or verification. On verification it covers
/// both a malformed hash string and a password that does not match.
#[derive(Clone, Copy, Debug, PartialEq, Eq, Structural)]
pub struct PasswordHashError;

/// Whether verifying `password` against the PHC string `phc` succeeds:
/// the string parses, and recomputing the hash of `password` with the
/// algorithm, parameters and salt embedded in the string reproduces the
/// embedded hash. Verification is a deterministic function of the
/// password and the string alone.
pub uninterp spec fn phc_verifies(password: Seq<u8>, phc: Seq<char>) -> bool;

/// Relies on `argon2::Argon2::hash_password` with a salt drawn freshly from
/// the operating system's randomness source: on success the returned PHC
/// string embeds the parameters, the salt and the hash, so verifying the
/// hashed password against it succeeds. With the default parameters and a
/// generated salt, the only input-dependent failure is a password longer
/// than 0xFFFF_FFFF bytes, so success is owed below that.
#[verifier::external_body]
fn argon2_hash(password: &[u8]) -> (r: Result<String, PasswordHashError>)
    ensures
        r matches Ok(h) ==> phc_verifies(password@, h@),
        password@.len() <= 0xFFFF_FFFF ==> r is Ok,
{
    let salt = SaltString::generate(&mut OsRng);
    Argon2::default().hash_password(password, &salt).map(|h| h.to_string()).map_err(
        |_| PasswordHashError,
    )
}

/// Relies on `argon2::Argon2::verify_password`: it parses the PHC string,
/// recomputes the hash of the candidate password with the parameters and
/// salt embedded in the string, and succeeds exactly when the result
/// matches the embedded hash — a deterministic check.
#[verifier::external_body]
fn argon2_verify(password: &[u8], phc: &str) -> (r: Result<(), PasswordHashError>)
    ensures
        r is Ok <==> phc_verifies(password@, phc@),
{
    let parsed: argon2::password_hash::PasswordHash = match phc.try_into() {
        Ok(p) => p,
        Err(_) => return Err(PasswordHashError),
    };
    Argon2::default().verify_password(password, &parsed).map_err(|_| PasswordHashError)
}

/// Hash a password, producing a PHC string containing the hash as well as
/// the salt and the parameters of the underlying algorithm.
///
/// The salt is drawn fresh for every call, so two hashes of the same
/// password differ; each hash still verifies the password it was made
/// from, as [`verify`]'s contract states over the same predicate. Hashing
/// succeeds for every password of at most 0xFFFF_FFFF bytes, the
/// algorithm's password-length limit.
pub fn hash(password: &[u8]) -> (r: Result<String, PasswordHashError>)
    ensures
        r matches Ok(h) ==> phc_verifies(password@, h@),
        password@.len() <= 0xFFFF_FFFF ==> r is Ok,
{
    argon2_hash(password)
}

/// Validate that a password matches a given hash.
///
/// The hash must be formatted as a PHC string. Verification succeeds
/// exactly when the string parses and the password reproduces the hash
/// embedded in it; in particular it succeeds for every string that
/// [`hash`] produced from this same password.
pub fn verify(password: &[u8], hash: &str) -> (r: Result<(), PasswordHashError>)
    ensures
        r is Ok <==> phc_verifies(password@, hash@),
{
    argon2_verify(password, hash)
}

} // verus!
