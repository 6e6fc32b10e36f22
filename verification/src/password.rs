//! Account passwords, kept as Argon2id hashes in PHC string form.
use vstd::prelude::*;
use argon2::password_hash::{PasswordHasher, PasswordVerifier};
use argon2::Argon2;
use crate::errors::AppError;

verus! {

#[verifier::external_type_specification]
#[verifier::external_body]
pub struct ExPasswordHashError(argon2::password_hash::Error);

/// What Argon2 (default parameters, those of the PHC string taking
/// precedence) says of `password` against the PHC string `hash`: whether it
/// matches, or `None` when the check fails for another reason (a string that
/// is not a valid PHC hash, an unsupported algorithm or parameter).
pub uninterp spec fn argon2_verdict(password: Seq<char>, hash: Seq<char>) -> Option<bool>;

/// `Argon2::default().hash_password(..)` rendered as a PHC string, with a
/// fresh random salt. The salt (and so the text) is not stated; a hash that
/// is produced verifies against the password it was made from.
#[verifier::external_body]
fn argon2_hash(password: &str) -> (hashed: Result<String, argon2::password_hash::Error>)
    ensures
        hashed matches Ok(h) ==> argon2_verdict(password@, h@) == Some(true),
{
    Ok(Argon2::default().hash_password(password.as_bytes())?.to_string())
}

/// `Argon2::default().verify_password(..)` against a PHC string: `Ok(())`
/// is a match, `PasswordInvalid` a mismatch, any other error a failed check.
#[verifier::external_body]
fn argon2_verify(password: &str, hash: &str) -> (verdict: Result<bool, argon2::password_hash::Error>)
    ensures
        verdict is Ok <==> argon2_verdict(password@, hash@) is Some,
        verdict matches Ok(b) ==> argon2_verdict(password@, hash@) == Some(b),
{
    match Argon2::default().verify_password(password.as_bytes(), hash) {
        Ok(()) => Ok(true),
        Err(argon2::password_hash::Error::PasswordInvalid) => Ok(false),
        Err(e) => Err(e),
    }
}

/// The answer of a password check: whether it matches, or a hashing error.
pub open spec fn spec_password_check(password: Seq<char>, hash: Seq<char>) -> Result<bool, AppError> {
    match argon2_verdict(password, hash) {
        Some(b) => Ok(b),
        None => Err(AppError::PasswordHash),
    }
}

/// Hashes a password for storage; a failure of the hasher is a
/// `PasswordHash` error. The stored form always checks out against the
/// password it was made from.
pub fn hash_password(password: &str) -> (hashed: Result<String, AppError>)
    ensures
        hashed matches Ok(h) ==> spec_password_check(password@, h@) == Ok::<bool, AppError>(true),
        hashed matches Err(e) ==> e == AppError::PasswordHash,
{
    match argon2_hash(password) {
        Ok(h) => Ok(h),
        Err(_) => Err(AppError::PasswordHash),
    }
}

/// Checks a password against its stored hash.
pub fn verify_password(password: &str, hash: &str) -> (matches: Result<bool, AppError>)
    ensures
        matches == spec_password_check(password@, hash@),
{
    match argon2_verify(password, hash) {
        Ok(b) => Ok(b),
        Err(_) => Err(AppError::PasswordHash),
    }
}

} // verus!
