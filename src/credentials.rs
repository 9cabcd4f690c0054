//! Credential hasher: salted, memory-hard one-way hashing of passwords and
//! constant-time verification against a stored hash string.

use vstd::prelude::*;
use crate::error::{AppError, AppResult};
use argon2::password_hash::{PasswordHasher, PasswordVerifier};

verus! {

/// Whether `PasswordHash::new` accepts the text as a PHC hash string.
pub uninterp spec fn phc_parses(hash: Seq<char>) -> bool;

/// Whether Argon2 verification of the password against the parsed hash succeeds.
pub uninterp spec fn argon2_accepts(password: Seq<char>, hash: Seq<char>) -> bool;

/// A stored hash that the password verifies against.
pub open spec fn hashes_to(password: Seq<char>, hash: Seq<char>) -> bool {
    phc_parses(hash) && argon2_accepts(password, hash)
}

/// What verification yields: no answer on a malformed hash, else whether it matches.
pub open spec fn verify_outcome(password: Seq<char>, hash: Seq<char>) -> Option<bool> {
    if phc_parses(hash) {
        Some(argon2_accepts(password, hash))
    } else {
        None
    }
}

/// Largest password, in characters, that is sure to be hashed: at most four bytes
/// each, it stays within Argon2's limit of 2^32 - 1 bytes.
pub const MAX_HASHABLE_CHARS: usize = 0x3FFF_FFFF;

/// Relies on argon2's `PasswordHasher::hash_password` (default Argon2id parameters,
/// a fresh 16-byte salt from `SaltString::generate` over the OS generator). With
/// those it fails only for a password over 2^32 - 1 bytes (the OS generator panics
/// only if the system cannot supply random bytes); the PHC string it renders
/// parses again and verifies against the same password.
#[verifier::external_body]
fn argon2_hash(password: &str) -> (r: Option<String>)
    ensures
        password@.len() <= MAX_HASHABLE_CHARS ==> r is Some,
        r matches Some(h) ==> phc_parses(h@) && argon2_accepts(password@, h@),
{
    let salt = argon2::password_hash::SaltString::generate(&mut rand::rngs::OsRng);
    argon2::Argon2::default().hash_password(password.as_bytes(), &salt).map(|h| h.to_string()).ok()
}

/// Relies on `PasswordHash::new` (parsing the stored PHC string) and on argon2's
/// `PasswordVerifier::verify_password`, which compares outputs in constant time.
#[verifier::external_body]
fn argon2_check(password: &str, hash: &str) -> (r: Option<bool>)
    ensures
        r is Some <==> phc_parses(hash@),
        r matches Some(b) ==> b == argon2_accepts(password@, hash@),
{
    let parsed = argon2::password_hash::PasswordHash::new(hash).ok()?;
    Some(argon2::Argon2::default().verify_password(password.as_bytes(), &parsed).is_ok())
}

pub open spec fn is_hashing_failure(e: AppError) -> bool {
    e matches AppError::Internal(m) && m@ == "Failed to process password"@
}

pub open spec fn is_verify_failure(e: AppError) -> bool {
    e matches AppError::Internal(m) && m@ == "Failed to verify password"@
}

/// Hashes a password under a fresh random salt.
///
/// An empty password is refused; a hash that comes back always verifies against
/// the password.
pub fn hash_password(password: &str) -> (r: AppResult<String>)
    ensures
        password@.len() == 0 ==> r is Err,
        0 < password@.len() <= MAX_HASHABLE_CHARS ==> r is Ok,
        r matches Ok(h) ==> hashes_to(password@, h@),
        r matches Err(e) ==> is_hashing_failure(e),
{
    if password.unicode_len() == 0 {
        return Err(AppError::Internal(String::from_str("Failed to process password")));
    }
    match argon2_hash(password) {
        Some(h) => Ok(h),
        None => Err(AppError::Internal(String::from_str("Failed to process password"))),
    }
}

/// Checks a password against a stored hash; a malformed hash is an internal
/// error, never a match.
pub fn verify_password(password: &str, hash: &str) -> (r: AppResult<bool>)
    ensures
        r is Ok <==> phc_parses(hash@),
        r matches Ok(b) ==> b == argon2_accepts(password@, hash@),
        r matches Err(e) ==> is_verify_failure(e),
{
    match argon2_check(password, hash) {
        Some(b) => Ok(b),
        None => Err(AppError::Internal(String::from_str("Failed to verify password"))),
    }
}

/// A hash produced for a password verifies against that same password, and
/// verification of it reports no malformed-hash failure.
pub proof fn lemma_hash_verifies(password: Seq<char>, hash: Seq<char>)
    requires
        hashes_to(password, hash),
    ensures
        verify_outcome(password, hash) == Some(true),
{
}

} // verus!
