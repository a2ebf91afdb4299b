//! Utilities for common operations: identifier generation, the wall clock,
//! and password hashing.
//!
//! Each function that reaches outside the library is a trusted wrapper whose
//! contract states only what the outside crate's own documentation promises.

use vstd::prelude::*;

use crate::errors::PeerPowerError;

verus! {

/// Timestamps are milliseconds since the Unix epoch. This bound (midnight,
/// year 10000) keeps every duration addition the engine performs inside u64.
pub const MAX_TIMESTAMP_MS: u64 = 253_402_300_800_000;

/// A timestamp the engine is willing to do arithmetic on.
pub open spec fn valid_time(t: u64) -> bool {
    t <= MAX_TIMESTAMP_MS
}

/// Relies on uuid::Uuid::new_v4 and its Display impl: a fresh random UUID,
/// rendered in the hyphenated form, which is always 36 characters.
#[verifier::external_body]
pub fn generate_id() -> (r: String)
    ensures
        r@.len() == 36,
{
    uuid::Uuid::new_v4().to_string()
}

/// Relies on chrono::Utc::now: the current time as non-leap-milliseconds
/// since the Unix epoch. Nothing is promised of the machine's clock.
#[verifier::external_body]
fn now_raw() -> i64 {
    chrono::Utc::now().timestamp_millis()
}

/// Get the current UTC timestamp in milliseconds, clamped to the range the
/// engine does arithmetic on.
pub fn now() -> (r: u64)
    ensures
        valid_time(r),
{
    let t = now_raw();
    if t < 0 {
        0
    } else if t > MAX_TIMESTAMP_MS as i64 {
        MAX_TIMESTAMP_MS
    } else {
        t as u64
    }
}

/// Whether a password matches an Argon2 PHC hash string; decided by
/// argon2::Argon2::verify_password, which depends on its arguments alone.
pub uninterp spec fn password_matches(password: Seq<char>, hash: Seq<char>) -> bool;

/// Relies on argon2::Argon2::hash_password: hashes the password with a fresh
/// random salt into a PHC string. The salt is random, so nothing more than
/// consistency with verification is promised of a successful result.
#[verifier::external_body]
pub fn hash_password(password: &str) -> (r: Result<String, PeerPowerError>)
    ensures
        r matches Ok(h) ==> password_matches(password@, h@),
{
    let salt = argon2::password_hash::SaltString::generate(
        &mut argon2::password_hash::rand_core::OsRng,
    );
    argon2::password_hash::PasswordHasher::hash_password(
        &argon2::Argon2::default(),
        password.as_bytes(),
        &salt,
    )
        .map(|hash| hash.to_string())
        .map_err(|e| PeerPowerError::Internal { message: format!("Password hashing failed: {}", e) })
}

/// Relies on argon2::Argon2::verify_password and
/// password_hash::PasswordHash::new: checks the password against a PHC hash
/// string; fails only when the hash string itself cannot be parsed.
#[verifier::external_body]
pub fn verify_password(password: &str, hash: &str) -> (r: Result<bool, PeerPowerError>)
    ensures
        r matches Ok(b) ==> b == password_matches(password@, hash@),
{
    let parsed_hash = argon2::password_hash::PasswordHash::new(hash)
        .map_err(|e| PeerPowerError::Internal { message: format!("Invalid password hash: {}", e) })?;
    Ok(argon2::password_hash::PasswordVerifier::verify_password(
        &argon2::Argon2::default(),
        password.as_bytes(),
        &parsed_hash,
    ).is_ok())
}

} // verus!
