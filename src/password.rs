use vstd::prelude::*;

use crate::error::{AppError, AppResult};
use crate::id::UserId;
use crate::kernel::UserCredential;

verus! {

/// What bcrypt's check of `password` against `digest` yields: whether the
/// password matches, or `None` where the digest is malformed.
pub uninterp spec fn bcrypt_outcome(password: Seq<char>, digest: Seq<char>) -> Option<bool>;

/// The start of every digest made here: bcrypt's `2b` version and the cost 12.
pub open spec fn digest_prefix() -> Seq<char> {
    "$2b$12$"@
}

/// A digest in the shape bcrypt writes: the prefix, then 22 characters of salt and
/// 31 of hash, 60 in all.
pub open spec fn digest_shaped(h: Seq<char>) -> bool {
    h.len() == 60 && h.subrange(0, 7) == digest_prefix()
}

/// Relies on `bcrypt::hash` at `bcrypt::DEFAULT_COST` (12): a digest with a fresh
/// random salt, written in the `2b` format as `$2b$12$`, salt and hash, from which
/// `bcrypt::verify` recomputes the same hash for the same password. It fails only
/// where the system gives no randomness.
#[verifier::external_body]
fn bcrypt_hash(password: &str) -> (r: Result<String, String>)
    ensures
        r matches Ok(h) ==> bcrypt_outcome(password@, h@) == Some(true),
        r matches Ok(h) ==> digest_shaped(h@),
{
    match bcrypt::hash(password, bcrypt::DEFAULT_COST) {
        Ok(h) => Ok(h),
        Err(e) => Err(e.to_string()),
    }
}

/// Relies on `bcrypt::verify`: rehashes `password` with the cost and salt read from
/// `digest` and compares in constant time; an error where `digest` is malformed.
#[verifier::external_body]
fn bcrypt_verify(password: &str, digest: &str) -> (r: Result<bool, String>)
    ensures
        match r {
            Ok(b) => bcrypt_outcome(password@, digest@) == Some(b),
            Err(_) => bcrypt_outcome(password@, digest@) is None,
        },
{
    match bcrypt::verify(password, digest) {
        Ok(b) => Ok(b),
        Err(e) => Err(e.to_string()),
    }
}

/// `verify_password(password, digest)` returns `Ok(true)`.
pub open spec fn accepts(password: Seq<char>, digest: Seq<char>) -> bool {
    bcrypt_outcome(password, digest) == Some(true)
}

/// A salted one-way digest of `password`; checking the same password against it
/// with `verify_password` gives `Ok(true)`.
pub fn hash_password(password: &str) -> (r: AppResult<String>)
    ensures
        match r {
            Ok(h) => accepts(password@, h@) && digest_shaped(h@),
            Err(e) => e is HashPasswordError,
        },
{
    match bcrypt_hash(password) {
        Ok(h) => Ok(h),
        Err(m) => Err(AppError::HashPasswordError(m)),
    }
}

/// Whether `password` matches `digest`; an error only where `digest` is malformed.
pub fn verify_password(password: &str, digest: &str) -> (r: AppResult<bool>)
    ensures
        match bcrypt_outcome(password@, digest@) {
            Some(b) => r == Ok::<bool, AppError>(b),
            None => r matches Err(AppError::HashPasswordError(_)),
        },
{
    match bcrypt_verify(password, digest) {
        Ok(b) => Ok(b),
        Err(m) => Err(AppError::HashPasswordError(m)),
    }
}

/// Checks a login: the user of `credential` when `password` matches its digest.
/// A missing account and a wrong password are the same `Unauthorized` error.
pub fn check_password(credential: Option<UserCredential>, password: &str) -> (r: AppResult<UserId>)
    ensures
        match credential {
            None => r matches Err(AppError::Unauthorized(_)),
            Some(c) => match bcrypt_outcome(password@, c.password_hash@) {
                Some(true) => r == Ok::<UserId, AppError>(c.id),
                Some(false) => r matches Err(AppError::Unauthorized(_)),
                None => r matches Err(AppError::HashPasswordError(_)),
            },
        },
{
    match credential {
        None => Err(AppError::Unauthorized("invalid credentials".to_string())),
        Some(c) => match verify_password(password, c.password_hash.as_str()) {
            Ok(true) => Ok(c.id),
            Ok(false) => Err(AppError::Unauthorized("invalid credentials".to_string())),
            Err(e) => Err(e),
        },
    }
}

} // verus!
