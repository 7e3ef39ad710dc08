//! Password hashing and verification, done by the `bcrypt` crate.

use vstd::prelude::*;
use crate::error::AuthError;

verus! {

/// The work factor with which every password is hashed.
pub const WORK_FACTOR: u32 = 12;

/// The smallest work factor that `bcrypt` takes.
pub const MIN_WORK_FACTOR: u32 = 4;

/// The largest work factor that `bcrypt` takes.
pub const MAX_WORK_FACTOR: u32 = 31;

/// `bcrypt::BcryptError`, the error of both calls into the crate. Nothing is
/// read from it: every such error ends in one of the service's own signals.
#[verifier::external_type_specification]
#[verifier::external_body]
pub struct ExBcryptError(bcrypt::BcryptError);

/// What `bcrypt::verify` answers for a password and a stored hash: `Some` of
/// its verdict, or `None` where it reports an error (a hash that is not in
/// bcrypt's format).
pub uninterp spec fn bcrypt_verdict(password: Seq<char>, hash: Seq<char>) -> Option<bool>;

/// The password is the one that `hash` was made from, as far as bcrypt can
/// tell.
pub open spec fn password_matches(password: Seq<char>, hash: Seq<char>) -> bool {
    bcrypt_verdict(password, hash) == Some(true)
}

/// The hash is one that bcrypt can read, and the password is not the one
/// that it was made from.
pub open spec fn password_mismatches(password: Seq<char>, hash: Seq<char>) -> bool {
    bcrypt_verdict(password, hash) == Some(false)
}

/// The hasher's verdict in the service's own terms: whether the password is
/// accepted, or an internal error where the hasher could not read the hash.
pub open spec fn verdict_result(verdict: Option<bool>) -> Result<bool, AuthError> {
    match verdict {
        Some(accepted) => Ok(accepted),
        None => Err(AuthError::InternalError),
    }
}

/// The length of every hash that bcrypt writes: `$2b$`, two digits of work
/// factor, `$`, 22 characters of salt and 31 of hash.
pub const HASH_LEN: usize = 60;

/// The value of a decimal digit.
pub open spec fn digit_value(c: char) -> int {
    c as int - '0' as int
}

/// The work factor that a hash in bcrypt's format was made with: the number
/// that its two digits after the version spell.
pub open spec fn hash_work_factor(hash: Seq<char>) -> int {
    10 * digit_value(hash[4]) + digit_value(hash[5])
}

/// Calls `bcrypt::hash`, which draws a fresh random salt on every call.
///
/// Not proved, taken from the crate: a work factor outside 4..=31 is always
/// refused; a hash that comes back is one that `bcrypt::verify` accepts for
/// the same password; and it is written as `$2b$`, the work factor in two
/// digits, `$`, 22 characters of salt and 31 of hash, 60 characters in all.
/// Nothing is claimed about the salt, nor that a hash comes back: the random
/// source may fail.
#[verifier::external_body]
fn bcrypt_hash(password: &str, cost: u32) -> (hashed: Result<String, bcrypt::BcryptError>)
    ensures
        cost < MIN_WORK_FACTOR || cost > MAX_WORK_FACTOR ==> hashed is Err,
        hashed matches Ok(h) ==> bcrypt_verdict(password@, h@) == Some(true),
        hashed matches Ok(h) ==> h@.len() == HASH_LEN && hash_work_factor(h@) == cost,
{
    bcrypt::hash(password, cost)
}

/// Calls `bcrypt::verify`.
///
/// Not proved, taken from the crate: the answer depends on the password and
/// the hash alone, and [`bcrypt_verdict`] is the name of that answer.
#[verifier::external_body]
fn bcrypt_verify(password: &str, hash: &str) -> (verdict: Result<bool, bcrypt::BcryptError>)
    ensures
        match verdict {
            Ok(b) => bcrypt_verdict(password@, hash@) == Some(b),
            Err(_) => bcrypt_verdict(password@, hash@) is None,
        },
{
    bcrypt::verify(password, hash)
}

/// Turns what the hasher returned into the service's own terms: the hash, or
/// an internal error for any failure of the hasher.
pub fn hash_outcome(hashed: Result<String, bcrypt::BcryptError>) -> (outcome: Result<
    String,
    AuthError,
>)
    ensures
        match hashed {
            Ok(h) => outcome == Ok::<String, AuthError>(h),
            Err(_) => outcome == Err::<String, AuthError>(AuthError::InternalError),
        },
{
    match hashed {
        Ok(h) => Ok(h),
        Err(_) => Err(AuthError::InternalError),
    }
}

/// Turns what the hasher answered into the service's own terms: its verdict
/// on the password, or an internal error where it could not read the hash.
/// An unreadable hash is a fault of what is stored, not of the credentials.
pub fn verdict_accepts(verdict: Result<bool, bcrypt::BcryptError>) -> (outcome: Result<
    bool,
    AuthError,
>)
    ensures
        match verdict {
            Ok(accepted) => outcome == Ok::<bool, AuthError>(accepted),
            Err(_) => outcome == Err::<bool, AuthError>(AuthError::InternalError),
        },
{
    match verdict {
        Ok(accepted) => Ok(accepted),
        Err(_) => Err(AuthError::InternalError),
    }
}

/// Hashes `password` with a fresh salt and the given work factor.
///
/// A hash that is returned matches the password and carries the work factor
/// it was asked for. The only failure is `InternalError`, and a work factor
/// outside `MIN_WORK_FACTOR..=MAX_WORK_FACTOR` always fails. Within that
/// range the hasher decides: it fails when the system's random source does.
pub fn hash_password_with_cost(password: &str, cost: u32) -> (outcome: Result<String, AuthError>)
    ensures
        match outcome {
            Ok(h) => {
                &&& password_matches(password@, h@)
                &&& MIN_WORK_FACTOR <= cost <= MAX_WORK_FACTOR
                &&& h@.len() == HASH_LEN
                &&& hash_work_factor(h@) == cost
            },
            Err(e) => e == AuthError::InternalError,
        },
{
    hash_outcome(bcrypt_hash(password, cost))
}

/// Hashes `password` with a fresh salt and [`WORK_FACTOR`].
///
/// A hash that is returned matches the password and carries that work
/// factor. The only failure is `InternalError`, when the hasher fails.
pub fn hash_password(password: &str) -> (outcome: Result<String, AuthError>)
    ensures
        match outcome {
            Ok(h) => {
                &&& password_matches(password@, h@)
                &&& h@.len() == HASH_LEN
                &&& hash_work_factor(h@) == WORK_FACTOR
            },
            Err(e) => e == AuthError::InternalError,
        },
{
    hash_password_with_cost(password, WORK_FACTOR)
}

/// Whether `password` is the one that the stored `hash` was made from.
/// A hash that the hasher cannot read is an `InternalError`.
pub fn verify_password(password: &str, hash: &str) -> (outcome: Result<bool, AuthError>)
    ensures
        outcome == verdict_result(bcrypt_verdict(password@, hash@)),
{
    verdict_accepts(bcrypt_verify(password, hash))
}

} // verus!
