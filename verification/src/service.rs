//! The three operations of the service: register, log in, and resolve a token.
//!
//! None of them touches the credential store. `register` hands back the
//! record to insert and `register_outcome` judges what the store answered;
//! `login` takes what the store found for the username.

use vstd::prelude::*;
use crate::clock::unix_now;
use crate::error::{outcome_view, AuthError, STATUS_CREATED, STATUS_OK};
use crate::store::StoreFault;
use crate::password::{
    bcrypt_verdict, hash_password, hash_work_factor, password_matches, verify_password, HASH_LEN,
    WORK_FACTOR,
};
use crate::token::{
    expiry_after, issue_outcome, issue_token, resolve_outcome, resolve_token, token_claims,
};

verus! {

/// A row of the credential store. `password_hash` is what the hasher made of
/// the password, never the password itself.
#[derive(Clone, Debug, PartialEq, Eq)]
pub struct UserRecord {
    /// The unique name of the account, case-sensitive.
    pub username: String,
    /// The salted hash of the account's password.
    pub password_hash: String,
}

/// What the store found for a username, with the hash taken as the sequence
/// of its characters.
pub open spec fn lookup_view(lookup: Result<Option<String>, StoreFault>) -> Result<
    Option<Seq<char>>,
    StoreFault,
> {
    match lookup {
        Ok(Some(hash)) => Ok(Some(hash@)),
        Ok(None) => Ok(None),
        Err(fault) => Err(fault),
    }
}

/// A token that may be missing from the request, as a sequence of characters.
pub open spec fn token_view(token: Option<&str>) -> Option<Seq<char>> {
    match token {
        Some(t) => Some(t@),
        None => None,
    }
}

/// How a registration ends, given what the store answered to the insert.
pub open spec fn register_result(inserted: Result<(), StoreFault>) -> Result<(), AuthError> {
    match inserted {
        Ok(_) => Ok(()),
        Err(StoreFault::UniqueViolation) => Err(AuthError::Conflict),
        Err(StoreFault::Other) => Err(AuthError::InternalError),
    }
}

/// How the check of the credentials ends, before any token is made.
///
/// A fault of the store is an internal error, and so is a stored hash that
/// the hasher cannot read. A username that the store does not know and a
/// password that does not match the stored hash both end in the same
/// `Unauthorized`.
pub open spec fn credentials_result(
    lookup: Result<Option<Seq<char>>, StoreFault>,
    password: Seq<char>,
) -> Result<(), AuthError> {
    match lookup {
        Err(_) => Err(AuthError::InternalError),
        Ok(None) => Err(AuthError::Unauthorized),
        Ok(Some(hash)) => match bcrypt_verdict(password, hash) {
            Some(true) => Ok(()),
            Some(false) => Err(AuthError::Unauthorized),
            None => Err(AuthError::InternalError),
        },
    }
}

/// How a login at `now` ends: as the check of the credentials does where
/// that fails, and otherwise as issuing a token for the username does.
pub open spec fn login_outcome(
    lookup: Result<Option<Seq<char>>, StoreFault>,
    username: Seq<char>,
    password: Seq<char>,
    secret: Seq<char>,
    now: u64,
) -> Result<Seq<char>, AuthError> {
    match credentials_result(lookup, password) {
        Err(e) => Err(e),
        Ok(_) => issue_outcome(username, secret, now),
    }
}

/// How a login ends for what the clock gave. Without a reading no expiry can
/// be set, so good credentials then end in an internal error; bad ones end as
/// they always do.
pub open spec fn login_clock_outcome(
    lookup: Result<Option<Seq<char>>, StoreFault>,
    username: Seq<char>,
    password: Seq<char>,
    secret: Seq<char>,
    reading: Option<u64>,
) -> Result<Seq<char>, AuthError> {
    match reading {
        Some(now) => login_outcome(lookup, username, password, secret, now),
        None => match credentials_result(lookup, password) {
            Err(e) => Err(e),
            Ok(_) => Err(AuthError::InternalError),
        },
    }
}

/// What a token, if the request held one, resolves to at `now`.
pub open spec fn me_outcome(token: Option<Seq<char>>, secret: Seq<char>, now: u64) -> Result<
    Seq<char>,
    AuthError,
> {
    match token {
        Some(t) => resolve_outcome(token_claims(t, secret), now),
        None => Err(AuthError::Unauthorized),
    }
}

/// What a token resolves to for what the clock gave. Without a reading
/// the expiry cannot be checked, and a token that cannot be checked is
/// `Unauthorized`.
pub open spec fn me_clock_outcome(
    token: Option<Seq<char>>,
    secret: Seq<char>,
    reading: Option<u64>,
) -> Result<Seq<char>, AuthError> {
    match reading {
        Some(now) => me_outcome(token, secret, now),
        None => Err(AuthError::Unauthorized),
    }
}

/// The status that answers a registration.
pub open spec fn register_status_of(outcome: Result<(), AuthError>) -> u16 {
    match outcome {
        Ok(_) => STATUS_CREATED,
        Err(e) => e.status(),
    }
}

/// The status that answers a login or a token resolution.
pub open spec fn reply_status_of(outcome: Result<String, AuthError>) -> u16 {
    match outcome {
        Ok(_) => STATUS_OK,
        Err(e) => e.status(),
    }
}

/// First half of a registration: hashes the password with a fresh salt and
/// returns the record that the caller is to insert into the store.
///
/// The record carries the username unchanged and a hash that matches the
/// password and was made with [`WORK_FACTOR`]. The only failure is
/// `InternalError`, when the hasher fails.
pub fn register(username: &str, password: &str) -> (outcome: Result<UserRecord, AuthError>)
    ensures
        match outcome {
            Ok(record) => {
                &&& record.username@ == username@
                &&& password_matches(password@, record.password_hash@)
                &&& record.password_hash@.len() == HASH_LEN
                &&& hash_work_factor(record.password_hash@) == WORK_FACTOR
            },
            Err(e) => e == AuthError::InternalError,
        },
{
    match hash_password(password) {
        Ok(password_hash) => Ok(UserRecord { username: username.to_owned(), password_hash }),
        Err(e) => Err(e),
    }
}

/// Second half of a registration: judges what the store answered to the
/// insert. A broken uniqueness of the username is a `Conflict`, any other
/// fault an `InternalError`.
pub fn register_outcome(inserted: Result<(), StoreFault>) -> (outcome: Result<(), AuthError>)
    ensures
        outcome == register_result(inserted),
{
    match inserted {
        Ok(_) => Ok(()),
        Err(StoreFault::UniqueViolation) => Err(AuthError::Conflict),
        Err(StoreFault::Other) => Err(AuthError::InternalError),
    }
}

/// The HTTP status for a registration: 201, 409 or 500.
pub fn register_status(outcome: &Result<(), AuthError>) -> (code: u16)
    ensures
        code == register_status_of(*outcome),
{
    match outcome {
        Ok(_) => STATUS_CREATED,
        Err(e) => e.status_code(),
    }
}

/// Checks the credentials of a login, given what the store found for the
/// username: `Ok(Some(hash))` for a registered user, `Ok(None)` for an
/// unknown one.
pub fn check_credentials(lookup: Result<Option<String>, StoreFault>, password: &str) -> (checked:
    Result<(), AuthError>)
    ensures
        checked == credentials_result(lookup_view(lookup), password@),
{
    match lookup {
        Err(_) => Err(AuthError::InternalError),
        Ok(None) => Err(AuthError::Unauthorized),
        Ok(Some(hash)) => {
            match verify_password(password, hash.as_str()) {
                Ok(true) => Ok(()),
                Ok(false) => Err(AuthError::Unauthorized),
                Err(e) => Err(e),
            }
        },
    }
}

/// Logs in at the time `now`, given what the store found for `username`:
/// `Ok(Some(hash))` for a registered user, `Ok(None)` for an unknown one.
///
/// With the password that the stored hash was made from, the login succeeds
/// whenever the expiry, 24 hours after `now`, fits in 64 bits. The token is
/// not empty and resolves under the same secret to `username` at every
/// moment up to that expiry.
pub fn login_at(
    lookup: Result<Option<String>, StoreFault>,
    username: &str,
    password: &str,
    secret: &str,
    now: u64,
) -> (outcome: Result<String, AuthError>)
    ensures
        outcome_view(outcome) == login_outcome(
            lookup_view(lookup),
            username@,
            password@,
            secret@,
            now,
        ),
        (lookup matches Ok(Some(hash)) && password_matches(password@, hash@) && expiry_after(now)
            <= u64::MAX) ==> outcome is Ok,
        outcome matches Ok(t) ==> t@.len() > 0,
        outcome matches Ok(t) ==> token_claims(t@, secret@) == Some(
            (username@, expiry_after(now) as u64),
        ),
        outcome matches Ok(t) ==> forall|at: u64|
            at <= expiry_after(now) ==> #[trigger] me_outcome(Some(t@), secret@, at) == Ok::<
                Seq<char>,
                AuthError,
            >(username@),
        !(outcome matches Err(AuthError::Conflict)),
{
    match check_credentials(lookup, password) {
        Err(e) => Err(e),
        Ok(_) => issue_token(username, secret, now),
    }
}

/// Logs in with what the clock gave: `Some` of the moment, or `None` where
/// it gave none.
///
/// Bad credentials and faults of the store end as in [`login_at`], whatever
/// the clock gave. Good credentials need the moment: with `Some(now)` the
/// login ends as `login_at` does at `now`, with `None` in `InternalError`.
pub fn login_with_clock(
    lookup: Result<Option<String>, StoreFault>,
    username: &str,
    password: &str,
    secret: &str,
    reading: Option<u64>,
) -> (outcome: Result<String, AuthError>)
    ensures
        outcome_view(outcome) == login_clock_outcome(
            lookup_view(lookup),
            username@,
            password@,
            secret@,
            reading,
        ),
        (credentials_result(lookup_view(lookup), password@) is Ok && reading is Some
            && expiry_after(reading.unwrap()) <= u64::MAX) ==> outcome is Ok,
        outcome matches Ok(t) ==> t@.len() > 0,
        outcome matches Ok(t) ==> reading matches Some(now) && token_claims(t@, secret@) == Some(
            (username@, expiry_after(now) as u64),
        ),
        !(outcome matches Err(AuthError::Conflict)),
{
    match reading {
        Some(now) => login_at(lookup, username, password, secret, now),
        None => match check_credentials(lookup, password) {
            Err(e) => Err(e),
            Ok(_) => Err(AuthError::InternalError),
        },
    }
}

/// Logs in at the current time. See [`login_with_clock`].
///
/// The clock decides which moment that is, and whether there is one: the
/// outcome is the one of `login_with_clock` for some reading that the clock
/// can give. How bad credentials and faults of the store end does not depend
/// on it. With good credentials the login ends in a token, or in
/// `InternalError` where the clock gave no moment: for every moment that it
/// can give, the expiry fits.
pub fn login(
    lookup: Result<Option<String>, StoreFault>,
    username: &str,
    password: &str,
    secret: &str,
) -> (outcome: Result<String, AuthError>)
    ensures
        exists|reading: Option<u64>|
            {
                &&& reading matches Some(now) ==> now <= i64::MAX
                &&& outcome_view(outcome) == #[trigger] login_clock_outcome(
                    lookup_view(lookup),
                    username@,
                    password@,
                    secret@,
                    reading,
                )
                &&& outcome matches Ok(t) ==> reading matches Some(now) && token_claims(
                    t@,
                    secret@,
                ) == Some((username@, expiry_after(now) as u64))
            },
        credentials_result(lookup_view(lookup), password@) matches Err(e) ==> outcome == Err::<
            String,
            AuthError,
        >(e),
        credentials_result(lookup_view(lookup), password@) is Ok ==> outcome is Ok || outcome
            == Err::<String, AuthError>(AuthError::InternalError),
        outcome matches Ok(t) ==> t@.len() > 0,
        !(outcome matches Err(AuthError::Conflict)),
{
    login_with_clock(lookup, username, password, secret, unix_now())
}

/// The HTTP status for a login: 200, 401 or 500.
pub fn login_status(outcome: &Result<String, AuthError>) -> (code: u16)
    ensures
        code == reply_status_of(*outcome),
{
    match outcome {
        Ok(_) => STATUS_OK,
        Err(e) => e.status_code(),
    }
}

/// Resolves the token of a request, if it held one, to a username as of
/// `now`. The store is not asked: the token and the secret decide alone.
///
/// Every failure is `Unauthorized`: a missing token, one that the codec
/// refuses under this secret, and one whose expiry has passed.
pub fn me_at(token: Option<&str>, secret: &str, now: u64) -> (outcome: Result<String, AuthError>)
    ensures
        outcome_view(outcome) == me_outcome(token_view(token), secret@, now),
        outcome is Err ==> outcome matches Err(AuthError::Unauthorized),
{
    match token {
        Some(t) => resolve_token(t, secret, now),
        None => Err(AuthError::Unauthorized),
    }
}

/// Resolves the token of a request with what the clock gave: `Some` of the
/// moment, or `None` where it gave none.
///
/// With `Some(now)` the outcome is the one of [`me_at`]. With `None` the
/// expiry cannot be checked, and every token is `Unauthorized`.
pub fn me_with_clock(token: Option<&str>, secret: &str, reading: Option<u64>) -> (outcome: Result<
    String,
    AuthError,
>)
    ensures
        outcome_view(outcome) == me_clock_outcome(token_view(token), secret@, reading),
        outcome is Err ==> outcome matches Err(AuthError::Unauthorized),
{
    match reading {
        Some(now) => me_at(token, secret, now),
        None => Err(AuthError::Unauthorized),
    }
}

/// Resolves the token of a request at the current time. See
/// [`me_with_clock`].
///
/// The clock decides which moment that is, and whether there is one: the
/// outcome is the one of `me_with_clock` for some reading that the clock can
/// give. A missing token and one that the codec refuses under this secret
/// are `Unauthorized` whatever the clock gave.
pub fn me(token: Option<&str>, secret: &str) -> (outcome: Result<String, AuthError>)
    ensures
        exists|reading: Option<u64>|
            {
                &&& reading matches Some(now) ==> now <= i64::MAX
                &&& outcome_view(outcome) == #[trigger] me_clock_outcome(
                    token_view(token),
                    secret@,
                    reading,
                )
            },
        outcome is Err ==> outcome matches Err(AuthError::Unauthorized),
        outcome matches Ok(name) ==> token matches Some(t) && token_claims(t@, secret@) matches Some(
            c,
        ) && c.0 == name@,
{
    me_with_clock(token, secret, unix_now())
}

/// The HTTP status for a token resolution: 200 or 401.
pub fn me_status(outcome: &Result<String, AuthError>) -> (code: u16)
    ensures
        code == reply_status_of(*outcome),
{
    match outcome {
        Ok(_) => STATUS_OK,
        Err(e) => e.status_code(),
    }
}

} // verus!
