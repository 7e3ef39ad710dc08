//! What holds of the operations for every input, stated over the functions
//! that their contracts are written in.

use vstd::prelude::*;
use crate::error::AuthError;
use crate::password::{bcrypt_verdict, password_matches, password_mismatches};
use crate::service::{login_outcome, me_outcome, register_result};
use crate::store::{StoreFault, Users};
use crate::token::{issue_outcome, token_claims};

verus! {

/// A login for a username that the store does not know ends as a login with
/// a wrong password for a registered one does: both are the same
/// `Unauthorized`, whatever the usernames, passwords, secrets and times were,
/// so the reply does not betray which usernames exist.
pub proof fn unknown_user_looks_like_wrong_password(
    unknown: Seq<char>,
    tried: Seq<char>,
    known: Seq<char>,
    hash: Seq<char>,
    wrong: Seq<char>,
    secret: Seq<char>,
    first: u64,
    second: u64,
)
    ensures
        login_outcome(Ok(None), unknown, tried, secret, first) == Err::<Seq<char>, AuthError>(
            AuthError::Unauthorized,
        ),
        password_mismatches(wrong, hash) ==> login_outcome(
            Ok(Some(hash)),
            known,
            wrong,
            secret,
            second,
        ) == login_outcome(Ok(None), unknown, tried, secret, first),
{
}

/// A stored hash that the hasher cannot read is a fault of the store's
/// content, not of the credentials: the login ends in `InternalError`,
/// whatever the password.
pub proof fn unreadable_hash_is_an_internal_error(
    username: Seq<char>,
    hash: Seq<char>,
    password: Seq<char>,
    secret: Seq<char>,
    now: u64,
)
    ensures
        bcrypt_verdict(password, hash) is None ==> login_outcome(
            Ok(Some(hash)),
            username,
            password,
            secret,
            now,
        ) == Err::<Seq<char>, AuthError>(AuthError::InternalError),
{
}

/// With the password that the stored hash was made from, a login goes on to
/// issue a token: it ends as the issuing does, and never in `Unauthorized`
/// nor in `Conflict`.
pub proof fn matching_password_reaches_the_signer(
    username: Seq<char>,
    hash: Seq<char>,
    password: Seq<char>,
    secret: Seq<char>,
    now: u64,
)
    ensures
        password_matches(password, hash) ==> login_outcome(
            Ok(Some(hash)),
            username,
            password,
            secret,
            now,
        ) == issue_outcome(username, secret, now),
        issue_outcome(username, secret, now) is Ok || issue_outcome(username, secret, now) == Err::<
            Seq<char>,
            AuthError,
        >(AuthError::InternalError),
{
}

/// A token whose claims a secret vouches for resolves to the subject of
/// those claims at every moment up to their expiry.
pub proof fn token_resolves_until_expiry(
    token: Seq<char>,
    secret: Seq<char>,
    subject: Seq<char>,
    expiry: u64,
    now: u64,
)
    ensures
        token_claims(token, secret) == Some((subject, expiry)) && now <= expiry ==> me_outcome(
            Some(token),
            secret,
            now,
        ) == Ok::<Seq<char>, AuthError>(subject),
{
}

/// A token whose expiry lies in the past is rejected with `Unauthorized`,
/// also where its signature is good and its claims are well formed.
pub proof fn expired_token_is_rejected(
    token: Seq<char>,
    secret: Seq<char>,
    subject: Seq<char>,
    expiry: u64,
    now: u64,
)
    ensures
        token_claims(token, secret) == Some((subject, expiry)) && expiry < now ==> me_outcome(
            Some(token),
            secret,
            now,
        ) == Err::<Seq<char>, AuthError>(AuthError::Unauthorized),
{
}

/// A token has two states and moves one way. Once it is rejected it stays
/// rejected at every later moment, and while it is accepted it names the same
/// user as at every earlier moment.
pub proof fn rejection_is_final(
    token: Option<Seq<char>>,
    secret: Seq<char>,
    earlier: u64,
    later: u64,
)
    ensures
        earlier <= later && me_outcome(token, secret, earlier) is Err ==> me_outcome(
            token,
            secret,
            later,
        ) is Err,
        earlier <= later && me_outcome(token, secret, later) is Ok ==> me_outcome(
            token,
            secret,
            earlier,
        ) == me_outcome(token, secret, later),
{
}

/// Resolving a token fails in one way only: `Unauthorized`. The store plays
/// no part in it, so there is no internal error and no conflict to report.
pub proof fn me_fails_only_unauthorized(token: Option<Seq<char>>, secret: Seq<char>, now: u64)
    ensures
        me_outcome(token, secret, now) is Ok || me_outcome(token, secret, now) == Err::<
            Seq<char>,
            AuthError,
        >(AuthError::Unauthorized),
{
}

/// A registration succeeds exactly when the store took the insert, and ends
/// in `Conflict` exactly when the store found the username taken. So of two
/// inserts of one username, of which the store takes one and refuses the
/// other for uniqueness, one registration succeeds and the other conflicts.
pub proof fn registration_follows_the_store(inserted: Result<(), StoreFault>)
    ensures
        register_result(inserted) is Ok <==> inserted is Ok,
        register_result(inserted) == Err::<(), AuthError>(AuthError::Conflict) <==> inserted
            == Err::<(), StoreFault>(StoreFault::UniqueViolation),
        !(register_result(inserted) matches Err(AuthError::Unauthorized)),
{
}

/// Against a working store, the first registration of a username succeeds and
/// a second one of the same username ends in `Conflict`, whatever password it
/// brings, and leaves the stored row as it was.
pub proof fn registering_twice_conflicts(
    users: Users,
    username: Seq<char>,
    first_hash: Seq<char>,
    second_hash: Seq<char>,
)
    ensures
        !users.knows(username) ==> {
            let after_first = users.insert(username, first_hash);
            let after_second = after_first.insert(username, second_hash);
            &&& register_result(users.insert_answer(username)) == Ok::<(), AuthError>(())
            &&& register_result(after_first.insert_answer(username)) == Err::<(), AuthError>(
                AuthError::Conflict,
            )
            &&& after_second == after_first
            &&& after_second.lookup_answer(username) == Ok::<Option<Seq<char>>, StoreFault>(
                Some(first_hash),
            )
        },
{
}

/// Of two registrations of one unused username that reach a working store,
/// which takes them one after the other in either order, exactly one succeeds
/// and the other ends in `Conflict`; the row that stays is the winner's.
pub proof fn one_of_two_registrations_wins(
    users: Users,
    username: Seq<char>,
    hash_a: Seq<char>,
    hash_b: Seq<char>,
    a_goes_first: bool,
)
    ensures
        !users.knows(username) ==> {
            let (winner, loser) = if a_goes_first {
                (hash_a, hash_b)
            } else {
                (hash_b, hash_a)
            };
            let between = users.insert(username, winner);
            let first = register_result(users.insert_answer(username));
            let second = register_result(between.insert_answer(username));
            &&& first is Ok
            &&& second == Err::<(), AuthError>(AuthError::Conflict)
            &&& between.insert(username, loser).rows == users.rows.insert(username, winner)
        },
{
}

/// A registration changes nothing but the row of its own username, and that
/// only when the username is new: a row, once written, is never changed and
/// never dropped.
pub proof fn rows_are_written_once(
    users: Users,
    username: Seq<char>,
    hash: Seq<char>,
    other: Seq<char>,
)
    ensures
        users.knows(other) ==> users.insert(username, hash).lookup_answer(other)
            == users.lookup_answer(other),
        other != username ==> users.insert(username, hash).knows(other) == users.knows(other),
        users.insert(username, hash).knows(username),
        register_result(users.insert_answer(username)) is Err ==> users.insert(username, hash)
            == users,
{
}

/// After a registration with a working store, a login with the registered
/// password goes on to issue a token for the username, and a login with a
/// password that does not match the stored hash is `Unauthorized`.
pub proof fn registered_user_logs_in(
    users: Users,
    username: Seq<char>,
    password: Seq<char>,
    hash: Seq<char>,
    tried: Seq<char>,
    secret: Seq<char>,
    now: u64,
)
    ensures
        !users.knows(username) && password_matches(password, hash) ==> login_outcome(
            users.insert(username, hash).lookup_answer(username),
            username,
            password,
            secret,
            now,
        ) == issue_outcome(username, secret, now),
        !users.knows(username) && password_mismatches(tried, hash) ==> login_outcome(
            users.insert(username, hash).lookup_answer(username),
            username,
            tried,
            secret,
            now,
        ) == Err::<Seq<char>, AuthError>(AuthError::Unauthorized),
{
}

/// A login for a username that was never registered is `Unauthorized`,
/// whatever the password.
pub proof fn never_registered_user_is_unauthorized(
    users: Users,
    username: Seq<char>,
    password: Seq<char>,
    secret: Seq<char>,
    now: u64,
)
    ensures
        !users.knows(username) ==> login_outcome(
            users.lookup_answer(username),
            username,
            password,
            secret,
            now,
        ) == Err::<Seq<char>, AuthError>(AuthError::Unauthorized),
        login_outcome(Users::empty().lookup_answer(username), username, password, secret, now)
            == Err::<Seq<char>, AuthError>(AuthError::Unauthorized),
{
}

} // verus!
