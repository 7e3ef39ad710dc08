//! Identity claims and the signed tokens that carry them, encoded and checked
//! by the `jsonwebtoken` crate with HMAC-SHA256.

use vstd::prelude::*;
use crate::error::AuthError;

verus! {

/// How long a token stays valid after it was issued: 24 hours, in seconds.
pub const TOKEN_LIFETIME_SECS: u64 = 86_400;

/// An identity claim: who the bearer is, and until when the claim holds.
/// It lives only inside a token; the service keeps no record of it.
#[derive(Clone, Debug, PartialEq, Eq)]
pub struct Claims {
    /// The username that the claim asserts.
    pub sub: String,
    /// The last second, counted from the Unix epoch, at which the claim holds.
    pub exp: u64,
}

impl View for Claims {
    type V = (Seq<char>, u64);

    open spec fn view(&self) -> (Seq<char>, u64) {
        (self.sub@, self.exp)
    }
}

/// `jsonwebtoken::errors::Error`, the error of the signer. Nothing is read
/// from it: a token that cannot be signed is an internal error.
#[verifier::external_type_specification]
#[verifier::external_body]
pub struct ExTokenError(jsonwebtoken::errors::Error);

/// The token that `jsonwebtoken::encode` builds for a subject and an expiry
/// under a secret, or `None` where it reports an error.
pub uninterp spec fn signed_token(sub: Seq<char>, exp: u64, secret: Seq<char>) -> Option<Seq<char>>;

/// The subject and the expiry that `jsonwebtoken::decode` reads from a token
/// under a secret, without looking at the clock. `None` stands for every
/// token that it refuses (not three parts, a bad signature, another
/// algorithm than HS256, a payload that is not JSON) and for claims without a
/// string `sub` or without an unsigned integer `exp`.
pub uninterp spec fn token_claims(token: Seq<char>, secret: Seq<char>) -> Option<(Seq<char>, u64)>;

/// Calls `jsonwebtoken::encode` with the default header (HS256) on the claims
/// written as a JSON object with the members `sub` and `exp`.
///
/// Not proved, taken from the crate: the result depends on the claims and
/// the secret alone, [`signed_token`] being its name; a token that comes
/// back decodes under the same secret to the claims it was made from; and
/// with an HMAC secret and claims of one string and one number the call does
/// not fail, and what it returns (three parts joined by dots) is not empty.
#[verifier::external_body]
fn jwt_encode(claims: &Claims, secret: &str) -> (signed: Result<String, jsonwebtoken::errors::Error>)
    ensures
        match signed {
            Ok(t) => signed_token(claims.sub@, claims.exp, secret@) == Some(t@),
            Err(_) => signed_token(claims.sub@, claims.exp, secret@) is None,
        },
        signed matches Ok(t) ==> token_claims(t@, secret@) == Some(claims@),
        signed is Ok,
        signed matches Ok(t) ==> t@.len() > 0,
{
    let mut payload = serde_json::Map::new();
    payload.insert("sub".to_string(), serde_json::Value::from(claims.sub.as_str()));
    payload.insert("exp".to_string(), serde_json::Value::from(claims.exp));
    let key = jsonwebtoken::EncodingKey::from_secret(secret.as_bytes());
    jsonwebtoken::encode(&jsonwebtoken::Header::default(), &payload, &key)
}

/// Calls `jsonwebtoken::decode` for HS256 with the expiry check switched off,
/// so that the clock plays no part, and picks `sub` and `exp` from the claims.
///
/// Not proved, taken from the crate: the result depends on the token and the
/// secret alone, and [`token_claims`] is its name.
#[verifier::external_body]
fn jwt_decode(token: &str, secret: &str) -> (decoded: Option<Claims>)
    ensures
        match decoded {
            Some(claims) => token_claims(token@, secret@) == Some(claims@),
            None => token_claims(token@, secret@) is None,
        },
{
    let mut validation = jsonwebtoken::Validation::new(jsonwebtoken::Algorithm::HS256);
    validation.validate_exp = false;
    let key = jsonwebtoken::DecodingKey::from_secret(secret.as_bytes());
    let payload = jsonwebtoken::decode::<serde_json::Value>(token, &key, &validation).ok()?.claims;
    let sub = payload.get("sub")?.as_str()?.to_string();
    let exp = payload.get("exp")?.as_u64()?;
    Some(Claims { sub, exp })
}

/// The expiry of a claim issued at `now`: 24 hours later.
pub open spec fn expiry_after(now: u64) -> int {
    now + TOKEN_LIFETIME_SECS
}

/// The claim holds at `now`: its expiry has not passed.
pub open spec fn is_current(exp: u64, now: u64) -> bool {
    now <= exp
}

/// What issuing a token for `username` at `now` gives: the token signed for
/// the username and the expiry 24 hours later, or an internal error where the
/// expiry cannot be written in 64 bits or the signer fails.
pub open spec fn issue_outcome(username: Seq<char>, secret: Seq<char>, now: u64) -> Result<
    Seq<char>,
    AuthError,
> {
    if expiry_after(now) > u64::MAX {
        Err(AuthError::InternalError)
    } else {
        match signed_token(username, expiry_after(now) as u64, secret) {
            Some(token) => Ok(token),
            None => Err(AuthError::InternalError),
        }
    }
}

/// What a decoded token resolves to at `now`: the subject of claims that are
/// there and current, and `Unauthorized` otherwise.
pub open spec fn resolve_outcome(claims: Option<(Seq<char>, u64)>, now: u64) -> Result<
    Seq<char>,
    AuthError,
> {
    match claims {
        Some((sub, exp)) => if is_current(exp, now) {
            Ok(sub)
        } else {
            Err(AuthError::Unauthorized)
        },
        None => Err(AuthError::Unauthorized),
    }
}

/// The view of claims that may be absent.
pub open spec fn claims_view(claims: Option<Claims>) -> Option<(Seq<char>, u64)> {
    match claims {
        Some(c) => Some(c@),
        None => None,
    }
}

impl Claims {
    /// The claim that `username` is the bearer, valid for 24 hours from `now`.
    /// `None` where that expiry does not fit in 64 bits.
    pub fn issued_at(username: &str, now: u64) -> (claims: Option<Claims>)
        ensures
            match claims {
                Some(c) => c@ == (username@, expiry_after(now) as u64) && expiry_after(now)
                    <= u64::MAX,
                None => expiry_after(now) > u64::MAX,
            },
    {
        match now.checked_add(TOKEN_LIFETIME_SECS) {
            Some(exp) => Some(Claims { sub: username.to_owned(), exp }),
            None => None,
        }
    }

    /// Whether the claim still holds at `now`.
    pub fn is_current_at(&self, now: u64) -> (current: bool)
        ensures
            current == is_current(self.exp, now),
    {
        now <= self.exp
    }
}

/// Turns what the signer returned into the service's own terms: the token,
/// or an internal error for any failure of the signer.
pub fn token_or_fault(signed: Result<String, jsonwebtoken::errors::Error>) -> (outcome: Result<
    String,
    AuthError,
>)
    ensures
        match signed {
            Ok(t) => outcome == Ok::<String, AuthError>(t),
            Err(_) => outcome == Err::<String, AuthError>(AuthError::InternalError),
        },
{
    match signed {
        Ok(t) => Ok(t),
        Err(_) => Err(AuthError::InternalError),
    }
}

/// Resolves claims that were read from a token, if any were, to their
/// subject, provided they are still current at `now`.
pub fn resolve_claims(claims: Option<Claims>, now: u64) -> (outcome: Result<String, AuthError>)
    ensures
        crate::error::outcome_view(outcome) == resolve_outcome(claims_view(claims), now),
{
    match claims {
        Some(c) => {
            if c.is_current_at(now) {
                Ok(c.sub)
            } else {
                Err(AuthError::Unauthorized)
            }
        },
        None => Err(AuthError::Unauthorized),
    }
}

/// Signs a token that names `username` and expires 24 hours after `now`.
///
/// It succeeds exactly when that expiry fits in 64 bits. The token is not
/// empty and resolves under the same secret to `username` at every moment up
/// to its expiry, and to nothing after it.
pub fn issue_token(username: &str, secret: &str, now: u64) -> (outcome: Result<String, AuthError>)
    ensures
        crate::error::outcome_view(outcome) == issue_outcome(username@, secret@, now),
        outcome is Ok <==> expiry_after(now) <= u64::MAX,
        outcome matches Ok(t) ==> t@.len() > 0,
        outcome matches Ok(t) ==> token_claims(t@, secret@) == Some(
            (username@, expiry_after(now) as u64),
        ),
{
    match Claims::issued_at(username, now) {
        Some(claims) => token_or_fault(jwt_encode(&claims, secret)),
        None => Err(AuthError::InternalError),
    }
}

/// Reads the claims of a token signed with `secret`. Whether they are still
/// current is not looked at here.
pub fn read_claims(token: &str, secret: &str) -> (claims: Option<Claims>)
    ensures
        claims_view(claims) == token_claims(token@, secret@),
{
    jwt_decode(token, secret)
}

/// Resolves a token to the username it was issued for, as of `now`.
pub fn resolve_token(token: &str, secret: &str, now: u64) -> (outcome: Result<String, AuthError>)
    ensures
        crate::error::outcome_view(outcome) == resolve_outcome(token_claims(token@, secret@), now),
{
    resolve_claims(jwt_decode(token, secret), now)
}

} // verus!
