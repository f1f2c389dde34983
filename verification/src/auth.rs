//! The decisions of request authentication.
//!
//! Decoding and signing of tokens, clock reads and user lookups are
//! outside work; the callers hand their results in as plain values and
//! this module decides what they mean.

use crate::store::User;
use vstd::prelude::*;
use vstd::string::StrSliceExecFns;

verus! {

/// The payload carried by an access token.
#[derive(Debug, Clone)]
pub struct Claims {
    pub email: String,
    pub iat: i64,
    pub exp: i64,
}

/// A caller whose token and account both checked out.
#[derive(Debug, Clone)]
pub struct ValidatedUser {
    pub email: String,
    pub role: String,
}

/// Why a request carries no usable token.
#[derive(Debug)]
pub enum ApiTokenError {
    Missing,
}

impl Claims {
    /// The claims minted at `now` (seconds): issued now, expiring one
    /// day later.
    pub fn new(email: &str, now: i64) -> (r: Claims)
        requires
            now + 86400 <= i64::MAX,
        ensures
            r.email@ == email@,
            r.iat == now,
            r.exp == now + 86400,
    {
        Claims { email: email.to_owned(), iat: now, exp: now + 86400 }
    }
}

/// Extracts the token from an authorization header: the characters
/// after the bearer scheme word and its separator.  Returns `None`
/// when the header is too short or does not start with the scheme
/// word.
pub fn bearer_token(header: &str) -> (r: Option<String>)
    ensures
        r is Some <==> (header@.len() >= 7 && header@.subrange(0, 6) == "Bearer"@),
        r matches Some(t) ==> t@ == header@.subrange(7, header@.len() as int),
{
    let n = header.unicode_len();
    if n < 7 {
        return None;
    }
    let prefix = header.substring_char(0, 6);
    if !crate::eq_str(prefix, "Bearer") {
        return None;
    }
    let token = header.substring_char(7, n);
    Some(token.to_owned())
}

/// Decides whether decoded claims and the looked-up account admit the
/// caller: the claims must be present, unexpired at the given time,
/// and backed by an account.
pub fn validate_user(claims: Option<&Claims>, now: i64, user: Option<&User>) -> (r: Result<
    ValidatedUser,
    ApiTokenError,
>)
    ensures
        r is Ok <==> (claims matches Some(c) && c.exp >= now && user is Some),
        r matches Ok(v) ==> user matches Some(u) && v.email@ == u.email@ && v.role@ == u.role@,
        r is Err ==> r matches Err(ApiTokenError::Missing),
{
    let claims = match claims {
        Some(c) => c,
        None => {
            return Err(ApiTokenError::Missing);
        },
    };
    if claims.exp < now {
        return Err(ApiTokenError::Missing);
    }
    match user {
        Some(u) => Ok(ValidatedUser { email: u.email.clone(), role: u.role.clone() }),
        None => Err(ApiTokenError::Missing),
    }
}

} // verus!
