//! The payload of a signed token.

use vstd::prelude::*;
use crate::auth::{issue_window, token_window, AuthError};

verus! {

/// Who a token is about, when it was issued and when it expires (Unix
/// seconds), and the caller's own data.
pub struct Claims<T> {
    /// Subject (whom the token refers to)
    pub sub: String,
    /// Issued at (timestamp)
    pub iat: u64,
    /// Expiration time (timestamp)
    pub exp: u64,
    /// Custom claims data
    pub data: T,
}

impl<T> Claims<T> {
    pub fn new(sub: String, iat: u64, exp: u64, data: T) -> (r: Self)
        ensures
            r.sub@ == sub@,
            r.iat == iat,
            r.exp == exp,
            r.data == data,
    {
        Self { sub, iat, exp, data }
    }
}

/// The claims of a token for `sub` carrying `data`, issued at `now` and
/// expiring `minutes` later: `exp == iat + 60 * minutes`, or `ClockOutOfRange`
/// where either is not a timestamp a token can carry.
pub fn claims_for<T>(sub: String, data: T, now: i64, minutes: i64) -> (r: Result<Claims<T>, AuthError>)
    ensures
        match r {
            Ok(c) => issue_window(now, minutes) == Some((c.iat, c.exp)) && c.exp == c.iat + 60
                * minutes && c.sub@ == sub@ && c.data == data,
            Err(e) => issue_window(now, minutes) is None && e == AuthError::ClockOutOfRange,
        },
{
    match token_window(now, minutes) {
        Ok((iat, exp)) => Ok(Claims::new(sub, iat, exp, data)),
        Err(e) => Err(e),
    }
}

} // verus!
