//! Deciding a token's fate from what the decoder made of it and the time now.

use vstd::prelude::*;
use crate::failure::{failure_of, AuthFailure, DecodeErrorKind};

verus! {

/// What decoding a token yields when its signature is checked but no time
/// rule is applied: the expiry claim (`None` where it is not a whole number of
/// seconds), or why decoding failed.
pub type Decoded = Result<Option<u64>, DecodeErrorKind>;

/// A token is expired at `now` when its expiry lies strictly before `now`.
pub open spec fn expired_at(exp: u64, now: i64) -> bool {
    (exp as int) < (now as int)
}

/// Accept the token (with its expiry) or say why not.
pub open spec fn verdict(d: Decoded, now: i64) -> Result<u64, AuthFailure> {
    match d {
        Err(kind) => Err(failure_of(kind)),
        Ok(None) => Err(AuthFailure::InvalidToken),
        Ok(Some(exp)) => if expired_at(exp, now) {
            Err(AuthFailure::ExpiredSignature)
        } else {
            Ok(exp)
        },
    }
}

/// A token that does not decode counts as expired, as does one whose expiry
/// lies before `now`.
pub open spec fn reads_as_expired(d: Decoded, now: i64) -> bool {
    match d {
        Ok(Some(exp)) => expired_at(exp, now),
        _ => true,
    }
}

/// The token is accepted at `now`: it decoded, with an expiry not before `now`.
pub open spec fn accepted_at(d: Decoded, now: i64) -> bool {
    d matches Ok(Some(exp)) && !expired_at(exp, now)
}

/// Accepts a decoded token that is not expired at `now`; otherwise gives the
/// failure: the decoder's error, an invalid token where the expiry is not
/// usable, or an expired signature.
pub fn token_verdict(d: Decoded, now: i64) -> (r: Result<u64, AuthFailure>)
    ensures
        r == verdict(d, now),
{
    match d {
        Err(kind) => Err(kind.failure()),
        Ok(None) => Err(AuthFailure::InvalidToken),
        Ok(Some(exp)) => {
            if now >= 0 && exp < now as u64 {
                Err(AuthFailure::ExpiredSignature)
            } else {
                Ok(exp)
            }
        },
    }
}

/// True where the token does not decode or its expiry lies before `now`.
pub fn token_reads_as_expired(d: Decoded, now: i64) -> (r: bool)
    ensures
        r == reads_as_expired(d, now),
{
    match d {
        Ok(Some(exp)) => now >= 0 && exp < now as u64,
        _ => true,
    }
}

/// At any one instant a token reads as expired exactly when it is not accepted.
pub proof fn lemma_expired_iff_rejected(d: Decoded, now: i64)
    ensures
        reads_as_expired(d, now) == (verdict(d, now) is Err),
        reads_as_expired(d, now) == !accepted_at(d, now),
{
}

} // verus!
