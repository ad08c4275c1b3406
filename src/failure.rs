//! The outcomes by which a request or a token is turned away.

use vstd::prelude::*;

verus! {

/// Why a token failed to decode, as the token decoder reports it.
#[derive(Clone, Copy, Debug, PartialEq, Eq, Structural)]
pub enum DecodeErrorKind {
    ExpiredSignature,
    InvalidToken,
    InvalidSignature,
    InvalidEcdsaKey,
    InvalidAlgorithm,
    InvalidIssuer,
    InvalidAudience,
    InvalidSubject,
    ImmatureSignature,
    /// Any other kind: a malformed structure, bad base64 or JSON, a missing claim.
    Other,
}

/// Why a request was refused or a token was not accepted.
#[derive(Clone, Copy, Debug, PartialEq, Eq, Structural)]
pub enum AuthFailure {
    MissingHeader,
    BadHeaderEncoding,
    BadScheme,
    EmptyToken,
    ExpiredSignature,
    InvalidToken,
    InvalidSignature,
    InvalidKey,
    InvalidAlgorithm,
    InvalidIssuer,
    InvalidAudience,
    InvalidSubject,
    ImmatureSignature,
}

/// The failure that a decoder error stands for.
pub open spec fn failure_of(kind: DecodeErrorKind) -> AuthFailure {
    match kind {
        DecodeErrorKind::ExpiredSignature => AuthFailure::ExpiredSignature,
        DecodeErrorKind::InvalidToken => AuthFailure::InvalidToken,
        DecodeErrorKind::InvalidSignature => AuthFailure::InvalidSignature,
        DecodeErrorKind::InvalidEcdsaKey => AuthFailure::InvalidKey,
        DecodeErrorKind::InvalidAlgorithm => AuthFailure::InvalidAlgorithm,
        DecodeErrorKind::InvalidIssuer => AuthFailure::InvalidIssuer,
        DecodeErrorKind::InvalidAudience => AuthFailure::InvalidAudience,
        DecodeErrorKind::InvalidSubject => AuthFailure::InvalidSubject,
        DecodeErrorKind::ImmatureSignature => AuthFailure::ImmatureSignature,
        DecodeErrorKind::Other => AuthFailure::InvalidToken,
    }
}

/// The text sent back with an unauthorized response.
pub open spec fn reason_text(f: AuthFailure) -> Seq<char> {
    match f {
        AuthFailure::MissingHeader => "Authorization header missing"@,
        AuthFailure::BadHeaderEncoding => "Invalid Authorization header encoding"@,
        AuthFailure::BadScheme => "Authorization header must start with 'Bearer '"@,
        AuthFailure::EmptyToken => "Empty token"@,
        AuthFailure::ExpiredSignature => "Token expired"@,
        AuthFailure::InvalidToken => "Invalid token"@,
        AuthFailure::InvalidSignature => "Invalid token signature"@,
        AuthFailure::InvalidKey => "Invalid key"@,
        AuthFailure::InvalidAlgorithm => "Invalid algorithm"@,
        AuthFailure::InvalidIssuer => "Invalid issuer"@,
        AuthFailure::InvalidAudience => "Invalid audience"@,
        AuthFailure::InvalidSubject => "Invalid subject"@,
        AuthFailure::ImmatureSignature => "Token not yet valid"@,
    }
}

impl DecodeErrorKind {
    /// The failure reported for this decoder error; unrecognised kinds count as
    /// an invalid token.
    pub fn failure(&self) -> (r: AuthFailure)
        ensures
            r == failure_of(*self),
    {
        match self {
            DecodeErrorKind::ExpiredSignature => AuthFailure::ExpiredSignature,
            DecodeErrorKind::InvalidToken => AuthFailure::InvalidToken,
            DecodeErrorKind::InvalidSignature => AuthFailure::InvalidSignature,
            DecodeErrorKind::InvalidEcdsaKey => AuthFailure::InvalidKey,
            DecodeErrorKind::InvalidAlgorithm => AuthFailure::InvalidAlgorithm,
            DecodeErrorKind::InvalidIssuer => AuthFailure::InvalidIssuer,
            DecodeErrorKind::InvalidAudience => AuthFailure::InvalidAudience,
            DecodeErrorKind::InvalidSubject => AuthFailure::InvalidSubject,
            DecodeErrorKind::ImmatureSignature => AuthFailure::ImmatureSignature,
            DecodeErrorKind::Other => AuthFailure::InvalidToken,
        }
    }
}

impl AuthFailure {
    /// A fixed, human-readable reason that reveals nothing of the keys.
    pub fn reason(&self) -> (r: &'static str)
        ensures
            r@ == reason_text(*self),
    {
        match self {
            AuthFailure::MissingHeader => "Authorization header missing",
            AuthFailure::BadHeaderEncoding => "Invalid Authorization header encoding",
            AuthFailure::BadScheme => "Authorization header must start with 'Bearer '",
            AuthFailure::EmptyToken => "Empty token",
            AuthFailure::ExpiredSignature => "Token expired",
            AuthFailure::InvalidToken => "Invalid token",
            AuthFailure::InvalidSignature => "Invalid token signature",
            AuthFailure::InvalidKey => "Invalid key",
            AuthFailure::InvalidAlgorithm => "Invalid algorithm",
            AuthFailure::InvalidIssuer => "Invalid issuer",
            AuthFailure::InvalidAudience => "Invalid audience",
            AuthFailure::InvalidSubject => "Invalid subject",
            AuthFailure::ImmatureSignature => "Token not yet valid",
        }
    }
}

} // verus!
