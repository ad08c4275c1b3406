//! The request guard as a middleware: it holds the signing secret and the
//! downstream service, and decides for each request whether it may pass. The
//! host decodes the bearer token with the secret's bytes and reads the clock;
//! the decisions before and after are made here.

use vstd::prelude::*;
use std::rc::Rc;
use vstd::utf8::*;
use crate::failure::AuthFailure;
use crate::bearer::{bearer_of, bearer_token, AuthHeader};
use crate::verdict::{token_verdict, verdict, Decoded};

verus! {

/// What the guard decides for a request with header `h`, given what decoding
/// its bearer token gave and the time now: the token's expiry, or the failure.
pub open spec fn access_decision(h: AuthHeader, d: Decoded, now: i64) -> Result<u64, AuthFailure> {
    match bearer_of(h) {
        Err(f) => Err(f),
        Ok(_) => verdict(d, now),
    }
}

/// Builds request guards that share one signing secret.
pub struct JwtMiddleware {
    secret_key: String,
}

/// A guard in front of the downstream `service`.
pub struct JwtMiddlewareService<S> {
    service: Rc<S>,
    secret_key: String,
}

impl JwtMiddleware {
    /// The secret whose raw UTF-8 bytes key the token signatures.
    pub closed spec fn secret(&self) -> Seq<char> {
        self.secret_key@
    }

    pub fn new(secret_key: String) -> (r: Self)
        ensures
            r.secret() == secret_key@,
    {
        Self { secret_key }
    }

    /// Wraps `service` in a guard with this middleware's secret.
    pub fn new_transform<S>(&self, service: S) -> (r: JwtMiddlewareService<S>)
        ensures
            r.secret() == self.secret(),
            r.service() == service,
    {
        JwtMiddlewareService { service: Rc::new(service), secret_key: self.secret_key.clone() }
    }
}

impl<S> JwtMiddlewareService<S> {
    /// The secret whose raw UTF-8 bytes key the token signatures.
    pub closed spec fn secret(&self) -> Seq<char> {
        self.secret_key@
    }

    /// The downstream service, to which accepted requests go unchanged.
    pub closed spec fn service(&self) -> S {
        *self.service
    }

    /// The downstream service, to which accepted requests go unchanged.
    pub fn downstream(&self) -> (r: &Rc<S>)
        ensures
            **r == self.service(),
    {
        &self.service
    }

    /// The HMAC key with which to decode bearer tokens (HS256 only).
    pub fn signing_key(&self) -> (r: &[u8])
        ensures
            r@ == encode_utf8(self.secret()),
    {
        self.secret_key.as_str().as_bytes()
    }

    /// The bearer token of a request, or the header rule it breaks.
    pub fn token_of<'a>(&self, header: &'a AuthHeader) -> (r: Result<&'a str, AuthFailure>)
        ensures
            match r {
                Ok(t) => bearer_of(*header) == Ok::<Seq<char>, AuthFailure>(t@),
                Err(f) => bearer_of(*header) == Err::<Seq<char>, AuthFailure>(f),
            },
    {
        bearer_token(header)
    }

    /// Decides on a request whose bearer token decoded to `decoded`, at `now`.
    pub fn decide(&self, decoded: Decoded, now: i64) -> (r: Result<u64, AuthFailure>)
        ensures
            r == verdict(decoded, now),
    {
        token_verdict(decoded, now)
    }

    /// The whole decision for one request: the header rules first, then, for a
    /// bearer token, what decoding it gave (`decoded`, which is not consulted
    /// otherwise) and its expiry at `now`.
    pub fn authorize(&self, header: &AuthHeader, decoded: Decoded, now: i64) -> (r: Result<u64, AuthFailure>)
        ensures
            r == access_decision(*header, decoded, now),
    {
        match bearer_token(header) {
            Err(f) => Err(f),
            Ok(_) => token_verdict(decoded, now),
        }
    }

    /// Lets an accepted request through to `handler` and returns what it
    /// returns, unchanged; a refused request never reaches it.
    pub fn call<Req, Resp, F: Fn(Req) -> Resp>(
        &self,
        header: &AuthHeader,
        decoded: Decoded,
        now: i64,
        req: Req,
        handler: F,
    ) -> (r: Result<Resp, AuthFailure>)
        requires
            handler.requires((req,)),
        ensures
            match access_decision(*header, decoded, now) {
                Err(f) => r == Err::<Resp, AuthFailure>(f),
                Ok(_) => r matches Ok(resp) && handler.ensures((req,), resp),
            },
    {
        match self.authorize(header, decoded, now) {
            Err(f) => Err(f),
            Ok(_) => Ok(handler(req)),
        }
    }
}

} // verus!
