//! The request guard: from the `Authorization` header to a bearer token.

use vstd::prelude::*;
use vstd::string::*;
use crate::failure::AuthFailure;

verus! {

/// The `Authorization` header of a request, as the host framework found it.
pub enum AuthHeader {
    /// The request has no such header.
    Missing,
    /// The header's value is not text.
    NotText,
    /// The header's value.
    Text(String),
}

/// The scheme that must open the header, with its space.
pub open spec fn bearer_prefix() -> Seq<char> {
    seq!['B', 'e', 'a', 'r', 'e', 'r', ' ']
}

/// The token that the header carries, or why there is none.
pub open spec fn bearer_of(h: AuthHeader) -> Result<Seq<char>, AuthFailure> {
    match h {
        AuthHeader::Missing => Err(AuthFailure::MissingHeader),
        AuthHeader::NotText => Err(AuthFailure::BadHeaderEncoding),
        AuthHeader::Text(s) => if !(s@.len() >= 7 && s@.subrange(0, 7) == bearer_prefix()) {
            Err(AuthFailure::BadScheme)
        } else if s@.len() == 7 {
            Err(AuthFailure::EmptyToken)
        } else {
            Ok(s@.subrange(7, s@.len() as int))
        },
    }
}

/// Takes the bearer token out of the header: the first failing rule of a
/// missing header, a value that is not text, a scheme other than `"Bearer "`,
/// an empty token, decides the failure.
pub fn bearer_token(h: &AuthHeader) -> (r: Result<&str, AuthFailure>)
    ensures
        match r {
            Ok(t) => bearer_of(*h) == Ok::<Seq<char>, AuthFailure>(t@),
            Err(f) => bearer_of(*h) == Err::<Seq<char>, AuthFailure>(f),
        },
{
    match h {
        AuthHeader::Missing => Err(AuthFailure::MissingHeader),
        AuthHeader::NotText => Err(AuthFailure::BadHeaderEncoding),
        AuthHeader::Text(s) => {
            let v = s.as_str();
            let n = v.unicode_len();
            if n < 7 {
                return Err(AuthFailure::BadScheme);
            }
            let prefix = "Bearer ";
            proof {
                reveal_strlit("Bearer ");
            }
            let mut i: usize = 0;
            while i < 7
                invariant
                    n == v@.len(),
                    *h matches AuthHeader::Text(t) && t@ == v@,
                    7 <= n,
                    i <= 7,
                    prefix@ == bearer_prefix(),
                    forall|j: int| 0 <= j < i ==> v@[j] == bearer_prefix()[j],
                decreases 7 - i,
            {
                if v.get_char(i) != prefix.get_char(i) {
                    assert(v@.subrange(0, 7)[i as int] != bearer_prefix()[i as int]);
                    assert(v@.subrange(0, 7) != bearer_prefix());
                    return Err(AuthFailure::BadScheme);
                }
                i = i + 1;
            }
            assert(v@.subrange(0, 7) =~= bearer_prefix());
            if n == 7 {
                return Err(AuthFailure::EmptyToken);
            }
            Ok(v.substring_char(7, n))
        },
    }
}

} // verus!
