//! The authentication service: the configuration it holds and the rules of its
//! operations, from the key material to what decryption and token issue decide.
//! The cryptographic computations themselves are made by the caller, who hands
//! their results to these functions.

use vstd::prelude::*;
use crate::strings::push_char;
use vstd::slice::slice_to_vec;
use vstd::utf8::*;
use crate::failure::AuthFailure;
use crate::verdict::{accepted_at, verdict};

verus! {

/// Why a service operation failed.
#[derive(Clone, Copy, Debug, PartialEq, Eq, Structural)]
pub enum AuthError {
    /// The password hasher reported an error.
    HashingFailed,
    /// The cipher refused to encrypt.
    EncryptionFailed,
    /// The encrypted text is not base64, or too short to hold a nonce.
    MalformedInput,
    /// The authentication tag did not verify: tampering or a wrong key.
    AuthenticationFailure,
    /// The decrypted bytes are not UTF-8.
    EncodingFailure,
    /// The time now plus the lifetime is not a timestamp a token can carry.
    ClockOutOfRange,
    /// The token encoder reported an error.
    SigningFailed,
}

/// Length of the nonce that opens each encrypted blob.
pub const NONCE_LEN: usize = 12;

/// The lower case hexadecimal digit for `n < 16`.
pub open spec fn hex_digit(n: u8) -> char {
    if n < 10 {
        (('0' as u8) + n) as char
    } else {
        (('a' as u8) + (n - 10)) as char
    }
}

/// Two lower case hexadecimal digits per byte, high nibble first.
pub open spec fn hex_of(b: Seq<u8>) -> Seq<char>
    decreases b.len(),
{
    if b.len() == 0 {
        Seq::empty()
    } else {
        seq![hex_digit(b[0] / 16), hex_digit(b[0] % 16)] + hex_of(b.drop_first())
    }
}

/// Relies on `String::from_utf8`: it accepts exactly the valid UTF-8 byte
/// sequences and decodes them.
#[verifier::external_body]
fn utf8_string(bytes: Vec<u8>) -> (r: Option<String>)
    ensures
        match r {
            Some(s) => valid_utf8(bytes@) && s@ == decode_utf8(bytes@),
            None => !valid_utf8(bytes@),
        },
{
    String::from_utf8(bytes).ok()
}

fn hex_digit_exec(n: u8) -> (r: char)
    requires
        n < 16,
    ensures
        r == hex_digit(n),
{
    if n < 10 {
        (48u8 + n) as char
    } else {
        (97u8 + (n - 10)) as char
    }
}

proof fn lemma_hex_of_push(b: Seq<u8>, x: u8)
    ensures
        hex_of(b.push(x)) == hex_of(b) + seq![hex_digit(x / 16), hex_digit(x % 16)],
    decreases b.len(),
{
    if b.len() == 0 {
        assert(b.push(x).drop_first() =~= Seq::<u8>::empty());
        assert(b.push(x)[0] == x);
        assert(hex_of(Seq::<u8>::empty()) == Seq::<char>::empty());
        assert(b =~= Seq::<u8>::empty());
        assert(hex_of(b.push(x)) =~= seq![hex_digit(x / 16), hex_digit(x % 16)]);
    } else {
        assert(b.push(x).drop_first() =~= b.drop_first().push(x));
        lemma_hex_of_push(b.drop_first(), x);
        assert(b.push(x)[0] == b[0]);
        assert(hex_of(b.push(x)) =~= hex_of(b) + seq![hex_digit(x / 16), hex_digit(x % 16)]);
    }
}

/// Lower case hexadecimal, two digits per byte: the text form of the
/// fingerprint, which is the SHA-256 digest of the input's UTF-8 bytes.
pub fn hex_encode(data: &[u8]) -> (r: String)
    ensures
        r@ == hex_of(data@),
{
    let mut out = String::new();
    let mut i: usize = 0;
    while i < data.len()
        invariant
            i <= data@.len(),
            out@ == hex_of(data@.subrange(0, i as int)),
        decreases data@.len() - i,
    {
        let x = data[i];
        proof {
            lemma_hex_of_push(data@.subrange(0, i as int), x);
            assert(data@.subrange(0, i as int).push(x) =~= data@.subrange(0, i + 1));
        }
        push_char(&mut out, hex_digit_exec(x / 16));
        push_char(&mut out, hex_digit_exec(x % 16));
        i = i + 1;
    }
    assert(data@.subrange(0, data@.len() as int) =~= data@);
    out
}

/// The blob's bytes: the nonce followed by the sealed bytes (ciphertext, then tag).
pub fn frame_blob(nonce: &[u8], sealed: &[u8]) -> (r: Vec<u8>)
    ensures
        r@ == nonce@ + sealed@,
{
    let mut out = slice_to_vec(nonce);
    let mut rest = slice_to_vec(sealed);
    out.append(&mut rest);
    out
}

/// What the base64 decoding of a blob gave (`None`: not base64) split into
/// nonce and sealed bytes, or `MalformedInput`.
pub open spec fn blob_parts(decoded: Option<Seq<u8>>) -> Result<(Seq<u8>, Seq<u8>), AuthError> {
    match decoded {
        None => Err(AuthError::MalformedInput),
        Some(d) => if d.len() < 12 {
            Err(AuthError::MalformedInput)
        } else {
            Ok((d.subrange(0, 12), d.subrange(12, d.len() as int)))
        },
    }
}

/// Splits decoded blob bytes into the nonce and the sealed rest; input that is
/// not base64 (`None`) or holds fewer than 12 bytes is malformed.
pub fn split_nonce(decoded: Option<&[u8]>) -> (r: Result<(&[u8], &[u8]), AuthError>)
    ensures
        match r {
            Ok((n, s)) => decoded matches Some(d) && blob_parts(Some(d@)) == Ok::<
                (Seq<u8>, Seq<u8>),
                AuthError,
            >((n@, s@)),
            Err(e) => match decoded {
                None => blob_parts(None) == Err::<(Seq<u8>, Seq<u8>), AuthError>(e),
                Some(d) => blob_parts(Some(d@)) == Err::<(Seq<u8>, Seq<u8>), AuthError>(e),
            },
        },
{
    match decoded {
        None => Err(AuthError::MalformedInput),
        Some(data) => {
            if data.len() < NONCE_LEN {
                Err(AuthError::MalformedInput)
            } else {
                Ok(data.split_at(NONCE_LEN))
            }
        },
    }
}

/// What the opened bytes give (`None`: the tag did not verify).
pub open spec fn plaintext_of(opened: Option<Seq<u8>>) -> Result<Seq<char>, AuthError> {
    match opened {
        None => Err(AuthError::AuthenticationFailure),
        Some(p) => if valid_utf8(p) {
            Ok(decode_utf8(p))
        } else {
            Err(AuthError::EncodingFailure)
        },
    }
}

/// The plaintext from what AES-256-GCM decryption gave: a failed tag check is
/// an authentication failure, bytes that are not UTF-8 an encoding failure.
pub fn open_plaintext(opened: Option<Vec<u8>>) -> (r: Result<String, AuthError>)
    ensures
        match r {
            Ok(s) => opened matches Some(p) && plaintext_of(Some(p@)) == Ok::<Seq<char>, AuthError>(s@),
            Err(e) => match opened {
                None => plaintext_of(None) == Err::<Seq<char>, AuthError>(e),
                Some(p) => plaintext_of(Some(p@)) == Err::<Seq<char>, AuthError>(e),
            },
        },
{
    match opened {
        None => Err(AuthError::AuthenticationFailure),
        Some(p) => match utf8_string(p) {
            Some(s) => Ok(s),
            None => Err(AuthError::EncodingFailure),
        },
    }
}

/// The views of what an opener returned.
pub open spec fn bytes_of(p: Option<Vec<u8>>) -> Option<Seq<u8>> {
    match p {
        Some(v) => Some(v@),
        None => None,
    }
}

/// `r` is the string result that `x` describes.
pub open spec fn agrees(r: Result<String, AuthError>, x: Result<Seq<char>, AuthError>) -> bool {
    match r {
        Ok(s) => x == Ok::<Seq<char>, AuthError>(s@),
        Err(e) => x == Err::<Seq<char>, AuthError>(e),
    }
}

/// Decryption from the base64 decoding of the blob (`None`: not base64): the
/// nonce and the sealed bytes go to `open`, which checks the tag and returns
/// the plaintext bytes (`None`: the tag did not verify), and what it returns
/// decides the result; input too short for a nonce never reaches it.
pub fn decrypt_with<O: Fn(Vec<u8>, Vec<u8>) -> Option<Vec<u8>>>(decoded: Option<Vec<u8>>, open: O) -> (r: Result<String, AuthError>)
    requires
        forall|n: Vec<u8>, c: Vec<u8>| #[trigger] open.requires((n, c)),
    ensures
        match decoded {
            None => r == Err::<String, AuthError>(AuthError::MalformedInput),
            Some(d) => match blob_parts(Some(d@)) {
                Err(e) => r == Err::<String, AuthError>(e),
                Ok((n, c)) => exists|nv: Vec<u8>, cv: Vec<u8>, p: Option<Vec<u8>>|
                    nv@ == n && cv@ == c && #[trigger] open.ensures((nv, cv), p) && agrees(
                        r,
                        plaintext_of(bytes_of(p)),
                    ),
            },
        },
{
    let data = match decoded {
        None => return Err(AuthError::MalformedInput),
        Some(d) => d,
    };
    let (nonce, sealed) = match split_nonce(Some(data.as_slice())) {
        Err(e) => return Err(e),
        Ok(parts) => parts,
    };
    let nv = slice_to_vec(nonce);
    let cv = slice_to_vec(sealed);
    let ghost (gn, gc) = (nv, cv);
    let p = open(nv, cv);
    let ghost gp = p;
    let r = open_plaintext(p);
    assert(agrees(r, plaintext_of(bytes_of(gp))));
    assert(open.ensures((gn, gc), gp));
    r
}

/// The blob bytes for `input` under the 12-byte `nonce`: `seal` encrypts the
/// input's UTF-8 bytes under that nonce (`None`: the cipher refused), and the
/// blob is the nonce followed by what it sealed.
pub fn encrypt_with<S: Fn(Vec<u8>, Vec<u8>) -> Option<Vec<u8>>>(nonce: &[u8], input: &str, seal: S) -> (r: Result<Vec<u8>, AuthError>)
    requires
        nonce@.len() == 12,
        forall|n: Vec<u8>, p: Vec<u8>| #[trigger] seal.requires((n, p)),
    ensures
        exists|nv: Vec<u8>, pv: Vec<u8>, c: Option<Vec<u8>>|
            nv@ == nonce@ && pv@ == encode_utf8(input@) && #[trigger] seal.ensures((nv, pv), c) && match c {
                Some(sealed) => r matches Ok(b) && b@ == nonce@ + sealed@,
                None => r == Err::<Vec<u8>, AuthError>(AuthError::EncryptionFailed),
            },
{
    let nv = slice_to_vec(nonce);
    let pv = slice_to_vec(input.as_bytes());
    let ghost (gn, gp) = (nv, pv);
    let c = seal(nv, pv);
    let ghost gc = c;
    match c {
        None => Err(AuthError::EncryptionFailed),
        Some(sealed) => {
            let b = frame_blob(nonce, sealed.as_slice());
            assert(seal.ensures((gn, gp), gc));
            Ok(b)
        },
    }
}

/// The framing inverts: a blob framed from a 12-byte nonce and sealed bytes
/// splits back into them, and a tag check that gives back the UTF-8 bytes of
/// `s` yields `s`.
pub proof fn lemma_round_trip(nonce: Seq<u8>, sealed: Seq<u8>, s: Seq<char>)
    requires
        nonce.len() == 12,
    ensures
        blob_parts(Some(nonce + sealed)) == Ok::<(Seq<u8>, Seq<u8>), AuthError>((nonce, sealed)),
        plaintext_of(Some(encode_utf8(s))) == Ok::<Seq<char>, AuthError>(s),
{
    assert((nonce + sealed).subrange(0, 12) =~= nonce);
    assert((nonce + sealed).subrange(12, (nonce + sealed).len() as int) =~= sealed);
    encode_utf8_valid_utf8(s);
    encode_utf8_decode_utf8(s);
}

/// Decoded bytes shorter than a nonce are malformed input.
pub proof fn lemma_short_input_malformed(d: Seq<u8>)
    requires
        d.len() < 12,
    ensures
        blob_parts(Some(d)) == Err::<(Seq<u8>, Seq<u8>), AuthError>(AuthError::MalformedInput),
{
}

/// A password check's outcome from what the bcrypt check reported (`None`: the hash
/// could not be read): only a confirmed match is accepted.
pub fn password_accepted(checked: Option<bool>) -> (r: bool)
    ensures
        r == (checked == Some(true)),
{
    match checked {
        Some(b) => b,
        None => false,
    }
}

/// Issue and expiry of a token issued at `now` for `minutes`, where both are
/// timestamps a token can carry.
pub open spec fn issue_window(now: i64, minutes: i64) -> Option<(u64, u64)> {
    let exp = now + 60 * minutes;
    if 0 <= now && 0 <= exp <= u64::MAX {
        Some((now as u64, exp as u64))
    } else {
        None
    }
}

/// Issue and expiry timestamps of a token issued at `now` for `minutes`
/// (expiring before `now` for a negative lifetime).
pub fn token_window(now: i64, minutes: i64) -> (r: Result<(u64, u64), AuthError>)
    ensures
        match r {
            Ok(w) => issue_window(now, minutes) == Some(w),
            Err(e) => issue_window(now, minutes) is None && e == AuthError::ClockOutOfRange,
        },
{
    if now < 0 {
        return Err(AuthError::ClockOutOfRange);
    }
    let m = minutes as i128;
    let exp: i128 = now as i128 + 60 * m;
    if exp < 0 || exp > u64::MAX as i128 {
        Err(AuthError::ClockOutOfRange)
    } else {
        Ok((now as u64, exp as u64))
    }
}

/// The secrets a service holds: one whose raw UTF-8 bytes key the token
/// signatures, one from which the encryption key is derived by SHA-256.
pub struct AuthService {
    secret_key: String,
    encryption_key: String,
}

impl AuthService {
    pub closed spec fn signing_secret(&self) -> Seq<char> {
        self.secret_key@
    }

    pub closed spec fn encryption_secret(&self) -> Seq<char> {
        self.encryption_key@
    }

    pub fn new(secret_key: String, encryption_key: String) -> (r: Self)
        ensures
            r.signing_secret() == secret_key@,
            r.encryption_secret() == encryption_key@,
    {
        Self { secret_key, encryption_key }
    }

    /// The signing secret.
    pub fn secret_key(&self) -> (r: &str)
        ensures
            r@ == self.signing_secret(),
    {
        self.secret_key.as_str()
    }

    /// The encryption secret.
    pub fn encryption_key(&self) -> (r: &str)
        ensures
            r@ == self.encryption_secret(),
    {
        self.encryption_key.as_str()
    }

    /// The HMAC key of the tokens: the signing secret's raw UTF-8 bytes.
    pub fn signing_key(&self) -> (r: &[u8])
        ensures
            r@ == encode_utf8(self.signing_secret()),
    {
        self.secret_key.as_str().as_bytes()
    }

    /// What SHA-256 digests into the AES-256 key: the encryption secret's UTF-8
    /// bytes.
    pub fn key_material(&self) -> (r: &[u8])
        ensures
            r@ == encode_utf8(self.encryption_secret()),
    {
        self.encryption_key.as_str().as_bytes()
    }
}

/// A token issued at `issued` for `minutes` is accepted at any `now` up to its
/// expiry and refused after it; in particular a negative lifetime makes it
/// expired from the moment of issue on.
pub proof fn lemma_token_lifetime(issued: i64, minutes: i64, now: i64)
    requires
        issue_window(issued, minutes) is Some,
    ensures
        issue_window(issued, minutes) matches Some((_, exp)) && (accepted_at(Ok(Some(exp)), now)
            <==> now <= issued + 60 * minutes) && (accepted_at(Ok(Some(exp)), now) <==> verdict(
            Ok(Some(exp)),
            now,
        ) is Ok),
        minutes < 0 && issued <= now ==> (issue_window(issued, minutes) matches Some((_, exp))
            && verdict(Ok(Some(exp)), now) == Err::<u64, AuthFailure>(
            AuthFailure::ExpiredSignature,
        )),
{
}

} // verus!
