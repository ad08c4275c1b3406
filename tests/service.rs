use cargo_mold::auth::{
    decrypt_with, encrypt_with,
    frame_blob, hex_encode, open_plaintext, password_accepted, split_nonce,
    token_window, AuthError, AuthService, NONCE_LEN,
};
use cargo_mold::claims::{claims_for, Claims};
use cargo_mold::failure::{AuthFailure, DecodeErrorKind};
use cargo_mold::bearer::AuthHeader;
use cargo_mold::jwt::JwtMiddleware;

#[test]
fn service_keeps_its_secrets() {
    let s = AuthService::new("sign".to_string(), "enc".to_string());
    assert_eq!(s.signing_key(), b"sign");
    assert_eq!(s.key_material(), b"enc");
}

#[test]
fn hex_encoding() {
    assert_eq!(hex_encode(&[]), "");
    assert_eq!(hex_encode(&[0x00, 0x0f, 0xa5, 0xff]), "000fa5ff");
}

#[test]
fn fingerprint_text_of_sha256_digest() {
    let digest_of_abc = [
        0xba, 0x78, 0x16, 0xbf, 0x8f, 0x01, 0xcf, 0xea, 0x41, 0x41, 0x40, 0xde, 0x5d, 0xae, 0x22,
        0x23, 0xb0, 0x03, 0x61, 0xa3, 0x96, 0x17, 0x7a, 0x9c, 0xb4, 0x10, 0xff, 0x61, 0xf2, 0x00,
        0x15, 0xad,
    ];
    assert_eq!(
        hex_encode(&digest_of_abc),
        "ba7816bf8f01cfea414140de5dae2223b00361a396177a9cb410ff61f20015ad"
    );
}

#[test]
fn blob_round_trip_framing() {
    let nonce = [9u8; 12];
    let sealed = [1u8, 2, 3, 4];
    let blob = frame_blob(&nonce, &sealed);
    assert_eq!(blob.len(), 16);
    let (n, s) = split_nonce(Some(&blob)).unwrap();
    assert_eq!(n, &nonce);
    assert_eq!(s, &sealed);
    assert_eq!(open_plaintext(Some("héllo".as_bytes().to_vec())), Ok("héllo".to_string()));
}

#[test]
fn decrypt_boundary_short_input() {
    assert_eq!(NONCE_LEN, 12);
    assert_eq!(split_nonce(Some(&[0u8; 11])), Err(AuthError::MalformedInput));
    assert_eq!(split_nonce(Some(&[])), Err(AuthError::MalformedInput));
    assert_eq!(split_nonce(None), Err(AuthError::MalformedInput));
    let (n, s) = split_nonce(Some(&[5u8; 12])).unwrap();
    assert_eq!(n.len(), 12);
    assert!(s.is_empty());
}

#[test]
fn decrypt_failures() {
    assert_eq!(open_plaintext(None), Err(AuthError::AuthenticationFailure));
    assert_eq!(open_plaintext(Some(vec![0xff, 0xfe])), Err(AuthError::EncodingFailure));
    assert_eq!(open_plaintext(Some(vec![])), Ok(String::new()));
}

#[test]
fn password_outcomes() {
    assert!(password_accepted(Some(true)));
    assert!(!password_accepted(Some(false)));
    assert!(!password_accepted(None));
}

#[test]
fn token_window_values() {
    assert_eq!(token_window(1000, 1), Ok((1000, 1060)));
    assert_eq!(token_window(1000, 60), Ok((1000, 4600)));
    assert_eq!(token_window(1000, -1), Ok((1000, 940)));
    assert_eq!(token_window(10, -1), Err(AuthError::ClockOutOfRange));
    assert_eq!(token_window(-1, 5), Err(AuthError::ClockOutOfRange));
    assert_eq!(token_window(0, i64::MAX), Err(AuthError::ClockOutOfRange));
}

#[test]
fn token_expiry_after_issue() {
    let guard = JwtMiddleware::new("k".to_string()).new_transform(());
    let (_, expired) = token_window(1_700_000_000, -1).unwrap();
    assert_eq!(guard.decide(Ok(Some(expired)), 1_700_000_000), Err(AuthFailure::ExpiredSignature));
    let (_, fresh) = token_window(1_700_000_000, 60).unwrap();
    assert_eq!(guard.decide(Ok(Some(fresh)), 1_700_000_000), Ok(fresh));
}

#[test]
fn guard_scenarios() {
    let guard = JwtMiddleware::new("signing-secret".to_string()).new_transform(42u32);
    assert_eq!(guard.signing_key(), b"signing-secret");
    assert_eq!(**guard.downstream(), 42u32);
    let ok: Result<Option<u64>, DecodeErrorKind> = Ok(Some(2_000));
    assert_eq!(guard.authorize(&AuthHeader::Missing, ok, 1_000), Err(AuthFailure::MissingHeader));
    assert_eq!(guard.authorize(&AuthHeader::NotText, ok, 1_000), Err(AuthFailure::BadHeaderEncoding));
    let basic = AuthHeader::Text("Basic abc".to_string());
    assert_eq!(guard.authorize(&basic, ok, 1_000), Err(AuthFailure::BadScheme));
    let empty = AuthHeader::Text("Bearer ".to_string());
    assert_eq!(guard.token_of(&empty), Err(AuthFailure::EmptyToken));
    assert_eq!(guard.authorize(&empty, ok, 1_000), Err(AuthFailure::EmptyToken));
    let bearer = AuthHeader::Text("Bearer x.y.z".to_string());
    assert_eq!(guard.token_of(&bearer), Ok("x.y.z"));
    assert_eq!(guard.authorize(&bearer, Ok(Some(999)), 1_000), Err(AuthFailure::ExpiredSignature));
    assert_eq!(
        guard.authorize(&bearer, Ok(Some(999)), 1_000).unwrap_err().reason(),
        "Token expired"
    );
    assert_eq!(guard.authorize(&bearer, ok, 1_000), Ok(2_000));
}

#[test]
fn malformed_token_reads_as_expired() {
    let guard = JwtMiddleware::new("s".to_string()).new_transform(());
    let bad: Result<Option<u64>, DecodeErrorKind> = Err(DecodeErrorKind::InvalidToken);
    assert_eq!(guard.decide(bad, 0), Err(AuthFailure::InvalidToken));
    assert!(cargo_mold::verdict::token_reads_as_expired(bad, 0));
    let forged: Result<Option<u64>, DecodeErrorKind> = Err(DecodeErrorKind::InvalidSignature);
    assert_eq!(guard.decide(forged, 0), Err(AuthFailure::InvalidSignature));
}

#[test]
fn claims_of_issue() {
    let c = claims_for("a@b.c".to_string(), 7u8, 1_000, 2).unwrap();
    assert_eq!(c.sub, "a@b.c");
    assert_eq!((c.iat, c.exp, c.data), (1_000, 1_120, 7));
    let e = claims_for("a@b.c".to_string(), 7u8, 30, -1);
    assert!(matches!(e, Err(AuthError::ClockOutOfRange)));
    let d = Claims::new("s".to_string(), 1, 2, "x");
    assert_eq!((d.sub.as_str(), d.iat, d.exp, d.data), ("s", 1, 2, "x"));
}

#[test]
fn guard_forwards_accepted_requests() {
    let guard = JwtMiddleware::new("k".to_string()).new_transform(());
    let calls = std::cell::Cell::new(0u32);
    let handler = |x: u32| {
        calls.set(calls.get() + 1);
        x * 2
    };
    let bearer = AuthHeader::Text("Bearer t".to_string());
    assert_eq!(guard.call(&bearer, Ok(Some(10)), 5, 21, &handler), Ok(42));
    assert_eq!(calls.get(), 1);
    assert_eq!(guard.call(&bearer, Ok(Some(10)), 11, 21, &handler), Err(AuthFailure::ExpiredSignature));
    assert_eq!(guard.call(&AuthHeader::Missing, Ok(Some(10)), 5, 21, &handler), Err(AuthFailure::MissingHeader));
    assert_eq!(calls.get(), 1);
}

#[test]
fn service_secret_getters() {
    let s = AuthService::new("sign".to_string(), "enc".to_string());
    assert_eq!(s.secret_key(), "sign");
    assert_eq!(s.encryption_key(), "enc");
}

fn toy_seal(n: Vec<u8>, p: Vec<u8>) -> Option<Vec<u8>> {
    let mut c: Vec<u8> = p.iter().map(|b| b ^ n[0]).collect();
    c.push(p.iter().fold(n[1], |a, b| a.wrapping_add(*b)));
    Some(c)
}

fn toy_open(n: Vec<u8>, c: Vec<u8>) -> Option<Vec<u8>> {
    let (body, tag) = c.split_at(c.len().checked_sub(1)?);
    let p: Vec<u8> = body.iter().map(|b| b ^ n[0]).collect();
    if p.iter().fold(n[1], |a, b| a.wrapping_add(*b)) == tag[0] {
        Some(p)
    } else {
        None
    }
}

#[test]
fn cipher_flow_round_trip_and_tamper() {
    let nonce = [3u8; 12];
    let blob = encrypt_with(&nonce, "héllo", toy_seal).unwrap();
    assert_eq!(&blob[..12], &nonce);
    assert_eq!(decrypt_with(Some(blob.clone()), toy_open), Ok("héllo".to_string()));
    let mut bad = blob.clone();
    let last = bad.len() - 1;
    bad[last] ^= 1;
    assert_eq!(decrypt_with(Some(bad), toy_open), Err(AuthError::AuthenticationFailure));
    assert_eq!(decrypt_with(Some(vec![0; 11]), toy_open), Err(AuthError::MalformedInput));
    assert_eq!(decrypt_with(None, toy_open), Err(AuthError::MalformedInput));
    assert_eq!(encrypt_with(&nonce, "x", |_, _| None), Err(AuthError::EncryptionFailed));
    assert_eq!(decrypt_with(Some(blob), |_, _| Some(vec![0xff])), Err(AuthError::EncodingFailure));
}
