use web_backend::claims::{claims_at, make_claims, Claims};
use web_backend::codec::{decode_claims, decode_claims_at, encode_claims, CodecError};
use web_backend::keys::{
    blacklist_key, decimal, refresh_key, session_key, user_permissions_key, user_sessions_key,
};

const SECRET: &[u8] = b"test-secret";

#[test]
fn key_layout() {
    assert_eq!(session_key("abc"), "session:abc");
    assert_eq!(refresh_key("abc"), "refresh:abc");
    assert_eq!(blacklist_key("abc"), "blacklist:abc");
    assert_eq!(user_sessions_key(42), "user:42:sessions");
    assert_eq!(user_permissions_key(42), "user:42:perms");
}

#[test]
fn decimal_matches_format() {
    for n in [0i64, 7, 10, 99, 100, 1234567890, -1, -305, i64::MAX, i64::MIN] {
        assert_eq!(decimal(n), format!("{}", n));
    }
    assert_eq!(user_sessions_key(-3), "user:-3:sessions");
}

#[test]
fn claims_expiry_adds_ttl() {
    let c = claims_at(5, 1_000, 900, "id".to_string());
    assert_eq!(c.sub, 5);
    assert_eq!(c.iat, 1_000);
    assert_eq!(c.exp, 1_900);
    assert_eq!(c.jti, "id");
    let big = claims_at(5, i64::MAX - 1, 900, "id".to_string());
    assert_eq!(big.exp, i64::MAX);
    let low = claims_at(5, i64::MIN + 1, -900, "id".to_string());
    assert_eq!(low.exp, i64::MIN);
}

#[test]
fn make_claims_uses_fresh_ids() {
    let a = make_claims(9, 60);
    let b = make_claims(9, 60);
    assert_eq!(a.sub, 9);
    assert_eq!(a.exp - a.iat, 60);
    assert_ne!(a.jti, b.jti);
    assert_eq!(a.jti.len(), 36);
}

#[test]
fn sign_verify_round_trip() {
    let c = make_claims(17, 900);
    let token = encode_claims(SECRET, &c).unwrap();
    let back = decode_claims(SECRET, &token).unwrap();
    assert_eq!(back.sub, 17);
    assert_eq!(back.iat, c.iat);
    assert_eq!(back.exp, c.exp);
    assert_eq!(back.jti, c.jti);
    let other = make_claims(17, 900);
    let other_back = decode_claims(SECRET, &encode_claims(SECRET, &other).unwrap()).unwrap();
    assert_ne!(other_back.jti, back.jti);
}

#[test]
fn verify_rejects_wrong_secret_and_garbage() {
    let c = make_claims(1, 900);
    let token = encode_claims(SECRET, &c).unwrap();
    assert!(matches!(decode_claims(b"other", &token), Err(CodecError::InvalidToken)));
    assert!(matches!(decode_claims(SECRET, "not.a.token"), Err(CodecError::InvalidToken)));
    assert!(matches!(decode_claims(SECRET, ""), Err(CodecError::InvalidToken)));
    let mut tampered = token.clone();
    tampered.push('x');
    assert!(matches!(decode_claims(SECRET, &tampered), Err(CodecError::InvalidToken)));
}

#[test]
fn verify_rejects_other_algorithm() {
    let mut payload = std::collections::BTreeMap::new();
    payload.insert("sub", serde_json::Value::from(1i64));
    payload.insert("iat", serde_json::Value::from(0i64));
    payload.insert("exp", serde_json::Value::from(i64::MAX / 2));
    payload.insert("jti", serde_json::Value::from("x"));
    let header = jsonwebtoken::Header::new(jsonwebtoken::Algorithm::HS384);
    let key = jsonwebtoken::EncodingKey::from_secret(SECRET);
    let token = jsonwebtoken::encode(&header, &payload, &key).unwrap();
    assert!(matches!(decode_claims(SECRET, &token), Err(CodecError::InvalidToken)));
}

#[test]
fn verify_reports_expiry() {
    let c = claims_at(3, 1_000, 100, "e".to_string());
    let token = encode_claims(SECRET, &c).unwrap();
    assert!(matches!(decode_claims_at(SECRET, &token, 1_100), Ok(Claims { sub: 3, .. })));
    assert!(matches!(decode_claims_at(SECRET, &token, 1_101), Err(CodecError::Expired)));
    assert!(matches!(decode_claims(SECRET, &token), Err(CodecError::Expired)));
    assert!(matches!(decode_claims_at(b"bad", &token, 0), Err(CodecError::InvalidToken)));
}
