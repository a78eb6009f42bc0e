use crate::claims::{now_secs, Claims};
use vstd::prelude::*;

verus! {

/// The compact HS256 token that jsonwebtoken writes for a claim set under a secret.
pub uninterp spec fn hs256_token(
    secret: Seq<u8>,
    sub: i64,
    iat: i64,
    exp: i64,
    jti: Seq<char>,
) -> Seq<char>;

/// The four claims as jsonwebtoken reads them from an HS256 token under a
/// secret, after checking its signature and algorithm but not its expiry:
/// `None` when the token is malformed or badly signed, when its `exp` is
/// absent, negative or not an integer, or when it carries an `aud` claim;
/// otherwise a claim that is missing or of another type reads as `None` in
/// its place.
pub uninterp spec fn hs256_payload(secret: Seq<u8>, token: Seq<char>) -> Option<
    (Option<i64>, Option<i64>, Option<i64>, Option<Seq<char>>),
>;

/// The view of an optional string.
pub open spec fn text_view(t: Option<String>) -> Option<Seq<char>> {
    match t {
        Some(s) => Some(s@),
        None => None,
    }
}

/// The claim set of a read payload, when all four claims are present.
pub open spec fn complete_claims(
    p: Option<(Option<i64>, Option<i64>, Option<i64>, Option<Seq<char>>)>,
) -> Option<(i64, i64, i64, Seq<char>)> {
    match p {
        Some((Some(sub), Some(iat), Some(exp), Some(jti))) => Some((sub, iat, exp, jti)),
        _ => None,
    }
}

/// The claim set that an HS256 token carries under a secret, expiry aside.
pub open spec fn hs256_claims(secret: Seq<u8>, token: Seq<char>) -> Option<
    (i64, i64, i64, Seq<char>),
> {
    complete_claims(hs256_payload(secret, token))
}

/// Why a token could not be made or accepted.
#[derive(Clone, Copy, Debug, PartialEq, Eq, Structural)]
pub enum CodecError {
    SigningError,
    InvalidToken,
    Expired,
}

/// Relies on jsonwebtoken::encode with an HS256 header and an HMAC key from
/// `secret`: the compact token of the four claims. With an HMAC key, an
/// HMAC algorithm and a string-keyed payload it does not fail, and
/// jsonwebtoken::decode under the same secret reads the four claims back
/// whenever `exp` is not negative (no `aud` claim is written).
#[verifier::external_body]
fn sign_hs256(secret: &[u8], c: &Claims) -> (r: Option<String>)
    ensures
        r is Some,
        r matches Some(t) ==> t@ == hs256_token(secret@, c.sub, c.iat, c.exp, c.jti@),
        r matches Some(t) ==> (c.exp >= 0 ==> hs256_payload(secret@, t@) == Some(
            (Some(c.sub), Some(c.iat), Some(c.exp), Some(c.jti@)),
        )),
{
    let mut payload = std::collections::BTreeMap::new();
    payload.insert("sub", serde_json::Value::from(c.sub));
    payload.insert("iat", serde_json::Value::from(c.iat));
    payload.insert("exp", serde_json::Value::from(c.exp));
    payload.insert("jti", serde_json::Value::from(c.jti.as_str()));
    let header = jsonwebtoken::Header::new(jsonwebtoken::Algorithm::HS256);
    let key = jsonwebtoken::EncodingKey::from_secret(secret);
    jsonwebtoken::encode(&header, &payload, &key).ok()
}

/// Relies on jsonwebtoken::decode with HS256 as the only accepted algorithm
/// and expiry validation switched off: the payload of a token whose signature
/// holds, with each of the four claims taken by its JSON type.
#[verifier::external_body]
fn read_hs256(secret: &[u8], token: &str) -> (r: Option<
    (Option<i64>, Option<i64>, Option<i64>, Option<String>),
>)
    ensures
        match r {
            Some(f) => hs256_payload(secret@, token@) == Some((f.0, f.1, f.2, text_view(f.3))),
            None => hs256_payload(secret@, token@) is None,
        },
{
    let mut rules = jsonwebtoken::Validation::new(jsonwebtoken::Algorithm::HS256);
    rules.validate_exp = false;
    let key = jsonwebtoken::DecodingKey::from_secret(secret);
    let c = jsonwebtoken::decode::<serde_json::Value>(token, &key, &rules).ok()?.claims;
    let jti = c["jti"].as_str().map(|s| s.to_string());
    Some((c["sub"].as_i64(), c["iat"].as_i64(), c["exp"].as_i64(), jti))
}

/// Whether a token expiring at `exp` is expired at time `now`.
pub open spec fn is_expired(exp: int, now: int) -> bool {
    exp < now
}

/// Signs `claims` into a compact HS256 token; a token with a non-negative
/// expiry reads back to the same claims under the same secret.
pub fn encode_claims(secret: &[u8], claims: &Claims) -> (r: Result<String, CodecError>)
    ensures
        r matches Ok(t) && t@ == hs256_token(
            secret@,
            claims.sub,
            claims.iat,
            claims.exp,
            claims.jti@,
        ),
        r matches Ok(t) ==> (claims.exp >= 0 ==> hs256_claims(secret@, t@) == Some(
            claims.fields(),
        )),
{
    match sign_hs256(secret, claims) {
        Some(t) => Ok(t),
        None => Err(CodecError::SigningError),
    }
}

/// The outcome of verifying a token whose signed content is `read`, at time `now`.
pub open spec fn verdict_of(read: Option<(i64, i64, i64, Seq<char>)>, now: int) -> Result<
    (i64, i64, i64, Seq<char>),
    CodecError,
> {
    match read {
        None => Err(CodecError::InvalidToken),
        Some(c) => if is_expired(c.2 as int, now) {
            Err(CodecError::Expired)
        } else {
            Ok(c)
        },
    }
}

/// Verifies `token` under `secret` at time `now`.
pub fn decode_claims_at(secret: &[u8], token: &str, now: i64) -> (r: Result<Claims, CodecError>)
    ensures
        match r {
            Ok(c) => verdict_of(hs256_claims(secret@, token@), now as int) == Ok::<
                _,
                CodecError,
            >(c.fields()),
            Err(e) => verdict_of(hs256_claims(secret@, token@), now as int) == Err::<
                (i64, i64, i64, Seq<char>),
                _,
            >(e),
        },
{
    match read_hs256(secret, token) {
        Some((Some(sub), Some(iat), Some(exp), Some(jti))) => if exp < now {
            Err(CodecError::Expired)
        } else {
            Ok(Claims { sub, iat, exp, jti })
        },
        _ => Err(CodecError::InvalidToken),
    }
}

/// Verifies `token` under `secret` at the current time: `InvalidToken` when
/// its signature, algorithm or payload is wrong, `Expired` when its expiry has passed.
pub fn decode_claims(secret: &[u8], token: &str) -> (r: Result<Claims, CodecError>)
    ensures
        (r == Err::<Claims, _>(CodecError::InvalidToken)) <==> hs256_claims(secret@, token@) is None,
        r matches Ok(c) ==> hs256_claims(secret@, token@) == Some(c.fields()),
        r matches Err(e) ==> e != CodecError::SigningError,
        r == Err::<Claims, _>(CodecError::Expired) ==> hs256_claims(secret@, token@) is Some,
{
    let now = now_secs();
    decode_claims_at(secret, token, now)
}

} // verus!
