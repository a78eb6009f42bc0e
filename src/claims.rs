use vstd::prelude::*;

verus! {

/// A signed token's claim set: subject, issue time, expiry (both in seconds
/// since the Unix epoch) and a unique token id.
pub struct Claims {
    pub sub: i64,
    pub iat: i64,
    pub exp: i64,
    pub jti: String,
}

impl Claims {
    /// The claim set as plain values.
    pub open spec fn fields(&self) -> (i64, i64, i64, Seq<char>) {
        (self.sub, self.iat, self.exp, self.jti@)
    }
}

/// `now + ttl`, held inside the range of `i64`.
pub open spec fn expiry_of(now: int, ttl: int) -> int {
    if now + ttl > i64::MAX {
        i64::MAX as int
    } else if now + ttl < i64::MIN {
        i64::MIN as int
    } else {
        now + ttl
    }
}

/// Relies on chrono::Utc::now and DateTime::timestamp: the current time in
/// whole seconds since the Unix epoch. Nothing is promised of its value.
#[verifier::external_body]
pub(crate) fn now_secs() -> (r: i64) {
    chrono::Utc::now().timestamp()
}

/// Relies on uuid::Uuid::new_v4 and its `to_string`: a fresh random token id
/// in hyphenated form. Nothing is promised of its value.
#[verifier::external_body]
fn fresh_token_id() -> (r: String) {
    uuid::Uuid::new_v4().to_string()
}

/// Claims for `user_id`, issued at `now`, expiring `ttl` seconds later, with id `jti`.
pub fn claims_at(user_id: i64, now: i64, ttl: i64, jti: String) -> (r: Claims)
    ensures
        r.sub == user_id,
        r.iat == now,
        r.exp == expiry_of(now as int, ttl as int),
        r.jti == jti,
{
    let exp: i64 = match now.checked_add(ttl) {
        Some(e) => e,
        None => if ttl > 0 {
            i64::MAX
        } else {
            i64::MIN
        },
    };
    Claims { sub: user_id, iat: now, exp, jti }
}

/// Claims for `user_id` issued now, expiring `expires_secs` later, with a
/// freshly generated token id.
pub fn make_claims(user_id: i64, expires_secs: i64) -> (r: Claims)
    ensures
        r.sub == user_id,
        r.exp == expiry_of(r.iat as int, expires_secs as int),
{
    let now = now_secs();
    let jti = fresh_token_id();
    claims_at(user_id, now, expires_secs, jti)
}

} // verus!
