use vstd::prelude::*;

verus! {

/// The decimal digit character for `d < 10`.
pub open spec fn digit_char(d: nat) -> char {
    ('0' as u8 + d) as char
}

/// Decimal digits of a natural number, most significant first, without leading zeros.
pub open spec fn digits_of(n: nat) -> Seq<char>
    decreases n,
{
    if n < 10 {
        seq![digit_char(n)]
    } else {
        digits_of(n / 10) + seq![digit_char(n % 10)]
    }
}

/// Decimal text of an integer, with a leading '-' when negative.
pub open spec fn decimal_of(n: int) -> Seq<char> {
    if n < 0 {
        seq!['-'] + digits_of((-n) as nat)
    } else {
        digits_of(n as nat)
    }
}

fn digit_str(d: u64) -> (r: &'static str)
    requires
        d < 10,
    ensures
        r@ == seq![digit_char(d as nat)],
{
    proof {
        reveal_strlit("0");
        reveal_strlit("1");
        reveal_strlit("2");
        reveal_strlit("3");
        reveal_strlit("4");
        reveal_strlit("5");
        reveal_strlit("6");
        reveal_strlit("7");
        reveal_strlit("8");
        reveal_strlit("9");
    }
    if d == 0 {
        "0"
    } else if d == 1 {
        "1"
    } else if d == 2 {
        "2"
    } else if d == 3 {
        "3"
    } else if d == 4 {
        "4"
    } else if d == 5 {
        "5"
    } else if d == 6 {
        "6"
    } else if d == 7 {
        "7"
    } else if d == 8 {
        "8"
    } else {
        "9"
    }
}

fn push_digits(n: u64, out: &mut String)
    ensures
        final(out)@ == old(out)@ + digits_of(n as nat),
    decreases n,
{
    if n >= 10 {
        push_digits(n / 10, out);
        out.append(digit_str(n % 10));
        assert(final(out)@ =~= old(out)@ + digits_of(n as nat));
    } else {
        out.append(digit_str(n));
    }
}

/// Decimal text of `n`, as `format!("{}", n)` writes it.
pub fn decimal(n: i64) -> (r: String)
    ensures
        r@ == decimal_of(n as int),
{
    let mut out = String::new();
    if n < 0 {
        out.append("-");
        proof {
            reveal_strlit("-");
        }
        let magnitude: u64 = (0i128 - n as i128) as u64;
        push_digits(magnitude, &mut out);
    } else {
        push_digits(n as u64, &mut out);
    }
    out
}

fn prefixed(prefix: &str, tail: &str) -> (r: String)
    ensures
        r@ == prefix@ + tail@,
{
    let mut out = String::from_str(prefix);
    out.append(tail);
    out
}

/// Key of the live-session entry of an access token: `session:{jti}`.
pub fn session_key(jti: &str) -> (r: String)
    ensures
        r@ == "session:"@ + jti@,
{
    prefixed("session:", jti)
}

/// Key of the redeemable-refresh entry of a refresh token: `refresh:{jti}`.
pub fn refresh_key(jti: &str) -> (r: String)
    ensures
        r@ == "refresh:"@ + jti@,
{
    prefixed("refresh:", jti)
}

/// Key of the set of live access-token ids of a user: `user:{id}:sessions`.
pub fn user_sessions_key(user_id: i64) -> (r: String)
    ensures
        r@ == "user:"@ + decimal_of(user_id as int) + ":sessions"@,
{
    let mut out = String::from_str("user:");
    let id = decimal(user_id);
    out.append(id.as_str());
    out.append(":sessions");
    out
}

/// Key of the revocation marker of a token id: `blacklist:{jti}`.
pub fn blacklist_key(jti: &str) -> (r: String)
    ensures
        r@ == "blacklist:"@ + jti@,
{
    prefixed("blacklist:", jti)
}

/// Key of the cached permission list of a user: `user:{id}:perms`.
pub fn user_permissions_key(user_id: i64) -> (r: String)
    ensures
        r@ == "user:"@ + decimal_of(user_id as int) + ":perms"@,
{
    let mut out = String::from_str("user:");
    let id = decimal(user_id);
    out.append(id.as_str());
    out.append(":perms");
    out
}

} // verus!
