use crate::claims::Claims;
use crate::codec::{decode_claims, hs256_claims};
use crate::session::ids_of;
use crate::store::StoreUnavailable;
use vstd::prelude::*;
use vstd::string::StrSliceExecFns;

verus! {

/// Why a request is refused at the guard.
#[derive(Clone, Copy, Debug, PartialEq, Eq, Structural)]
pub enum GuardError {
    /// No valid, live, unrevoked token: the caller must log in again.
    Unauthenticated,
    /// Authenticated, but without the required permission.
    Forbidden,
}

/// The JSON text that serde_json writes for a list of strings.
pub uninterp spec fn json_string_list(items: Seq<Seq<char>>) -> Seq<char>;

/// The list of strings that serde_json reads from a JSON text, if it is one.
pub uninterp spec fn json_parse_string_list(text: Seq<char>) -> Option<Seq<Seq<char>>>;

/// Relies on serde_json::to_string for a `Vec<String>`: the JSON array text;
/// serialising a list of strings does not fail.
#[verifier::external_body]
fn write_string_list(items: &Vec<String>) -> (r: Option<String>)
    ensures
        r is Some,
        r matches Some(t) ==> t@ == json_string_list(ids_of(items@)),
{
    serde_json::to_string(items).ok()
}

/// Relies on serde_json::from_str for a `Vec<String>`: the strings of a JSON
/// array text, `None` when the text is not one.
#[verifier::external_body]
fn read_string_list(text: &str) -> (r: Option<Vec<String>>)
    ensures
        match r {
            Some(v) => json_parse_string_list(text@) == Some(ids_of(v@)),
            None => json_parse_string_list(text@) is None,
        },
{
    serde_json::from_str::<Vec<String>>(text).ok()
}

/// The token of an `Authorization` header value: what follows `Bearer `.
pub open spec fn bearer_of(header: Seq<char>) -> Option<Seq<char>> {
    if header.len() >= 7 && header.subrange(0, 7) == "Bearer "@ {
        Some(header.skip(7))
    } else {
        None
    }
}

/// Extracts the bearer token of an `Authorization` header value.
pub fn bearer_token(header: &str) -> (r: Option<String>)
    ensures
        match r {
            Some(t) => bearer_of(header@) == Some(t@),
            None => bearer_of(header@) is None,
        },
{
    proof {
        reveal_strlit("Bearer ");
    }
    let prefix = "Bearer ";
    assert(prefix@.len() == 7);
    let n = header.unicode_len();
    if n < 7 {
        return None;
    }
    let mut i: usize = 0;
    while i < 7
        invariant
            n == header@.len(),
            n >= 7,
            prefix@ == "Bearer "@,
            prefix@.len() == 7,
            i <= 7,
            forall|j: int| 0 <= j < i ==> header@[j] == prefix@[j],
        decreases 7 - i,
    {
        if header.get_char(i) != prefix.get_char(i) {
            assert(header@.subrange(0, 7)[i as int] != "Bearer "@[i as int]);
            return None;
        }
        i = i + 1;
    }
    assert(header@.subrange(0, 7) =~= "Bearer "@);
    let token = header.substring_char(7, n);
    assert(token@ =~= header@.skip(7));
    Some(String::from_str(token))
}

/// Authenticates a request by its `Authorization` header value: the header
/// must be present and carry a bearer token that verifies under `secret` and
/// has not expired; every failure is `Unauthenticated`.
pub fn authenticate(secret: &[u8], header: Option<&str>) -> (r: Result<Claims, GuardError>)
    ensures
        match r {
            Ok(c) => header matches Some(h) && (bearer_of(h@) matches Some(t) && hs256_claims(
                secret@,
                t,
            ) == Some(c.fields())),
            Err(e) => e == GuardError::Unauthenticated,
        },
        header is None ==> r is Err,
        header matches Some(h) ==> (bearer_of(h@) is None || hs256_claims(
            secret@,
            bearer_of(h@)->Some_0,
        ) is None ==> r is Err),
{
    let h = match header {
        Some(h) => h,
        None => {
            return Err(GuardError::Unauthenticated);
        },
    };
    let token = match bearer_token(h) {
        Some(t) => t,
        None => {
            return Err(GuardError::Unauthenticated);
        },
    };
    match decode_claims(secret, token.as_str()) {
        Ok(c) => Ok(c),
        Err(_) => Err(GuardError::Unauthenticated),
    }
}

/// The outcome of the revocation and liveness reads of a token id; an
/// unreachable store denies.
pub open spec fn session_outcome(
    blacklisted: Result<bool, StoreUnavailable>,
    session: Result<Option<i64>, StoreUnavailable>,
) -> Result<(), GuardError> {
    if blacklisted == Ok::<bool, StoreUnavailable>(false) && session matches Ok(Some(_)) {
        Ok(())
    } else {
        Err(GuardError::Unauthenticated)
    }
}

/// Admits a verified token only if its id is not revoked and its session is live.
pub fn check_session(
    blacklisted: Result<bool, StoreUnavailable>,
    session: Result<Option<i64>, StoreUnavailable>,
) -> (r: Result<(), GuardError>)
    ensures
        r == session_outcome(blacklisted, session),
{
    match blacklisted {
        Ok(false) => match session {
            Ok(Some(_)) => Ok(()),
            _ => Err(GuardError::Unauthenticated),
        },
        _ => Err(GuardError::Unauthenticated),
    }
}

/// What the permission cache gave for a subject.
pub enum CachedPermissions {
    /// A cached list.
    Hit(Vec<String>),
    /// No readable entry: ask the permission source and cache its answer.
    Miss,
    /// The cache could not be reached: ask the permission source, cache nothing.
    Unreachable,
}

/// Interprets the read of a subject's permission-cache entry; an entry that
/// is not a JSON list of strings counts as a miss, to be recomputed.
pub fn read_permission_cache(cached: &Result<Option<String>, StoreUnavailable>) -> (r: CachedPermissions)
    ensures
        match cached {
            Err(_) => r is Unreachable,
            Ok(None) => r is Miss,
            Ok(Some(t)) => match json_parse_string_list(t@) {
                Some(l) => r matches CachedPermissions::Hit(v) && ids_of(v@) == l,
                None => r is Miss,
            },
        },
{
    match cached {
        Err(_) => CachedPermissions::Unreachable,
        Ok(None) => CachedPermissions::Miss,
        Ok(Some(t)) => match read_string_list(t.as_str()) {
            Some(v) => CachedPermissions::Hit(v),
            None => CachedPermissions::Miss,
        },
    }
}

/// The permission-cache entry for a list of permission codes, as JSON text.
pub fn permission_cache_entry(perms: &Vec<String>) -> (r: String)
    ensures
        r@ == json_string_list(ids_of(perms@)),
{
    match write_string_list(perms) {
        Some(t) => t,
        None => String::new(),
    }
}

/// Whether `perms` holds the code `required`.
pub fn has_permission(perms: &Vec<String>, required: &str) -> (r: bool)
    ensures
        r == ids_of(perms@).contains(required@),
{
    let wanted = String::from_str(required);
    let mut i: usize = 0;
    while i < perms.len()
        invariant
            i <= perms@.len(),
            wanted@ == required@,
            forall|j: int| 0 <= j < i ==> #[trigger] perms@[j]@ != required@,
        decreases perms@.len() - i,
    {
        if perms[i].eq(&wanted) {
            assert(ids_of(perms@)[i as int] == required@);
            return true;
        }
        i = i + 1;
    }
    assert(!ids_of(perms@).contains(required@)) by {
        if ids_of(perms@).contains(required@) {
            let k = choose|k: int| 0 <= k < ids_of(perms@).len() && ids_of(perms@)[k] == required@;
            assert(perms@[k]@ == required@);
        }
    }
    false
}

/// The view of an optional permission code.
pub open spec fn required_view(required: Option<&str>) -> Option<Seq<char>> {
    match required {
        Some(s) => Some(s@),
        None => None,
    }
}

/// The outcome of the guard for a verified token of `subject`.
pub open spec fn guard_outcome(
    blacklisted: Result<bool, StoreUnavailable>,
    session: Result<Option<i64>, StoreUnavailable>,
    required: Option<Seq<char>>,
    perms: Seq<Seq<char>>,
    subject: i64,
) -> Result<i64, GuardError> {
    if session_outcome(blacklisted, session) is Err {
        Err(GuardError::Unauthenticated)
    } else if required matches Some(code) && !perms.contains(code) {
        Err(GuardError::Forbidden)
    } else {
        Ok(subject)
    }
}

/// Decides a request that carries the verified token `claims`, from the
/// revocation and liveness reads of its id and, when a permission is
/// required, the subject's resolved permission codes.
pub fn authorize(
    claims: &Claims,
    blacklisted: Result<bool, StoreUnavailable>,
    session: Result<Option<i64>, StoreUnavailable>,
    required: Option<&str>,
    perms: &Vec<String>,
) -> (r: Result<i64, GuardError>)
    ensures
        r == guard_outcome(blacklisted, session, required_view(required), ids_of(perms@), claims.sub),
{
    match check_session(blacklisted, session) {
        Err(e) => {
            return Err(e);
        },
        Ok(()) => {},
    }
    match required {
        Some(code) => if !has_permission(perms, code) {
            return Err(GuardError::Forbidden);
        },
        None => {},
    }
    Ok(claims.sub)
}

} // verus!
