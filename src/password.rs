use vstd::prelude::*;

verus! {

/// What bcrypt's verification says of a password against a stored hash:
/// `Some(true)` when they match, `Some(false)` when not, `None` when the hash
/// is malformed.
pub uninterp spec fn bcrypt_verdict(password: Seq<char>, hash: Seq<char>) -> Option<bool>;

/// Relies on bcrypt::verify: recomputes the hash of `password` with the cost
/// and salt of `hash` and compares; an error (a malformed hash) becomes `None`.
#[verifier::external_body]
pub(crate) fn check_password(password: &str, hash: &str) -> (r: Option<bool>)
    ensures
        r == bcrypt_verdict(password@, hash@),
{
    bcrypt::verify(password, hash).ok()
}

/// Relies on bcrypt::hash at bcrypt's default cost: a salted hash that
/// bcrypt::verify accepts for the same password; `None` when no random salt
/// could be drawn.
#[verifier::external_body]
pub(crate) fn hash_password(password: &str) -> (r: Option<String>)
    ensures
        r matches Some(h) ==> bcrypt_verdict(password@, h@) == Some(true),
{
    bcrypt::hash(password, bcrypt::DEFAULT_COST).ok()
}

/// Why a registration was refused.
#[derive(Clone, Copy, Debug, PartialEq, Eq, Structural)]
pub enum RegisterError {
    UsernameTaken,
    HashingFailed,
}

/// Prepares the stored hash of a new account, given whether its username
/// is already taken: `UsernameTaken` if so, else a hash that verifies the password.
pub fn prepare_registration(username_taken: bool, password: &str) -> (r: Result<
    String,
    RegisterError,
>)
    ensures
        username_taken ==> r == Err::<String, _>(RegisterError::UsernameTaken),
        !username_taken ==> match r {
            Ok(h) => bcrypt_verdict(password@, h@) == Some(true),
            Err(e) => e == RegisterError::HashingFailed,
        },
{
    if username_taken {
        return Err(RegisterError::UsernameTaken);
    }
    match hash_password(password) {
        Some(h) => Ok(h),
        None => Err(RegisterError::HashingFailed),
    }
}

} // verus!
