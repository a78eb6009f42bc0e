use crate::password::{bcrypt_verdict, check_password};
use vstd::prelude::*;

verus! {

/// A user row of the credential store.
pub struct User {
    pub id: i64,
    pub username: String,
    pub password_hash: String,
    pub disabled: bool,
}

/// The public view of a user: never the password hash.
pub struct UserResponse {
    pub id: i64,
    pub username: String,
}

impl UserResponse {
    /// Whether this view shows `u`.
    pub open spec fn shows(&self, u: &User) -> bool {
        self.id == u.id && self.username@ == u.username@
    }
}

impl From<&User> for UserResponse {
    fn from(u: &User) -> (r: UserResponse) {
        UserResponse { id: u.id, username: u.username.clone() }
    }
}

impl vstd::std_specs::convert::FromSpecImpl<&User> for UserResponse {
    open spec fn obeys_from_spec() -> bool {
        true
    }

    open spec fn from_spec(u: &User) -> UserResponse {
        UserResponse { id: u.id, username: u.username }
    }
}

/// A permission that a protected route asks of its caller.
pub struct RequiredPermission(pub String);

pub struct LoginInput {
    pub username: String,
    pub password: String,
}

pub struct RefreshInput {
    pub refresh_token: String,
}

pub struct LogoutInput {
    pub user_id: i64,
}

pub struct RegisterInput {
    pub username: String,
    pub password: String,
}

/// Tokens and user view handed out by a login or a refresh.
pub struct LoginResult {
    pub access_token: String,
    pub refresh_token: String,
    pub user: UserResponse,
}

/// Failure of a plain credential check.
#[derive(Clone, Copy, Debug, PartialEq, Eq, Structural)]
pub enum LoginError {
    InvalidCredentials,
    ServerError,
}

/// Checks `payload` against the row that the credential store gave for its
/// username (`Err` when the store failed).
pub fn login_service(payload: &LoginInput, record: &Result<Option<User>, ()>) -> (r: Result<
    UserResponse,
    LoginError,
>)
    ensures
        match record {
            Err(_) => r == Err::<UserResponse, _>(LoginError::ServerError),
            Ok(None) => r == Err::<UserResponse, _>(LoginError::InvalidCredentials),
            Ok(Some(u)) => if bcrypt_verdict(payload.password@, u.password_hash@) == Some(true) {
                r matches Ok(v) && v.shows(u)
            } else {
                r == Err::<UserResponse, _>(LoginError::InvalidCredentials)
            },
        },
{
    match record {
        Err(_) => Err(LoginError::ServerError),
        Ok(None) => Err(LoginError::InvalidCredentials),
        Ok(Some(u)) => {
            let valid = check_password(payload.password.as_str(), u.password_hash.as_str());
            if valid == Some(true) {
                Ok(UserResponse::from(u))
            } else {
                Err(LoginError::InvalidCredentials)
            }
        },
    }
}

} // verus!
