//! Users and sessions: what a login or a registration carries, what a
//! successful authentication answers, and the login endpoint's decision.
use crate::errors::{AppError, AppResult};
use crate::value_objects::{Email, SessionToken, SessionTtl, UserId};
use vstd::prelude::*;

verus! {

/// A login attempt.
pub struct LoginPayload {
    pub email: Email,
    pub password: String,
}

/// A registration of a new user.
pub struct RegisterPayload {
    pub email: Email,
    pub password: String,
    pub confirm_password: String,
}

/// The answer to a successful authentication.
pub struct AuthResponse {
    pub user_id: UserId,
    pub token: SessionToken,
    pub expires_in: SessionTtl,
}

/// A registered user; `id` is absent until the user is stored.
pub struct User {
    pub id: Option<UserId>,
    pub email: Email,
    pub password_hash: String,
}

/// Body of a successful login answer.
pub struct LoginResponse {
    pub message: String,
}

/// The login endpoint: logging in is not offered, every attempt is refused
/// as unauthorised.
pub fn login() -> (r: AppResult<LoginResponse>)
    ensures
        r matches Err(AppError::Unauthorized),
{
    Err(AppError::Unauthorized)
}

} // verus!
