//! How the account routes answer: the service's outcome becomes the HTTP reply.
use vstd::prelude::*;
use crate::http::StatusCode;
use super::models::AuthResponse;
use super::password::bcrypt_verify_result;
use super::repository::UserLoginRecord;
use super::service::{login_outcome, AuthError};

verus! {

/// The status a failed registration is answered with.
pub open spec fn register_status(e: AuthError) -> StatusCode {
    match e {
        AuthError::UserExists => StatusCode::BadRequest,
        _ => StatusCode::InternalServerError,
    }
}

/// The status a failed login is answered with.
pub open spec fn login_status(e: AuthError) -> StatusCode {
    match e {
        AuthError::InvalidCredentials => StatusCode::Unauthorized,
        AuthError::UserBlocked => StatusCode::Forbidden,
        _ => StatusCode::InternalServerError,
    }
}

/// The reply to `POST /auth/register`.
pub fn register(outcome: Result<AuthResponse, AuthError>) -> (reply: Result<AuthResponse, StatusCode>)
    ensures
        (match outcome {
            Ok(r) => reply == Ok::<AuthResponse, StatusCode>(r),
            Err(e) => reply == Err::<AuthResponse, StatusCode>(register_status(e)),
        }),
        outcome matches Err(e) && e == AuthError::UserExists ==> reply == Err::<AuthResponse, StatusCode>(
            StatusCode::BadRequest,
        ),
        outcome matches Err(e) && e != AuthError::UserExists ==> reply == Err::<AuthResponse, StatusCode>(
            StatusCode::InternalServerError,
        ),
{
    match outcome {
        Ok(response) => Ok(response),
        Err(AuthError::UserExists) => Err(StatusCode::BadRequest),
        Err(_) => Err(StatusCode::InternalServerError),
    }
}

/// The reply to `POST /auth/login`.
pub fn login(outcome: Result<AuthResponse, AuthError>) -> (reply: Result<AuthResponse, StatusCode>)
    ensures
        (match outcome {
            Ok(r) => reply == Ok::<AuthResponse, StatusCode>(r),
            Err(e) => reply == Err::<AuthResponse, StatusCode>(login_status(e)),
        }),
        outcome matches Err(e) && e == AuthError::InvalidCredentials ==> reply == Err::<AuthResponse, StatusCode>(
            StatusCode::Unauthorized,
        ),
        outcome matches Err(e) && e == AuthError::UserBlocked ==> reply == Err::<AuthResponse, StatusCode>(
            StatusCode::Forbidden,
        ),
        outcome matches Err(e) && e != AuthError::InvalidCredentials && e
            != AuthError::UserBlocked ==> reply == Err::<AuthResponse, StatusCode>(StatusCode::InternalServerError),
{
    match outcome {
        Ok(response) => Ok(response),
        Err(AuthError::InvalidCredentials) => Err(StatusCode::Unauthorized),
        Err(AuthError::UserBlocked) => Err(StatusCode::Forbidden),
        Err(_) => Err(StatusCode::InternalServerError),
    }
}

/// Login does not tell an unknown user name from a wrong password: both are
/// answered 401, so the answer does not reveal which names have accounts.
pub proof fn unknown_name_and_wrong_password_answer_alike(
    password: Seq<char>,
    user: UserLoginRecord,
)
    requires
        user.status@ != "blocked"@,
        bcrypt_verify_result(
            password,
            match user.password_hash {
                Some(h) => h@,
                None => Seq::<char>::empty(),
            },
        ) != Some(true),
    ensures
        login_outcome(password, Ok(Some(user))) == Err::<UserLoginRecord, AuthError>(
            AuthError::InvalidCredentials,
        ),
        login_outcome(password, Ok(None)) == login_outcome(password, Ok(Some(user))),
        login_outcome(password, Ok(None)) matches Err(e) && login_status(e)
            == StatusCode::Unauthorized,
{
}

} // verus!
