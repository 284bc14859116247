use vstd::prelude::*;

verus! {

/// What a token says about its holder.
#[derive(Clone, Debug, PartialEq, Eq)]
pub struct Claims {
    /// The user's identifier, as text.
    pub sub: String,
    pub role: String,
    /// Expiry, in seconds since the Unix epoch.
    pub exp: usize,
    /// Issue time, in seconds since the Unix epoch.
    pub iat: usize,
}

#[derive(Clone, Debug, PartialEq, Eq)]
pub struct RegisterPayload {
    pub username: String,
    pub password: String,
}

#[derive(Clone, Debug, PartialEq, Eq)]
pub struct LoginPayload {
    pub username: String,
    pub password: String,
}

/// The public view of an account.
#[derive(Clone, Debug, PartialEq, Eq)]
pub struct UserInfo {
    pub id: String,
    pub username: String,
    pub role: String,
    pub status: String,
}

/// The answer to a successful registration or login.
#[derive(Clone, Debug, PartialEq, Eq)]
pub struct AuthResponse {
    pub token: String,
    pub user: UserInfo,
}

} // verus!
