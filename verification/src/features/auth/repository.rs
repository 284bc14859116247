//! The records that the account store hands back.
use vstd::prelude::*;

verus! {

/// An account as login reads it.
#[derive(Clone, Debug, PartialEq, Eq)]
pub struct UserLoginRecord {
    pub id: u128,
    pub role: String,
    pub status: String,
    pub password_hash: Option<String>,
}

/// An account as registration creates it.
#[derive(Clone, Debug, PartialEq, Eq)]
pub struct UserRegisterRecord {
    pub id: u128,
    pub role: String,
    pub status: String,
}

} // verus!
