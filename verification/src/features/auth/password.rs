//! Password hashing with the `bcrypt` crate.
use vstd::prelude::*;

verus! {

#[verifier::external_type_specification]
#[verifier::external_body]
pub struct ExBcryptError(bcrypt::BcryptError);

/// What `bcrypt::verify` makes of a password and a stored hash: whether the
/// password matches, or `None` where it refuses the hash.
pub uninterp spec fn bcrypt_verify_result(password: Seq<char>, hash: Seq<char>) -> Option<bool>;

/// A stored hash accepts a password when bcrypt verifies it.
pub open spec fn password_accepted(password: Seq<char>, hash: Seq<char>) -> bool {
    bcrypt_verify_result(password, hash) == Some(true)
}

/// `bcrypt::hash(password, bcrypt::DEFAULT_COST)`. The salt is random, so
/// nothing is said of which hash comes back. Claimed of every hash that does:
/// it is 60 characters long, begins with "$2b$12$" (version 2b, cost
/// `DEFAULT_COST` = 12, as the crate formats it), and `bcrypt::verify` accepts
/// the same password against it (the crate's verify reads back the salt and
/// cost and recomputes, truncating the password at 72 bytes as hashing did).
#[verifier::external_body]
pub(crate) fn hash_password(password: &str) -> (hashed: Result<String, bcrypt::BcryptError>)
    ensures
        hashed matches Ok(h) ==> h@.len() == 60 && h@.take(7) == "$2b$12$"@ && password_accepted(
            password@,
            h@,
        ),
{
    bcrypt::hash(password, bcrypt::DEFAULT_COST)
}

/// `bcrypt::verify(password, hash)`. Claimed: the outcome is
/// `bcrypt_verify_result` of the two texts, and a hash that is not 60
/// characters long is refused (the crate's parser wants exactly 60 ASCII
/// bytes).
#[verifier::external_body]
pub(crate) fn verify_password(password: &str, hash: &str) -> (verified: Result<
    bool,
    bcrypt::BcryptError,
>)
    ensures
        verified is Ok <==> bcrypt_verify_result(password@, hash@) is Some,
        verified matches Ok(b) ==> bcrypt_verify_result(password@, hash@) == Some(b),
        hash@.len() != 60 ==> verified is Err,
{
    bcrypt::verify(password, hash)
}

} // verus!
