//! The decisions of registration and login. Around them the server performs
//! the calls to the account store and reads the signing secret and the clock:
//! registration is `hash_new_password`, then the store creates the account,
//! then `account_created`, then `issue_response`; login is a lookup in the
//! store, then `check_login`, then `issue_response`.
use vstd::prelude::*;
use crate::ids::{uuid_text, uuid_to_string};
use crate::text::same_text;
use super::jwt::{claims_json, create_jwt, hs256_token, TOKEN_LIFETIME_SECS};
use super::models::{AuthResponse, LoginPayload, RegisterPayload, UserInfo};
use super::password::{bcrypt_verify_result, hash_password, password_accepted, verify_password};
use super::repository::{UserLoginRecord, UserRegisterRecord};

verus! {

#[derive(Clone, Copy, Debug, PartialEq, Eq, Structural)]
pub enum AuthError {
    InvalidCredentials,
    UserBlocked,
    UserExists,
    InternalError,
}

/// The hash that login checks a password against: the stored one, or the
/// empty text where none is stored.
pub open spec fn stored_hash(user: UserLoginRecord) -> Seq<char> {
    match user.password_hash {
        Some(h) => h@,
        None => Seq::empty(),
    }
}

/// Whether an account is blocked.
pub open spec fn is_blocked(user: UserLoginRecord) -> bool {
    user.status@ == "blocked"@
}

/// How login answers, given the password offered and what the account store
/// found for the user name.
pub open spec fn login_outcome(
    password: Seq<char>,
    found: Result<Option<UserLoginRecord>, String>,
) -> Result<UserLoginRecord, AuthError> {
    match found {
        Err(_) => Err(AuthError::InternalError),
        Ok(None) => Err(AuthError::InvalidCredentials),
        Ok(Some(user)) => if is_blocked(user) {
            Err(AuthError::UserBlocked)
        } else if password_accepted(password, stored_hash(user)) {
            Ok(user)
        } else {
            Err(AuthError::InvalidCredentials)
        },
    }
}

/// First step of registration: the password is hashed before anything is
/// stored. A failure of the hashing is an internal error.
pub fn hash_new_password(payload: &RegisterPayload) -> (hashed: Result<String, AuthError>)
    ensures
        hashed matches Ok(h) ==> {
            &&& h@.len() == 60
            &&& h@.take(7) == "$2b$12$"@
            &&& password_accepted(payload.password@, h@)
        },
        hashed matches Err(e) ==> e == AuthError::InternalError,
{
    hashed_outcome(hash_password(payload.password.as_str()))
}

/// What registration makes of bcrypt's answer: the hash it produced, or an
/// internal error where bcrypt failed.
pub fn hashed_outcome(hashed: Result<String, bcrypt::BcryptError>) -> (outcome: Result<
    String,
    AuthError,
>)
    ensures
        (match hashed {
            Ok(h) => outcome == Ok::<String, AuthError>(h),
            Err(_) => outcome == Err::<String, AuthError>(AuthError::InternalError),
        }),
{
    match hashed {
        Ok(h) => Ok(h),
        Err(_) => Err(AuthError::InternalError),
    }
}

/// Second step of registration: the store's answer to creating the account.
/// Any failure there is taken as a name that is already in use.
pub fn account_created(created: Result<UserRegisterRecord, String>) -> (account: Result<
    UserRegisterRecord,
    AuthError,
>)
    ensures
        (match created {
            Ok(r) => account == Ok::<UserRegisterRecord, AuthError>(r),
            Err(_) => account == Err::<UserRegisterRecord, AuthError>(AuthError::UserExists),
        }),
{
    match created {
        Ok(r) => Ok(r),
        Err(_) => Err(AuthError::UserExists),
    }
}

/// The answer of login once the password has been checked against the
/// stored hash: only a positive verification lets the user in; a mismatch or
/// a hash that bcrypt refuses is a wrong password.
pub fn password_verdict(user: UserLoginRecord, verified: Result<bool, bcrypt::BcryptError>) -> (verdict: Result<
    UserLoginRecord,
    AuthError,
>)
    ensures
        verified matches Ok(true) ==> verdict == Ok::<UserLoginRecord, AuthError>(user),
        !(verified matches Ok(true)) ==> verdict == Err::<UserLoginRecord, AuthError>(
            AuthError::InvalidCredentials,
        ),
{
    let valid: bool = match verified {
        Ok(b) => b,
        Err(_) => false,
    };
    if !valid {
        return Err(AuthError::InvalidCredentials);
    }
    Ok(user)
}

/// Login, once the store has looked up the user name: a failed lookup is an
/// internal error, an unknown name or a wrong password are invalid
/// credentials, and a blocked account is refused before its password is
/// checked.
pub fn check_login(payload: &LoginPayload, found: Result<Option<UserLoginRecord>, String>) -> (user:
    Result<UserLoginRecord, AuthError>)
    ensures
        user == login_outcome(payload.password@, found),
        found is Err ==> user == Err::<UserLoginRecord, AuthError>(AuthError::InternalError),
        found matches Ok(None) ==> user == Err::<UserLoginRecord, AuthError>(
            AuthError::InvalidCredentials,
        ),
        found matches Ok(Some(u)) && u.status@ == "blocked"@ ==> user == Err::<
            UserLoginRecord,
            AuthError,
        >(AuthError::UserBlocked),
        (match found {
            Ok(Some(u)) => u.status@ != "blocked"@ ==> user == if bcrypt_verify_result(
                payload.password@,
                match u.password_hash {
                    Some(h) => h@,
                    None => Seq::<char>::empty(),
                },
            ) == Some(true) {
                Ok::<UserLoginRecord, AuthError>(u)
            } else {
                Err::<UserLoginRecord, AuthError>(AuthError::InvalidCredentials)
            },
            _ => true,
        }),
        found matches Ok(Some(u)) && u.password_hash is None ==> user is Err,
        user matches Ok(r) ==> found == Ok::<Option<UserLoginRecord>, String>(Some(r)),
{
    let record = match found {
        Err(_) => return Err(AuthError::InternalError),
        Ok(None) => return Err(AuthError::InvalidCredentials),
        Ok(Some(u)) => u,
    };
    if same_text(record.status.as_str(), "blocked") {
        return Err(AuthError::UserBlocked);
    }
    let hash_in_db = match &record.password_hash {
        Some(h) => h.clone(),
        None => String::new(),
    };
    let verified = verify_password(payload.password.as_str(), hash_in_db.as_str());
    password_verdict(record, verified)
}

/// The answer to a successful registration or login: a token for the account,
/// issued at `now` with `secret`, and the account's public view. Signing the
/// token always succeeds; a failure there would be an internal error.
pub fn issue_response(
    id: u128,
    username: String,
    role: String,
    status: String,
    secret: &[u8],
    now: usize,
) -> (response: Result<AuthResponse, AuthError>)
    requires
        now + TOKEN_LIFETIME_SECS <= usize::MAX,
    ensures
        response matches Ok(r) ==> {
            &&& r.user.id@ == uuid_text(id)
            &&& r.user.username == username
            &&& r.user.role == role
            &&& r.user.status == status
            &&& hs256_token(
                claims_json(uuid_text(id), role@, (now + TOKEN_LIFETIME_SECS) as nat, now as nat),
                secret@,
            ) == Some(r.token@)
        },
        response is Ok,
{
    let id_text = uuid_to_string(id);
    let token = match create_jwt(id_text.as_str(), role.as_str(), secret, now) {
        Ok(t) => t,
        Err(_) => return Err(AuthError::InternalError),
    };
    Ok(AuthResponse { token, user: UserInfo { id: id_text, username, role, status } })
}

/// Whoever registered with a password gets in with it: when bcrypt accepts
/// the password against the stored hash (as it does against every hash that
/// registration produces) and the account's status is not "blocked", login
/// lets the user in, whatever the role.
pub proof fn registered_password_logs_in(password: Seq<char>, user: UserLoginRecord, hash: String)
    requires
        user.password_hash == Some(hash),
        bcrypt_verify_result(password, hash@) == Some(true),
        user.status@ != "blocked"@,
    ensures
        login_outcome(password, Ok(Some(user))) == Ok::<UserLoginRecord, AuthError>(user),
{
}

/// An account whose status is "blocked" never gets in, whatever its role, its
/// stored hash and the password offered.
pub proof fn blocked_account_is_refused(password: Seq<char>, user: UserLoginRecord)
    requires
        user.status@ == "blocked"@,
    ensures
        login_outcome(password, Ok(Some(user))) == Err::<UserLoginRecord, AuthError>(
            AuthError::UserBlocked,
        ),
{
}

/// A password that bcrypt does not accept against the stored hash (the empty
/// text where none is stored) never gets in: login answers it as
/// invalid credentials, or as blocked for a blocked account.
pub proof fn rejected_password_is_refused(password: Seq<char>, user: UserLoginRecord)
    requires
        bcrypt_verify_result(
            password,
            match user.password_hash {
                Some(h) => h@,
                None => Seq::<char>::empty(),
            },
        ) != Some(true),
    ensures
        login_outcome(password, Ok(Some(user))) is Err,
        user.status@ == "blocked"@ ==> login_outcome(password, Ok(Some(user))) == Err::<
            UserLoginRecord,
            AuthError,
        >(AuthError::UserBlocked),
        user.status@ != "blocked"@ ==> login_outcome(password, Ok(Some(user))) == Err::<
            UserLoginRecord,
            AuthError,
        >(AuthError::InvalidCredentials),
{
}

/// A failed lookup is an internal error and an unknown name is invalid
/// credentials, whatever the password.
pub proof fn lookup_failures_are_refused(password: Seq<char>, message: String)
    ensures
        login_outcome(password, Err(message)) == Err::<UserLoginRecord, AuthError>(
            AuthError::InternalError,
        ),
        login_outcome(password, Ok(None)) == Err::<UserLoginRecord, AuthError>(
            AuthError::InvalidCredentials,
        ),
{
}

/// Login lets in only the record the store found, unchanged.
pub proof fn login_admits_only_the_found_record(
    password: Seq<char>,
    found: Result<Option<UserLoginRecord>, String>,
)
    ensures
        login_outcome(password, found) matches Ok(r) ==> found == Ok::<
            Option<UserLoginRecord>,
            String,
        >(Some(r)),
{
}

} // verus!
