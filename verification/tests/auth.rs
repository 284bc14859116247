use blog_api::features::auth::guard::{accept_verified, bearer_token};
use blog_api::features::auth::handlers::{login, register};
use blog_api::features::auth::jwt::{claims_to_json, create_jwt, TOKEN_LIFETIME_SECS};
use blog_api::features::auth::models::{AuthResponse, Claims, LoginPayload, RegisterPayload, UserInfo};
use blog_api::features::auth::repository::{UserLoginRecord, UserRegisterRecord};
use blog_api::features::auth::service::{
    account_created, check_login, hash_new_password, issue_response, password_verdict, AuthError,
};
use blog_api::features::posts::service::author_of;
use blog_api::http::StatusCode;

const SECRET: &[u8] = b"test-secret";
const USER_ID: u128 = 0x550e8400_e29b_41d4_a716_446655440000;

fn decode(token: &str, secret: &[u8]) -> serde_json::Value {
    let mut validation = jsonwebtoken::Validation::default();
    validation.validate_exp = false;
    jsonwebtoken::decode::<serde_json::Value>(
        token,
        &jsonwebtoken::DecodingKey::from_secret(secret),
        &validation,
    )
    .unwrap()
    .claims
}

fn record(status: &str, hash: Option<String>) -> UserLoginRecord {
    UserLoginRecord { id: USER_ID, role: "user".to_string(), status: status.to_string(), password_hash: hash }
}

fn login_payload(password: &str) -> LoginPayload {
    LoginPayload { username: "alice".to_string(), password: password.to_string() }
}

fn sample_response() -> AuthResponse {
    AuthResponse {
        token: "t".to_string(),
        user: UserInfo {
            id: "i".to_string(),
            username: "u".to_string(),
            role: "r".to_string(),
            status: "s".to_string(),
        },
    }
}

#[test]
fn claims_json_has_fields_in_order() {
    let claims = Claims { sub: "u1".to_string(), role: "admin".to_string(), exp: 86400, iat: 0 };
    assert_eq!(claims_to_json(&claims), "{\"sub\":\"u1\",\"role\":\"admin\",\"exp\":86400,\"iat\":0}");
}

#[test]
fn claims_json_escapes_strings() {
    let role = "a\"b\\c\nd\u{1}";
    let claims = Claims { sub: "x".to_string(), role: role.to_string(), exp: 5, iat: 4 };
    let expected = format!(
        "{{\"sub\":{},\"role\":{},\"exp\":5,\"iat\":4}}",
        serde_json::to_string("x").unwrap(),
        serde_json::to_string(role).unwrap()
    );
    assert_eq!(claims_to_json(&claims), expected);
    let parsed: serde_json::Value = serde_json::from_str(&expected).unwrap();
    assert_eq!(parsed["role"], role);
}

#[test]
fn token_lasts_one_day() {
    assert_eq!(TOKEN_LIFETIME_SECS, 86400);
    let now = 1_700_000_000usize;
    let token = create_jwt("user-1", "admin", SECRET, now).unwrap();
    let claims = decode(&token, SECRET);
    assert_eq!(claims["sub"], "user-1");
    assert_eq!(claims["role"], "admin");
    assert_eq!(claims["iat"], 1_700_000_000u64);
    assert_eq!(claims["exp"], 1_700_086_400u64);
    let header = jsonwebtoken::decode_header(&token).unwrap();
    assert_eq!(header.alg, jsonwebtoken::Algorithm::HS256);
}

#[test]
fn tokens_are_a_function_of_claims_and_secret() {
    let a = create_jwt("user-1", "user", SECRET, 10).unwrap();
    let b = create_jwt("user-1", "user", SECRET, 10).unwrap();
    let c = create_jwt("user-1", "user", b"other", 10).unwrap();
    assert_eq!(a, b);
    assert_ne!(a, c);
    assert_eq!(a.split('.').count(), 3);
    let mut validation = jsonwebtoken::Validation::default();
    validation.validate_exp = false;
    assert!(jsonwebtoken::decode::<serde_json::Value>(
        &c,
        &jsonwebtoken::DecodingKey::from_secret(SECRET),
        &validation
    )
    .is_err());
}

#[test]
fn token_accepted_while_valid() {
    let now = std::time::SystemTime::now()
        .duration_since(std::time::UNIX_EPOCH)
        .unwrap()
        .as_secs() as usize;
    let token = create_jwt("user-2", "user", SECRET, now).unwrap();
    let data = jsonwebtoken::decode::<serde_json::Value>(
        &token,
        &jsonwebtoken::DecodingKey::from_secret(SECRET),
        &jsonwebtoken::Validation::default(),
    )
    .unwrap();
    assert_eq!(data.claims["sub"], "user-2");
}

#[test]
fn bearer_header_gives_token() {
    assert_eq!(bearer_token(Some("Bearer abc.def.ghi")), Ok("abc.def.ghi"));
    assert_eq!(bearer_token(Some("Bearer ")), Ok(""));
    assert_eq!(bearer_token(Some("Bearer ü")), Ok("ü"));
}

#[test]
fn missing_or_malformed_header_is_unauthorized() {
    assert_eq!(bearer_token(None), Err(StatusCode::Unauthorized));
    assert_eq!(bearer_token(Some("bearer abc")), Err(StatusCode::Unauthorized));
    assert_eq!(bearer_token(Some("Bearer")), Err(StatusCode::Unauthorized));
    assert_eq!(bearer_token(Some("Token abc")), Err(StatusCode::Unauthorized));
    assert_eq!(bearer_token(Some("")), Err(StatusCode::Unauthorized));
}

#[test]
fn verified_claims_are_admitted() {
    let claims = Claims { sub: "s".to_string(), role: "r".to_string(), exp: 2, iat: 1 };
    assert_eq!(accept_verified(Some(claims.clone())), Ok(claims));
    assert_eq!(accept_verified(None), Err(StatusCode::Unauthorized));
}

#[test]
fn registered_password_logs_in() {
    let payload = RegisterPayload { username: "alice".to_string(), password: "hunter2".to_string() };
    let hash = hash_new_password(&payload).unwrap();
    assert_eq!(hash.len(), 60);
    assert!(hash.starts_with("$2b$12$"));
    assert_ne!(hash, "hunter2");
    let user = record("active", Some(hash.clone()));
    assert_eq!(check_login(&login_payload("hunter2"), Ok(Some(user.clone()))), Ok(user));
    let other = record("active", Some(hash));
    assert_eq!(check_login(&login_payload("hunter3"), Ok(Some(other))), Err(AuthError::InvalidCredentials));
}

#[test]
fn blocked_account_is_refused() {
    let payload = RegisterPayload { username: "bob".to_string(), password: "pw".to_string() };
    let hash = hash_new_password(&payload).unwrap();
    let user = record("blocked", Some(hash));
    assert_eq!(check_login(&login_payload("pw"), Ok(Some(user))), Err(AuthError::UserBlocked));
}

#[test]
fn login_failures() {
    assert_eq!(check_login(&login_payload("pw"), Err("db down".to_string())), Err(AuthError::InternalError));
    assert_eq!(check_login(&login_payload("pw"), Ok(None)), Err(AuthError::InvalidCredentials));
    assert_eq!(
        check_login(&login_payload("pw"), Ok(Some(record("active", None)))),
        Err(AuthError::InvalidCredentials)
    );
    assert_eq!(
        check_login(&login_payload("pw"), Ok(Some(record("active", Some("not a hash".to_string()))))),
        Err(AuthError::InvalidCredentials)
    );
    assert_eq!(
        check_login(&login_payload("pw"), Ok(Some(record("Blocked", None)))),
        Err(AuthError::InvalidCredentials)
    );
}

#[test]
fn password_verdict_needs_a_positive_check() {
    let user = record("active", None);
    assert_eq!(password_verdict(user.clone(), Ok(true)), Ok(user.clone()));
    assert_eq!(password_verdict(user.clone(), Ok(false)), Err(AuthError::InvalidCredentials));
    assert_eq!(
        password_verdict(user, Err(bcrypt::BcryptError::InvalidHash("bad"))),
        Err(AuthError::InvalidCredentials)
    );
}

#[test]
fn account_creation_failure_means_name_taken() {
    let rec = UserRegisterRecord { id: 1, role: "user".to_string(), status: "active".to_string() };
    assert_eq!(account_created(Ok(rec.clone())), Ok(rec));
    assert_eq!(account_created(Err("duplicate".to_string())), Err(AuthError::UserExists));
}

#[test]
fn response_carries_token_and_user() {
    let now = 1_000usize;
    let response = issue_response(
        USER_ID,
        "alice".to_string(),
        "admin".to_string(),
        "active".to_string(),
        SECRET,
        now,
    )
    .unwrap();
    assert_eq!(response.user.id, "550e8400-e29b-41d4-a716-446655440000");
    assert_eq!(response.user.username, "alice");
    assert_eq!(response.user.role, "admin");
    assert_eq!(response.user.status, "active");
    let claims = decode(&response.token, SECRET);
    assert_eq!(claims["sub"], "550e8400-e29b-41d4-a716-446655440000");
    assert_eq!(claims["role"], "admin");
    assert_eq!(claims["exp"], 87_400u64);
    assert_eq!(claims["iat"], 1_000u64);
    assert_eq!(
        response.token,
        create_jwt("550e8400-e29b-41d4-a716-446655440000", "admin", SECRET, now).unwrap()
    );
}

#[test]
fn token_subject_reads_back_as_user_id() {
    for id in [USER_ID, 0, 1, u128::MAX, 0x0123_4567_89ab_cdef_0123_4567_89ab_cdef] {
        let response =
            issue_response(id, "u".to_string(), "user".to_string(), "active".to_string(), SECRET, 0).unwrap();
        let sub = decode(&response.token, SECRET)["sub"].as_str().unwrap().to_string();
        let claims = Claims { sub, role: "user".to_string(), exp: 86400, iat: 0 };
        assert_eq!(author_of(&claims), Ok(id));
    }
}

#[test]
fn register_statuses() {
    assert_eq!(register(Ok(sample_response())), Ok(sample_response()));
    assert_eq!(register(Err(AuthError::UserExists)), Err(StatusCode::BadRequest));
    assert_eq!(register(Err(AuthError::InternalError)), Err(StatusCode::InternalServerError));
    assert_eq!(register(Err(AuthError::InvalidCredentials)), Err(StatusCode::InternalServerError));
    assert_eq!(register(Err(AuthError::UserBlocked)), Err(StatusCode::InternalServerError));
}

#[test]
fn login_statuses() {
    assert_eq!(login(Ok(sample_response())), Ok(sample_response()));
    assert_eq!(login(Err(AuthError::InvalidCredentials)), Err(StatusCode::Unauthorized));
    assert_eq!(login(Err(AuthError::UserBlocked)), Err(StatusCode::Forbidden));
    assert_eq!(login(Err(AuthError::UserExists)), Err(StatusCode::InternalServerError));
    assert_eq!(login(Err(AuthError::InternalError)), Err(StatusCode::InternalServerError));
}

#[test]
fn unknown_name_and_wrong_password_answer_alike() {
    let payload = RegisterPayload { username: "carol".to_string(), password: "right".to_string() };
    let hash = hash_new_password(&payload).unwrap();
    let unknown = check_login(&login_payload("wrong"), Ok(None));
    let mismatch = check_login(&login_payload("wrong"), Ok(Some(record("active", Some(hash)))));
    assert_eq!(unknown, mismatch);
    assert_eq!(login(unknown.map(|_| sample_response())), Err(StatusCode::Unauthorized));
}

#[test]
fn rejected_password_is_refused() {
    let payload = RegisterPayload { username: "dave".to_string(), password: "correct horse".to_string() };
    let hash = hash_new_password(&payload).unwrap();
    for wrong in ["", "correct", "Correct horse", "correct horse "] {
        assert_eq!(
            check_login(&login_payload(wrong), Ok(Some(record("active", Some(hash.clone()))))),
            Err(AuthError::InvalidCredentials)
        );
        assert_eq!(
            check_login(&login_payload(wrong), Ok(Some(record("blocked", Some(hash.clone()))))),
            Err(AuthError::UserBlocked)
        );
    }
}

#[test]
fn signing_always_succeeds() {
    for role in ["", "admin", "quote\"back\\slash\u{0}\u{1f}", "ümlaut ✓"] {
        assert!(create_jwt("x", role, b"", 0).is_ok());
        assert!(issue_response(1, String::new(), role.to_string(), String::new(), b"k", usize::MAX - 86400).is_ok());
    }
}
