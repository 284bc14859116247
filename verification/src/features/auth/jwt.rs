//! Issuing tokens: the claims are written as JSON here and signed with HS256
//! by the `jsonwebtoken` crate.
use vstd::prelude::*;
use vstd::string::*;
use crate::text::{decimal, json_string, push_decimal, push_json_string};
use super::models::Claims;

verus! {

/// How long a token stays valid: one day, in seconds.
pub const TOKEN_LIFETIME_SECS: usize = 24 * 3600;

#[verifier::external_type_specification]
#[verifier::external_body]
pub struct ExJwtError(jsonwebtoken::errors::Error);

/// The JSON text of a token's claims, with the fields in the order
/// `sub`, `role`, `exp`, `iat`, and nothing between the tokens.
pub open spec fn claims_json(sub: Seq<char>, role: Seq<char>, exp: nat, iat: nat) -> Seq<char> {
    "{\"sub\":"@ + json_string(sub) + ",\"role\":"@ + json_string(role) + ",\"exp\":"@ + decimal(
        exp,
    ) + ",\"iat\":"@ + decimal(iat) + "}"@
}

/// What `jsonwebtoken::encode` gives for the default header (HS256), the given
/// JSON text as the claims, and an HMAC key made of `secret`: the token, or
/// `None` where it fails.
pub uninterp spec fn hs256_token(claims: Seq<char>, secret: Seq<u8>) -> Option<Seq<char>>;

/// `jsonwebtoken::encode(&Header::default(), claims, &EncodingKey::from_secret(secret))`
/// with the claims handed over as raw JSON text (`serde_json::value::RawValue`,
/// which writes the text as it is). Claimed: the outcome is `hs256_token` of
/// the text and the secret, and claims written as `claims_json` (always valid
/// JSON) are always signed: `RawValue::from_string` fails only on text that is
/// not JSON, and HMAC signing with a secret key under HS256 cannot fail.
#[verifier::external_body]
fn encode_hs256(claims: String, secret: &[u8]) -> (token: Result<String, jsonwebtoken::errors::Error>)
    ensures
        token matches Ok(t) ==> hs256_token(claims@, secret@) == Some(t@),
        token is Err ==> hs256_token(claims@, secret@) is None,
        forall|sub: Seq<char>, role: Seq<char>, exp: nat, iat: nat|
            claims@ == #[trigger] claims_json(sub, role, exp, iat) ==> token is Ok,
{
    let raw = serde_json::value::RawValue::from_string(claims)?;
    jsonwebtoken::encode(
        &jsonwebtoken::Header::default(),
        &raw,
        &jsonwebtoken::EncodingKey::from_secret(secret),
    )
}

/// The JSON text of a set of claims.
pub fn claims_to_json(claims: &Claims) -> (json: String)
    ensures
        json@ == claims_json(claims.sub@, claims.role@, claims.exp as nat, claims.iat as nat),
        json@ == "{\"sub\":"@ + json_string(claims.sub@) + ",\"role\":"@ + json_string(
            claims.role@,
        ) + ",\"exp\":"@ + decimal(claims.exp as nat) + ",\"iat\":"@ + decimal(
            claims.iat as nat,
        ) + "}"@,
{
    let mut out = String::new();
    out.append("{\"sub\":");
    push_json_string(&mut out, claims.sub.as_str());
    out.append(",\"role\":");
    push_json_string(&mut out, claims.role.as_str());
    out.append(",\"exp\":");
    push_decimal(&mut out, claims.exp);
    out.append(",\"iat\":");
    push_decimal(&mut out, claims.iat);
    out.append("}");
    assert(out@ =~= claims_json(claims.sub@, claims.role@, claims.exp as nat, claims.iat as nat));
    out
}

/// A token for `user_id` with `role`, issued at `now` (seconds since the Unix
/// epoch) and valid for one day, signed with `secret`.
pub fn create_jwt(user_id: &str, role: &str, secret: &[u8], now: usize) -> (token: Result<
    String,
    jsonwebtoken::errors::Error,
>)
    requires
        now + TOKEN_LIFETIME_SECS <= usize::MAX,
    ensures
        token matches Ok(t) ==> hs256_token(
            claims_json(user_id@, role@, (now + TOKEN_LIFETIME_SECS) as nat, now as nat),
            secret@,
        ) == Some(t@),
        token is Ok,
{
    let claims = Claims {
        sub: user_id.to_owned(),
        role: role.to_owned(),
        exp: now + TOKEN_LIFETIME_SECS,
        iat: now,
    };
    encode_hs256(claims_to_json(&claims), secret)
}

} // verus!
