//! The guard in front of the protected routes: a request carries its token in
//! an `Authorization: Bearer <token>` header.
use vstd::prelude::*;
use crate::http::StatusCode;
use crate::text::strip_prefix;
use super::models::Claims;

verus! {

/// The token of an `Authorization` header: the text after a leading
/// "Bearer ". A missing header, or one that does not begin so, is answered
/// with 401.
pub fn bearer_token<'a>(header: Option<&'a str>) -> (token: Result<&'a str, StatusCode>)
    ensures
        (match header {
            None => token == Err::<&str, StatusCode>(StatusCode::Unauthorized),
            Some(h) => if h@.len() >= 7 && h@.take(7) == "Bearer "@ {
                token matches Ok(t) && t@ == h@.skip(7)
            } else {
                token == Err::<&str, StatusCode>(StatusCode::Unauthorized)
            },
        }),
{
    proof {
        reveal_strlit("Bearer ");
    }
    match header {
        None => Err(StatusCode::Unauthorized),
        Some(h) => match strip_prefix(h, "Bearer ") {
            Some(t) => Ok(t),
            None => Err(StatusCode::Unauthorized),
        },
    }
}

/// The claims of a token that checked out; a token that did not is answered
/// with 401.
pub fn accept_verified(verified: Option<Claims>) -> (claims: Result<Claims, StatusCode>)
    ensures
        (match verified {
            Some(c) => claims == Ok::<Claims, StatusCode>(c),
            None => claims == Err::<Claims, StatusCode>(StatusCode::Unauthorized),
        }),
{
    match verified {
        Some(c) => Ok(c),
        None => Err(StatusCode::Unauthorized),
    }
}

} // verus!
