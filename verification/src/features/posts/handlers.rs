//! How the post routes answer: the service's outcome becomes the HTTP reply.
use vstd::prelude::*;
use crate::http::StatusCode;
use super::models::Post;

verus! {

/// The status a failed lookup or change is answered with: "Not Found" is 404,
/// any other failure 500.
pub open spec fn lookup_status(message: Seq<char>) -> StatusCode {
    if message == "Not Found"@ {
        StatusCode::NotFound
    } else {
        StatusCode::InternalServerError
    }
}

fn is_not_found(message: &String) -> (b: bool)
    ensures
        b == (message@ == "Not Found"@),
{
    crate::text::same_text(message.as_str(), "Not Found")
}

/// The reply to `POST /post`.
pub fn create_post(outcome: Result<Post, String>) -> (reply: Result<Post, StatusCode>)
    ensures
        (match outcome {
            Ok(p) => reply == Ok::<Post, StatusCode>(p),
            Err(_) => reply == Err::<Post, StatusCode>(StatusCode::InternalServerError),
        }),
{
    match outcome {
        Ok(post) => Ok(post),
        Err(_) => Err(StatusCode::InternalServerError),
    }
}

/// The reply to `GET /posts`.
pub fn get_posts(outcome: Result<Vec<Post>, String>) -> (reply: Result<Vec<Post>, StatusCode>)
    ensures
        (match outcome {
            Ok(v) => reply == Ok::<Vec<Post>, StatusCode>(v),
            Err(_) => reply == Err::<Vec<Post>, StatusCode>(StatusCode::InternalServerError),
        }),
{
    match outcome {
        Ok(posts) => Ok(posts),
        Err(_) => Err(StatusCode::InternalServerError),
    }
}

/// The reply to `GET /posts/{slug}`.
pub fn get_post_by_slug(outcome: Result<Post, String>) -> (reply: Result<Post, StatusCode>)
    ensures
        (match outcome {
            Ok(p) => reply == Ok::<Post, StatusCode>(p),
            Err(e) => reply == Err::<Post, StatusCode>(lookup_status(e@)),
        }),
        outcome matches Err(e) && e@ == "Not Found"@ ==> reply == Err::<Post, StatusCode>(StatusCode::NotFound),
        outcome matches Err(e) && e@ != "Not Found"@ ==> reply == Err::<Post, StatusCode>(
            StatusCode::InternalServerError,
        ),
{
    match outcome {
        Ok(post) => Ok(post),
        Err(e) => if is_not_found(&e) {
            Err(StatusCode::NotFound)
        } else {
            Err(StatusCode::InternalServerError)
        },
    }
}

/// The reply to `GET /categories/{id}/posts`.
pub fn get_posts_by_category(outcome: Result<Vec<Post>, String>) -> (reply: Result<
    Vec<Post>,
    StatusCode,
>)
    ensures
        (match outcome {
            Ok(v) => reply == Ok::<Vec<Post>, StatusCode>(v),
            Err(_) => reply == Err::<Vec<Post>, StatusCode>(StatusCode::InternalServerError),
        }),
{
    match outcome {
        Ok(posts) => Ok(posts),
        Err(_) => Err(StatusCode::InternalServerError),
    }
}

/// The reply to `PATCH /post/{id}`.
pub fn edit_post(outcome: Result<Post, String>) -> (reply: Result<Post, StatusCode>)
    ensures
        (match outcome {
            Ok(p) => reply == Ok::<Post, StatusCode>(p),
            Err(e) => reply == Err::<Post, StatusCode>(lookup_status(e@)),
        }),
        outcome matches Err(e) && e@ == "Not Found"@ ==> reply == Err::<Post, StatusCode>(StatusCode::NotFound),
        outcome matches Err(e) && e@ != "Not Found"@ ==> reply == Err::<Post, StatusCode>(
            StatusCode::InternalServerError,
        ),
{
    match outcome {
        Ok(post) => Ok(post),
        Err(e) => if is_not_found(&e) {
            Err(StatusCode::NotFound)
        } else {
            Err(StatusCode::InternalServerError)
        },
    }
}

/// The reply to `DELETE /post/{id}`: the store removes only the caller's own
/// post, so no row removed is 404, and a removal is 204.
pub fn delete_post(outcome: Result<u64, String>) -> (reply: Result<StatusCode, StatusCode>)
    ensures
        (match outcome {
            Ok(0) => reply == Err::<StatusCode, StatusCode>(StatusCode::NotFound),
            Ok(_) => reply == Ok::<StatusCode, StatusCode>(StatusCode::NoContent),
            Err(_) => reply == Err::<StatusCode, StatusCode>(StatusCode::InternalServerError),
        }),
{
    match outcome {
        Ok(0) => Err(StatusCode::NotFound),
        Ok(_) => Ok(StatusCode::NoContent),
        Err(_) => Err(StatusCode::InternalServerError),
    }
}

} // verus!
