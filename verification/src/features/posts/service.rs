//! The decisions of the post service. The author of a change is the holder
//! of the token, read from its subject; the store is then asked to act on the
//! author's own posts only.
use vstd::prelude::*;
use crate::features::auth::Claims;
use crate::ids::{parse_uuid, uuid_parse_result, uuid_text};
use crate::slugs::{is_slug, slugify, slugify_result};
use super::models::{CreatePostPayload, Post, UpdatePostPayload};

verus! {

/// The author that a token names: its subject read as an identifier.
pub open spec fn token_author(claims: Claims) -> Option<u128> {
    uuid_parse_result(claims.sub@)
}

/// What the store is asked to create for a new post, besides the payload:
/// the author and the slug.
#[derive(Clone, Debug, PartialEq, Eq)]
pub struct PostDraft {
    pub author_id: u128,
    pub slug: String,
}

/// What the store is asked to change, besides the payload: whose post, and
/// the new slug where the title changes.
#[derive(Clone, Debug, PartialEq, Eq)]
pub struct PostEdit {
    pub author_id: u128,
    pub new_slug: Option<String>,
}

/// The author named by a token. A subject that is not an identifier is
/// refused with "Invalid Token"; the subject that login and registration
/// write (the canonical text of the account's identifier) always reads back
/// as that identifier.
pub fn author_of(claims: &Claims) -> (author: Result<u128, String>)
    ensures
        author is Ok <==> token_author(*claims) is Some,
        author matches Ok(id) ==> token_author(*claims) == Some(id),
        author matches Err(m) ==> m@ == "Invalid Token"@,
        forall|v: u128| claims.sub@ == #[trigger] uuid_text(v) ==> author == Ok::<u128, String>(v),
{
    match parse_uuid(claims.sub.as_str()) {
        Some(id) => Ok(id),
        None => Err("Invalid Token".to_owned()),
    }
}

/// First step of writing a post: its author, from the token, and its slug,
/// made from its title.
pub fn create_post(claims: &Claims, payload: &CreatePostPayload) -> (draft: Result<
    PostDraft,
    String,
>)
    ensures
        draft is Ok <==> token_author(*claims) is Some,
        draft matches Ok(d) ==> {
            &&& token_author(*claims) == Some(d.author_id)
            &&& d.slug@ == slugify_result(payload.title@)
            &&& is_slug(d.slug@)
        },
        draft matches Err(m) ==> m@ == "Invalid Token"@,
        forall|v: u128| claims.sub@ == #[trigger] uuid_text(v) ==> (draft matches Ok(d) && d.author_id == v),
{
    let author_id: u128 = match author_of(claims) {
        Ok(id) => id,
        Err(e) => return Err(e),
    };
    let slug = slugify(payload.title.as_str());
    Ok(PostDraft { author_id, slug })
}

/// The post that a lookup or a change found; none is "Not Found", and the
/// store's own failures pass through.
pub fn post_found(found: Result<Option<Post>, String>) -> (post: Result<Post, String>)
    ensures
        (match found {
            Ok(Some(p)) => post == Ok::<Post, String>(p),
            Ok(None) => (post matches Err(m) && m@ == "Not Found"@),
            Err(e) => post == Err::<Post, String>(e),
        }),
{
    match found {
        Ok(Some(p)) => Ok(p),
        Ok(None) => Err("Not Found".to_owned()),
        Err(e) => Err(e),
    }
}

/// First step of changing a post: its author, from the token; a new title
/// brings a new slug made from it, and without one the slug is left alone.
pub fn edit_post(claims: &Claims, payload: &UpdatePostPayload) -> (edit: Result<PostEdit, String>)
    ensures
        edit is Ok <==> token_author(*claims) is Some,
        edit matches Ok(e) ==> {
            &&& token_author(*claims) == Some(e.author_id)
            &&& match payload.title {
                None => e.new_slug is None,
                Some(t) => (e.new_slug matches Some(s) && s@ == slugify_result(t@) && is_slug(s@)),
            }
        },
        edit matches Err(m) ==> m@ == "Invalid Token"@,
        forall|v: u128| claims.sub@ == #[trigger] uuid_text(v) ==> (edit matches Ok(e) && e.author_id == v),
{
    let author_id: u128 = match author_of(claims) {
        Ok(id) => id,
        Err(e) => return Err(e),
    };
    let new_slug = match &payload.title {
        Some(t) => Some(slugify(t.as_str())),
        None => None,
    };
    Ok(PostEdit { author_id, new_slug })
}

/// First step of removing a post: its author, from the token.
pub fn delete_post(claims: &Claims) -> (author: Result<u128, String>)
    ensures
        author is Ok <==> token_author(*claims) is Some,
        author matches Ok(id) ==> token_author(*claims) == Some(id),
        author matches Err(m) ==> m@ == "Invalid Token"@,
        forall|v: u128| claims.sub@ == #[trigger] uuid_text(v) ==> author == Ok::<u128, String>(v),
{
    author_of(claims)
}

} // verus!
