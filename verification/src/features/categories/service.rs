//! The decisions of the category service. Each change is two steps around
//! the store: a first one that checks the caller and prepares what the store
//! is asked to do, and a second one that reads the store's answer.
use vstd::prelude::*;
use crate::features::auth::Claims;
use crate::slugs::{is_slug, slugify, slugify_result};
use crate::text::same_text;
use super::models::{Category, CreateCategoryPayload, UpdateCategoryPayload};

verus! {

#[derive(Clone, Copy, Debug, PartialEq, Eq, Structural)]
pub enum CategoryError {
    Forbidden,
    NotFound,
    InternalError,
}

/// Only admins may change categories.
pub open spec fn is_admin(claims: Claims) -> bool {
    claims.role@ == "admin"@
}

fn check_admin(claims: &Claims) -> (admin: bool)
    ensures
        admin == is_admin(*claims),
        admin == (claims.role@ == "admin"@),
{
    same_text(claims.role.as_str(), "admin")
}

/// Admission to category changes depends on the role text alone: the role
/// "admin" is admitted and every other role is not, whatever the token's
/// subject and times.
pub proof fn admission_is_the_admin_role(claims: Claims)
    ensures
        is_admin(claims) <==> claims.role@ == "admin"@,
        forall|other: Claims| other.role@ == claims.role@ ==> is_admin(other) == is_admin(claims),
{
}

/// First step of creating a category: the caller must be an admin; the slug
/// the category is stored under is made from its name.
pub fn create_category(claims: &Claims, payload: &CreateCategoryPayload) -> (slug: Result<
    String,
    CategoryError,
>)
    ensures
        !is_admin(*claims) ==> slug == Err::<String, CategoryError>(CategoryError::Forbidden),
        claims.role@ != "admin"@ ==> slug == Err::<String, CategoryError>(CategoryError::Forbidden),
        claims.role@ == "admin"@ ==> (slug matches Ok(s) && s@ == slugify_result(payload.name@)),
        is_admin(*claims) ==> (slug matches Ok(s) && s@ == slugify_result(payload.name@) && is_slug(
            s@,
        )),
{
    if !check_admin(claims) {
        return Err(CategoryError::Forbidden);
    }
    Ok(slugify(payload.name.as_str()))
}

/// Second step of creating a category: the store's answer; a failure there is
/// an internal error.
pub fn category_created(created: Result<Category, String>) -> (category: Result<
    Category,
    CategoryError,
>)
    ensures
        (match created {
            Ok(c) => category == Ok::<Category, CategoryError>(c),
            Err(_) => category == Err::<Category, CategoryError>(CategoryError::InternalError),
        }),
{
    match created {
        Ok(c) => Ok(c),
        Err(_) => Err(CategoryError::InternalError),
    }
}

/// The list of categories, from the store's answer; a failure there is an
/// internal error.
pub fn get_categories(listed: Result<Vec<Category>, String>) -> (categories: Result<
    Vec<Category>,
    CategoryError,
>)
    ensures
        (match listed {
            Ok(v) => categories == Ok::<Vec<Category>, CategoryError>(v),
            Err(_) => categories == Err::<Vec<Category>, CategoryError>(
                CategoryError::InternalError,
            ),
        }),
{
    match listed {
        Ok(v) => Ok(v),
        Err(_) => Err(CategoryError::InternalError),
    }
}

/// First step of changing a category: the caller must be an admin; a new
/// name brings a new slug made from it, and without a new name the slug is
/// left alone.
pub fn update_category(claims: &Claims, payload: &UpdateCategoryPayload) -> (new_slug: Result<
    Option<String>,
    CategoryError,
>)
    ensures
        !is_admin(*claims) ==> new_slug == Err::<Option<String>, CategoryError>(
            CategoryError::Forbidden,
        ),
        is_admin(*claims) ==> new_slug is Ok,
        claims.role@ != "admin"@ ==> new_slug == Err::<Option<String>, CategoryError>(
            CategoryError::Forbidden,
        ),
        claims.role@ == "admin"@ ==> new_slug is Ok,
        new_slug matches Ok(s) ==> (match payload.name {
            None => s is None,
            Some(n) => (s matches Some(t) && t@ == slugify_result(n@) && is_slug(t@)),
        }),
{
    if !check_admin(claims) {
        return Err(CategoryError::Forbidden);
    }
    match &payload.name {
        Some(n) => Ok(Some(slugify(n.as_str()))),
        None => Ok(None),
    }
}

/// Second step of changing a category: the store's answer; no such category
/// is "not found", a failure there is an internal error.
pub fn category_updated(updated: Result<Option<Category>, String>) -> (category: Result<
    Category,
    CategoryError,
>)
    ensures
        (match updated {
            Ok(Some(c)) => category == Ok::<Category, CategoryError>(c),
            Ok(None) => category == Err::<Category, CategoryError>(CategoryError::NotFound),
            Err(_) => category == Err::<Category, CategoryError>(CategoryError::InternalError),
        }),
{
    match updated {
        Ok(Some(c)) => Ok(c),
        Ok(None) => Err(CategoryError::NotFound),
        Err(_) => Err(CategoryError::InternalError),
    }
}

/// First step of removing a category: the caller must be an admin.
pub fn delete_category(claims: &Claims) -> (allowed: Result<(), CategoryError>)
    ensures
        is_admin(*claims) ==> allowed is Ok,
        !is_admin(*claims) ==> allowed == Err::<(), CategoryError>(CategoryError::Forbidden),
        claims.role@ == "admin"@ ==> allowed is Ok,
        claims.role@ != "admin"@ ==> allowed == Err::<(), CategoryError>(CategoryError::Forbidden),
{
    if !check_admin(claims) {
        return Err(CategoryError::Forbidden);
    }
    Ok(())
}

/// Second step of removing a category: the number of rows the store removed;
/// none means there was no such category, a failure there is an internal
/// error.
pub fn category_deleted(deleted: Result<u64, String>) -> (done: Result<(), CategoryError>)
    ensures
        (match deleted {
            Ok(0) => done == Err::<(), CategoryError>(CategoryError::NotFound),
            Ok(_) => done is Ok,
            Err(_) => done == Err::<(), CategoryError>(CategoryError::InternalError),
        }),
{
    match deleted {
        Ok(0) => Err(CategoryError::NotFound),
        Ok(_) => Ok(()),
        Err(_) => Err(CategoryError::InternalError),
    }
}

} // verus!
