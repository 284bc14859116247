//! How the category routes answer: the service's outcome becomes the HTTP
//! reply.
use vstd::prelude::*;
use crate::http::StatusCode;
use super::models::Category;
use super::service::CategoryError;

verus! {

/// The status a failed creation is answered with: only a refusal has a
/// status of its own.
pub open spec fn create_status(e: CategoryError) -> StatusCode {
    match e {
        CategoryError::Forbidden => StatusCode::Forbidden,
        _ => StatusCode::InternalServerError,
    }
}

/// The status a failed change or removal is answered with.
pub open spec fn change_status(e: CategoryError) -> StatusCode {
    match e {
        CategoryError::Forbidden => StatusCode::Forbidden,
        CategoryError::NotFound => StatusCode::NotFound,
        CategoryError::InternalError => StatusCode::InternalServerError,
    }
}

/// The reply to `POST /category`.
pub fn create_category(outcome: Result<Category, CategoryError>) -> (reply: Result<
    Category,
    StatusCode,
>)
    ensures
        (match outcome {
            Ok(c) => reply == Ok::<Category, StatusCode>(c),
            Err(e) => reply == Err::<Category, StatusCode>(create_status(e)),
        }),
        outcome matches Err(e) && e == CategoryError::Forbidden ==> reply == Err::<Category, StatusCode>(
            StatusCode::Forbidden,
        ),
        outcome matches Err(e) && e != CategoryError::Forbidden ==> reply == Err::<Category, StatusCode>(
            StatusCode::InternalServerError,
        ),
{
    match outcome {
        Ok(category) => Ok(category),
        Err(CategoryError::Forbidden) => Err(StatusCode::Forbidden),
        Err(_) => Err(StatusCode::InternalServerError),
    }
}

/// The reply to `GET /categories`.
pub fn get_categories(outcome: Result<Vec<Category>, CategoryError>) -> (reply: Result<
    Vec<Category>,
    StatusCode,
>)
    ensures
        (match outcome {
            Ok(v) => reply == Ok::<Vec<Category>, StatusCode>(v),
            Err(_) => reply == Err::<Vec<Category>, StatusCode>(StatusCode::InternalServerError),
        }),
{
    match outcome {
        Ok(categories) => Ok(categories),
        Err(_) => Err(StatusCode::InternalServerError),
    }
}

/// The reply to `PATCH /categories/{id}`.
pub fn update_category(outcome: Result<Category, CategoryError>) -> (reply: Result<
    Category,
    StatusCode,
>)
    ensures
        (match outcome {
            Ok(c) => reply == Ok::<Category, StatusCode>(c),
            Err(e) => reply == Err::<Category, StatusCode>(change_status(e)),
        }),
        outcome matches Err(e) && e == CategoryError::Forbidden ==> reply == Err::<Category, StatusCode>(
            StatusCode::Forbidden,
        ),
        outcome matches Err(e) && e == CategoryError::NotFound ==> reply == Err::<Category, StatusCode>(
            StatusCode::NotFound,
        ),
        outcome matches Err(e) && e == CategoryError::InternalError ==> reply == Err::<Category, StatusCode>(
            StatusCode::InternalServerError,
        ),
{
    match outcome {
        Ok(category) => Ok(category),
        Err(CategoryError::Forbidden) => Err(StatusCode::Forbidden),
        Err(CategoryError::NotFound) => Err(StatusCode::NotFound),
        Err(_) => Err(StatusCode::InternalServerError),
    }
}

/// The reply to `DELETE /categories/{id}`: 204 once removed.
pub fn delete_category(outcome: Result<(), CategoryError>) -> (reply: Result<
    StatusCode,
    StatusCode,
>)
    ensures
        (match outcome {
            Ok(_) => reply == Ok::<StatusCode, StatusCode>(StatusCode::NoContent),
            Err(e) => reply == Err::<StatusCode, StatusCode>(change_status(e)),
        }),
        outcome matches Err(e) && e == CategoryError::Forbidden ==> reply == Err::<StatusCode, StatusCode>(
            StatusCode::Forbidden,
        ),
        outcome matches Err(e) && e == CategoryError::NotFound ==> reply == Err::<StatusCode, StatusCode>(
            StatusCode::NotFound,
        ),
        outcome matches Err(e) && e == CategoryError::InternalError ==> reply == Err::<StatusCode, StatusCode>(
            StatusCode::InternalServerError,
        ),
{
    match outcome {
        Ok(_) => Ok(StatusCode::NoContent),
        Err(CategoryError::Forbidden) => Err(StatusCode::Forbidden),
        Err(CategoryError::NotFound) => Err(StatusCode::NotFound),
        Err(_) => Err(StatusCode::InternalServerError),
    }
}

} // verus!
