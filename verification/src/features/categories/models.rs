use vstd::prelude::*;

verus! {

/// A category as the store holds it.
#[derive(Clone, Debug, PartialEq, Eq)]
pub struct Category {
    pub id: u128,
    pub name: String,
    pub slug: String,
    pub description: Option<String>,
    /// Creation time, in microseconds since the Unix epoch.
    pub created_at: Option<i64>,
}

#[derive(Clone, Debug, PartialEq, Eq)]
pub struct CreateCategoryPayload {
    pub name: String,
    pub description: Option<String>,
}

/// A change to a category; a field left out stays as it is.
#[derive(Clone, Debug, PartialEq, Eq)]
pub struct UpdateCategoryPayload {
    pub name: Option<String>,
    pub description: Option<String>,
}

} // verus!
