use vstd::prelude::*;

verus! {

/// A post as the store holds it.
#[derive(Clone, Debug, PartialEq, Eq)]
pub struct Post {
    pub id: u128,
    pub author_id: u128,
    pub category_id: Option<u128>,
    pub title: String,
    pub slug: String,
    pub content_markdown: String,
    pub cover_image_url: Option<String>,
    pub published: Option<bool>,
    /// Creation time, in microseconds since the Unix epoch.
    pub created_at: Option<i64>,
    /// Time of the last change, in microseconds since the Unix epoch.
    pub updated_at: Option<i64>,
}

#[derive(Clone, Debug, PartialEq, Eq)]
pub struct CreatePostPayload {
    pub title: String,
    pub content_markdown: String,
    pub cover_image_url: Option<String>,
    pub category_id: Option<u128>,
}

/// A change to a post; a field left out stays as it is.
#[derive(Clone, Debug, PartialEq, Eq)]
pub struct UpdatePostPayload {
    pub category_id: Option<u128>,
    pub title: Option<String>,
    pub content_markdown: Option<String>,
    pub cover_image_url: Option<String>,
    pub published: Option<bool>,
}

} // verus!
