pub mod auth;
pub mod categories;
pub mod posts;
