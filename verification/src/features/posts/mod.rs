//! Posts: read by anyone, written, changed and removed by their authors.
pub mod handlers;
pub mod models;
pub mod service;
