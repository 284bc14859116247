//! Categories: listed by anyone, created, renamed and removed by admins.
pub mod handlers;
pub mod models;
pub mod service;
