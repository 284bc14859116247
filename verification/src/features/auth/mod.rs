//! Accounts: registration and login, tokens, and the guard that reads them.
pub mod guard;
pub mod handlers;
pub mod jwt;
pub mod models;
pub mod password;
pub mod repository;
pub mod service;

pub use models::Claims;
