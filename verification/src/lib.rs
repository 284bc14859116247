//! Verified core of a small blogging API: accounts and tokens, categories
//! and posts. The HTTP server, the database and the process environment live
//! outside this library; here stand the decisions the server makes between
//! those calls, each with a contract.

pub mod features;
pub mod http;
pub mod ids;
pub mod slugs;
pub mod text;
