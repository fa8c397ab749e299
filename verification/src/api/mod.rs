//! Request records and the decisions of the request handlers.

pub mod auth;
pub mod completions;
pub mod conversations;
pub mod users;
