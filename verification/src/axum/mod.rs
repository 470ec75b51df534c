//! Web request handling helpers.

pub mod extract;
pub mod status;
