//! Load formats.

pub mod json;
pub mod restore;
