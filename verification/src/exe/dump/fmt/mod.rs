//! Dump formats.

pub mod json;
pub mod sql;
