//! Game collection types.

pub mod owned;
pub mod system;
