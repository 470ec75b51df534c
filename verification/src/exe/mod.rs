//! Subcommands.

pub mod dump;
pub mod load;
pub mod serve;
