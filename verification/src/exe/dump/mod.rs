//! Dump subcommand.

pub mod cli;
pub mod fmt;

pub use self::cli::Format;
pub use self::fmt::json::Dump;
