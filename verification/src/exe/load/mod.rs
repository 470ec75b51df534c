//! Load subcommand.

pub mod fmt;
