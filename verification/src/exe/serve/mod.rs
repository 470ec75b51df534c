//! Serve subcommand.

pub mod web;

use vstd::prelude::*;

use crate::cfg::Config;

verus! {

/// Port the server binds when none is configured.
pub const PORT: u16 = 3000;

/// The port to bind: the configured one, else 3000.
pub fn port(cfg: &Config) -> (r: u16)
    ensures
        r == (match cfg.port {
            Some(p) => p,
            None => 3000,
        }),
{
    match cfg.port {
        Some(p) => p,
        None => PORT,
    }
}

} // verus!
