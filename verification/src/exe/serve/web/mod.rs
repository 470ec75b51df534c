//! Web server.

pub mod auth;
pub mod error;
pub mod route;

use vstd::prelude::*;

verus! {

/// The text fields of a documented API operation.
pub struct Operation {
    /// One-line summary.
    pub summary: Option<String>,
    /// Longer description.
    pub description: Option<String>,
}

/// Gives an undescribed operation its summary as its description, removing
/// the summary; a described operation is left as it is.
pub fn describe(op: &mut Operation)
    ensures
        old(op).description is None ==> final(op).description == old(op).summary && final(op).summary is None,
        old(op).description is Some ==> *final(op) == *old(op),
{
    if op.description.is_none() {
        op.description = op.summary.take();
    }
}

} // verus!
