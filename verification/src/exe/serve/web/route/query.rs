//! Shared query parameter types.

use vstd::prelude::*;

verus! {

/// Sort direction.
#[derive(Clone, Copy, Debug, PartialEq, Eq, Structural)]
pub enum Order {
    /// Ascending.
    Asc,
    /// Descending.
    Desc,
}

impl Default for Order {
    fn default() -> (r: Order)
        ensures
            r == Order::Desc,
    {
        Order::Desc
    }
}

impl Order {
    /// SQL keyword of the direction.
    pub fn as_str(self) -> (r: &'static str)
        ensures
            r@ == (match self {
                Order::Asc => "ASC"@,
                Order::Desc => "DESC"@,
            }),
    {
        match self {
            Order::Asc => "ASC",
            Order::Desc => "DESC",
        }
    }
}

} // verus!
