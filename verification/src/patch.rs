//! Partial updates.

use vstd::prelude::*;

verus! {

/// A field after a patch: the given value if one is given, else the old one.
pub open spec fn patched<T>(given: Option<T>, old: T) -> T {
    match given {
        Some(v) => v,
        None => old,
    }
}

} // verus!
