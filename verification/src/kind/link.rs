//! Web bookmark.

use vstd::prelude::*;

use crate::uuid::Uuid;

verus! {

/// Web bookmark.
#[derive(Clone, Debug)]
pub struct Link {
    /// Unique identifier.
    pub id: Uuid,
    /// URL.
    pub url: String,
    /// Title.
    pub title: Option<String>,
}

/// Request body for creating or updating a hyperlink.
#[derive(Clone, Debug)]
pub struct Body {
    /// URL.
    pub url: String,
    /// Title.
    pub title: Option<String>,
}

} // verus!
