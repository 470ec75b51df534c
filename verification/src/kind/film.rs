//! Watched film.

use vstd::prelude::*;

use crate::uuid::Uuid;

verus! {

/// Watched film.
#[derive(Clone, Debug)]
pub struct Film {
    /// Unique identifier.
    pub id: Uuid,
    /// TMDB ID.
    pub tmdb: Option<i64>,
    /// Title.
    pub title: String,
    /// Release year.
    pub year: Option<i64>,
    /// Rating (1-5).
    pub rated: Option<i64>,
}

/// Request body for creating or updating a watched film.
#[derive(Clone, Debug)]
pub struct Body {
    /// TMDB ID.
    pub tmdb: Option<i64>,
    /// Title.
    pub title: String,
    /// Release year.
    pub year: Option<i64>,
    /// Rating (1-5).
    pub rated: Option<i64>,
}

} // verus!
