//! Media kind types.

pub mod book;
pub mod film;
pub mod game;
pub mod link;
pub mod show;

use vstd::prelude::*;

verus! {

/// The kind of a media item.
#[derive(Clone, Debug)]
pub enum Kind {
    /// Reading item.
    Book(book::Book),
    /// Watched film.
    Film(film::Film),
    /// Video game.
    Game(game::Game),
    /// Web bookmark.
    Link(link::Link),
    /// Television show.
    Show(show::Show),
}

/// Temporal metadata shared across all media types.
#[derive(Clone, Copy, Debug)]
pub struct Meta {
    /// Creation timestamp (Unix seconds).
    pub created: i64,
    /// Last updated timestamp (Unix seconds).
    pub updated: i64,
}

/// A media record paired with its metadata and tags.
#[derive(Clone, Debug)]
pub struct Record {
    /// Resource data.
    pub item: Kind,
    /// Temporal metadata.
    pub meta: Meta,
    /// Labels applied to this item.
    pub tags: Vec<String>,
}

} // verus!
