//! Watched film.

use vstd::prelude::*;

use crate::item::Kind;
use crate::patch::patched;
use crate::uuid::Uuid;

verus! {

/// Watched film.
#[derive(Clone, Debug)]
pub struct Film {
    /// Unique identifier.
    pub id: Uuid,
    /// TMDB ID.
    pub tmdb: Option<i64>,
    /// Title.
    pub title: String,
    /// Release year.
    pub year: Option<i64>,
    /// Rating (1-5).
    pub rating: Option<i64>,
}

impl Film {
    /// Kind of every watched film.
    pub const KIND: Kind = Kind::Film;
}

/// Request body.
#[derive(Clone, Debug)]
pub struct Body {
    /// TMDB ID.
    pub tmdb: Option<i64>,
    /// Title.
    pub title: String,
    /// Release year.
    pub year: Option<i64>,
    /// Rating (1-5).
    pub rating: Option<i64>,
}

impl Body {
    /// The watched film that creating or replacing with this body stores under the
    /// given identifier.
    pub open spec fn spec_into_item(self, id: Uuid) -> Film {
        Film { id: id, tmdb: self.tmdb, title: self.title, year: self.year, rating: self.rating }
    }

    /// Builds the watched film stored for this body under the given identifier.
    pub fn into_item(self, id: Uuid) -> (r: Film)
        ensures
            r == self.spec_into_item(id),
    {
        Film { id, tmdb: self.tmdb, title: self.title, year: self.year, rating: self.rating }
    }
}

/// Partial request body.
///
/// Absent fields are left untouched; nullable fields set to `null` are
/// cleared.
#[derive(Clone, Debug, Default)]
pub struct Patch {
    /// TMDB ID.
    pub tmdb: Option<Option<i64>>,
    /// Title.
    pub title: Option<String>,
    /// Release year.
    pub year: Option<Option<i64>>,
    /// Rating (1-5).
    pub rating: Option<Option<i64>>,
}

impl Patch {
    /// Whether no field is present.
    pub open spec fn spec_is_empty(&self) -> bool {
        &&& self.tmdb is None
        &&& self.title is None
        &&& self.year is None
        &&& self.rating is None
    }

    /// Returns `true` if no fields are present.
    pub fn is_empty(&self) -> (r: bool)
        ensures
            r == self.spec_is_empty(),
    {
        self.tmdb.is_none()
            && self.title.is_none()
            && self.year.is_none()
            && self.rating.is_none()
    }

    /// The watched film as the patch leaves it.
    pub open spec fn spec_apply(self, x: Film) -> Film {
        Film {
            id: x.id,
            tmdb: patched(self.tmdb, x.tmdb),
            title: patched(self.title, x.title),
            year: patched(self.year, x.year),
            rating: patched(self.rating, x.rating),
        }
    }

    /// Writes the present fields into the watched film.
    pub fn apply(self, film: &mut Film)
        ensures
            *final(film) == self.spec_apply(*old(film)),
    {
        if let Some(v) = self.tmdb {
            film.tmdb = v;
        }
        if let Some(v) = self.title {
            film.title = v;
        }
        if let Some(v) = self.year {
            film.year = v;
        }
        if let Some(v) = self.rating {
            film.rating = v;
        }
    }

    /// What a patch request writes over the stored watched film: nothing when no
    /// field is present, so the stored one is answered unchanged; else the
    /// watched film as the patch leaves it.
    pub fn modified(self, film: Film) -> (r: Option<Film>)
        ensures
            self.spec_is_empty() ==> r is None,
            !self.spec_is_empty() ==> r == Some(self.spec_apply(film)),
    {
        if self.is_empty() {
            None
        } else {
            let mut x = film;
            self.apply(&mut x);
            Some(x)
        }
    }
}

/// A patch leaves every absent field as it was, so an empty patch changes
/// nothing.
pub proof fn lemma_empty_patch_keeps(p: Patch, x: Film)
    requires
        p.spec_is_empty(),
    ensures
        p.spec_apply(x) == x,
{
}

/// A patch writes each field it carries (a present `null` clearing a
/// nullable field) and leaves every absent field, and the identifier, as
/// they were.
pub proof fn lemma_patch_writes_present(p: Patch, x: Film)
    ensures
        p.spec_apply(x).id == x.id,
        p.tmdb matches Some(v) ==> p.spec_apply(x).tmdb == v,
        p.tmdb is None ==> p.spec_apply(x).tmdb == x.tmdb,
        p.title matches Some(v) ==> p.spec_apply(x).title == v,
        p.title is None ==> p.spec_apply(x).title == x.title,
        p.year matches Some(v) ==> p.spec_apply(x).year == v,
        p.year is None ==> p.spec_apply(x).year == x.year,
        p.rating matches Some(v) ==> p.spec_apply(x).rating == v,
        p.rating is None ==> p.spec_apply(x).rating == x.rating,
{
}

/// The item stored for a request body carries the given identifier and
/// every field of the body; a flag the body leaves out is stored unset.
pub proof fn lemma_body_fields_kept(b: Body, id: Uuid)
    ensures
        b.spec_into_item(id).id == id,
        b.spec_into_item(id).tmdb == b.tmdb,
        b.spec_into_item(id).title == b.title,
        b.spec_into_item(id).year == b.year,
        b.spec_into_item(id).rating == b.rating,
{
}

/// A patch counts as empty exactly when it carries no field at all, so a
/// request carrying any one field is written.
pub proof fn lemma_patch_empty_iff(p: Patch)
    ensures
        p.spec_is_empty() <==> (p.tmdb is None && p.title is None && p.year is None && p.rating is None),
{
}

} // verus!
