//! Television show.

use vstd::prelude::*;

use crate::item::Kind;
use crate::uuid::Uuid;

verus! {

/// Television show.
#[derive(Clone, Debug)]
pub struct Show {
    /// Unique identifier.
    pub id: Uuid,
    /// TMDB ID.
    pub tmdb: Option<i64>,
    /// Title.
    pub title: String,
    /// First air year.
    pub year: Option<i64>,
    /// Rating (1-5).
    pub rated: Option<i64>,
}

impl Show {
    /// Kind of every television show.
    pub const KIND: Kind = Kind::Show;
}

/// Request body.
#[derive(Clone, Debug)]
pub struct Body {
    /// TMDB ID.
    pub tmdb: Option<i64>,
    /// Title.
    pub title: String,
    /// First air year.
    pub year: Option<i64>,
    /// Rating (1-5).
    pub rated: Option<i64>,
}


impl Body {
    /// The television show that creating or replacing with this body stores under the
    /// given identifier.
    pub open spec fn spec_into_item(self, id: Uuid) -> Show {
        Show { id: id, tmdb: self.tmdb, title: self.title, year: self.year, rated: self.rated }
    }

    /// Builds the television show stored for this body under the given identifier.
    pub fn into_item(self, id: Uuid) -> (r: Show)
        ensures
            r == self.spec_into_item(id),
    {
        Show { id, tmdb: self.tmdb, title: self.title, year: self.year, rated: self.rated }
    }
}

/// The item stored for a request body carries the given identifier and
/// every field of the body; a flag the body leaves out is stored unset.
pub proof fn lemma_body_fields_kept(b: Body, id: Uuid)
    ensures
        b.spec_into_item(id).id == id,
        b.spec_into_item(id).tmdb == b.tmdb,
        b.spec_into_item(id).title == b.title,
        b.spec_into_item(id).year == b.year,
        b.spec_into_item(id).rated == b.rated,
{
}

} // verus!
