//! Video game.

pub mod copies;
pub mod extras;
pub mod owned;
pub mod systems;

use vstd::prelude::*;

use crate::item::Kind;
use crate::patch::patched;
use crate::uuid::Uuid;

verus! {

/// Video game.
#[derive(Clone, Debug)]
pub struct Game {
    /// Unique identifier.
    pub id: Uuid,
    /// Title.
    pub title: String,
    /// Platform.
    pub system: Option<String>,
    /// Rating (1-5).
    pub rating: Option<i64>,
}

impl Game {
    /// Kind of every video game.
    pub const KIND: Kind = Kind::Game;
}

/// Request body.
#[derive(Clone, Debug)]
pub struct Body {
    /// Title.
    pub title: String,
    /// Platform.
    pub system: Option<String>,
    /// Rating (1-5).
    pub rating: Option<i64>,
}

impl Body {
    /// The video game that creating or replacing with this body stores under the
    /// given identifier.
    pub open spec fn spec_into_item(self, id: Uuid) -> Game {
        Game { id: id, title: self.title, system: self.system, rating: self.rating }
    }

    /// Builds the video game stored for this body under the given identifier.
    pub fn into_item(self, id: Uuid) -> (r: Game)
        ensures
            r == self.spec_into_item(id),
    {
        Game { id, title: self.title, system: self.system, rating: self.rating }
    }
}

/// Partial request body.
///
/// Absent fields are left untouched; nullable fields set to `null` are
/// cleared.
#[derive(Clone, Debug, Default)]
pub struct Patch {
    /// Title.
    pub title: Option<String>,
    /// Platform.
    pub system: Option<Option<String>>,
    /// Rating (1-5).
    pub rating: Option<Option<i64>>,
}

impl Patch {
    /// Whether no field is present.
    pub open spec fn spec_is_empty(&self) -> bool {
        &&& self.title is None
        &&& self.system is None
        &&& self.rating is None
    }

    /// Returns `true` if no fields are present.
    pub fn is_empty(&self) -> (r: bool)
        ensures
            r == self.spec_is_empty(),
    {
        self.title.is_none()
            && self.system.is_none()
            && self.rating.is_none()
    }

    /// The video game as the patch leaves it.
    pub open spec fn spec_apply(self, x: Game) -> Game {
        Game {
            id: x.id,
            title: patched(self.title, x.title),
            system: patched(self.system, x.system),
            rating: patched(self.rating, x.rating),
        }
    }

    /// Writes the present fields into the video game.
    pub fn apply(self, game: &mut Game)
        ensures
            *final(game) == self.spec_apply(*old(game)),
    {
        if let Some(v) = self.title {
            game.title = v;
        }
        if let Some(v) = self.system {
            game.system = v;
        }
        if let Some(v) = self.rating {
            game.rating = v;
        }
    }

    /// What a patch request writes over the stored video game: nothing when no
    /// field is present, so the stored one is answered unchanged; else the
    /// video game as the patch leaves it.
    pub fn modified(self, game: Game) -> (r: Option<Game>)
        ensures
            self.spec_is_empty() ==> r is None,
            !self.spec_is_empty() ==> r == Some(self.spec_apply(game)),
    {
        if self.is_empty() {
            None
        } else {
            let mut x = game;
            self.apply(&mut x);
            Some(x)
        }
    }
}

/// A patch leaves every absent field as it was, so an empty patch changes
/// nothing.
pub proof fn lemma_empty_patch_keeps(p: Patch, x: Game)
    requires
        p.spec_is_empty(),
    ensures
        p.spec_apply(x) == x,
{
}

/// A patch writes each field it carries (a present `null` clearing a
/// nullable field) and leaves every absent field, and the identifier, as
/// they were.
pub proof fn lemma_patch_writes_present(p: Patch, x: Game)
    ensures
        p.spec_apply(x).id == x.id,
        p.title matches Some(v) ==> p.spec_apply(x).title == v,
        p.title is None ==> p.spec_apply(x).title == x.title,
        p.system matches Some(v) ==> p.spec_apply(x).system == v,
        p.system is None ==> p.spec_apply(x).system == x.system,
        p.rating matches Some(v) ==> p.spec_apply(x).rating == v,
        p.rating is None ==> p.spec_apply(x).rating == x.rating,
{
}

/// The item stored for a request body carries the given identifier and
/// every field of the body; a flag the body leaves out is stored unset.
pub proof fn lemma_body_fields_kept(b: Body, id: Uuid)
    ensures
        b.spec_into_item(id).id == id,
        b.spec_into_item(id).title == b.title,
        b.spec_into_item(id).system == b.system,
        b.spec_into_item(id).rating == b.rating,
{
}

/// A patch counts as empty exactly when it carries no field at all, so a
/// request carrying any one field is written.
pub proof fn lemma_patch_empty_iff(p: Patch)
    ensures
        p.spec_is_empty() <==> (p.title is None && p.system is None && p.rating is None),
{
}

} // verus!
