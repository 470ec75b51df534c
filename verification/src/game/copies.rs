//! Owned game copy types.

use vstd::prelude::*;

use crate::game::Game;
use crate::patch::patched;
use crate::uuid::Uuid;

verus! {

/// Owned game copy.
#[derive(Clone, Debug)]
pub struct Copies {
    /// Unique identifier.
    pub id: Uuid,
    /// Title.
    pub title: Option<String>,
    /// Included games.
    pub game: Vec<Game>,
    /// Platform.
    pub system: Option<String>,
    /// Region code.
    pub region: Option<String>,
    /// Model name.
    pub model: Option<String>,
    /// Hardware revision.
    pub revision: Option<String>,
    /// Serial number.
    pub serial: Option<String>,
    /// Complete-in-box status.
    pub complete: bool,
    /// Hardware modification status.
    pub modified: bool,
}

/// Stored game copy.
#[derive(Clone, Debug)]
pub struct Row {
    /// Unique identifier.
    pub id: Uuid,
    /// Title.
    pub title: Option<String>,
    /// Platform.
    pub system: Option<String>,
    /// Region code.
    pub region: Option<String>,
    /// Model name.
    pub model: Option<String>,
    /// Hardware revision.
    pub revision: Option<String>,
    /// Serial number.
    pub serial: Option<String>,
    /// Complete-in-box status.
    pub complete: bool,
    /// Hardware modification status.
    pub modified: bool,
}

impl Row {
    /// The game copy with its game references resolved.
    pub open spec fn spec_resolve(self, game: Vec<Game>) -> Copies {
        Copies {
            id: self.id,
            title: self.title,
            game: game,
            system: self.system,
            region: self.region,
            model: self.model,
            revision: self.revision,
            serial: self.serial,
            complete: self.complete,
            modified: self.modified,
        }
    }

    /// Resolves the game references into a full game copy.
    pub fn resolve(self, game: Vec<Game>) -> (r: Copies)
        ensures
            r == self.spec_resolve(game),
    {
        Copies {
            id: self.id,
            title: self.title,
            game: game,
            system: self.system,
            region: self.region,
            model: self.model,
            revision: self.revision,
            serial: self.serial,
            complete: self.complete,
            modified: self.modified,
        }
    }
}

/// Stored game copy with its game references.
#[derive(Clone, Debug)]
pub struct Data {
    /// Copy data.
    pub row: Row,
    /// Game references.
    pub game: Vec<Uuid>,
}

/// Request body.
#[derive(Clone, Debug)]
pub struct Body {
    /// Title.
    pub title: Option<String>,
    /// Included games.
    pub game: Vec<Uuid>,
    /// Platform.
    pub system: Option<String>,
    /// Region code.
    pub region: Option<String>,
    /// Model name.
    pub model: Option<String>,
    /// Hardware revision.
    pub revision: Option<String>,
    /// Serial number.
    pub serial: Option<String>,
    /// Complete-in-box status.
    pub complete: Option<bool>,
    /// Hardware modification status.
    pub modified: Option<bool>,
}

impl Body {
    /// The stored row that creating or replacing with this body writes;
    /// absent flags are stored as `false`.
    pub open spec fn spec_into_row(self, id: Uuid) -> Row {
        Row {
            id: id,
            title: self.title,
            system: self.system,
            region: self.region,
            model: self.model,
            revision: self.revision,
            serial: self.serial,
            complete: patched(self.complete, false),
            modified: patched(self.modified, false),
        }
    }

    /// Builds the stored row written for this body under the given identifier.
    pub fn into_row(self, id: Uuid) -> (r: Row)
        ensures
            r == self.spec_into_row(id),
    {
        Row {
            id,
            title: self.title,
            system: self.system,
            region: self.region,
            model: self.model,
            revision: self.revision,
            serial: self.serial,
            complete: self.complete.unwrap_or(false),
            modified: self.modified.unwrap_or(false),
        }
    }
}

/// Partial request body.
///
/// Absent fields are left untouched; nullable fields set to `null` are
/// cleared.
#[derive(Clone, Debug, Default)]
pub struct Patch {
    /// Title.
    pub title: Option<Option<String>>,
    /// Included games.
    pub game: Option<Vec<Uuid>>,
    /// Platform.
    pub system: Option<Option<String>>,
    /// Region code.
    pub region: Option<Option<String>>,
    /// Model name.
    pub model: Option<Option<String>>,
    /// Hardware revision.
    pub revision: Option<Option<String>>,
    /// Serial number.
    pub serial: Option<Option<String>>,
    /// Complete-in-box status.
    pub complete: Option<bool>,
    /// Hardware modification status.
    pub modified: Option<bool>,
}

impl Patch {
    /// Whether any column field is present.
    pub open spec fn spec_has_columns(&self) -> bool {
        self.title is Some
            || self.system is Some
            || self.region is Some
            || self.model is Some
            || self.revision is Some
            || self.serial is Some
            || self.complete is Some
            || self.modified is Some
    }

    /// Whether no field is present.
    pub open spec fn spec_is_empty(&self) -> bool {
        self.game is None && !self.spec_has_columns()
    }

    /// Returns `true` if no fields are present.
    pub fn is_empty(&self) -> (r: bool)
        ensures
            r == self.spec_is_empty(),
    {
        self.game.is_none() && !self.has_columns()
    }

    /// Returns `true` if any column field is present.
    pub fn has_columns(&self) -> (r: bool)
        ensures
            r == self.spec_has_columns(),
    {
        self.title.is_some()
            || self.system.is_some()
            || self.region.is_some()
            || self.model.is_some()
            || self.revision.is_some()
            || self.serial.is_some()
            || self.complete.is_some()
            || self.modified.is_some()
    }

    /// The stored game copy as the patch's columns leave it.
    pub open spec fn spec_apply(self, x: Row) -> Row {
        Row {
            id: x.id,
            title: patched(self.title, x.title),
            system: patched(self.system, x.system),
            region: patched(self.region, x.region),
            model: patched(self.model, x.model),
            revision: patched(self.revision, x.revision),
            serial: patched(self.serial, x.serial),
            complete: patched(self.complete, x.complete),
            modified: patched(self.modified, x.modified),
        }
    }

    /// Writes the present column fields into the stored game copy; the game
    /// references are replaced apart from the row.
    pub fn apply(self, row: &mut Row)
        ensures
            *final(row) == self.spec_apply(*old(row)),
    {
        if let Some(v) = self.title {
            row.title = v;
        }
        if let Some(v) = self.system {
            row.system = v;
        }
        if let Some(v) = self.region {
            row.region = v;
        }
        if let Some(v) = self.model {
            row.model = v;
        }
        if let Some(v) = self.revision {
            row.revision = v;
        }
        if let Some(v) = self.serial {
            row.serial = v;
        }
        if let Some(v) = self.complete {
            row.complete = v;
        }
        if let Some(v) = self.modified {
            row.modified = v;
        }
    }
}

/// A patch leaves every absent column as it was, so a patch without
/// columns leaves the row unchanged.
pub proof fn lemma_empty_patch_keeps(p: Patch, x: Row)
    requires
        !p.spec_has_columns(),
    ensures
        p.spec_apply(x) == x,
{
}

/// A patch writes each field it carries (a present `null` clearing a
/// nullable field) and leaves every absent field, and the identifier, as
/// they were.
pub proof fn lemma_patch_writes_present(p: Patch, x: Row)
    ensures
        p.spec_apply(x).id == x.id,
        p.title matches Some(v) ==> p.spec_apply(x).title == v,
        p.title is None ==> p.spec_apply(x).title == x.title,
        p.system matches Some(v) ==> p.spec_apply(x).system == v,
        p.system is None ==> p.spec_apply(x).system == x.system,
        p.region matches Some(v) ==> p.spec_apply(x).region == v,
        p.region is None ==> p.spec_apply(x).region == x.region,
        p.model matches Some(v) ==> p.spec_apply(x).model == v,
        p.model is None ==> p.spec_apply(x).model == x.model,
        p.revision matches Some(v) ==> p.spec_apply(x).revision == v,
        p.revision is None ==> p.spec_apply(x).revision == x.revision,
        p.serial matches Some(v) ==> p.spec_apply(x).serial == v,
        p.serial is None ==> p.spec_apply(x).serial == x.serial,
        p.complete matches Some(v) ==> p.spec_apply(x).complete == v,
        p.complete is None ==> p.spec_apply(x).complete == x.complete,
        p.modified matches Some(v) ==> p.spec_apply(x).modified == v,
        p.modified is None ==> p.spec_apply(x).modified == x.modified,
{
}

/// The row stored for a request body carries the given identifier and
/// every field of the body; a flag the body leaves out is stored unset.
pub proof fn lemma_body_fields_kept(b: Body, id: Uuid)
    ensures
        b.spec_into_row(id).id == id,
        b.spec_into_row(id).title == b.title,
        b.spec_into_row(id).system == b.system,
        b.spec_into_row(id).region == b.region,
        b.spec_into_row(id).model == b.model,
        b.spec_into_row(id).revision == b.revision,
        b.spec_into_row(id).serial == b.serial,
        b.complete matches Some(v) ==> b.spec_into_row(id).complete == v,
        b.complete is None ==> !b.spec_into_row(id).complete,
        b.modified matches Some(v) ==> b.spec_into_row(id).modified == v,
        b.modified is None ==> !b.spec_into_row(id).modified,
{
}

/// A patch counts as empty exactly when it carries no field at all, so a
/// request carrying any one field is written.
pub proof fn lemma_patch_empty_iff(p: Patch)
    ensures
        p.spec_is_empty() <==> (p.title is None && p.game is None && p.system is None && p.region is None && p.model is None && p.revision is None && p.serial is None && p.complete is None && p.modified is None),
{
}

/// Resolving a row's game references keeps every field of the row and
/// carries exactly the games given for it.
pub proof fn lemma_resolve_keeps(r: Row, game: Vec<Game>)
    ensures
        r.spec_resolve(game).id == r.id,
        r.spec_resolve(game).title == r.title,
        r.spec_resolve(game).game == game,
        r.spec_resolve(game).system == r.system,
        r.spec_resolve(game).region == r.region,
        r.spec_resolve(game).model == r.model,
        r.spec_resolve(game).revision == r.revision,
        r.spec_resolve(game).serial == r.serial,
        r.spec_resolve(game).complete == r.complete,
        r.spec_resolve(game).modified == r.modified,
{
}

} // verus!
