//! Game accessory types.

use vstd::prelude::*;

use crate::patch::patched;
use crate::uuid::Uuid;

verus! {

/// Game accessory.
#[derive(Clone, Debug)]
pub struct Extras {
    /// Unique identifier.
    pub id: Uuid,
    /// Title.
    pub title: String,
    /// Platform.
    pub system: Option<String>,
    /// Region code.
    pub region: Option<String>,
    /// Model name.
    pub model: Option<String>,
    /// Hardware revision.
    pub revision: Option<String>,
    /// Serial number.
    pub serial: Option<String>,
    /// Variant.
    pub variant: Option<String>,
    /// Complete-in-box status.
    pub complete: bool,
    /// Hardware modification status.
    pub modified: bool,
}

/// Stored game accessory with its game references.
#[derive(Clone, Debug)]
pub struct Data {
    /// Accessory data.
    pub row: Extras,
    /// Game references.
    pub game: Vec<Uuid>,
}

/// Request body.
#[derive(Clone, Debug)]
pub struct Body {
    /// Title.
    pub title: String,
    /// Platform.
    pub system: Option<String>,
    /// Region code.
    pub region: Option<String>,
    /// Model name.
    pub model: Option<String>,
    /// Hardware revision.
    pub revision: Option<String>,
    /// Serial number.
    pub serial: Option<String>,
    /// Variant.
    pub variant: Option<String>,
    /// Complete-in-box status.
    pub complete: Option<bool>,
    /// Hardware modification status.
    pub modified: Option<bool>,
}

impl Body {
    /// The stored row that creating or replacing with this body writes;
    /// absent flags are stored as `false`.
    pub open spec fn spec_into_row(self, id: Uuid) -> Extras {
        Extras {
            id: id,
            title: self.title,
            system: self.system,
            region: self.region,
            model: self.model,
            revision: self.revision,
            serial: self.serial,
            variant: self.variant,
            complete: patched(self.complete, false),
            modified: patched(self.modified, false),
        }
    }

    /// Builds the stored row written for this body under the given identifier.
    pub fn into_row(self, id: Uuid) -> (r: Extras)
        ensures
            r == self.spec_into_row(id),
    {
        Extras {
            id,
            title: self.title,
            system: self.system,
            region: self.region,
            model: self.model,
            revision: self.revision,
            serial: self.serial,
            variant: self.variant,
            complete: self.complete.unwrap_or(false),
            modified: self.modified.unwrap_or(false),
        }
    }
}

/// Partial request body.
///
/// Absent fields are left untouched; nullable fields set to `null` are
/// cleared.
#[derive(Clone, Debug, Default)]
pub struct Patch {
    /// Title.
    pub title: Option<String>,
    /// Platform.
    pub system: Option<Option<String>>,
    /// Region code.
    pub region: Option<Option<String>>,
    /// Model name.
    pub model: Option<Option<String>>,
    /// Hardware revision.
    pub revision: Option<Option<String>>,
    /// Serial number.
    pub serial: Option<Option<String>>,
    /// Variant.
    pub variant: Option<Option<String>>,
    /// Complete-in-box status.
    pub complete: Option<bool>,
    /// Hardware modification status.
    pub modified: Option<bool>,
}

impl Patch {
    /// Whether no field is present.
    pub open spec fn spec_is_empty(&self) -> bool {
        &&& self.title is None
        &&& self.system is None
        &&& self.region is None
        &&& self.model is None
        &&& self.revision is None
        &&& self.serial is None
        &&& self.variant is None
        &&& self.complete is None
        &&& self.modified is None
    }

    /// Returns `true` if no fields are present.
    pub fn is_empty(&self) -> (r: bool)
        ensures
            r == self.spec_is_empty(),
    {
        self.title.is_none()
            && self.system.is_none()
            && self.region.is_none()
            && self.model.is_none()
            && self.revision.is_none()
            && self.serial.is_none()
            && self.variant.is_none()
            && self.complete.is_none()
            && self.modified.is_none()
    }

    /// The game accessory as the patch leaves it.
    pub open spec fn spec_apply(self, x: Extras) -> Extras {
        Extras {
            id: x.id,
            title: patched(self.title, x.title),
            system: patched(self.system, x.system),
            region: patched(self.region, x.region),
            model: patched(self.model, x.model),
            revision: patched(self.revision, x.revision),
            serial: patched(self.serial, x.serial),
            variant: patched(self.variant, x.variant),
            complete: patched(self.complete, x.complete),
            modified: patched(self.modified, x.modified),
        }
    }

    /// Writes the present fields into the game accessory.
    pub fn apply(self, extras: &mut Extras)
        ensures
            *final(extras) == self.spec_apply(*old(extras)),
    {
        if let Some(v) = self.title {
            extras.title = v;
        }
        if let Some(v) = self.system {
            extras.system = v;
        }
        if let Some(v) = self.region {
            extras.region = v;
        }
        if let Some(v) = self.model {
            extras.model = v;
        }
        if let Some(v) = self.revision {
            extras.revision = v;
        }
        if let Some(v) = self.serial {
            extras.serial = v;
        }
        if let Some(v) = self.variant {
            extras.variant = v;
        }
        if let Some(v) = self.complete {
            extras.complete = v;
        }
        if let Some(v) = self.modified {
            extras.modified = v;
        }
    }
}

/// A patch leaves every absent field as it was, so an empty patch changes
/// nothing.
pub proof fn lemma_empty_patch_keeps(p: Patch, x: Extras)
    requires
        p.spec_is_empty(),
    ensures
        p.spec_apply(x) == x,
{
}

/// A patch writes each field it carries (a present `null` clearing a
/// nullable field) and leaves every absent field, and the identifier, as
/// they were.
pub proof fn lemma_patch_writes_present(p: Patch, x: Extras)
    ensures
        p.spec_apply(x).id == x.id,
        p.title matches Some(v) ==> p.spec_apply(x).title == v,
        p.title is None ==> p.spec_apply(x).title == x.title,
        p.system matches Some(v) ==> p.spec_apply(x).system == v,
        p.system is None ==> p.spec_apply(x).system == x.system,
        p.region matches Some(v) ==> p.spec_apply(x).region == v,
        p.region is None ==> p.spec_apply(x).region == x.region,
        p.model matches Some(v) ==> p.spec_apply(x).model == v,
        p.model is None ==> p.spec_apply(x).model == x.model,
        p.revision matches Some(v) ==> p.spec_apply(x).revision == v,
        p.revision is None ==> p.spec_apply(x).revision == x.revision,
        p.serial matches Some(v) ==> p.spec_apply(x).serial == v,
        p.serial is None ==> p.spec_apply(x).serial == x.serial,
        p.variant matches Some(v) ==> p.spec_apply(x).variant == v,
        p.variant is None ==> p.spec_apply(x).variant == x.variant,
        p.complete matches Some(v) ==> p.spec_apply(x).complete == v,
        p.complete is None ==> p.spec_apply(x).complete == x.complete,
        p.modified matches Some(v) ==> p.spec_apply(x).modified == v,
        p.modified is None ==> p.spec_apply(x).modified == x.modified,
{
}

/// The row stored for a request body carries the given identifier and
/// every field of the body; a flag the body leaves out is stored unset.
pub proof fn lemma_body_fields_kept(b: Body, id: Uuid)
    ensures
        b.spec_into_row(id).id == id,
        b.spec_into_row(id).title == b.title,
        b.spec_into_row(id).system == b.system,
        b.spec_into_row(id).region == b.region,
        b.spec_into_row(id).model == b.model,
        b.spec_into_row(id).revision == b.revision,
        b.spec_into_row(id).serial == b.serial,
        b.spec_into_row(id).variant == b.variant,
        b.complete matches Some(v) ==> b.spec_into_row(id).complete == v,
        b.complete is None ==> !b.spec_into_row(id).complete,
        b.modified matches Some(v) ==> b.spec_into_row(id).modified == v,
        b.modified is None ==> !b.spec_into_row(id).modified,
{
}

/// A patch counts as empty exactly when it carries no field at all, so a
/// request carrying any one field is written.
pub proof fn lemma_patch_empty_iff(p: Patch)
    ensures
        p.spec_is_empty() <==> (p.title is None && p.system is None && p.region is None && p.model is None && p.revision is None && p.serial is None && p.variant is None && p.complete is None && p.modified is None),
{
}

} // verus!
