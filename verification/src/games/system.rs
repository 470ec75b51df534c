//! Game console types.

use vstd::prelude::*;

use crate::patch::patched;
use crate::uuid::Uuid;

verus! {

/// Owned game console.
#[derive(Clone, Debug)]
pub struct System {
    /// Unique identifier.
    pub id: Uuid,
    /// Title.
    pub title: String,
    /// Platform.
    pub system: Option<String>,
    /// Model name.
    pub model: Option<String>,
    /// Hardware revision.
    pub revision: Option<String>,
    /// Serial number.
    pub serial: Option<String>,
    /// Variation.
    pub variation: Option<String>,
}

/// Request body.
#[derive(Clone, Debug)]
pub struct Body {
    /// Title.
    pub title: String,
    /// Platform.
    pub system: Option<String>,
    /// Model name.
    pub model: Option<String>,
    /// Hardware revision.
    pub revision: Option<String>,
    /// Serial number.
    pub serial: Option<String>,
    /// Variation.
    pub variation: Option<String>,
}

/// Partial request body.
///
/// Absent fields are left untouched; nullable fields set to `null` are
/// cleared.
#[derive(Clone, Debug, Default)]
pub struct Patch {
    /// Title.
    pub title: Option<String>,
    /// Platform.
    pub system: Option<Option<String>>,
    /// Model name.
    pub model: Option<Option<String>>,
    /// Hardware revision.
    pub revision: Option<Option<String>>,
    /// Serial number.
    pub serial: Option<Option<String>>,
    /// Variation.
    pub variation: Option<Option<String>>,
}

impl Patch {
    /// Whether no field is present.
    pub open spec fn spec_is_empty(&self) -> bool {
        &&& self.title is None
        &&& self.system is None
        &&& self.model is None
        &&& self.revision is None
        &&& self.serial is None
        &&& self.variation is None
    }

    /// Returns `true` if no fields are present.
    pub fn is_empty(&self) -> (r: bool)
        ensures
            r == self.spec_is_empty(),
    {
        self.title.is_none()
            && self.system.is_none()
            && self.model.is_none()
            && self.revision.is_none()
            && self.serial.is_none()
            && self.variation.is_none()
    }

    /// The game console as the patch leaves it.
    pub open spec fn spec_apply(self, x: System) -> System {
        System {
            id: x.id,
            title: patched(self.title, x.title),
            system: patched(self.system, x.system),
            model: patched(self.model, x.model),
            revision: patched(self.revision, x.revision),
            serial: patched(self.serial, x.serial),
            variation: patched(self.variation, x.variation),
        }
    }

    /// Writes the present fields into the game console.
    pub fn apply(self, system: &mut System)
        ensures
            *final(system) == self.spec_apply(*old(system)),
    {
        if let Some(v) = self.title {
            system.title = v;
        }
        if let Some(v) = self.system {
            system.system = v;
        }
        if let Some(v) = self.model {
            system.model = v;
        }
        if let Some(v) = self.revision {
            system.revision = v;
        }
        if let Some(v) = self.serial {
            system.serial = v;
        }
        if let Some(v) = self.variation {
            system.variation = v;
        }
    }
}

/// A patch leaves every absent field as it was, so an empty patch changes
/// nothing.
pub proof fn lemma_empty_patch_keeps(p: Patch, x: System)
    requires
        p.spec_is_empty(),
    ensures
        p.spec_apply(x) == x,
{
}

/// A patch writes each field it carries (a present `null` clearing a
/// nullable field) and leaves every absent field, and the identifier, as
/// they were.
pub proof fn lemma_patch_writes_present(p: Patch, x: System)
    ensures
        p.spec_apply(x).id == x.id,
        p.title matches Some(v) ==> p.spec_apply(x).title == v,
        p.title is None ==> p.spec_apply(x).title == x.title,
        p.system matches Some(v) ==> p.spec_apply(x).system == v,
        p.system is None ==> p.spec_apply(x).system == x.system,
        p.model matches Some(v) ==> p.spec_apply(x).model == v,
        p.model is None ==> p.spec_apply(x).model == x.model,
        p.revision matches Some(v) ==> p.spec_apply(x).revision == v,
        p.revision is None ==> p.spec_apply(x).revision == x.revision,
        p.serial matches Some(v) ==> p.spec_apply(x).serial == v,
        p.serial is None ==> p.spec_apply(x).serial == x.serial,
        p.variation matches Some(v) ==> p.spec_apply(x).variation == v,
        p.variation is None ==> p.spec_apply(x).variation == x.variation,
{
}

/// A patch counts as empty exactly when it carries no field at all, so a
/// request carrying any one field is written.
pub proof fn lemma_patch_empty_iff(p: Patch)
    ensures
        p.spec_is_empty() <==> (p.title is None && p.system is None && p.model is None && p.revision is None && p.serial is None && p.variation is None),
{
}

} // verus!
