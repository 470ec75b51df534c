//! Owned game release types.

use vstd::prelude::*;

use crate::patch::patched;
use crate::uuid::Uuid;

verus! {

/// Owned physical game release.
#[derive(Clone, Debug)]
pub struct Owned {
    /// Unique identifier.
    pub id: Uuid,
    /// Game reference.
    pub game: Uuid,
    /// Platform.
    pub system: Option<String>,
    /// Model name.
    pub model: Option<String>,
    /// Hardware revision.
    pub revision: Option<String>,
    /// Serial number.
    pub serial: Option<String>,
    /// Complete-in-box status.
    pub cib: i64,
}

/// Request body.
#[derive(Clone, Debug)]
pub struct Body {
    /// Game reference.
    pub game: Uuid,
    /// Platform.
    pub system: Option<String>,
    /// Model name.
    pub model: Option<String>,
    /// Hardware revision.
    pub revision: Option<String>,
    /// Serial number.
    pub serial: Option<String>,
    /// Complete-in-box status.
    pub cib: Option<i64>,
}

/// Partial request body.
///
/// Absent fields are left untouched; nullable fields set to `null` are
/// cleared.
#[derive(Clone, Debug, Default)]
pub struct Patch {
    /// Game reference.
    pub game: Option<Uuid>,
    /// Platform.
    pub system: Option<Option<String>>,
    /// Model name.
    pub model: Option<Option<String>>,
    /// Hardware revision.
    pub revision: Option<Option<String>>,
    /// Serial number.
    pub serial: Option<Option<String>>,
    /// Complete-in-box status.
    pub cib: Option<i64>,
}

impl Patch {
    /// Whether no field is present.
    pub open spec fn spec_is_empty(&self) -> bool {
        &&& self.game is None
        &&& self.system is None
        &&& self.model is None
        &&& self.revision is None
        &&& self.serial is None
        &&& self.cib is None
    }

    /// Returns `true` if no fields are present.
    pub fn is_empty(&self) -> (r: bool)
        ensures
            r == self.spec_is_empty(),
    {
        self.game.is_none()
            && self.system.is_none()
            && self.model.is_none()
            && self.revision.is_none()
            && self.serial.is_none()
            && self.cib.is_none()
    }

    /// The owned release as the patch leaves it.
    pub open spec fn spec_apply(self, x: Owned) -> Owned {
        Owned {
            id: x.id,
            game: patched(self.game, x.game),
            system: patched(self.system, x.system),
            model: patched(self.model, x.model),
            revision: patched(self.revision, x.revision),
            serial: patched(self.serial, x.serial),
            cib: patched(self.cib, x.cib),
        }
    }

    /// Writes the present fields into the owned release.
    pub fn apply(self, owned: &mut Owned)
        ensures
            *final(owned) == self.spec_apply(*old(owned)),
    {
        if let Some(v) = self.game {
            owned.game = v;
        }
        if let Some(v) = self.system {
            owned.system = v;
        }
        if let Some(v) = self.model {
            owned.model = v;
        }
        if let Some(v) = self.revision {
            owned.revision = v;
        }
        if let Some(v) = self.serial {
            owned.serial = v;
        }
        if let Some(v) = self.cib {
            owned.cib = v;
        }
    }
}

/// A patch leaves every absent field as it was, so an empty patch changes
/// nothing.
pub proof fn lemma_empty_patch_keeps(p: Patch, x: Owned)
    requires
        p.spec_is_empty(),
    ensures
        p.spec_apply(x) == x,
{
}

/// A patch writes each field it carries (a present `null` clearing a
/// nullable field) and leaves every absent field, and the identifier, as
/// they were.
pub proof fn lemma_patch_writes_present(p: Patch, x: Owned)
    ensures
        p.spec_apply(x).id == x.id,
        p.game matches Some(v) ==> p.spec_apply(x).game == v,
        p.game is None ==> p.spec_apply(x).game == x.game,
        p.system matches Some(v) ==> p.spec_apply(x).system == v,
        p.system is None ==> p.spec_apply(x).system == x.system,
        p.model matches Some(v) ==> p.spec_apply(x).model == v,
        p.model is None ==> p.spec_apply(x).model == x.model,
        p.revision matches Some(v) ==> p.spec_apply(x).revision == v,
        p.revision is None ==> p.spec_apply(x).revision == x.revision,
        p.serial matches Some(v) ==> p.spec_apply(x).serial == v,
        p.serial is None ==> p.spec_apply(x).serial == x.serial,
        p.cib matches Some(v) ==> p.spec_apply(x).cib == v,
        p.cib is None ==> p.spec_apply(x).cib == x.cib,
{
}

/// A patch counts as empty exactly when it carries no field at all, so a
/// request carrying any one field is written.
pub proof fn lemma_patch_empty_iff(p: Patch)
    ensures
        p.spec_is_empty() <==> (p.game is None && p.system is None && p.model is None && p.revision is None && p.serial is None && p.cib is None),
{
}

} // verus!
