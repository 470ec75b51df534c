//! Web bookmark.

use vstd::prelude::*;

use crate::item::Kind;
use crate::patch::patched;
use crate::uuid::Uuid;

verus! {

/// Web bookmark.
#[derive(Clone, Debug)]
pub struct Link {
    /// Unique identifier.
    pub id: Uuid,
    /// URL.
    pub url: String,
    /// Title.
    pub title: Option<String>,
}

impl Link {
    /// Kind of every web bookmark.
    pub const KIND: Kind = Kind::Link;
}

/// Request body.
#[derive(Clone, Debug)]
pub struct Body {
    /// URL.
    pub url: String,
    /// Title.
    pub title: Option<String>,
}

impl Body {
    /// The web bookmark that creating or replacing with this body stores under the
    /// given identifier.
    pub open spec fn spec_into_item(self, id: Uuid) -> Link {
        Link { id: id, url: self.url, title: self.title }
    }

    /// Builds the web bookmark stored for this body under the given identifier.
    pub fn into_item(self, id: Uuid) -> (r: Link)
        ensures
            r == self.spec_into_item(id),
    {
        Link { id, url: self.url, title: self.title }
    }
}

/// Partial request body.
///
/// Absent fields are left untouched; nullable fields set to `null` are
/// cleared.
#[derive(Clone, Debug, Default)]
pub struct Patch {
    /// URL.
    pub url: Option<String>,
    /// Title.
    pub title: Option<Option<String>>,
}

impl Patch {
    /// Whether no field is present.
    pub open spec fn spec_is_empty(&self) -> bool {
        &&& self.url is None
        &&& self.title is None
    }

    /// Returns `true` if no fields are present.
    pub fn is_empty(&self) -> (r: bool)
        ensures
            r == self.spec_is_empty(),
    {
        self.url.is_none()
            && self.title.is_none()
    }

    /// The web bookmark as the patch leaves it.
    pub open spec fn spec_apply(self, x: Link) -> Link {
        Link {
            id: x.id,
            url: patched(self.url, x.url),
            title: patched(self.title, x.title),
        }
    }

    /// Writes the present fields into the web bookmark.
    pub fn apply(self, link: &mut Link)
        ensures
            *final(link) == self.spec_apply(*old(link)),
    {
        if let Some(v) = self.url {
            link.url = v;
        }
        if let Some(v) = self.title {
            link.title = v;
        }
    }

    /// What a patch request writes over the stored web bookmark: nothing when no
    /// field is present, so the stored one is answered unchanged; else the
    /// web bookmark as the patch leaves it.
    pub fn modified(self, link: Link) -> (r: Option<Link>)
        ensures
            self.spec_is_empty() ==> r is None,
            !self.spec_is_empty() ==> r == Some(self.spec_apply(link)),
    {
        if self.is_empty() {
            None
        } else {
            let mut x = link;
            self.apply(&mut x);
            Some(x)
        }
    }
}

/// A patch leaves every absent field as it was, so an empty patch changes
/// nothing.
pub proof fn lemma_empty_patch_keeps(p: Patch, x: Link)
    requires
        p.spec_is_empty(),
    ensures
        p.spec_apply(x) == x,
{
}

/// A patch writes each field it carries (a present `null` clearing a
/// nullable field) and leaves every absent field, and the identifier, as
/// they were.
pub proof fn lemma_patch_writes_present(p: Patch, x: Link)
    ensures
        p.spec_apply(x).id == x.id,
        p.url matches Some(v) ==> p.spec_apply(x).url == v,
        p.url is None ==> p.spec_apply(x).url == x.url,
        p.title matches Some(v) ==> p.spec_apply(x).title == v,
        p.title is None ==> p.spec_apply(x).title == x.title,
{
}

/// The item stored for a request body carries the given identifier and
/// every field of the body; a flag the body leaves out is stored unset.
pub proof fn lemma_body_fields_kept(b: Body, id: Uuid)
    ensures
        b.spec_into_item(id).id == id,
        b.spec_into_item(id).url == b.url,
        b.spec_into_item(id).title == b.title,
{
}

/// A patch counts as empty exactly when it carries no field at all, so a
/// request carrying any one field is written.
pub proof fn lemma_patch_empty_iff(p: Patch)
    ensures
        p.spec_is_empty() <==> (p.url is None && p.title is None),
{
}

} // verus!
