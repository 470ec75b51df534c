//! Reading item.

use vstd::prelude::*;

use crate::item::Kind;
use crate::patch::patched;
use crate::uuid::Uuid;

verus! {

/// Reading item.
#[derive(Clone, Debug)]
pub struct Book {
    /// Unique identifier.
    pub id: Uuid,
    /// ISBN-13.
    pub isbn: Option<String>,
    /// Hardcover ID.
    pub hcid: Option<i64>,
    /// Title.
    pub title: String,
    /// Cover image URL.
    pub cover: Option<String>,
    /// Description.
    pub about: Option<String>,
    /// Accent color.
    pub color: Option<String>,
}

impl Book {
    /// Kind of every reading item.
    pub const KIND: Kind = Kind::Book;
}

/// Request body.
#[derive(Clone, Debug)]
pub struct Body {
    /// ISBN-13.
    pub isbn: Option<String>,
    /// Hardcover ID.
    pub hcid: Option<i64>,
    /// Title.
    pub title: String,
    /// Cover image URL.
    pub cover: Option<String>,
    /// Description.
    pub about: Option<String>,
    /// Accent color.
    pub color: Option<String>,
}

impl Body {
    /// The reading item that creating or replacing with this body stores under the
    /// given identifier.
    pub open spec fn spec_into_item(self, id: Uuid) -> Book {
        Book { id: id, isbn: self.isbn, hcid: self.hcid, title: self.title, cover: self.cover, about: self.about, color: self.color }
    }

    /// Builds the reading item stored for this body under the given identifier.
    pub fn into_item(self, id: Uuid) -> (r: Book)
        ensures
            r == self.spec_into_item(id),
    {
        Book { id, isbn: self.isbn, hcid: self.hcid, title: self.title, cover: self.cover, about: self.about, color: self.color }
    }
}

/// Partial request body.
///
/// Absent fields are left untouched; nullable fields set to `null` are
/// cleared.
#[derive(Clone, Debug, Default)]
pub struct Patch {
    /// ISBN-13.
    pub isbn: Option<Option<String>>,
    /// Hardcover ID.
    pub hcid: Option<Option<i64>>,
    /// Title.
    pub title: Option<String>,
    /// Cover image URL.
    pub cover: Option<Option<String>>,
    /// Description.
    pub about: Option<Option<String>>,
    /// Accent color.
    pub color: Option<Option<String>>,
}

impl Patch {
    /// Whether no field is present.
    pub open spec fn spec_is_empty(&self) -> bool {
        &&& self.isbn is None
        &&& self.hcid is None
        &&& self.title is None
        &&& self.cover is None
        &&& self.about is None
        &&& self.color is None
    }

    /// Returns `true` if no fields are present.
    pub fn is_empty(&self) -> (r: bool)
        ensures
            r == self.spec_is_empty(),
    {
        self.isbn.is_none() && self.hcid.is_none() && self.title.is_none() && self.cover.is_none()
            && self.about.is_none() && self.color.is_none()
    }

    /// The reading item as the patch leaves it.
    pub open spec fn spec_apply(self, b: Book) -> Book {
        Book {
            id: b.id,
            isbn: patched(self.isbn, b.isbn),
            hcid: patched(self.hcid, b.hcid),
            title: patched(self.title, b.title),
            cover: patched(self.cover, b.cover),
            about: patched(self.about, b.about),
            color: patched(self.color, b.color),
        }
    }

    /// Writes the present fields into the reading item.
    pub fn apply(self, book: &mut Book)
        ensures
            *final(book) == self.spec_apply(*old(book)),
    {
        if let Some(v) = self.isbn {
            book.isbn = v;
        }
        if let Some(v) = self.hcid {
            book.hcid = v;
        }
        if let Some(v) = self.title {
            book.title = v;
        }
        if let Some(v) = self.cover {
            book.cover = v;
        }
        if let Some(v) = self.about {
            book.about = v;
        }
        if let Some(v) = self.color {
            book.color = v;
        }
    }

    /// What a patch request writes over the stored reading item: nothing when no
    /// field is present, so the stored one is answered unchanged; else the
    /// reading item as the patch leaves it.
    pub fn modified(self, book: Book) -> (r: Option<Book>)
        ensures
            self.spec_is_empty() ==> r is None,
            !self.spec_is_empty() ==> r == Some(self.spec_apply(book)),
    {
        if self.is_empty() {
            None
        } else {
            let mut x = book;
            self.apply(&mut x);
            Some(x)
        }
    }
}

/// A patch leaves every absent field as it was, so an empty patch changes
/// nothing.
pub proof fn lemma_empty_patch_keeps(p: Patch, b: Book)
    requires
        p.spec_is_empty(),
    ensures
        p.spec_apply(b) == b,
{
}

/// A patch writes each field it carries (a present `null` clearing a
/// nullable field) and leaves every absent field, and the identifier, as
/// they were.
pub proof fn lemma_patch_writes_present(p: Patch, x: Book)
    ensures
        p.spec_apply(x).id == x.id,
        p.isbn matches Some(v) ==> p.spec_apply(x).isbn == v,
        p.isbn is None ==> p.spec_apply(x).isbn == x.isbn,
        p.hcid matches Some(v) ==> p.spec_apply(x).hcid == v,
        p.hcid is None ==> p.spec_apply(x).hcid == x.hcid,
        p.title matches Some(v) ==> p.spec_apply(x).title == v,
        p.title is None ==> p.spec_apply(x).title == x.title,
        p.cover matches Some(v) ==> p.spec_apply(x).cover == v,
        p.cover is None ==> p.spec_apply(x).cover == x.cover,
        p.about matches Some(v) ==> p.spec_apply(x).about == v,
        p.about is None ==> p.spec_apply(x).about == x.about,
        p.color matches Some(v) ==> p.spec_apply(x).color == v,
        p.color is None ==> p.spec_apply(x).color == x.color,
{
}

/// The item stored for a request body carries the given identifier and
/// every field of the body; a flag the body leaves out is stored unset.
pub proof fn lemma_body_fields_kept(b: Body, id: Uuid)
    ensures
        b.spec_into_item(id).id == id,
        b.spec_into_item(id).isbn == b.isbn,
        b.spec_into_item(id).hcid == b.hcid,
        b.spec_into_item(id).title == b.title,
        b.spec_into_item(id).cover == b.cover,
        b.spec_into_item(id).about == b.about,
        b.spec_into_item(id).color == b.color,
{
}

/// A patch counts as empty exactly when it carries no field at all, so a
/// request carrying any one field is written.
pub proof fn lemma_patch_empty_iff(p: Patch)
    ensures
        p.spec_is_empty() <==> (p.isbn is None && p.hcid is None && p.title is None && p.cover is None && p.about is None && p.color is None),
{
}

} // verus!
