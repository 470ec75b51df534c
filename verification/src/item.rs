//! Media types.

use vstd::prelude::*;

use crate::book::Book;
use crate::film::Film;
use crate::game::Game;
use crate::link::Link;
use crate::logs::Log;
use crate::show::Show;
use crate::text::{clone_opt, str_eq};
use crate::uuid::Uuid;

verus! {

/// Media kind.
#[derive(Clone, Copy, Debug, PartialEq, Eq, Structural)]
pub enum Kind {
    /// Reading item.
    Book,
    /// Watched film.
    Film,
    /// Video game.
    Game,
    /// Web bookmark.
    Link,
    /// Television show.
    Show,
}

/// Name of a kind as stored in the `kind` column: its lowercase name.
pub open spec fn spec_kind_str(k: Kind) -> Seq<char> {
    match k {
        Kind::Book => "book"@,
        Kind::Film => "film"@,
        Kind::Game => "game"@,
        Kind::Link => "link"@,
        Kind::Show => "show"@,
    }
}

/// Kind named by a stored `kind` value, if any.
pub open spec fn spec_kind_parse(s: Seq<char>) -> Option<Kind> {
    if s == "book"@ {
        Some(Kind::Book)
    } else if s == "film"@ {
        Some(Kind::Film)
    } else if s == "game"@ {
        Some(Kind::Game)
    } else if s == "link"@ {
        Some(Kind::Link)
    } else if s == "show"@ {
        Some(Kind::Show)
    } else {
        None
    }
}

impl Kind {
    /// Lowercase name of the kind, as stored and as displayed.
    pub fn as_str(&self) -> (r: &'static str)
        ensures
            r@ == spec_kind_str(*self),
    {
        match self {
            Kind::Book => "book",
            Kind::Film => "film",
            Kind::Game => "game",
            Kind::Link => "link",
            Kind::Show => "show",
        }
    }

    /// Kind named by a stored value; `None` for any other text.
    pub fn parse(s: &str) -> (r: Option<Kind>)
        ensures
            r == spec_kind_parse(s@),
    {
        if str_eq(s, "book") {
            Some(Kind::Book)
        } else if str_eq(s, "film") {
            Some(Kind::Film)
        } else if str_eq(s, "game") {
            Some(Kind::Game)
        } else if str_eq(s, "link") {
            Some(Kind::Link)
        } else if str_eq(s, "show") {
            Some(Kind::Show)
        } else {
            None
        }
    }
}

/// Reading a stored kind name gives back the kind, and no two kinds share a
/// name.
pub proof fn lemma_kind_round_trip(k: Kind, s: Seq<char>)
    ensures
        spec_kind_parse(spec_kind_str(k)) == Some(k),
        spec_kind_parse(s) == Some(k) ==> s == spec_kind_str(k),
{
    reveal_strlit("book");
    reveal_strlit("film");
    reveal_strlit("game");
    reveal_strlit("link");
    reveal_strlit("show");
    assert("book"@[0] == 'b' && "film"@[0] == 'f' && "game"@[0] == 'g' && "link"@[0] == 'l'
        && "show"@[0] == 's');
}

/// Media item.
#[derive(Clone, Debug)]
pub enum Item {
    /// Reading item.
    Book(Book),
    /// Watched film.
    Film(Film),
    /// Video game.
    Game(Game),
    /// Web bookmark.
    Link(Link),
    /// Television show.
    Show(Show),
}

impl Item {
    /// Kind of an item.
    pub open spec fn spec_kind(&self) -> Kind {
        match self {
            Item::Book(_) => Kind::Book,
            Item::Film(_) => Kind::Film,
            Item::Game(_) => Kind::Game,
            Item::Link(_) => Kind::Link,
            Item::Show(_) => Kind::Show,
        }
    }

    /// Identifier of an item.
    pub open spec fn spec_id(&self) -> Uuid {
        match self {
            Item::Book(b) => b.id,
            Item::Film(f) => f.id,
            Item::Game(g) => g.id,
            Item::Link(l) => l.id,
            Item::Show(s) => s.id,
        }
    }

    /// Returns the kind discriminant for this item.
    pub fn kind(&self) -> (r: Kind)
        ensures
            r == self.spec_kind(),
    {
        match self {
            Item::Book(_) => Kind::Book,
            Item::Film(_) => Kind::Film,
            Item::Game(_) => Kind::Game,
            Item::Link(_) => Kind::Link,
            Item::Show(_) => Kind::Show,
        }
    }

    /// Returns the identifier of this item.
    pub fn id(&self) -> (r: Uuid)
        ensures
            r == self.spec_id(),
    {
        match self {
            Item::Book(b) => b.id,
            Item::Film(f) => f.id,
            Item::Game(g) => g.id,
            Item::Link(l) => l.id,
            Item::Show(s) => s.id,
        }
    }
}

/// Item metadata.
#[derive(Clone, Copy, Debug)]
pub struct Meta {
    /// Created timestamp (Unix seconds).
    pub created: i64,
    /// Updated timestamp (Unix seconds).
    pub updated: i64,
}

/// Media record.
#[derive(Clone, Debug)]
pub struct Record<T> {
    /// Item data with kind discriminant.
    pub item: T,
    /// Item metadata.
    pub meta: Meta,
    /// Activity logs, oldest first.
    pub logs: Vec<Log>,
    /// Applied tags.
    pub tags: Vec<String>,
}

/// A copy of an item.
pub(crate) fn duplicate_item(x: &Item) -> (r: Item)
    ensures
        r == *x,
{
    match x {
        Item::Book(b) => Item::Book(Book {
            id: b.id,
            isbn: clone_opt(&b.isbn),
            hcid: b.hcid,
            title: b.title.clone(),
            cover: clone_opt(&b.cover),
            about: clone_opt(&b.about),
            color: clone_opt(&b.color),
        }),
        Item::Film(f) => Item::Film(Film {
            id: f.id,
            tmdb: f.tmdb,
            title: f.title.clone(),
            year: f.year,
            rating: f.rating,
        }),
        Item::Game(g) => Item::Game(Game {
            id: g.id,
            title: g.title.clone(),
            system: clone_opt(&g.system),
            rating: g.rating,
        }),
        Item::Link(l) => Item::Link(Link { id: l.id, url: l.url.clone(), title: clone_opt(&l.title) }),
        Item::Show(x) => Item::Show(Show {
            id: x.id,
            tmdb: x.tmdb,
            title: x.title.clone(),
            year: x.year,
            rated: x.rated,
        }),
    }
}

/// Each kind is stored under its lowercase name.
pub proof fn lemma_kind_names()
    ensures
        spec_kind_str(Kind::Book) == "book"@,
        spec_kind_str(Kind::Film) == "film"@,
        spec_kind_str(Kind::Game) == "game"@,
        spec_kind_str(Kind::Link) == "link"@,
        spec_kind_str(Kind::Show) == "show"@,
        spec_kind_parse("book"@) == Some(Kind::Book),
        spec_kind_parse("film"@) == Some(Kind::Film),
        spec_kind_parse("game"@) == Some(Kind::Game),
        spec_kind_parse("link"@) == Some(Kind::Link),
        spec_kind_parse("show"@) == Some(Kind::Show),
{
    lemma_kind_round_trip(Kind::Book, "book"@);
    lemma_kind_round_trip(Kind::Film, "film"@);
    lemma_kind_round_trip(Kind::Game, "game"@);
    lemma_kind_round_trip(Kind::Link, "link"@);
    lemma_kind_round_trip(Kind::Show, "show"@);
}

} // verus!
