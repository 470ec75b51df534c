//! Root listing route: every media record, whatever its kind.

use vstd::prelude::*;

use crate::text::{lemma_contains_middle, lemma_ends_with_concat, spec_contains, spec_ends_with};

use super::query::Order;
use crate::db::{labels_for, seen, spec_first_at, spec_values_for};
use crate::item::{spec_kind_parse, Kind as MediaKind};
use crate::kind::book::Book;
use crate::kind::film::Film;
use crate::kind::game::Game;
use crate::kind::link::Link;
use crate::kind::show::Show;
use crate::kind::{Kind, Meta, Record};
use crate::logs::Log;
use crate::uuid::Uuid;

verus! {

/// Sort field for all media.
#[derive(Clone, Copy, Debug, PartialEq, Eq, Structural)]
pub enum Sort {
    /// Sort by creation time.
    Created,
    /// Sort by last update time.
    Updated,
}

impl Default for Sort {
    fn default() -> (r: Sort)
        ensures
            r == Sort::Created,
    {
        Sort::Created
    }
}

/// Column a sort field orders by.
pub open spec fn spec_sort_col(s: Sort) -> Seq<char> {
    match s {
        Sort::Created => "media.created"@,
        Sort::Updated => "media.updated"@,
    }
}

impl Sort {
    /// Column the field orders by.
    pub fn as_col(self) -> (r: &'static str)
        ensures
            r@ == spec_sort_col(self),
    {
        match self {
            Sort::Created => "media.created",
            Sort::Updated => "media.updated",
        }
    }
}

/// SQL keyword of a sort direction.
pub open spec fn spec_order_str(o: Order) -> Seq<char> {
    match o {
        Order::Asc => "ASC"@,
        Order::Desc => "DESC"@,
    }
}

/// A value bound to a `?` placeholder.
pub enum Bind {
    /// A text value.
    Text(String),
    /// An integer value.
    Int(i64),
}

/// An SQL statement and the values bound to its placeholders, in order.
pub struct Statement {
    /// Statement text.
    pub sql: String,
    /// Bound values.
    pub binds: Vec<Bind>,
}

/// Query parameters for listing all media.
pub struct Params {
    /// Filter by tag.
    pub tag: Option<String>,
    /// Field to sort by.
    pub sort: Option<Sort>,
    /// Sort direction.
    pub order: Option<Order>,
    /// Maximum number of results.
    pub limit: Option<i64>,
    /// Number of results to skip.
    pub offset: Option<i64>,
}

/// Columns and joins read for every kind of media.
pub open spec fn spec_select_all() -> Seq<char> {
    "SELECT media.id, media.kind, media.created, media.updated, books.isbn, books.hcid, books.title AS book_title, books.cover, books.about, books.color, films.tmdb AS film_tmdb, films.title AS film_title, films.year AS film_year, films.rated AS film_rated, games.tgdb, games.title AS game_title, games.system, games.owned, games.rated AS game_rated, links.url, links.title AS link_title, shows.tmdb AS show_tmdb, shows.title AS show_title, shows.year AS show_year, shows.rated AS show_rated FROM media LEFT JOIN books ON books.id = media.id LEFT JOIN films ON films.id = media.id LEFT JOIN games ON games.id = media.id LEFT JOIN links ON links.id = media.id LEFT JOIN shows ON shows.id = media.id"@
}

/// The statement listing all media for the parameters.
pub open spec fn spec_list_sql(p: Params) -> Seq<char> {
    let sort = match p.sort {
        Some(s) => s,
        None => Sort::Created,
    };
    let order = match p.order {
        Some(o) => o,
        None => Order::Desc,
    };
    spec_select_all() + (if p.tag is Some {
        " WHERE EXISTS (SELECT 1 FROM tags WHERE tags.media = media.id AND tags.label = ?)"@
    } else {
        Seq::empty()
    }) + " ORDER BY "@ + spec_sort_col(sort) + " "@ + spec_order_str(order) + (if p.limit is Some {
        " LIMIT ? OFFSET ?"@
    } else {
        Seq::empty()
    })
}

impl Params {
    /// The listing statement: filtered by tag when one is given, sorted by
    /// the field and direction (creation time, descending, by default),
    /// paginated when a limit is given (offset 0 by default).
    pub fn statement(&self) -> (r: Statement)
        ensures
            r.sql@ == spec_list_sql(*self),
            r.binds@.len() == (if self.tag is Some { 1int } else { 0int }) + (if self.limit is Some {
                2int
            } else {
                0int
            }),
            self.tag matches Some(t) ==> (r.binds@[0] matches Bind::Text(b) && b == t),
            self.limit matches Some(l) ==> {
                let k = if self.tag is Some { 1int } else { 0int };
                &&& r.binds@[k] matches Bind::Int(v) && v == l
                &&& r.binds@[k + 1] matches Bind::Int(v) && v == (match self.offset {
                    Some(o) => o,
                    None => 0,
                })
            },
    {
        let sort = match self.sort {
            Some(s) => s,
            None => Sort::Created,
        };
        let order = match self.order {
            Some(o) => o,
            None => Order::Desc,
        };
        let mut sql = "SELECT media.id, media.kind, media.created, media.updated, books.isbn, books.hcid, books.title AS book_title, books.cover, books.about, books.color, films.tmdb AS film_tmdb, films.title AS film_title, films.year AS film_year, films.rated AS film_rated, games.tgdb, games.title AS game_title, games.system, games.owned, games.rated AS game_rated, links.url, links.title AS link_title, shows.tmdb AS show_tmdb, shows.title AS show_title, shows.year AS show_year, shows.rated AS show_rated FROM media LEFT JOIN books ON books.id = media.id LEFT JOIN films ON films.id = media.id LEFT JOIN games ON games.id = media.id LEFT JOIN links ON links.id = media.id LEFT JOIN shows ON shows.id = media.id".to_owned();
        let mut binds: Vec<Bind> = Vec::new();
        match &self.tag {
            Some(t) => {
                sql.append(" WHERE EXISTS (SELECT 1 FROM tags WHERE tags.media = media.id AND tags.label = ?)");
                binds.push(Bind::Text(t.clone()));
            },
            None => {},
        }
        sql.append(" ORDER BY ");
        sql.append(sort.as_col());
        sql.append(" ");
        sql.append(order.as_str());
        match self.limit {
            Some(l) => {
                sql.append(" LIMIT ? OFFSET ?");
                binds.push(Bind::Int(l));
                binds.push(Bind::Int(self.offset.unwrap_or(0)));
            },
            None => {},
        }
        proof {
            assert(sql@ =~= spec_list_sql(*self));
        }
        Statement { sql, binds }
    }
}

/// A row of the listing: the media columns, and the columns of every kind
/// table, empty where the item is of another kind.
pub struct Row {
    /// Unique identifier.
    pub id: Uuid,
    /// Stored kind name.
    pub kind: String,
    /// Created timestamp (Unix seconds).
    pub created: i64,
    /// Updated timestamp (Unix seconds).
    pub updated: i64,
    /// Book's ISBN-13.
    pub isbn: Option<String>,
    /// Book's Hardcover ID.
    pub hcid: Option<i64>,
    /// Book's title.
    pub book_title: Option<String>,
    /// Book's cover image URL.
    pub cover: Option<String>,
    /// Book's description.
    pub about: Option<String>,
    /// Book's accent color.
    pub color: Option<String>,
    /// Film's TMDB ID.
    pub film_tmdb: Option<i64>,
    /// Film's title.
    pub film_title: Option<String>,
    /// Film's release year.
    pub film_year: Option<i64>,
    /// Film's rating (1-5).
    pub film_rated: Option<i64>,
    /// Game's TGDB ID.
    pub tgdb: Option<i64>,
    /// Game's title.
    pub game_title: Option<String>,
    /// Game's platform.
    pub system: Option<String>,
    /// Game's owned copy count.
    pub owned: Option<i64>,
    /// Game's rating (1-5).
    pub game_rated: Option<i64>,
    /// Link's URL.
    pub url: Option<String>,
    /// Link's title.
    pub link_title: Option<String>,
    /// Show's TMDB ID.
    pub show_tmdb: Option<i64>,
    /// Show's title.
    pub show_title: Option<String>,
    /// Show's first air year.
    pub show_year: Option<i64>,
    /// Show's rating (1-5).
    pub show_rated: Option<i64>,
}

/// The item a listing row holds: the columns of the table its kind names,
/// or none when the kind is unknown or a required column is empty.
pub open spec fn spec_row_item(row: Row) -> Option<Kind> {
    match spec_kind_parse(row.kind@) {
        Some(MediaKind::Book) => match row.book_title {
            Some(title) => Some(Kind::Book(Book {
                id: row.id,
                isbn: row.isbn,
                hcid: row.hcid,
                title,
                cover: row.cover,
                about: row.about,
                color: row.color,
            })),
            None => None,
        },
        Some(MediaKind::Film) => match row.film_title {
            Some(title) => Some(Kind::Film(Film {
                id: row.id,
                tmdb: row.film_tmdb,
                title,
                year: row.film_year,
                rated: row.film_rated,
            })),
            None => None,
        },
        Some(MediaKind::Game) => match (row.game_title, row.owned) {
            (Some(title), Some(owned)) => Some(Kind::Game(Game {
                id: row.id,
                tgdb: row.tgdb,
                title,
                system: row.system,
                owned,
                rated: row.game_rated,
            })),
            _ => None,
        },
        Some(MediaKind::Link) => match row.url {
            Some(url) => Some(Kind::Link(Link { id: row.id, url, title: row.link_title })),
            None => None,
        },
        Some(MediaKind::Show) => match row.show_title {
            Some(title) => Some(Kind::Show(Show {
                id: row.id,
                tmdb: row.show_tmdb,
                title,
                year: row.show_year,
                rated: row.show_rated,
            })),
            None => None,
        },
        None => None,
    }
}

impl Row {
    /// The record of a listing row with its tags; `None` when the row holds
    /// no item.
    pub fn into_record(self, tags: Vec<String>) -> (r: Option<Record>)
        ensures
            match spec_row_item(self) {
                Some(item) => r matches Some(rec) && rec.item == item && rec.meta == (Meta {
                    created: self.created,
                    updated: self.updated,
                }) && rec.tags == tags,
                None => r is None,
            },
    {
        let ghost row = self;
        let item = match MediaKind::parse(self.kind.as_str()) {
            Some(MediaKind::Book) => match self.book_title {
                Some(title) => Kind::Book(Book {
                    id: self.id,
                    isbn: self.isbn,
                    hcid: self.hcid,
                    title,
                    cover: self.cover,
                    about: self.about,
                    color: self.color,
                }),
                None => return None,
            },
            Some(MediaKind::Film) => match self.film_title {
                Some(title) => Kind::Film(Film {
                    id: self.id,
                    tmdb: self.film_tmdb,
                    title,
                    year: self.film_year,
                    rated: self.film_rated,
                }),
                None => return None,
            },
            Some(MediaKind::Game) => match (self.game_title, self.owned) {
                (Some(title), Some(owned)) => Kind::Game(Game {
                    id: self.id,
                    tgdb: self.tgdb,
                    title,
                    system: self.system,
                    owned,
                    rated: self.game_rated,
                }),
                _ => return None,
            },
            Some(MediaKind::Link) => match self.url {
                Some(url) => Kind::Link(Link { id: self.id, url, title: self.link_title }),
                None => return None,
            },
            Some(MediaKind::Show) => match self.show_title {
                Some(title) => Kind::Show(Show {
                    id: self.id,
                    tmdb: self.show_tmdb,
                    title,
                    year: self.show_year,
                    rated: self.show_rated,
                }),
                None => return None,
            },
            None => return None,
        };
        Some(Record { item, meta: Meta { created: self.created, updated: self.updated }, tags })
    }
}

/// The tags given to listing row `i`: every tag of its identifier, in
/// order, for the first row with that identifier; none for a repeat.
pub open spec fn spec_row_tags(ids: Seq<Uuid>, pairs: Seq<(Uuid, String)>, i: int) -> Seq<String> {
    if spec_first_at(ids, i) {
        spec_values_for(pairs, ids[i])
    } else {
        Seq::empty()
    }
}

/// The activity logs given to listing row `i`: every log of its identifier,
/// in order, for the first row with that identifier; none for a repeat.
pub open spec fn spec_row_logs(ids: Seq<Uuid>, pairs: Seq<(Uuid, Log)>, i: int) -> Seq<Log> {
    if spec_first_at(ids, i) {
        spec_values_for(pairs, ids[i])
    } else {
        Seq::empty()
    }
}

/// The indices of the listing rows that hold an item, in order.
pub open spec fn spec_kept(rows: Seq<Row>) -> Seq<int>
    decreases rows.len(),
{
    if rows.len() == 0 {
        Seq::empty()
    } else {
        let rest = spec_kept(rows.drop_last());
        if spec_row_item(rows.last()) is Some {
            rest.push(rows.len() - 1)
        } else {
            rest
        }
    }
}

/// The records of the listing rows, in row order, each with its tags from
/// the `(media, label)` pairs; rows that hold no item are left out.
pub fn records(rows: Vec<Row>, pairs: &Vec<(Uuid, String)>) -> (r: Vec<Record>)
    ensures
        r@.len() == spec_kept(rows@).len(),
        forall|k: int|
            0 <= k < r@.len() ==> {
                let i = #[trigger] spec_kept(rows@)[k];
                &&& spec_row_item(rows@[i]) == Some(r@[k].item)
                &&& r@[k].meta == (Meta { created: rows@[i].created, updated: rows@[i].updated })
                &&& r@[k].tags@ == spec_row_tags(rows@.map_values(|x: Row| x.id), pairs@, i)
            },
{
    let ghost orig = rows@;
    let ghost ids = orig.map_values(|x: Row| x.id);
    let n = rows.len();
    let mut rows = rows;
    let mut seen_ids: Vec<Uuid> = Vec::new();
    let mut r: Vec<Record> = Vec::new();
    let mut i: usize = 0;
    while rows.len() > 0
        invariant
            n == orig.len(),
            i + rows@.len() == n,
            rows@ == orig.skip(i as int),
            ids == orig.map_values(|x: Row| x.id),
            seen_ids@ == ids.take(i as int),
            r@.len() == spec_kept(orig.take(i as int)).len(),
            forall|k: int|
                0 <= k < r@.len() ==> {
                    let j = #[trigger] spec_kept(orig.take(i as int))[k];
                    &&& spec_row_item(orig[j]) == Some(r@[k].item)
                    &&& r@[k].meta == (Meta { created: orig[j].created, updated: orig[j].updated })
                    &&& r@[k].tags@ == spec_row_tags(ids, pairs@, j)
                },
        decreases rows@.len(),
    {
        let row = rows.remove(0);
        assert(orig.skip(i as int)[0] == orig[i as int]);
        let ghost pre = orig.take(i as int);
        assert(orig.take(i + 1).drop_last() =~= pre);
        assert(orig.take(i + 1).last() == orig[i as int]);
        let id = row.id;
        assert(ids[i as int] == id);
        assert(forall|j: int| 0 <= j < i ==> ids[j] == seen_ids@[j]);
        let tags = if seen(&seen_ids, i, id) {
            Vec::new()
        } else {
            labels_for(pairs, id)
        };
        assert(tags@ == spec_row_tags(ids, pairs@, i as int));
        match row.into_record(tags) {
            Some(rec) => {
                r.push(rec);
            },
            None => {},
        }
        seen_ids.push(id);
        assert(seen_ids@ =~= ids.take(i + 1));
        i = i + 1;
        assert(rows@ =~= orig.skip(i as int));
    }
    assert(orig.take(i as int) =~= orig);
    r
}

/// Each sort field orders by its own column: titles, years and ratings by
/// the kind table's columns, creation and update times by the media row's.
pub proof fn lemma_sort_columns()
    ensures
        spec_sort_col(Sort::Created) == "media.created"@,
        spec_sort_col(Sort::Updated) == "media.updated"@,
        forall|a: Sort, b: Sort| spec_sort_col(a) == spec_sort_col(b) ==> a == b,
{
    reveal_strlit("media.created");
    reveal_strlit("media.updated");
    assert forall|a: Sort, b: Sort| spec_sort_col(a) == spec_sort_col(b) implies a == b by {
        if a != b {
            assert(spec_sort_col(a).len() != spec_sort_col(b).len() || spec_sort_col(a)[6]
                != spec_sort_col(b)[6] || spec_sort_col(a)[0] != spec_sort_col(b)[0]);
        }
    }
}

/// Ascending order is written `ASC` and descending order `DESC`.
pub proof fn lemma_order_keywords()
    ensures
        spec_order_str(Order::Asc) == "ASC"@,
        spec_order_str(Order::Desc) == "DESC"@,
{
}

/// A listing is ordered by the chosen field in the chosen direction, by
/// creation time descending when neither is given, and ends with the page
/// bounds exactly when a limit is given.
#[verifier::spinoff_prover]
#[verifier::rlimit(60)]
pub proof fn lemma_list_order(p: Params)
    ensures
        spec_ends_with(
            spec_list_sql(p),
            " ORDER BY "@ + spec_sort_col(
                match p.sort {
                    Some(s) => s,
                    None => Sort::Created,
                },
            ) + " "@ + spec_order_str(
                match p.order {
                    Some(o) => o,
                    None => Order::Desc,
                },
            ) + (if p.limit is Some {
                " LIMIT ? OFFSET ?"@
            } else {
                Seq::empty()
            }),
        ),
        p.limit is Some ==> spec_ends_with(spec_list_sql(p), " LIMIT ? OFFSET ?"@),
        p.limit is None ==> !spec_ends_with(spec_list_sql(p), " LIMIT ? OFFSET ?"@),
        p.sort is None && p.order is None && p.limit is None ==> spec_ends_with(
            spec_list_sql(p),
            " ORDER BY media.created DESC"@,
        ),
        p.sort == Some(Sort::Updated) && p.order is None && p.limit is None ==> spec_ends_with(
            spec_list_sql(p),
            " ORDER BY media.updated DESC"@,
        ),
        p.sort == Some(Sort::Created) && p.order == Some(Order::Asc) && p.limit is None
            ==> spec_ends_with(spec_list_sql(p), " ORDER BY media.created ASC"@),
{
    let sort = match p.sort {
        Some(s) => s,
        None => Sort::Created,
    };
    let order = match p.order {
        Some(o) => o,
        None => Order::Desc,
    };
    let lim = if p.limit is Some {
        " LIMIT ? OFFSET ?"@
    } else {
        Seq::<char>::empty()
    };
    let head = spec_select_all() + (if p.tag is Some {
        " WHERE EXISTS (SELECT 1 FROM tags WHERE tags.media = media.id AND tags.label = ?)"@
    } else {
        Seq::empty()
    });
    let mid = " ORDER BY "@ + spec_sort_col(sort) + " "@ + spec_order_str(order);
    assert(spec_list_sql(p) =~= head + (mid + lim));
    lemma_ends_with_concat(head, mid + lim);
    assert(spec_list_sql(p) =~= (head + mid) + lim);
    lemma_ends_with_concat(head + mid, lim);
    lemma_sort_columns();
    reveal_strlit(" ORDER BY ");
    reveal_strlit(" ");
    reveal_strlit("ASC");
    reveal_strlit("DESC");
    reveal_strlit(" LIMIT ? OFFSET ?");
    reveal_strlit(" ORDER BY media.created DESC");
    reveal_strlit(" ORDER BY media.updated DESC");
    reveal_strlit(" ORDER BY media.created ASC");
    reveal_strlit("media.created");
    reveal_strlit("media.updated");
    if p.limit is None {
        let s = spec_list_sql(p);
        assert(spec_order_str(order).len() >= 3);
        assert(s.len() >= mid.len());
        if spec_ends_with(s, " LIMIT ? OFFSET ?"@) {
            let t = " LIMIT ? OFFSET ?"@;
            assert(t.len() == 17 && t[16] == '?');
            assert(s.subrange(s.len() - 17, s.len() as int)[16] == s[s.len() - 1]);
            assert(s[s.len() - 1] == '?');
            assert(s[s.len() - 1] == spec_order_str(order)[spec_order_str(order).len() - 1]);
        }
    }
    if p.sort is None && p.order is None && p.limit is None {
        assert(mid + lim =~= " ORDER BY media.created DESC"@);
    }
    if p.sort == Some(Sort::Updated) && p.order is None && p.limit is None {
        assert(mid + lim =~= " ORDER BY media.updated DESC"@);
    }
    if p.sort == Some(Sort::Created) && p.order == Some(Order::Asc) && p.limit is None {
        assert(mid + lim =~= " ORDER BY media.created ASC"@);
    }
}

/// A tag filter keeps the media carrying the tag: given, it adds its
/// condition to the statement; absent, the statement has no `WHERE` clause
/// before its ordering.
#[verifier::spinoff_prover]
#[verifier::rlimit(60)]
pub proof fn lemma_list_filters(p: Params)
    ensures
        p.tag is Some ==> spec_contains(
            spec_list_sql(p),
            " WHERE EXISTS (SELECT 1 FROM tags WHERE tags.media = media.id AND tags.label = ?)"@,
        ),
        p.tag is None ==> spec_list_sql(p) == spec_select_all() + " ORDER BY "@ + spec_sort_col(
            match p.sort {
                Some(s) => s,
                None => Sort::Created,
            },
        ) + " "@ + spec_order_str(
            match p.order {
                Some(o) => o,
                None => Order::Desc,
            },
        ) + (if p.limit is Some {
            " LIMIT ? OFFSET ?"@
        } else {
            Seq::empty()
        }),
{
    let sort = match p.sort {
        Some(s) => s,
        None => Sort::Created,
    };
    let order = match p.order {
        Some(o) => o,
        None => Order::Desc,
    };
    let lim = if p.limit is Some {
        " LIMIT ? OFFSET ?"@
    } else {
        Seq::<char>::empty()
    };
    let rest = " ORDER BY "@ + spec_sort_col(sort) + " "@ + spec_order_str(order) + lim;
    let g = " WHERE EXISTS (SELECT 1 FROM tags WHERE tags.media = media.id AND tags.label = ?)"@;
    if p.tag is Some {
        assert(spec_list_sql(p) =~= spec_select_all() + g + rest);
        lemma_contains_middle(spec_select_all(), g, rest);
    } else {
        assert(spec_list_sql(p) =~= spec_select_all() + rest);
    }
}

/// The listing keeps, in row order, exactly the rows whose kind is known and
/// whose item row is present.
pub proof fn lemma_kept(rows: Seq<Row>)
    ensures
        forall|k: int|
            0 <= k < spec_kept(rows).len() ==> {
                let i = #[trigger] spec_kept(rows)[k];
                0 <= i < rows.len() && spec_row_item(rows[i]) is Some
            },
        forall|a: int, b: int|
            0 <= a < b < spec_kept(rows).len() ==> spec_kept(rows)[a] < spec_kept(rows)[b],
        forall|i: int|
            0 <= i < rows.len() && spec_row_item(rows[i]) is Some ==> #[trigger] spec_kept(
                rows,
            ).contains(i),
    decreases rows.len(),
{
    if rows.len() > 0 {
        let t = rows.drop_last();
        let n = rows.len() - 1;
        lemma_kept(t);
        let st = spec_kept(t);
        let sel = spec_kept(rows);
        assert forall|k: int| 0 <= k < sel.len() implies {
            let i = #[trigger] sel[k];
            0 <= i < rows.len() && spec_row_item(rows[i]) is Some
        } by {
            if k < st.len() {
                assert(sel[k] == st[k]);
                assert(rows[st[k]] == t[st[k]]);
            }
        }
        assert forall|a: int, b: int| 0 <= a < b < sel.len() implies sel[a] < sel[b] by {
            if b < st.len() {
                assert(sel[a] == st[a] && sel[b] == st[b]);
            } else {
                assert(sel[a] == st[a]);
            }
        }
        assert forall|i: int|
            0 <= i < rows.len() && spec_row_item(rows[i]) is Some implies #[trigger] sel.contains(i) by {
            if i < n {
                assert(rows[i] == t[i]);
                assert(st.contains(i));
                let k = choose|k: int| 0 <= k < st.len() && st[k] == i;
                assert(sel[k] == i);
            } else {
                assert(sel[sel.len() - 1] == i);
            }
        }
    }
}

} // verus!
