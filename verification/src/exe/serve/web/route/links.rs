//! Link listing route.

use vstd::prelude::*;

use crate::text::{lemma_contains_middle, lemma_ends_with_concat, spec_contains, spec_ends_with};

use super::all::{spec_order_str, spec_row_logs, spec_row_tags, Bind, Statement};
use super::query::Order;
use crate::db::{labels_for, seen, values_for};
use crate::link::Link;
use crate::item::{Item, Meta, Record};
use crate::logs::Log;
use crate::uuid::Uuid;

verus! {

/// Sort field for links.
#[derive(Clone, Copy, Debug, PartialEq, Eq, Structural)]
pub enum Sort {
    /// Sort by title.
    Title,
    /// Sort by creation time.
    Created,
    /// Sort by last update time.
    Updated,
}

impl Default for Sort {
    fn default() -> (r: Sort)
        ensures
            r == Sort::Created,
    {
        Sort::Created
    }
}

/// Column a sort field orders by.
pub open spec fn spec_sort_col(s: Sort) -> Seq<char> {
    match s {
        Sort::Title => "links.title"@,
        Sort::Created => "media.created"@,
        Sort::Updated => "media.updated"@,
    }
}

impl Sort {
    /// Column the field orders by.
    pub fn as_col(self) -> (r: &'static str)
        ensures
            r@ == spec_sort_col(self),
    {
        match self {
            Sort::Title => "links.title",
            Sort::Created => "media.created",
            Sort::Updated => "media.updated",
        }
    }
}

/// Query parameters for listing links.
pub struct Params {
    /// Search title (case-insensitive substring).
    pub q: Option<String>,
    /// Filter by tag.
    pub tag: Option<String>,
    /// Field to sort by.
    pub sort: Option<Sort>,
    /// Sort direction.
    pub order: Option<Order>,
    /// Maximum number of results.
    pub limit: Option<i64>,
    /// Number of results to skip.
    pub offset: Option<i64>,
}

/// Condition of the title search.
pub open spec fn spec_title_cond() -> Seq<char> {
    "links.title LIKE '%' || ? || '%'"@
}

/// Condition of the tag filter.
pub open spec fn spec_tag_cond() -> Seq<char> {
    "EXISTS (SELECT 1 FROM tags WHERE tags.media = links.id AND tags.label = ?)"@
}

/// The `WHERE` clause: the present conditions joined by `AND`.
pub open spec fn spec_where(q: bool, tag: bool) -> Seq<char> {
    if q && tag {
        " WHERE "@ + spec_title_cond() + " AND "@ + spec_tag_cond()
    } else if q {
        " WHERE "@ + spec_title_cond()
    } else if tag {
        " WHERE "@ + spec_tag_cond()
    } else {
        Seq::empty()
    }
}

/// The statement listing links for the parameters.
pub open spec fn spec_list_sql(p: Params) -> Seq<char> {
    let sort = match p.sort {
        Some(s) => s,
        None => Sort::Created,
    };
    let order = match p.order {
        Some(o) => o,
        None => Order::Desc,
    };
    "SELECT links.id, links.url, links.title, media.created, media.updated FROM links JOIN media ON media.id = links.id"@
        + spec_where(p.q is Some, p.tag is Some) + " ORDER BY "@ + spec_sort_col(sort) + " "@
        + spec_order_str(order) + (if p.limit is Some {
        " LIMIT ? OFFSET ?"@
    } else {
        Seq::empty()
    })
}

impl Params {
    /// The listing statement: a title search and a tag filter when given,
    /// sorted by the field and direction (creation time, descending, by
    /// default), paginated when a limit is given (offset 0 by default).
    pub fn statement(&self) -> (r: Statement)
        ensures
            r.sql@ == spec_list_sql(*self),
            r.binds@.len() == (if self.q is Some { 1int } else { 0int }) + (if self.tag is Some {
                1int
            } else {
                0int
            }) + (if self.limit is Some { 2int } else { 0int }),
            self.q matches Some(q) ==> (r.binds@[0] matches Bind::Text(b) && b == q),
            self.tag matches Some(t) ==> {
                let k = if self.q is Some { 1int } else { 0int };
                r.binds@[k] matches Bind::Text(b) && b == t
            },
            self.limit matches Some(l) ==> {
                let k = (if self.q is Some { 1int } else { 0int }) + (if self.tag is Some {
                    1int
                } else {
                    0int
                });
                &&& r.binds@[k] matches Bind::Int(v) && v == l
                &&& r.binds@[k + 1] matches Bind::Int(v) && v == (match self.offset {
                    Some(o) => o,
                    None => 0,
                })
            },
    {
        let sort = match self.sort {
            Some(s) => s,
            None => Sort::Created,
        };
        let order = match self.order {
            Some(o) => o,
            None => Order::Desc,
        };
        let mut sql = "SELECT links.id, links.url, links.title, media.created, media.updated FROM links JOIN media ON media.id = links.id".to_owned();
        let mut binds: Vec<Bind> = Vec::new();
        match (&self.q, &self.tag) {
            (Some(q), Some(t)) => {
                sql.append(" WHERE ");
                sql.append("links.title LIKE '%' || ? || '%'");
                sql.append(" AND ");
                sql.append("EXISTS (SELECT 1 FROM tags WHERE tags.media = links.id AND tags.label = ?)");
                binds.push(Bind::Text(q.clone()));
                binds.push(Bind::Text(t.clone()));
            },
            (Some(q), None) => {
                sql.append(" WHERE ");
                sql.append("links.title LIKE '%' || ? || '%'");
                binds.push(Bind::Text(q.clone()));
            },
            (None, Some(t)) => {
                sql.append(" WHERE ");
                sql.append("EXISTS (SELECT 1 FROM tags WHERE tags.media = links.id AND tags.label = ?)");
                binds.push(Bind::Text(t.clone()));
            },
            (None, None) => {},
        }
        sql.append(" ORDER BY ");
        sql.append(sort.as_col());
        sql.append(" ");
        sql.append(order.as_str());
        match self.limit {
            Some(l) => {
                sql.append(" LIMIT ? OFFSET ?");
                binds.push(Bind::Int(l));
                binds.push(Bind::Int(self.offset.unwrap_or(0)));
            },
            None => {},
        }
        proof {
            assert(sql@ =~= spec_list_sql(*self));
        }
        Statement { sql, binds }
    }
}

/// A row of the link listing.
pub struct Row {
    /// Unique identifier.
    pub id: Uuid,
    /// URL.
    pub url: String,
    /// Title.
    pub title: Option<String>,
    /// Created timestamp (Unix seconds).
    pub created: i64,
    /// Updated timestamp (Unix seconds).
    pub updated: i64,
}

/// The web bookmark of a link row.
pub open spec fn spec_row_link(row: Row) -> Link {
    Link { id: row.id, url: row.url, title: row.title }
}

impl Row {
    /// The record of a link row with its activity logs and tags.
    pub fn into_record(self, logs: Vec<Log>, tags: Vec<String>) -> (r: Record<Item>)
        ensures
            r.item == Item::Link(spec_row_link(self)),
            r.meta == (Meta { created: self.created, updated: self.updated }),
            r.logs == logs,
            r.tags == tags,
    {
        Record {
            item: Item::Link(Link { id: self.id, url: self.url, title: self.title }),
            meta: Meta { created: self.created, updated: self.updated },
            logs,
            tags,
        }
    }
}

/// The records of the link rows, in row order, each with its activity logs
/// from the `(media, log)` pairs and its tags from the `(media, label)` pairs.
pub fn records(rows: Vec<Row>, logs: &Vec<(Uuid, Log)>, tags: &Vec<(Uuid, String)>) -> (r: Vec<
    Record<Item>,
>)
    ensures
        r@.len() == rows@.len(),
        forall|i: int|
            0 <= i < r@.len() ==> {
                &&& (#[trigger] r@[i]).item == Item::Link(spec_row_link(rows@[i]))
                &&& r@[i].meta == (Meta { created: rows@[i].created, updated: rows@[i].updated })
                &&& r@[i].logs@ == spec_row_logs(rows@.map_values(|x: Row| x.id), logs@, i)
                &&& r@[i].tags@ == spec_row_tags(rows@.map_values(|x: Row| x.id), tags@, i)
            },
{
    let ghost orig = rows@;
    let ghost ids = orig.map_values(|x: Row| x.id);
    let n = rows.len();
    let mut rows = rows;
    let mut seen_ids: Vec<Uuid> = Vec::new();
    let mut r: Vec<Record<Item>> = Vec::new();
    let mut i: usize = 0;
    while rows.len() > 0
        invariant
            n == orig.len(),
            i + rows@.len() == n,
            rows@ == orig.skip(i as int),
            ids == orig.map_values(|x: Row| x.id),
            seen_ids@ == ids.take(i as int),
            r@.len() == i,
            forall|k: int|
                0 <= k < i ==> {
                    &&& (#[trigger] r@[k]).item == Item::Link(spec_row_link(orig[k]))
                    &&& r@[k].meta == (Meta { created: orig[k].created, updated: orig[k].updated })
                    &&& r@[k].logs@ == spec_row_logs(ids, logs@, k)
                    &&& r@[k].tags@ == spec_row_tags(ids, tags@, k)
                },
        decreases rows@.len(),
    {
        let row = rows.remove(0);
        assert(orig.skip(i as int)[0] == orig[i as int]);
        let id = row.id;
        assert(ids[i as int] == id);
        assert(forall|j: int| 0 <= j < i ==> ids[j] == seen_ids@[j]);
        let first = !seen(&seen_ids, i, id);
        let (row_logs, row_tags) = if first {
            (values_for(logs, id), labels_for(tags, id))
        } else {
            (Vec::new(), Vec::new())
        };
        r.push(row.into_record(row_logs, row_tags));
        seen_ids.push(id);
        assert(seen_ids@ =~= ids.take(i + 1));
        i = i + 1;
        assert(rows@ =~= orig.skip(i as int));
    }
    r
}

/// Each sort field orders by its own column: titles, years and ratings by
/// the kind table's columns, creation and update times by the media row's.
pub proof fn lemma_sort_columns()
    ensures
        spec_sort_col(Sort::Title) == "links.title"@,
        spec_sort_col(Sort::Created) == "media.created"@,
        spec_sort_col(Sort::Updated) == "media.updated"@,
        forall|a: Sort, b: Sort| spec_sort_col(a) == spec_sort_col(b) ==> a == b,
{
    reveal_strlit("links.title");
    reveal_strlit("media.created");
    reveal_strlit("media.updated");
    assert forall|a: Sort, b: Sort| spec_sort_col(a) == spec_sort_col(b) implies a == b by {
        if a != b {
            assert(spec_sort_col(a).len() != spec_sort_col(b).len() || spec_sort_col(a)[6]
                != spec_sort_col(b)[6] || spec_sort_col(a)[0] != spec_sort_col(b)[0]);
        }
    }
}

/// A listing is ordered by the chosen field in the chosen direction, by
/// creation time descending when neither is given, and ends with the page
/// bounds exactly when a limit is given.
#[verifier::spinoff_prover]
#[verifier::rlimit(60)]
pub proof fn lemma_list_order(p: Params)
    ensures
        spec_ends_with(
            spec_list_sql(p),
            " ORDER BY "@ + spec_sort_col(
                match p.sort {
                    Some(s) => s,
                    None => Sort::Created,
                },
            ) + " "@ + spec_order_str(
                match p.order {
                    Some(o) => o,
                    None => Order::Desc,
                },
            ) + (if p.limit is Some {
                " LIMIT ? OFFSET ?"@
            } else {
                Seq::empty()
            }),
        ),
        p.limit is Some ==> spec_ends_with(spec_list_sql(p), " LIMIT ? OFFSET ?"@),
        p.limit is None ==> !spec_ends_with(spec_list_sql(p), " LIMIT ? OFFSET ?"@),
        p.sort is None && p.order is None && p.limit is None ==> spec_ends_with(
            spec_list_sql(p),
            " ORDER BY media.created DESC"@,
        ),
        p.sort == Some(Sort::Updated) && p.order is None && p.limit is None ==> spec_ends_with(
            spec_list_sql(p),
            " ORDER BY media.updated DESC"@,
        ),
        p.sort == Some(Sort::Created) && p.order == Some(Order::Asc) && p.limit is None
            ==> spec_ends_with(spec_list_sql(p), " ORDER BY media.created ASC"@),
{
    let sort = match p.sort {
        Some(s) => s,
        None => Sort::Created,
    };
    let order = match p.order {
        Some(o) => o,
        None => Order::Desc,
    };
    let lim = if p.limit is Some {
        " LIMIT ? OFFSET ?"@
    } else {
        Seq::<char>::empty()
    };
    let head = "SELECT links.id, links.url, links.title, media.created, media.updated FROM links JOIN media ON media.id = links.id"@
        + spec_where(p.q is Some, p.tag is Some);
    let mid = " ORDER BY "@ + spec_sort_col(sort) + " "@ + spec_order_str(order);
    assert(spec_list_sql(p) =~= head + (mid + lim));
    lemma_ends_with_concat(head, mid + lim);
    assert(spec_list_sql(p) =~= (head + mid) + lim);
    lemma_ends_with_concat(head + mid, lim);
    lemma_sort_columns();
    reveal_strlit(" ORDER BY ");
    reveal_strlit(" ");
    reveal_strlit("ASC");
    reveal_strlit("DESC");
    reveal_strlit(" LIMIT ? OFFSET ?");
    reveal_strlit(" ORDER BY media.created DESC");
    reveal_strlit(" ORDER BY media.updated DESC");
    reveal_strlit(" ORDER BY media.created ASC");
    reveal_strlit("media.created");
    reveal_strlit("media.updated");
    if p.limit is None {
        let s = spec_list_sql(p);
        assert(spec_order_str(order).len() >= 3);
        assert(s.len() >= mid.len());
        if spec_ends_with(s, " LIMIT ? OFFSET ?"@) {
            let t = " LIMIT ? OFFSET ?"@;
            assert(t.len() == 17 && t[16] == '?');
            assert(s.subrange(s.len() - 17, s.len() as int)[16] == s[s.len() - 1]);
            assert(s[s.len() - 1] == '?');
            assert(s[s.len() - 1] == spec_order_str(order)[spec_order_str(order).len() - 1]);
        }
    }
    if p.sort is None && p.order is None && p.limit is None {
        assert(mid + lim =~= " ORDER BY media.created DESC"@);
    }
    if p.sort == Some(Sort::Updated) && p.order is None && p.limit is None {
        assert(mid + lim =~= " ORDER BY media.updated DESC"@);
    }
    if p.sort == Some(Sort::Created) && p.order == Some(Order::Asc) && p.limit is None {
        assert(mid + lim =~= " ORDER BY media.created ASC"@);
    }
}

/// A title search keeps the links whose title holds the searched text and a
/// tag filter those carrying the tag: each one given adds its condition to
/// the statement's `WHERE` clause, and a listing with neither has none.
#[verifier::spinoff_prover]
#[verifier::rlimit(60)]
pub proof fn lemma_list_filters(p: Params)
    ensures
        p.q is Some ==> spec_contains(spec_list_sql(p), " WHERE "@),
        p.q is Some ==> spec_contains(spec_list_sql(p), "links.title LIKE '%' || ? || '%'"@),
        p.tag is Some ==> spec_contains(spec_list_sql(p), " WHERE "@),
        p.tag is Some ==> spec_contains(
            spec_list_sql(p),
            "EXISTS (SELECT 1 FROM tags WHERE tags.media = links.id AND tags.label = ?)"@,
        ),
        p.q is None && p.tag is None ==> spec_list_sql(p) == "SELECT links.id, links.url, links.title, media.created, media.updated FROM links JOIN media ON media.id = links.id"@ + " ORDER BY "@ + spec_sort_col(
            match p.sort {
                Some(s) => s,
                None => Sort::Created,
            },
        ) + " "@ + spec_order_str(
            match p.order {
                Some(o) => o,
                None => Order::Desc,
            },
        ) + (if p.limit is Some {
            " LIMIT ? OFFSET ?"@
        } else {
            Seq::empty()
        }),
{
    let sort = match p.sort {
        Some(s) => s,
        None => Sort::Created,
    };
    let order = match p.order {
        Some(o) => o,
        None => Order::Desc,
    };
    let lim = if p.limit is Some {
        " LIMIT ? OFFSET ?"@
    } else {
        Seq::<char>::empty()
    };
    let head = "SELECT links.id, links.url, links.title, media.created, media.updated FROM links JOIN media ON media.id = links.id"@;
    let rest = " ORDER BY "@ + spec_sort_col(sort) + " "@ + spec_order_str(order) + lim;
    let wh = spec_where(p.q is Some, p.tag is Some);
    let sql = spec_list_sql(p);
    assert(sql =~= head + wh + rest);
    let w = " WHERE "@;
    let t = spec_title_cond();
    let g = spec_tag_cond();
    let and = " AND "@;
    if p.q is Some && p.tag is Some {
        assert(wh == w + t + and + g);
        assert(head + wh + rest =~= head + w + (t + and + g + rest));
        lemma_contains_middle(head, w, t + and + g + rest);
        assert(head + wh + rest =~= (head + w) + t + (and + g + rest));
        lemma_contains_middle(head + w, t, and + g + rest);
        assert(head + wh + rest =~= (head + w + t + and) + g + rest);
        lemma_contains_middle(head + w + t + and, g, rest);
    } else if p.q is Some {
        assert(wh == w + t);
        assert(head + wh + rest =~= head + w + (t + rest));
        lemma_contains_middle(head, w, t + rest);
        assert(head + wh + rest =~= (head + w) + t + rest);
        lemma_contains_middle(head + w, t, rest);
    } else if p.tag is Some {
        assert(wh == w + g);
        assert(head + wh + rest =~= head + w + (g + rest));
        lemma_contains_middle(head, w, g + rest);
        assert(head + wh + rest =~= (head + w) + g + rest);
        lemma_contains_middle(head + w, g, rest);
    } else {
        assert(head + wh + rest =~= head + rest);
    }
}

} // verus!
