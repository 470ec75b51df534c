//! Route handlers.

pub mod all;
pub mod books;
pub mod films;
pub mod links;
pub mod games;
pub mod query;
pub mod tags;

use vstd::prelude::*;

use self::all::{lemma_sort_columns, spec_order_str, spec_sort_col, Bind, Params, Sort, Statement};
use self::query::Order;
use crate::axum::extract::Error;
use crate::item::{Item, Kind, Record};
use crate::text::{lemma_contains_middle, lemma_ends_with_concat, spec_contains, spec_ends_with};

verus! {

/// The outcome of a statement that updates or deletes one record by
/// identifier: success when it touched a row, else the record is unknown.
pub fn affected(n: usize) -> (r: Result<(), Error>)
    ensures
        n > 0 ==> r is Ok,
        n == 0 ==> r matches Err(Error::NotFound),
{
    if n > 0 {
        Ok(())
    } else {
        Err(Error::NotFound)
    }
}

/// The statement listing the media rows for the parameters.
pub open spec fn spec_rows_sql(p: Params) -> Seq<char> {
    let sort = match p.sort {
        Some(s) => s,
        None => Sort::Created,
    };
    let order = match p.order {
        Some(o) => o,
        None => Order::Desc,
    };
    "SELECT id, kind, created, updated FROM media"@ + (if p.tag is Some {
        " WHERE EXISTS (SELECT 1 FROM tags WHERE tags.media = media.id AND tags.label = ?)"@
    } else {
        Seq::empty()
    }) + " ORDER BY "@ + spec_sort_col(sort) + " "@ + spec_order_str(order) + (if p.limit is Some {
        " LIMIT ? OFFSET ?"@
    } else {
        Seq::empty()
    })
}

/// The statement listing the media rows of every kind: filtered by tag when
/// one is given, sorted by the field and direction (creation time,
/// descending, by default), paginated when a limit is given (offset 0 by
/// default).
pub fn rows_statement(p: &Params) -> (r: Statement)
    ensures
        r.sql@ == spec_rows_sql(*p),
        r.binds@.len() == (if p.tag is Some { 1int } else { 0int }) + (if p.limit is Some {
            2int
        } else {
            0int
        }),
        p.tag matches Some(t) ==> (r.binds@[0] matches Bind::Text(b) && b == t),
        p.limit matches Some(l) ==> {
            let k = if p.tag is Some { 1int } else { 0int };
            &&& r.binds@[k] matches Bind::Int(v) && v == l
            &&& r.binds@[k + 1] matches Bind::Int(v) && v == (match p.offset {
                Some(o) => o,
                None => 0,
            })
        },
{
    let sort = match p.sort {
        Some(s) => s,
        None => Sort::Created,
    };
    let order = match p.order {
        Some(o) => o,
        None => Order::Desc,
    };
    let mut sql = "SELECT id, kind, created, updated FROM media".to_owned();
    let mut binds: Vec<Bind> = Vec::new();
    match &p.tag {
        Some(t) => {
            sql.append(" WHERE EXISTS (SELECT 1 FROM tags WHERE tags.media = media.id AND tags.label = ?)");
            binds.push(Bind::Text(t.clone()));
        },
        None => {},
    }
    sql.append(" ORDER BY ");
    sql.append(sort.as_col());
    sql.append(" ");
    sql.append(order.as_str());
    match p.limit {
        Some(l) => {
            sql.append(" LIMIT ? OFFSET ?");
            binds.push(Bind::Int(l));
            binds.push(Bind::Int(p.offset.unwrap_or(0)));
        },
        None => {},
    }
    proof {
        assert(sql@ =~= spec_rows_sql(*p));
    }
    Statement { sql, binds }
}

/// The answer to fetching any media item by identifier, from the kind its
/// media row names (`None` when there is no media row or its kind is
/// unknown) and the record read for it: the record; not found when there is
/// no media row or the kind is unknown; an internal error when the kind's
/// row of the item is missing.
pub fn found(kind: Option<Kind>, record: Option<Record<Item>>) -> (r: Result<Record<Item>, Error>)
    ensures
        kind is None ==> r matches Err(Error::NotFound),
        kind is Some && record is Some ==> (r matches Ok(x) && record == Some(x)),
        kind is Some && record is None ==> (r matches Err(Error::Internal(m)) && m@
            == "Record not found"@),
{
    match kind {
        None => Err(Error::NotFound),
        Some(_) => match record {
            Some(x) => Ok(x),
            None => {
                let m = "Record not found".to_owned();
                Err(Error::Internal(m))
            },
        },
    }
}

/// The answer to fetching an item of one kind by identifier: the record
/// read for the identifier when its item is of that kind, else not found.
pub fn of_kind(record: Option<Record<Item>>, kind: Kind) -> (r: Result<Record<Item>, Error>)
    ensures
        (record matches Some(x) && x.item.spec_kind() == kind) ==> (r matches Ok(y) && record == Some(y)),
        !(record matches Some(x) && x.item.spec_kind() == kind) ==> r matches Err(Error::NotFound),
{
    match record {
        Some(x) => {
            if x.item.kind() == kind {
                Ok(x)
            } else {
                Err(Error::NotFound)
            }
        },
        None => Err(Error::NotFound),
    }
}

/// The media rows are ordered by the chosen field in the chosen direction,
/// by creation time descending when neither is given; a tag filter adds its
/// condition, and the page bounds close the statement exactly when a limit
/// is given.
#[verifier::spinoff_prover]
#[verifier::rlimit(60)]
pub proof fn lemma_rows_order(p: Params)
    ensures
        spec_ends_with(
            spec_rows_sql(p),
            " ORDER BY "@ + spec_sort_col(
                match p.sort {
                    Some(s) => s,
                    None => Sort::Created,
                },
            ) + " "@ + spec_order_str(
                match p.order {
                    Some(o) => o,
                    None => Order::Desc,
                },
            ) + (if p.limit is Some {
                " LIMIT ? OFFSET ?"@
            } else {
                Seq::empty()
            }),
        ),
        p.limit is Some ==> spec_ends_with(spec_rows_sql(p), " LIMIT ? OFFSET ?"@),
        p.sort is None && p.order is None && p.limit is None ==> spec_ends_with(
            spec_rows_sql(p),
            " ORDER BY media.created DESC"@,
        ),
        p.sort == Some(Sort::Updated) && p.order is None && p.limit is None ==> spec_ends_with(
            spec_rows_sql(p),
            " ORDER BY media.updated DESC"@,
        ),
        p.tag is Some ==> spec_contains(
            spec_rows_sql(p),
            " WHERE EXISTS (SELECT 1 FROM tags WHERE tags.media = media.id AND tags.label = ?)"@,
        ),
{
    let sort = match p.sort {
        Some(s) => s,
        None => Sort::Created,
    };
    let order = match p.order {
        Some(o) => o,
        None => Order::Desc,
    };
    let lim = if p.limit is Some {
        " LIMIT ? OFFSET ?"@
    } else {
        Seq::<char>::empty()
    };
    let select = "SELECT id, kind, created, updated FROM media"@;
    let g = " WHERE EXISTS (SELECT 1 FROM tags WHERE tags.media = media.id AND tags.label = ?)"@;
    let head = select + (if p.tag is Some {
        g
    } else {
        Seq::<char>::empty()
    });
    let mid = " ORDER BY "@ + spec_sort_col(sort) + " "@ + spec_order_str(order);
    let sql = spec_rows_sql(p);
    assert(sql =~= head + (mid + lim));
    lemma_ends_with_concat(head, mid + lim);
    assert(head + (mid + lim) =~= (head + mid) + lim);
    lemma_ends_with_concat(head + mid, lim);
    if p.tag is Some {
        assert(head + (mid + lim) =~= select + g + (mid + lim));
        lemma_contains_middle(select, g, mid + lim);
    }
    lemma_sort_columns();
    reveal_strlit(" ORDER BY ");
    reveal_strlit(" ");
    reveal_strlit("DESC");
    reveal_strlit(" ORDER BY media.created DESC");
    reveal_strlit(" ORDER BY media.updated DESC");
    reveal_strlit("media.created");
    reveal_strlit("media.updated");
    if p.sort is None && p.order is None && p.limit is None {
        assert(mid + lim =~= " ORDER BY media.created DESC"@);
    }
    if p.sort == Some(Sort::Updated) && p.order is None && p.limit is None {
        assert(mid + lim =~= " ORDER BY media.updated DESC"@);
    }
}

} // verus!
