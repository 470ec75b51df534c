//! SQL dump format: the queries that read each table back as `INSERT`
//! statements.

use vstd::prelude::*;

use crate::text::{lemma_contains_extend, lemma_ends_with_concat, spec_contains, spec_ends_with, spec_occurs_at};

verus! {

/// Texts joined with a separator between each two.
pub open spec fn spec_joined(list: Seq<Seq<char>>, sep: Seq<char>) -> Seq<char>
    decreases list.len(),
{
    if list.len() == 0 {
        Seq::empty()
    } else if list.len() == 1 {
        list[0]
    } else {
        spec_joined(list.drop_last(), sep) + sep + list.last()
    }
}

/// The query listing the tables to dump, in creation order.
pub fn tables_query() -> (r: String)
    ensures
        r@ == "SELECT name FROM sqlite_master WHERE type = 'table' AND name NOT LIKE 'sqlite_%' ORDER BY rowid"@,
{
    "SELECT name FROM sqlite_master WHERE type = 'table' AND name NOT LIKE 'sqlite_%' ORDER BY rowid".to_owned()
}

/// The query listing a table's columns.
pub fn columns_query(table: &str) -> (r: String)
    ensures
        r@ == "SELECT name FROM pragma_table_info('"@ + table@ + "')"@,
{
    let mut r = "SELECT name FROM pragma_table_info('".to_owned();
    r.append(table);
    r.append("')");
    r
}

/// A column's value as an SQL literal.
pub open spec fn spec_quoted(c: Seq<char>) -> Seq<char> {
    "quote("@ + c + ")"@
}

/// The query that reads every row of a table as an `INSERT OR IGNORE`
/// statement restoring it, unless a row with its key is already stored.
pub open spec fn spec_rows_query(table: Seq<char>, columns: Seq<Seq<char>>) -> Seq<char> {
    "SELECT 'INSERT OR IGNORE INTO \""@ + table + "\" ("@ + spec_joined(columns, ", "@) + ") VALUES (' || "@
        + spec_joined(columns.map_values(|c: Seq<char>| spec_quoted(c)), " || ', ' || "@)
        + " || ');' FROM \""@ + table + "\""@
}

/// The query that reads every row of a table, with the given columns, as an
/// `INSERT` statement restoring it.
pub fn rows_query(table: &str, columns: &Vec<String>) -> (r: String)
    ensures
        r@ == spec_rows_query(table@, columns@.map_values(|c: String| c@)),
{
    let ghost cols = columns@.map_values(|c: String| c@);
    let mut list = String::new();
    let mut quoted = String::new();
    let mut i: usize = 0;
    while i < columns.len()
        invariant
            i <= columns@.len(),
            cols == columns@.map_values(|c: String| c@),
            list@ == spec_joined(cols.take(i as int), ", "@),
            quoted@ == spec_joined(cols.take(i as int).map_values(|c: Seq<char>| spec_quoted(c)), " || ', ' || "@),
        decreases columns@.len() - i,
    {
        let ghost q = cols.take(i + 1).map_values(|c: Seq<char>| spec_quoted(c));
        assert(cols.take(i + 1).drop_last() =~= cols.take(i as int));
        assert(q.drop_last() =~= cols.take(i as int).map_values(|c: Seq<char>| spec_quoted(c)));
        assert(cols.take(i + 1).last() == columns@[i as int]@);
        if i > 0 {
            list.append(", ");
            quoted.append(" || ', ' || ");
        } else {
            assert(spec_joined(cols.take(0), ", "@) =~= Seq::<char>::empty());
        }
        list.append(columns[i].as_str());
        quoted.append("quote(");
        quoted.append(columns[i].as_str());
        quoted.append(")");
        proof {
            if i == 0 {
                assert(list@ =~= spec_joined(cols.take(1), ", "@));
                assert(quoted@ =~= spec_joined(q, " || ', ' || "@));
            } else {
                assert(list@ =~= spec_joined(cols.take(i + 1), ", "@));
                assert(quoted@ =~= spec_joined(q, " || ', ' || "@));
            }
        }
        i = i + 1;
    }
    assert(cols.take(columns@.len() as int) =~= cols);
    let mut r = "SELECT 'INSERT OR IGNORE INTO \"".to_owned();
    r.append(table);
    r.append("\" (");
    r.append(list.as_str());
    r.append(") VALUES (' || ");
    r.append(quoted.as_str());
    r.append(" || ');' FROM \"");
    r.append(table);
    r.append("\"");
    proof {
        assert(r@ =~= spec_rows_query(table@, cols));
    }
    r
}

/// Each text of a list occurs in the list joined with a separator.
pub proof fn lemma_joined_contains(list: Seq<Seq<char>>, sep: Seq<char>, i: int)
    requires
        0 <= i < list.len(),
    ensures
        spec_contains(spec_joined(list, sep), list[i]),
    decreases list.len(),
{
    lemma_contains_extend(Seq::empty(), Seq::empty(), list[i]);
    if list.len() > 1 {
        let rest = spec_joined(list.drop_last(), sep);
        if i == list.len() - 1 {
            lemma_contains_extend(rest + sep, list.last(), list[i]);
        } else {
            assert(list.drop_last()[i] == list[i]);
            lemma_joined_contains(list.drop_last(), sep, i);
            lemma_contains_extend(rest, sep, list[i]);
            lemma_contains_extend(rest + sep, list.last(), list[i]);
        }
    }
}

/// The query reading a table's rows builds, for each row, a statement that
/// inserts into that same table, names its columns and reads each of them
/// quoted as an SQL literal, and leaves a row whose key is already stored
/// alone (`INSERT OR IGNORE`).
pub proof fn lemma_rows_query_parts(table: Seq<char>, columns: Seq<Seq<char>>)
    ensures
        spec_occurs_at(
            spec_rows_query(table, columns),
            "SELECT 'INSERT OR IGNORE INTO \""@ + table + "\" ("@,
            0,
        ),
        spec_ends_with(spec_rows_query(table, columns), " || ');' FROM \""@ + table + "\""@),
        forall|i: int|
            0 <= i < columns.len() ==> spec_contains(
                spec_rows_query(table, columns),
                #[trigger] spec_quoted(columns[i]),
            ),
        forall|i: int|
            0 <= i < columns.len() ==> spec_contains(
                spec_rows_query(table, columns),
                #[trigger] columns[i],
            ),
{
    let q = spec_rows_query(table, columns);
    let head = "SELECT 'INSERT OR IGNORE INTO \""@ + table + "\" ("@;
    let names = spec_joined(columns, ", "@);
    let quoted = columns.map_values(|c: Seq<char>| spec_quoted(c));
    let values = spec_joined(quoted, " || ', ' || "@);
    let a = head + names + ") VALUES (' || "@;
    let tail = " || ');' FROM \""@ + table + "\""@;
    assert(q =~= head + (names + ") VALUES (' || "@ + values + tail));
    assert(q.subrange(0, head.len() as int) =~= head);
    assert(q =~= (a + values) + tail);
    lemma_ends_with_concat(a + values, tail);
    assert forall|i: int| 0 <= i < columns.len() implies spec_contains(
        q,
        #[trigger] spec_quoted(columns[i]),
    ) by {
        assert(quoted[i] == spec_quoted(columns[i]));
        lemma_joined_contains(quoted, " || ', ' || "@, i);
        lemma_contains_extend(a, values, quoted[i]);
        lemma_contains_extend(a + values, tail, quoted[i]);
    }
    assert forall|i: int| 0 <= i < columns.len() implies spec_contains(q, #[trigger] columns[i]) by {
        lemma_joined_contains(columns, ", "@, i);
        lemma_contains_extend(head, names, columns[i]);
        lemma_contains_extend(head + names, ") VALUES (' || "@ + values + tail, columns[i]);
        assert(q =~= (head + names) + (") VALUES (' || "@ + values + tail));
    }
}

} // verus!
