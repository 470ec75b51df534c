//! What loading a dump restores: the rows of every record it carries.

use vstd::prelude::*;

use super::json::{
    lemma_run_covers, lemma_run_first, lemma_run_from, lemma_run_keeps, spec_key, spec_media_rows,
    spec_copies_rows, spec_copy_rows, spec_extra_rows, spec_extras_rows, spec_index, spec_plan,
    spec_record_rows, spec_run, spec_system_rows, spec_systems_rows, Insert, Key,
};
use crate::db::{spec_first_at, spec_last_item, spec_record_of, spec_selected, spec_values_for, MediaRow};
use crate::exe::dump::fmt::json::Dump;
use crate::game::{copies, extras, systems};
use crate::item::{Item, Record};
use crate::logs::Log;
use crate::uuid::Uuid;

verus! {

/// Inserting one sequence of rows and then another is inserting the two in
/// turn.
proof fn lemma_run_append(t: Map<Key, Insert>, a: Seq<Insert>, b: Seq<Insert>)
    ensures
        spec_run(t, a + b) == spec_run(spec_run(t, a), b),
    decreases b.len(),
{
    if b.len() == 0 {
        assert(a + b =~= a);
    } else {
        assert((a + b).drop_last() =~= a + b.drop_last());
        assert((a + b).last() == b.last());
        lemma_run_append(t, a, b.drop_last());
    }
}

/// Every row stored in the tables is stored under its own key.
pub open spec fn spec_keyed(t: Map<Key, Insert>) -> bool {
    forall|k: Key| #[trigger] t.dom().contains(k) ==> spec_key(t[k]) == k
}

/// Inserting keeps every row under its own key.
proof fn lemma_run_keyed(t: Map<Key, Insert>, p: Seq<Insert>)
    requires
        spec_keyed(t),
    ensures
        spec_keyed(spec_run(t, p)),
    decreases p.len(),
{
    if p.len() > 0 {
        lemma_run_keyed(t, p.drop_last());
    }
}

/// Key of the row an item is stored in.
pub open spec fn spec_item_key(item: Item) -> Key {
    match item {
        Item::Book(b) => Key::Book(b.id),
        Item::Film(f) => Key::Film(f.id),
        Item::Game(g) => Key::Game(g.id),
        Item::Link(l) => Key::Link(l.id),
        Item::Show(x) => Key::Show(x.id),
    }
}

/// Whether a key is one of those a record's rows are stored under.
pub open spec fn spec_owned(r: Record<Item>, k: Key) -> bool {
    let id = r.item.spec_id();
    ||| k == Key::Media(id)
    ||| k == spec_item_key(r.item)
    ||| (k matches Key::Tag(o, l) && o == id && exists|m: int| 0 <= m < r.tags@.len() && (#[trigger] r.tags@[m])@ == l)
    ||| (k matches Key::Log(x) && exists|m: int| 0 <= m < r.logs@.len() && #[trigger] r.logs@[m].id == x)
}

/// Every row inserted for a record is stored under a key the record owns.
proof fn lemma_record_rows_owned(r: Record<Item>, j: int)
    requires
        0 <= j < spec_record_rows(r).len(),
    ensures
        spec_owned(r, spec_key(spec_record_rows(r)[j])),
{
    let id = r.item.spec_id();
    let head = seq![
        Insert::Media { id, kind: r.item.spec_kind(), created: r.meta.created, updated: r.meta.updated },
        Insert::Item(r.item),
    ];
    let tl = r.tags@.map_values(|l: String| Insert::Tag { media: id, label: l });
    let gl = r.logs@.map_values(|g: Log| Insert::Log { media: id, log: g });
    assert(spec_record_rows(r) == head + tl + gl);
    if j == 0 {
    } else if j == 1 {
        assert(spec_key(Insert::Item(r.item)) == spec_item_key(r.item));
    } else if j < 2 + tl.len() {
        assert(spec_record_rows(r)[j] == tl[j - 2]);
        assert(r.tags@[j - 2]@ == r.tags@[j - 2]@);
    } else {
        let m = j - 2 - tl.len();
        assert(spec_record_rows(r)[j] == gl[m]);
        assert(r.logs@[m].id == r.logs@[m].id);
    }
}

/// Every row inserted for the records is stored under a key one of them
/// owns.
proof fn lemma_media_rows_owned(rs: Seq<Record<Item>>, j: int)
    requires
        0 <= j < spec_media_rows(rs).len(),
    ensures
        exists|q: int| 0 <= q < rs.len() && spec_owned(#[trigger] rs[q], spec_key(spec_media_rows(rs)[j])),
    decreases rs.len(),
{
    let pre = spec_media_rows(rs.drop_last());
    if j < pre.len() {
        lemma_media_rows_owned(rs.drop_last(), j);
        let q = choose|q: int| 0 <= q < rs.drop_last().len() && spec_owned(#[trigger] rs.drop_last()[q], spec_key(pre[j]));
        assert(rs.drop_last()[q] == rs[q]);
    } else {
        lemma_record_rows_owned(rs.last(), j - pre.len());
        assert(rs[rs.len() - 1] == rs.last());
    }
}

/// Whether the tables hold a record: its media row, its item, each of its
/// tags and each of its activity logs.
pub open spec fn spec_restored(t: Map<Key, Insert>, r: Record<Item>) -> bool {
    let id = r.item.spec_id();
    &&& t.dom().contains(Key::Media(id))
    &&& t[Key::Media(id)] == Insert::Media {
        id,
        kind: r.item.spec_kind(),
        created: r.meta.created,
        updated: r.meta.updated,
    }
    &&& t.dom().contains(spec_item_key(r.item))
    &&& t[spec_item_key(r.item)] == Insert::Item(r.item)
    &&& forall|m: int|
        0 <= m < r.tags@.len() ==> {
            &&& t.dom().contains(Key::Tag(id, (#[trigger] r.tags@[m])@))
            &&& t[Key::Tag(id, r.tags@[m]@)] matches Insert::Tag { media, label } && media == id
                && label@ == r.tags@[m]@
        }
    &&& forall|m: int|
        0 <= m < r.logs@.len() ==> {
            &&& t.dom().contains(Key::Log((#[trigger] r.logs@[m]).id))
            &&& t[Key::Log(r.logs@[m].id)] == Insert::Log { media: id, log: r.logs@[m] }
        }
}

/// Whether no two records share an identifier.
pub open spec fn spec_distinct_ids(rs: Seq<Record<Item>>) -> bool {
    forall|a: int, b: int|
        0 <= a < rs.len() && 0 <= b < rs.len() && #[trigger] rs[a].item.spec_id()
            == #[trigger] rs[b].item.spec_id() ==> a == b
}

/// Whether no two activity logs of the records share an identifier.
pub open spec fn spec_distinct_logs(rs: Seq<Record<Item>>) -> bool {
    forall|a: int, b: int, m1: int, m2: int|
        0 <= a < rs.len() && 0 <= b < rs.len() && 0 <= m1 < rs[a].logs@.len() && 0 <= m2
            < rs[b].logs@.len() && (#[trigger] rs[a].logs@[m1]).id == (#[trigger] rs[b].logs@[m2]).id
            ==> a == b && m1 == m2
}

/// Further inserts leave a stored record stored.
proof fn lemma_restored_keeps(t: Map<Key, Insert>, p: Seq<Insert>, r: Record<Item>)
    requires
        spec_restored(t, r),
    ensures
        spec_restored(spec_run(t, p), r),
{
    let u = spec_run(t, p);
    let id = r.item.spec_id();
    lemma_run_keeps(t, p, Key::Media(id));
    lemma_run_keeps(t, p, spec_item_key(r.item));
    assert forall|m: int| 0 <= m < r.tags@.len() implies {
        &&& u.dom().contains(Key::Tag(id, (#[trigger] r.tags@[m])@))
        &&& u[Key::Tag(id, r.tags@[m]@)] matches Insert::Tag { media, label } && media == id
            && label@ == r.tags@[m]@
    } by {
        lemma_run_keeps(t, p, Key::Tag(id, r.tags@[m]@));
    }
    assert forall|m: int| 0 <= m < r.logs@.len() implies {
        &&& u.dom().contains(Key::Log((#[trigger] r.logs@[m]).id))
        &&& u[Key::Log(r.logs@[m].id)] == Insert::Log { media: id, log: r.logs@[m] }
    } by {
        lemma_run_keeps(t, p, Key::Log(r.logs@[m].id));
    }
}

/// Items stored under the same key share their identifier.
proof fn lemma_item_key_id(x: Item, y: Item)
    requires
        spec_item_key(x) == spec_item_key(y),
    ensures
        x.spec_id() == y.spec_id(),
{
}

/// A key that none of the records owns is not stored after inserting their
/// rows into empty tables.
proof fn lemma_unowned_absent(rs: Seq<Record<Item>>, k: Key)
    requires
        forall|q: int| 0 <= q < rs.len() ==> !spec_owned(#[trigger] rs[q], k),
    ensures
        !spec_run(Map::<Key, Insert>::empty(), spec_media_rows(rs)).dom().contains(k),
{
    let p = spec_media_rows(rs);
    if spec_run(Map::<Key, Insert>::empty(), p).dom().contains(k) {
        lemma_run_from(Map::<Key, Insert>::empty(), p, k);
        let j = choose|j: int| 0 <= j < p.len() && spec_key(#[trigger] p[j]) == k;
        lemma_media_rows_owned(rs, j);
    }
}

/// Inserting the rows of records with distinct identifiers and distinct log
/// identifiers into empty tables stores every record, each row under its own
/// key.
proof fn lemma_records_restored(rs: Seq<Record<Item>>)
    requires
        spec_distinct_ids(rs),
        spec_distinct_logs(rs),
    ensures
        spec_keyed(spec_run(Map::<Key, Insert>::empty(), spec_media_rows(rs))),
        forall|q: int|
            0 <= q < rs.len() ==> spec_restored(
                spec_run(Map::<Key, Insert>::empty(), spec_media_rows(rs)),
                #[trigger] rs[q],
            ),
    decreases rs.len(),
{
    let e = Map::<Key, Insert>::empty();
    assert(spec_keyed(e));
    lemma_run_keyed(e, spec_media_rows(rs));
    if rs.len() > 0 {
        let n = rs.len() - 1;
        let pre = rs.drop_last();
        let r = rs.last();
        assert(r == rs[n]);
        assert(forall|q: int| 0 <= q < pre.len() ==> #[trigger] pre[q] == rs[q]);
        lemma_records_restored(pre);
        let mm = spec_run(e, spec_media_rows(pre));
        let rr = spec_record_rows(r);
        lemma_run_append(e, spec_media_rows(pre), rr);
        let t = spec_run(mm, rr);
        assert(spec_run(e, spec_media_rows(rs)) == t);
        assert forall|q: int| 0 <= q < n implies spec_restored(t, #[trigger] rs[q]) by {
            assert(pre[q] == rs[q]);
            lemma_restored_keeps(mm, rr, rs[q]);
        }
        let id = r.item.spec_id();
        let head = seq![
            Insert::Media { id, kind: r.item.spec_kind(), created: r.meta.created, updated: r.meta.updated },
            Insert::Item(r.item),
        ];
        let tl = r.tags@.map_values(|l: String| Insert::Tag { media: id, label: l });
        let gl = r.logs@.map_values(|g: Log| Insert::Log { media: id, log: g });
        assert(rr == head + tl + gl);
        assert(rr[0] == head[0]);
        assert(rr[1] == head[1]);
        // The record's own keys are owned by no earlier record.
        assert forall|q: int| 0 <= q < pre.len() implies !spec_owned(#[trigger] pre[q], Key::Media(id)) by {
            assert(pre[q] == rs[q]);
            if spec_owned(pre[q], Key::Media(id)) {
                assert(rs[q].item.spec_id() == rs[n].item.spec_id());
            }
        }
        lemma_unowned_absent(pre, Key::Media(id));
        assert forall|q: int| 0 <= q < pre.len() implies !spec_owned(#[trigger] pre[q], spec_item_key(r.item)) by {
            assert(pre[q] == rs[q]);
            if spec_owned(pre[q], spec_item_key(r.item)) {
                lemma_item_key_id(pre[q].item, r.item);
                assert(rs[q].item.spec_id() == rs[n].item.spec_id());
            }
        }
        lemma_unowned_absent(pre, spec_item_key(r.item));
        lemma_run_first(mm, rr, 0);
        assert(spec_key(rr[1]) == spec_item_key(r.item));
        lemma_run_first(mm, rr, 1);
        assert forall|m: int| 0 <= m < r.tags@.len() implies {
            &&& t.dom().contains(Key::Tag(id, (#[trigger] r.tags@[m])@))
            &&& t[Key::Tag(id, r.tags@[m]@)] matches Insert::Tag { media, label } && media == id
                && label@ == r.tags@[m]@
        } by {
            assert(rr[2 + m] == tl[m]);
            lemma_run_covers(mm, rr, 2 + m);
            let k = Key::Tag(id, r.tags@[m]@);
            assert(spec_key(t[k]) == k);
        }
        assert forall|m: int| 0 <= m < r.logs@.len() implies {
            &&& t.dom().contains(Key::Log((#[trigger] r.logs@[m]).id))
            &&& t[Key::Log(r.logs@[m].id)] == Insert::Log { media: id, log: r.logs@[m] }
        } by {
            let x = r.logs@[m].id;
            let i = 2 + tl.len() + m;
            assert(rr[i] == gl[m]);
            assert forall|q: int| 0 <= q < pre.len() implies !spec_owned(#[trigger] pre[q], Key::Log(x)) by {
                assert(pre[q] == rs[q]);
                if spec_owned(pre[q], Key::Log(x)) {
                    let m2 = choose|m2: int| 0 <= m2 < pre[q].logs@.len() && #[trigger] pre[q].logs@[m2].id == x;
                    assert(rs[q].logs@[m2].id == rs[n].logs@[m].id);
                }
            }
            lemma_unowned_absent(pre, Key::Log(x));
            assert forall|j: int| 0 <= j < i implies spec_key(#[trigger] rr[j]) != spec_key(rr[i]) by {
                if j >= 2 + tl.len() {
                    let m2 = j - 2 - tl.len();
                    assert(rr[j] == gl[m2]);
                    assert(rs[n].logs@[m2].id != rs[n].logs@[m].id);
                } else if j >= 2 {
                    assert(rr[j] == tl[j - 2]);
                }
            }
            lemma_run_first(mm, rr, i);
        }
    }
}

/// The last loaded item with an identifier has that identifier.
proof fn lemma_last_item_id(items: Seq<Item>, id: Uuid)
    requires
        spec_last_item(items, id) is Some,
    ensures
        spec_last_item(items, id).unwrap().spec_id() == id,
    decreases items.len(),
{
    if items.len() > 0 && items.last().spec_id() != id {
        lemma_last_item_id(items.drop_last(), id);
    }
}

/// The selected media rows are in range, in increasing order, and each is
/// the first row with its identifier.
proof fn lemma_selected(rows: Seq<MediaRow>, items: Seq<Item>)
    ensures
        forall|k: int|
            0 <= k < spec_selected(rows, items).len() ==> {
                let i = #[trigger] spec_selected(rows, items)[k];
                &&& 0 <= i < rows.len()
                &&& spec_first_at(rows.map_values(|r: MediaRow| r.0), i)
            },
        forall|a: int, b: int|
            0 <= a < b < spec_selected(rows, items).len() ==> #[trigger] spec_selected(rows, items)[a]
                < #[trigger] spec_selected(rows, items)[b],
    decreases rows.len(),
{
    if rows.len() > 0 {
        let pre = rows.drop_last();
        lemma_selected(pre, items);
        let s0 = spec_selected(pre, items);
        let s = spec_selected(rows, items);
        let ids = rows.map_values(|r: MediaRow| r.0);
        let pids = pre.map_values(|r: MediaRow| r.0);
        assert forall|k: int| 0 <= k < s0.len() implies spec_first_at(ids, #[trigger] s0[k]) by {
            let i = s0[k];
            assert(spec_first_at(pids, i));
            assert forall|j: int| 0 <= j < i implies ids[j] != ids[i] by {
                assert(pids[j] == ids[j]);
                assert(pids[i] == ids[i]);
            }
        }
        assert forall|k: int| 0 <= k < s.len() implies {
            let i = #[trigger] s[k];
            &&& 0 <= i < rows.len()
            &&& spec_first_at(ids, i)
        } by {
            if k < s0.len() {
                assert(s[k] == s0[k]);
            }
        }
        assert forall|a: int, b: int| 0 <= a < b < s.len() implies #[trigger] s[a] < #[trigger] s[b] by {
            if b < s0.len() {
                assert(s[a] == s0[a] && s[b] == s0[b]);
            } else {
                assert(s[a] == s0[a]);
            }
        }
    }
}

/// The index in the pairs of the `m`-th value paired with a key.
pub open spec fn spec_source<V>(pairs: Seq<(Uuid, V)>, k: Uuid, m: int) -> int
    decreases pairs.len(),
{
    if pairs.len() == 0 {
        0
    } else if pairs.last().0 == k && m == spec_values_for(pairs.drop_last(), k).len() {
        pairs.len() - 1
    } else {
        spec_source(pairs.drop_last(), k, m)
    }
}

/// Each value paired with a key comes from its own pair, in order.
proof fn lemma_source<V>(pairs: Seq<(Uuid, V)>, k: Uuid)
    ensures
        forall|m: int|
            0 <= m < spec_values_for(pairs, k).len() ==> {
                let p = #[trigger] spec_source(pairs, k, m);
                &&& 0 <= p < pairs.len()
                &&& pairs[p].0 == k
                &&& pairs[p].1 == spec_values_for(pairs, k)[m]
            },
        forall|m1: int, m2: int|
            0 <= m1 < m2 < spec_values_for(pairs, k).len() ==> #[trigger] spec_source(pairs, k, m1)
                < #[trigger] spec_source(pairs, k, m2),
    decreases pairs.len(),
{
    if pairs.len() > 0 {
        let pre = pairs.drop_last();
        lemma_source(pre, k);
        let v0 = spec_values_for(pre, k);
        assert forall|m: int| 0 <= m < spec_values_for(pairs, k).len() implies {
            let p = #[trigger] spec_source(pairs, k, m);
            &&& 0 <= p < pairs.len()
            &&& pairs[p].0 == k
            &&& pairs[p].1 == spec_values_for(pairs, k)[m]
        } by {
            if m < v0.len() {
                assert(spec_source(pairs, k, m) == spec_source(pre, k, m));
                assert(pre[spec_source(pre, k, m)] == pairs[spec_source(pre, k, m)]);
            }
        }
        assert forall|m1: int, m2: int| 0 <= m1 < m2 < spec_values_for(pairs, k).len() implies #[trigger] spec_source(pairs, k, m1)
            < #[trigger] spec_source(pairs, k, m2) by {
            assert(spec_source(pairs, k, m1) == spec_source(pre, k, m1));
            if m2 < v0.len() {
                assert(spec_source(pairs, k, m2) == spec_source(pre, k, m2));
            }
        }
    }
}

/// Whether a key is one of those the rows of a console are stored under.
pub open spec fn spec_system_owned(d: systems::Data, k: Key) -> bool {
    ||| k == Key::System(d.row.id)
    ||| (k matches Key::SystemGame(o, g) && o == d.row.id && exists|i: int| 0 <= i < d.game@.len() && #[trigger] d.game@[i] == g)
}

/// Every row inserted for a console is stored under a key it owns.
proof fn lemma_system_rows_owned(d: systems::Data, j: int)
    requires
        0 <= j < spec_system_rows(d).len(),
    ensures
        spec_system_owned(d, spec_key(spec_system_rows(d)[j])),
{
    if j > 0 {
        assert(spec_system_rows(d)[j] == Insert::SystemGame { system: d.row.id, game: d.game@[j - 1], idx: spec_index(j - 1) });
    }
}

/// Every row inserted for the consoles is stored under a key one of them owns.
proof fn lemma_systems_rows_owned(ds: Seq<systems::Data>, j: int)
    requires
        0 <= j < spec_systems_rows(ds).len(),
    ensures
        exists|q: int| 0 <= q < ds.len() && spec_system_owned(#[trigger] ds[q], spec_key(spec_systems_rows(ds)[j])),
    decreases ds.len(),
{
    let pre = spec_systems_rows(ds.drop_last());
    if j < pre.len() {
        lemma_systems_rows_owned(ds.drop_last(), j);
        let q = choose|q: int| 0 <= q < ds.drop_last().len() && spec_system_owned(#[trigger] ds.drop_last()[q], spec_key(pre[j]));
        assert(ds.drop_last()[q] == ds[q]);
    } else {
        lemma_system_rows_owned(ds.last(), j - pre.len());
        assert(ds[ds.len() - 1] == ds.last());
    }
}

/// Whether the tables hold a console: its row and each of its game references
/// at its position.
pub open spec fn spec_system_restored(t: Map<Key, Insert>, d: systems::Data) -> bool {
    let id = d.row.id;
    &&& t.dom().contains(Key::System(id))
    &&& t[Key::System(id)] == Insert::System(d.row)
    &&& forall|i: int|
        0 <= i < d.game@.len() ==> {
            &&& t.dom().contains(Key::SystemGame(id, #[trigger] d.game@[i]))
            &&& t[Key::SystemGame(id, d.game@[i])] == Insert::SystemGame { system: id, game: d.game@[i], idx: spec_index(i) }
        }
}

/// Whether no two consoles share an identifier, and no console names a game
/// twice.
pub open spec fn spec_distinct_systems(ds: Seq<systems::Data>) -> bool {
    &&& forall|a: int, b: int|
        0 <= a < ds.len() && 0 <= b < ds.len() && #[trigger] ds[a].row.id == #[trigger] ds[b].row.id ==> a == b
    &&& forall|a: int, i1: int, i2: int|
        0 <= a < ds.len() && 0 <= i1 < ds[a].game@.len() && 0 <= i2 < ds[a].game@.len()
            && #[trigger] ds[a].game@[i1] == #[trigger] ds[a].game@[i2] ==> i1 == i2
}

/// Further inserts leave a stored console stored.
proof fn lemma_system_restored_keeps(t: Map<Key, Insert>, p: Seq<Insert>, d: systems::Data)
    requires
        spec_system_restored(t, d),
    ensures
        spec_system_restored(spec_run(t, p), d),
{
    let u = spec_run(t, p);
    let id = d.row.id;
    lemma_run_keeps(t, p, Key::System(id));
    assert forall|i: int| 0 <= i < d.game@.len() implies {
        &&& u.dom().contains(Key::SystemGame(id, #[trigger] d.game@[i]))
        &&& u[Key::SystemGame(id, d.game@[i])] == Insert::SystemGame { system: id, game: d.game@[i], idx: spec_index(i) }
    } by {
        lemma_run_keeps(t, p, Key::SystemGame(id, d.game@[i]));
    }
}

/// Inserting the rows of consoles with distinct identifiers, each naming a game
/// at most once, into tables that hold none of their rows stores every one.
proof fn lemma_systems_restored(t0: Map<Key, Insert>, ds: Seq<systems::Data>)
    requires
        spec_distinct_systems(ds),
        forall|k: Key| #[trigger] t0.dom().contains(k) ==> !(k is System) && !(k is SystemGame),
    ensures
        forall|q: int| 0 <= q < ds.len() ==> spec_system_restored(spec_run(t0, spec_systems_rows(ds)), #[trigger] ds[q]),
    decreases ds.len(),
{
    if ds.len() > 0 {
        let n = ds.len() - 1;
        let pre = ds.drop_last();
        let d = ds.last();
        assert(d == ds[n]);
        assert(forall|q: int| 0 <= q < pre.len() ==> #[trigger] pre[q] == ds[q]);
        lemma_systems_restored(t0, pre);
        let mm = spec_run(t0, spec_systems_rows(pre));
        let rr = spec_system_rows(d);
        lemma_run_append(t0, spec_systems_rows(pre), rr);
        let t = spec_run(mm, rr);
        assert(spec_run(t0, spec_systems_rows(ds)) == t);
        assert forall|q: int| 0 <= q < n implies spec_system_restored(t, #[trigger] ds[q]) by {
            assert(pre[q] == ds[q]);
            lemma_system_restored_keeps(mm, rr, ds[q]);
        }
        let id = d.row.id;
        // A key of this console is stored before its rows only if an earlier console owns it.
        assert forall|k: Key| spec_system_owned(d, k) implies !#[trigger] mm.dom().contains(k) by {
            if mm.dom().contains(k) {
                lemma_run_from(t0, spec_systems_rows(pre), k);
                if !t0.dom().contains(k) {
                    let j = choose|j: int| 0 <= j < spec_systems_rows(pre).len() && spec_key(#[trigger] spec_systems_rows(pre)[j]) == k;
                    lemma_systems_rows_owned(pre, j);
                    let q = choose|q: int| 0 <= q < pre.len() && spec_system_owned(#[trigger] pre[q], spec_key(spec_systems_rows(pre)[j]));
                    assert(ds[q].row.id == ds[n].row.id);
                }
            }
        }
        assert(spec_system_owned(d, Key::System(id)));
        lemma_run_first(mm, rr, 0);
        assert forall|i: int| 0 <= i < d.game@.len() implies {
            &&& t.dom().contains(Key::SystemGame(id, #[trigger] d.game@[i]))
            &&& t[Key::SystemGame(id, d.game@[i])] == Insert::SystemGame { system: id, game: d.game@[i], idx: spec_index(i) }
        } by {
            let k = Key::SystemGame(id, d.game@[i]);
            assert(spec_system_owned(d, k));
            assert(rr[1 + i] == Insert::SystemGame { system: id, game: d.game@[i], idx: spec_index(i) });
            assert forall|j: int| 0 <= j < 1 + i implies spec_key(#[trigger] rr[j]) != spec_key(rr[1 + i]) by {
                if j > 0 {
                    assert(rr[j] == Insert::SystemGame { system: id, game: d.game@[j - 1], idx: spec_index(j - 1) });
                    assert(ds[n].game@[j - 1] != ds[n].game@[i]);
                }
            }
            lemma_run_first(mm, rr, 1 + i);
        }
    }
}

/// Whether a key is one of those the rows of a copy are stored under.
pub open spec fn spec_copy_owned(d: copies::Data, k: Key) -> bool {
    ||| k == Key::Copies(d.row.id)
    ||| (k matches Key::CopyGame(o, g) && o == d.row.id && exists|i: int| 0 <= i < d.game@.len() && #[trigger] d.game@[i] == g)
}

/// Every row inserted for a copy is stored under a key it owns.
proof fn lemma_copy_rows_owned(d: copies::Data, j: int)
    requires
        0 <= j < spec_copy_rows(d).len(),
    ensures
        spec_copy_owned(d, spec_key(spec_copy_rows(d)[j])),
{
    if j > 0 {
        assert(spec_copy_rows(d)[j] == Insert::CopyGame { copy: d.row.id, game: d.game@[j - 1], idx: spec_index(j - 1) });
    }
}

/// Every row inserted for the copies is stored under a key one of them owns.
proof fn lemma_copies_rows_owned(ds: Seq<copies::Data>, j: int)
    requires
        0 <= j < spec_copies_rows(ds).len(),
    ensures
        exists|q: int| 0 <= q < ds.len() && spec_copy_owned(#[trigger] ds[q], spec_key(spec_copies_rows(ds)[j])),
    decreases ds.len(),
{
    let pre = spec_copies_rows(ds.drop_last());
    if j < pre.len() {
        lemma_copies_rows_owned(ds.drop_last(), j);
        let q = choose|q: int| 0 <= q < ds.drop_last().len() && spec_copy_owned(#[trigger] ds.drop_last()[q], spec_key(pre[j]));
        assert(ds.drop_last()[q] == ds[q]);
    } else {
        lemma_copy_rows_owned(ds.last(), j - pre.len());
        assert(ds[ds.len() - 1] == ds.last());
    }
}

/// Whether the tables hold a copy: its row and each of its game references
/// at its position.
pub open spec fn spec_copy_restored(t: Map<Key, Insert>, d: copies::Data) -> bool {
    let id = d.row.id;
    &&& t.dom().contains(Key::Copies(id))
    &&& t[Key::Copies(id)] == Insert::Copies(d.row)
    &&& forall|i: int|
        0 <= i < d.game@.len() ==> {
            &&& t.dom().contains(Key::CopyGame(id, #[trigger] d.game@[i]))
            &&& t[Key::CopyGame(id, d.game@[i])] == Insert::CopyGame { copy: id, game: d.game@[i], idx: spec_index(i) }
        }
}

/// Whether no two copies share an identifier, and no copy names a game
/// twice.
pub open spec fn spec_distinct_copies(ds: Seq<copies::Data>) -> bool {
    &&& forall|a: int, b: int|
        0 <= a < ds.len() && 0 <= b < ds.len() && #[trigger] ds[a].row.id == #[trigger] ds[b].row.id ==> a == b
    &&& forall|a: int, i1: int, i2: int|
        0 <= a < ds.len() && 0 <= i1 < ds[a].game@.len() && 0 <= i2 < ds[a].game@.len()
            && #[trigger] ds[a].game@[i1] == #[trigger] ds[a].game@[i2] ==> i1 == i2
}

/// Further inserts leave a stored copy stored.
proof fn lemma_copy_restored_keeps(t: Map<Key, Insert>, p: Seq<Insert>, d: copies::Data)
    requires
        spec_copy_restored(t, d),
    ensures
        spec_copy_restored(spec_run(t, p), d),
{
    let u = spec_run(t, p);
    let id = d.row.id;
    lemma_run_keeps(t, p, Key::Copies(id));
    assert forall|i: int| 0 <= i < d.game@.len() implies {
        &&& u.dom().contains(Key::CopyGame(id, #[trigger] d.game@[i]))
        &&& u[Key::CopyGame(id, d.game@[i])] == Insert::CopyGame { copy: id, game: d.game@[i], idx: spec_index(i) }
    } by {
        lemma_run_keeps(t, p, Key::CopyGame(id, d.game@[i]));
    }
}

/// Inserting the rows of copies with distinct identifiers, each naming a game
/// at most once, into tables that hold none of their rows stores every one.
proof fn lemma_copies_restored(t0: Map<Key, Insert>, ds: Seq<copies::Data>)
    requires
        spec_distinct_copies(ds),
        forall|k: Key| #[trigger] t0.dom().contains(k) ==> !(k is Copies) && !(k is CopyGame),
    ensures
        forall|q: int| 0 <= q < ds.len() ==> spec_copy_restored(spec_run(t0, spec_copies_rows(ds)), #[trigger] ds[q]),
    decreases ds.len(),
{
    if ds.len() > 0 {
        let n = ds.len() - 1;
        let pre = ds.drop_last();
        let d = ds.last();
        assert(d == ds[n]);
        assert(forall|q: int| 0 <= q < pre.len() ==> #[trigger] pre[q] == ds[q]);
        lemma_copies_restored(t0, pre);
        let mm = spec_run(t0, spec_copies_rows(pre));
        let rr = spec_copy_rows(d);
        lemma_run_append(t0, spec_copies_rows(pre), rr);
        let t = spec_run(mm, rr);
        assert(spec_run(t0, spec_copies_rows(ds)) == t);
        assert forall|q: int| 0 <= q < n implies spec_copy_restored(t, #[trigger] ds[q]) by {
            assert(pre[q] == ds[q]);
            lemma_copy_restored_keeps(mm, rr, ds[q]);
        }
        let id = d.row.id;
        // A key of this copy is stored before its rows only if an earlier copy owns it.
        assert forall|k: Key| spec_copy_owned(d, k) implies !#[trigger] mm.dom().contains(k) by {
            if mm.dom().contains(k) {
                lemma_run_from(t0, spec_copies_rows(pre), k);
                if !t0.dom().contains(k) {
                    let j = choose|j: int| 0 <= j < spec_copies_rows(pre).len() && spec_key(#[trigger] spec_copies_rows(pre)[j]) == k;
                    lemma_copies_rows_owned(pre, j);
                    let q = choose|q: int| 0 <= q < pre.len() && spec_copy_owned(#[trigger] pre[q], spec_key(spec_copies_rows(pre)[j]));
                    assert(ds[q].row.id == ds[n].row.id);
                }
            }
        }
        assert(spec_copy_owned(d, Key::Copies(id)));
        lemma_run_first(mm, rr, 0);
        assert forall|i: int| 0 <= i < d.game@.len() implies {
            &&& t.dom().contains(Key::CopyGame(id, #[trigger] d.game@[i]))
            &&& t[Key::CopyGame(id, d.game@[i])] == Insert::CopyGame { copy: id, game: d.game@[i], idx: spec_index(i) }
        } by {
            let k = Key::CopyGame(id, d.game@[i]);
            assert(spec_copy_owned(d, k));
            assert(rr[1 + i] == Insert::CopyGame { copy: id, game: d.game@[i], idx: spec_index(i) });
            assert forall|j: int| 0 <= j < 1 + i implies spec_key(#[trigger] rr[j]) != spec_key(rr[1 + i]) by {
                if j > 0 {
                    assert(rr[j] == Insert::CopyGame { copy: id, game: d.game@[j - 1], idx: spec_index(j - 1) });
                    assert(ds[n].game@[j - 1] != ds[n].game@[i]);
                }
            }
            lemma_run_first(mm, rr, 1 + i);
        }
    }
}

/// Whether a key is one of those the rows of a accessory are stored under.
pub open spec fn spec_extra_owned(d: extras::Data, k: Key) -> bool {
    ||| k == Key::Extra(d.row.id)
    ||| (k matches Key::ExtraGame(o, g) && o == d.row.id && exists|i: int| 0 <= i < d.game@.len() && #[trigger] d.game@[i] == g)
}

/// Every row inserted for a accessory is stored under a key it owns.
proof fn lemma_extra_rows_owned(d: extras::Data, j: int)
    requires
        0 <= j < spec_extra_rows(d).len(),
    ensures
        spec_extra_owned(d, spec_key(spec_extra_rows(d)[j])),
{
    if j > 0 {
        assert(spec_extra_rows(d)[j] == Insert::ExtraGame { extra: d.row.id, game: d.game@[j - 1], idx: spec_index(j - 1) });
    }
}

/// Every row inserted for the accessories is stored under a key one of them owns.
proof fn lemma_extras_rows_owned(ds: Seq<extras::Data>, j: int)
    requires
        0 <= j < spec_extras_rows(ds).len(),
    ensures
        exists|q: int| 0 <= q < ds.len() && spec_extra_owned(#[trigger] ds[q], spec_key(spec_extras_rows(ds)[j])),
    decreases ds.len(),
{
    let pre = spec_extras_rows(ds.drop_last());
    if j < pre.len() {
        lemma_extras_rows_owned(ds.drop_last(), j);
        let q = choose|q: int| 0 <= q < ds.drop_last().len() && spec_extra_owned(#[trigger] ds.drop_last()[q], spec_key(pre[j]));
        assert(ds.drop_last()[q] == ds[q]);
    } else {
        lemma_extra_rows_owned(ds.last(), j - pre.len());
        assert(ds[ds.len() - 1] == ds.last());
    }
}

/// Whether the tables hold a accessory: its row and each of its game references
/// at its position.
pub open spec fn spec_extra_restored(t: Map<Key, Insert>, d: extras::Data) -> bool {
    let id = d.row.id;
    &&& t.dom().contains(Key::Extra(id))
    &&& t[Key::Extra(id)] == Insert::Extra(d.row)
    &&& forall|i: int|
        0 <= i < d.game@.len() ==> {
            &&& t.dom().contains(Key::ExtraGame(id, #[trigger] d.game@[i]))
            &&& t[Key::ExtraGame(id, d.game@[i])] == Insert::ExtraGame { extra: id, game: d.game@[i], idx: spec_index(i) }
        }
}

/// Whether no two accessories share an identifier, and no accessory names a game
/// twice.
pub open spec fn spec_distinct_extras(ds: Seq<extras::Data>) -> bool {
    &&& forall|a: int, b: int|
        0 <= a < ds.len() && 0 <= b < ds.len() && #[trigger] ds[a].row.id == #[trigger] ds[b].row.id ==> a == b
    &&& forall|a: int, i1: int, i2: int|
        0 <= a < ds.len() && 0 <= i1 < ds[a].game@.len() && 0 <= i2 < ds[a].game@.len()
            && #[trigger] ds[a].game@[i1] == #[trigger] ds[a].game@[i2] ==> i1 == i2
}

/// Further inserts leave a stored accessory stored.
proof fn lemma_extra_restored_keeps(t: Map<Key, Insert>, p: Seq<Insert>, d: extras::Data)
    requires
        spec_extra_restored(t, d),
    ensures
        spec_extra_restored(spec_run(t, p), d),
{
    let u = spec_run(t, p);
    let id = d.row.id;
    lemma_run_keeps(t, p, Key::Extra(id));
    assert forall|i: int| 0 <= i < d.game@.len() implies {
        &&& u.dom().contains(Key::ExtraGame(id, #[trigger] d.game@[i]))
        &&& u[Key::ExtraGame(id, d.game@[i])] == Insert::ExtraGame { extra: id, game: d.game@[i], idx: spec_index(i) }
    } by {
        lemma_run_keeps(t, p, Key::ExtraGame(id, d.game@[i]));
    }
}

/// Inserting the rows of accessories with distinct identifiers, each naming a game
/// at most once, into tables that hold none of their rows stores every one.
proof fn lemma_extras_restored(t0: Map<Key, Insert>, ds: Seq<extras::Data>)
    requires
        spec_distinct_extras(ds),
        forall|k: Key| #[trigger] t0.dom().contains(k) ==> !(k is Extra) && !(k is ExtraGame),
    ensures
        forall|q: int| 0 <= q < ds.len() ==> spec_extra_restored(spec_run(t0, spec_extras_rows(ds)), #[trigger] ds[q]),
    decreases ds.len(),
{
    if ds.len() > 0 {
        let n = ds.len() - 1;
        let pre = ds.drop_last();
        let d = ds.last();
        assert(d == ds[n]);
        assert(forall|q: int| 0 <= q < pre.len() ==> #[trigger] pre[q] == ds[q]);
        lemma_extras_restored(t0, pre);
        let mm = spec_run(t0, spec_extras_rows(pre));
        let rr = spec_extra_rows(d);
        lemma_run_append(t0, spec_extras_rows(pre), rr);
        let t = spec_run(mm, rr);
        assert(spec_run(t0, spec_extras_rows(ds)) == t);
        assert forall|q: int| 0 <= q < n implies spec_extra_restored(t, #[trigger] ds[q]) by {
            assert(pre[q] == ds[q]);
            lemma_extra_restored_keeps(mm, rr, ds[q]);
        }
        let id = d.row.id;
        // A key of this accessory is stored before its rows only if an earlier accessory owns it.
        assert forall|k: Key| spec_extra_owned(d, k) implies !#[trigger] mm.dom().contains(k) by {
            if mm.dom().contains(k) {
                lemma_run_from(t0, spec_extras_rows(pre), k);
                if !t0.dom().contains(k) {
                    let j = choose|j: int| 0 <= j < spec_extras_rows(pre).len() && spec_key(#[trigger] spec_extras_rows(pre)[j]) == k;
                    lemma_extras_rows_owned(pre, j);
                    let q = choose|q: int| 0 <= q < pre.len() && spec_extra_owned(#[trigger] pre[q], spec_key(spec_extras_rows(pre)[j]));
                    assert(ds[q].row.id == ds[n].row.id);
                }
            }
        }
        assert(spec_extra_owned(d, Key::Extra(id)));
        lemma_run_first(mm, rr, 0);
        assert forall|i: int| 0 <= i < d.game@.len() implies {
            &&& t.dom().contains(Key::ExtraGame(id, #[trigger] d.game@[i]))
            &&& t[Key::ExtraGame(id, d.game@[i])] == Insert::ExtraGame { extra: id, game: d.game@[i], idx: spec_index(i) }
        } by {
            let k = Key::ExtraGame(id, d.game@[i]);
            assert(spec_extra_owned(d, k));
            assert(rr[1 + i] == Insert::ExtraGame { extra: id, game: d.game@[i], idx: spec_index(i) });
            assert forall|j: int| 0 <= j < 1 + i implies spec_key(#[trigger] rr[j]) != spec_key(rr[1 + i]) by {
                if j > 0 {
                    assert(rr[j] == Insert::ExtraGame { extra: id, game: d.game@[j - 1], idx: spec_index(j - 1) });
                    assert(ds[n].game@[j - 1] != ds[n].game@[i]);
                }
            }
            lemma_run_first(mm, rr, 1 + i);
        }
    }
}

/// Whether a key is one under which a row of the dump is stored: a key of
/// one of its records, consoles, copies or accessories.
pub open spec fn spec_dumped(d: Dump, k: Key) -> bool {
    ||| exists|q: int| 0 <= q < d.media@.len() && spec_owned(#[trigger] d.media@[q], k)
    ||| exists|q: int| 0 <= q < d.games.systems@.len() && spec_system_owned(#[trigger] d.games.systems@[q], k)
    ||| exists|q: int| 0 <= q < d.games.copies@.len() && spec_copy_owned(#[trigger] d.games.copies@[q], k)
    ||| exists|q: int| 0 <= q < d.games.extras@.len() && spec_extra_owned(#[trigger] d.games.extras@[q], k)
}

/// Loading a dump into empty tables stores nothing but the dump's rows: every
/// row stored is under its own key, and that key is one of the dump's.
proof fn lemma_load_only_dumped(d: Dump, k: Key)
    requires
        spec_run(Map::<Key, Insert>::empty(), spec_plan(d)).dom().contains(k),
    ensures
        spec_dumped(d, k),
{
    let e = Map::<Key, Insert>::empty();
    let p = spec_plan(d);
    let media = spec_media_rows(d.media@);
    let sys = spec_systems_rows(d.games.systems@);
    let cop = spec_copies_rows(d.games.copies@);
    let ext = spec_extras_rows(d.games.extras@);
    assert(p == media + sys + cop + ext);
    lemma_run_from(e, p, k);
    let j = choose|j: int| 0 <= j < p.len() && spec_key(#[trigger] p[j]) == k;
    if j < media.len() {
        assert(p[j] == media[j]);
        lemma_media_rows_owned(d.media@, j);
    } else if j < media.len() + sys.len() {
        assert(p[j] == sys[j - media.len()]);
        lemma_systems_rows_owned(d.games.systems@, j - media.len());
    } else if j < media.len() + sys.len() + cop.len() {
        assert(p[j] == cop[j - media.len() - sys.len()]);
        lemma_copies_rows_owned(d.games.copies@, j - media.len() - sys.len());
    } else {
        assert(p[j] == ext[j - media.len() - sys.len() - cop.len()]);
        lemma_extras_rows_owned(d.games.extras@, j - media.len() - sys.len() - cop.len());
    }
}

/// Dumping a collection and loading the dump into empty tables restores
/// it.
///
/// The dump's records are those built from the media rows, items, tags and
/// logs read from a database whose activity logs have distinct identifiers,
/// as `db::assemble` builds them: record `k` is that of the `k`-th selected
/// media row. Its consoles, copies and accessories have distinct
/// identifiers, and none names a game twice, as the database's keys ensure.
/// After the load, the tables hold every one of those records (its media
/// row with its kind and times, its item, each of its tags and each of its
/// activity logs), and every console, copy and accessory with each of its
/// game references at its position; and they hold nothing else: every
/// stored row is under its own key, and that key is one of the dump's.
pub proof fn lemma_dump_then_load(
    rows: Seq<MediaRow>,
    items: Seq<Item>,
    tags: Seq<(Uuid, String)>,
    logs: Seq<(Uuid, Log)>,
    d: Dump,
)
    requires
        d.media@.len() == spec_selected(rows, items).len(),
        forall|k: int|
            0 <= k < d.media@.len() ==> spec_record_of(
                rows,
                items,
                tags,
                logs,
                spec_selected(rows, items)[k],
                #[trigger] d.media@[k],
            ),
        forall|a: int, b: int|
            0 <= a < logs.len() && 0 <= b < logs.len() && (#[trigger] logs[a]).1.id == (
            #[trigger] logs[b]).1.id ==> a == b,
        spec_distinct_systems(d.games.systems@),
        spec_distinct_copies(d.games.copies@),
        spec_distinct_extras(d.games.extras@),
    ensures
        forall|k: int|
            0 <= k < d.media@.len() ==> spec_restored(
                spec_run(Map::<Key, Insert>::empty(), spec_plan(d)),
                #[trigger] d.media@[k],
            ),
        forall|k: int|
            0 <= k < d.games.systems@.len() ==> spec_system_restored(
                spec_run(Map::<Key, Insert>::empty(), spec_plan(d)),
                #[trigger] d.games.systems@[k],
            ),
        forall|k: int|
            0 <= k < d.games.copies@.len() ==> spec_copy_restored(
                spec_run(Map::<Key, Insert>::empty(), spec_plan(d)),
                #[trigger] d.games.copies@[k],
            ),
        forall|k: int|
            0 <= k < d.games.extras@.len() ==> spec_extra_restored(
                spec_run(Map::<Key, Insert>::empty(), spec_plan(d)),
                #[trigger] d.games.extras@[k],
            ),
        spec_keyed(spec_run(Map::<Key, Insert>::empty(), spec_plan(d))),
        forall|k: Key|
            #[trigger] spec_run(Map::<Key, Insert>::empty(), spec_plan(d)).dom().contains(k) ==> spec_dumped(d, k),
{
    let rs = d.media@;
    assert(spec_keyed(Map::<Key, Insert>::empty()));
    lemma_run_keyed(Map::<Key, Insert>::empty(), spec_plan(d));
    assert forall|k: Key| #[trigger] spec_run(Map::<Key, Insert>::empty(), spec_plan(d)).dom().contains(k) implies spec_dumped(d, k) by {
        lemma_load_only_dumped(d, k);
    }
    lemma_dump_records_distinct(rows, items, tags, logs, rs);
    lemma_records_restored(rs);
    let e = Map::<Key, Insert>::empty();
    let media = spec_media_rows(rs);
    let sys = spec_systems_rows(d.games.systems@);
    let cop = spec_copies_rows(d.games.copies@);
    let ext = spec_extras_rows(d.games.extras@);
    let t0 = spec_run(e, media);
    let t1 = spec_run(t0, sys);
    let t2 = spec_run(t1, cop);
    let t3 = spec_run(t2, ext);
    lemma_run_append(e, media, sys);
    lemma_run_append(e, media + sys, cop);
    lemma_run_append(e, media + sys + cop, ext);
    assert(spec_run(e, spec_plan(d)) == t3);
    // What each stage of the load may already hold.
    assert forall|k: Key| #[trigger] t0.dom().contains(k) implies !(k is System) && !(k is SystemGame)
        && !(k is Copies) && !(k is CopyGame) && !(k is Extra) && !(k is ExtraGame) by {
        lemma_run_from(e, media, k);
        let j = choose|j: int| 0 <= j < media.len() && spec_key(#[trigger] media[j]) == k;
        lemma_media_rows_owned(rs, j);
    }
    assert forall|k: Key| #[trigger] t1.dom().contains(k) implies !(k is Copies) && !(k is CopyGame)
        && !(k is Extra) && !(k is ExtraGame) by {
        lemma_run_from(t0, sys, k);
        if !t0.dom().contains(k) {
            let j = choose|j: int| 0 <= j < sys.len() && spec_key(#[trigger] sys[j]) == k;
            lemma_systems_rows_owned(d.games.systems@, j);
        }
    }
    assert forall|k: Key| #[trigger] t2.dom().contains(k) implies !(k is Extra) && !(k is ExtraGame) by {
        lemma_run_from(t1, cop, k);
        if !t1.dom().contains(k) {
            let j = choose|j: int| 0 <= j < cop.len() && spec_key(#[trigger] cop[j]) == k;
            lemma_copies_rows_owned(d.games.copies@, j);
        }
    }
    lemma_systems_restored(t0, d.games.systems@);
    lemma_copies_restored(t1, d.games.copies@);
    lemma_extras_restored(t2, d.games.extras@);
    assert forall|k: int| 0 <= k < rs.len() implies spec_restored(t3, #[trigger] rs[k]) by {
        lemma_restored_keeps(t0, sys, rs[k]);
        lemma_restored_keeps(t1, cop, rs[k]);
        lemma_restored_keeps(t2, ext, rs[k]);
    }
    assert forall|k: int| 0 <= k < d.games.systems@.len() implies spec_system_restored(t3, #[trigger] d.games.systems@[k]) by {
        lemma_system_restored_keeps(t1, cop, d.games.systems@[k]);
        lemma_system_restored_keeps(t2, ext, d.games.systems@[k]);
    }
    assert forall|k: int| 0 <= k < d.games.copies@.len() implies spec_copy_restored(t3, #[trigger] d.games.copies@[k]) by {
        lemma_copy_restored_keeps(t2, ext, d.games.copies@[k]);
    }
}

/// The records a dump carries, built as `db::assemble` builds them, have
/// distinct identifiers, and their activity logs distinct identifiers when
/// the logs read do.
proof fn lemma_dump_records_distinct(
    rows: Seq<MediaRow>,
    items: Seq<Item>,
    tags: Seq<(Uuid, String)>,
    logs: Seq<(Uuid, Log)>,
    rs: Seq<Record<Item>>,
)
    requires
        rs.len() == spec_selected(rows, items).len(),
        forall|k: int|
            0 <= k < rs.len() ==> spec_record_of(
                rows,
                items,
                tags,
                logs,
                spec_selected(rows, items)[k],
                #[trigger] rs[k],
            ),
        forall|a: int, b: int|
            0 <= a < logs.len() && 0 <= b < logs.len() && (#[trigger] logs[a]).1.id == (
            #[trigger] logs[b]).1.id ==> a == b,
    ensures
        spec_distinct_ids(rs),
        spec_distinct_logs(rs),
{
    let sel = spec_selected(rows, items);
    lemma_selected(rows, items);
    let ids = rows.map_values(|r: MediaRow| r.0);
    assert forall|k: int| 0 <= k < rs.len() implies (#[trigger] rs[k]).item.spec_id() == rows[sel[k]].0 by {
        assert(spec_record_of(rows, items, tags, logs, sel[k], rs[k]));
        lemma_last_item_id(items, rows[sel[k]].0);
    }
    assert forall|a: int, b: int|
        0 <= a < rs.len() && 0 <= b < rs.len() && #[trigger] rs[a].item.spec_id()
            == #[trigger] rs[b].item.spec_id() implies a == b by {
        assert(rs[a].item.spec_id() == rows[sel[a]].0);
        assert(rs[b].item.spec_id() == rows[sel[b]].0);
        if a < b {
            assert(sel[a] < sel[b]);
            assert(spec_first_at(ids, sel[b]));
            assert(ids[sel[a]] == rows[sel[a]].0);
        } else if b < a {
            assert(sel[b] < sel[a]);
            assert(spec_first_at(ids, sel[a]));
            assert(ids[sel[b]] == rows[sel[b]].0);
        }
    }
    assert forall|a: int, b: int, m1: int, m2: int|
        0 <= a < rs.len() && 0 <= b < rs.len() && 0 <= m1 < rs[a].logs@.len() && 0 <= m2
            < rs[b].logs@.len() && (#[trigger] rs[a].logs@[m1]).id == (#[trigger] rs[b].logs@[m2]).id
        implies a == b && m1 == m2 by {
        assert(spec_record_of(rows, items, tags, logs, sel[a], rs[a]));
        assert(spec_record_of(rows, items, tags, logs, sel[b], rs[b]));
        let ia = rows[sel[a]].0;
        let ib = rows[sel[b]].0;
        lemma_source(logs, ia);
        lemma_source(logs, ib);
        let pa = spec_source(logs, ia, m1);
        let pb = spec_source(logs, ib, m2);
        assert(logs[pa].1 == rs[a].logs@[m1]);
        assert(logs[pb].1 == rs[b].logs@[m2]);
        assert(pa == pb);
        assert(rs[a].item.spec_id() == ia);
        assert(rs[b].item.spec_id() == ib);
        if m1 < m2 {
            assert(spec_source(logs, ia, m1) < spec_source(logs, ia, m2));
        } else if m2 < m1 {
            assert(spec_source(logs, ia, m2) < spec_source(logs, ia, m1));
        }
    }
}

} // verus!
