//! JSON load format: the rows a dump inserts, and what they do to the
//! tables.

use vstd::prelude::*;

use crate::exe::dump::fmt::json::Dump;
use crate::game::{copies, extras, systems};
use crate::item::{Item, Kind, Record};
use crate::logs::Log;
use crate::uuid::Uuid;

verus! {

/// A row inserted by a load; a row whose primary key is already present is
/// skipped.
pub enum Insert {
    /// A row of the media table.
    Media { id: Uuid, kind: Kind, created: i64, updated: i64 },
    /// A row of the table of the item's kind.
    Item(Item),
    /// A tag of a media item.
    Tag { media: Uuid, label: String },
    /// An activity log of a media item.
    Log { media: Uuid, log: Log },
    /// A game console.
    System(systems::Row),
    /// A game included with a console, at its position.
    SystemGame { system: Uuid, game: Uuid, idx: i64 },
    /// A game copy.
    Copies(copies::Row),
    /// A game included in a copy, at its position.
    CopyGame { copy: Uuid, game: Uuid, idx: i64 },
    /// A game accessory.
    Extra(extras::Extras),
    /// A game an accessory goes with, at its position.
    ExtraGame { extra: Uuid, game: Uuid, idx: i64 },
}

/// Stored position of the `i`-th game of a list, saturating at `i64::MAX`.
pub open spec fn spec_index(i: int) -> i64 {
    if i <= i64::MAX {
        i as i64
    } else {
        i64::MAX
    }
}

/// Stored position of the `i`-th game of a list.
pub fn index(i: usize) -> (r: i64)
    ensures
        r == spec_index(i as int),
{
    let v: u64 = i as u64;
    if v <= 0x7fff_ffff_ffff_ffffu64 {
        v as i64
    } else {
        i64::MAX
    }
}

/// Rows inserted for one media record: its media row, its item, its tags
/// and its logs.
pub open spec fn spec_record_rows(r: Record<Item>) -> Seq<Insert> {
    let id = r.item.spec_id();
    seq![
        Insert::Media { id, kind: r.item.spec_kind(), created: r.meta.created, updated: r.meta.updated },
        Insert::Item(r.item),
    ] + r.tags@.map_values(|l: String| Insert::Tag { media: id, label: l }) + r.logs@.map_values(
        |g: Log| Insert::Log { media: id, log: g },
    )
}

/// Rows inserted for the media records, record by record.
pub open spec fn spec_media_rows(rs: Seq<Record<Item>>) -> Seq<Insert>
    decreases rs.len(),
{
    if rs.len() == 0 {
        Seq::empty()
    } else {
        spec_media_rows(rs.drop_last()) + spec_record_rows(rs.last())
    }
}

/// Rows inserted for a console: the console, then its games in order.
pub open spec fn spec_system_rows(d: systems::Data) -> Seq<Insert> {
    seq![Insert::System(d.row)] + Seq::new(
        d.game@.len(),
        |i: int| Insert::SystemGame { system: d.row.id, game: d.game@[i], idx: spec_index(i) },
    )
}

/// Rows inserted for a copy: the copy, then its games in order.
pub open spec fn spec_copy_rows(d: copies::Data) -> Seq<Insert> {
    seq![Insert::Copies(d.row)] + Seq::new(
        d.game@.len(),
        |i: int| Insert::CopyGame { copy: d.row.id, game: d.game@[i], idx: spec_index(i) },
    )
}

/// Rows inserted for an accessory: the accessory, then its games in order.
pub open spec fn spec_extra_rows(d: extras::Data) -> Seq<Insert> {
    seq![Insert::Extra(d.row)] + Seq::new(
        d.game@.len(),
        |i: int| Insert::ExtraGame { extra: d.row.id, game: d.game@[i], idx: spec_index(i) },
    )
}

/// Rows inserted for the consoles, console by console.
pub open spec fn spec_systems_rows(ds: Seq<systems::Data>) -> Seq<Insert>
    decreases ds.len(),
{
    if ds.len() == 0 {
        Seq::empty()
    } else {
        spec_systems_rows(ds.drop_last()) + spec_system_rows(ds.last())
    }
}

/// Rows inserted for the copies, copy by copy.
pub open spec fn spec_copies_rows(ds: Seq<copies::Data>) -> Seq<Insert>
    decreases ds.len(),
{
    if ds.len() == 0 {
        Seq::empty()
    } else {
        spec_copies_rows(ds.drop_last()) + spec_copy_rows(ds.last())
    }
}

/// Rows inserted for the accessories, accessory by accessory.
pub open spec fn spec_extras_rows(ds: Seq<extras::Data>) -> Seq<Insert>
    decreases ds.len(),
{
    if ds.len() == 0 {
        Seq::empty()
    } else {
        spec_extras_rows(ds.drop_last()) + spec_extra_rows(ds.last())
    }
}

/// Every row a dump inserts, in the order they are inserted.
pub open spec fn spec_plan(d: Dump) -> Seq<Insert> {
    spec_media_rows(d.media@) + spec_systems_rows(d.games.systems@) + spec_copies_rows(
        d.games.copies@,
    ) + spec_extras_rows(d.games.extras@)
}

/// Appends the rows inserted for one media record.
fn push_record(out: &mut Vec<Insert>, rec: Record<Item>)
    ensures
        final(out)@ == old(out)@ + spec_record_rows(rec),
{
    let ghost start = out@;
    let ghost whole = rec;
    let id = rec.item.id();
    let kind = rec.item.kind();
    out.push(Insert::Media { id, kind, created: rec.meta.created, updated: rec.meta.updated });
    out.push(Insert::Item(rec.item));
    let ghost head = out@;
    let tags = rec.tags;
    let logs = rec.logs;
    let mut i: usize = 0;
    while i < tags.len()
        invariant
            i <= tags@.len(),
            tags@ == whole.tags@,
            out@ == head + whole.tags@.take(i as int).map_values(|l: String| Insert::Tag { media: id, label: l }),
        decreases tags@.len() - i,
    {
        out.push(Insert::Tag { media: id, label: tags[i].clone() });
        assert(whole.tags@.take(i + 1).map_values(|l: String| Insert::Tag { media: id, label: l })
            =~= whole.tags@.take(i as int).map_values(|l: String| Insert::Tag { media: id, label: l }).push(
            Insert::Tag { media: id, label: tags@[i as int] },
        ));
        i = i + 1;
    }
    assert(whole.tags@.take(tags@.len() as int) =~= whole.tags@);
    let ghost mid = out@;
    let mut j: usize = 0;
    while j < logs.len()
        invariant
            j <= logs@.len(),
            logs@ == whole.logs@,
            out@ == mid + whole.logs@.take(j as int).map_values(|g: Log| Insert::Log { media: id, log: g }),
        decreases logs@.len() - j,
    {
        out.push(Insert::Log { media: id, log: logs[j] });
        assert(whole.logs@.take(j + 1).map_values(|g: Log| Insert::Log { media: id, log: g })
            =~= whole.logs@.take(j as int).map_values(|g: Log| Insert::Log { media: id, log: g }).push(
            Insert::Log { media: id, log: logs@[j as int] },
        ));
        j = j + 1;
    }
    assert(whole.logs@.take(logs@.len() as int) =~= whole.logs@);
    assert(out@ =~= start + spec_record_rows(whole));
}

/// Appends the rows inserted for one console.
fn push_system(out: &mut Vec<Insert>, d: systems::Data)
    ensures
        final(out)@ == old(out)@ + spec_system_rows(d),
{
    let ghost start = out@;
    let ghost whole = d;
    let owner = d.row.id;
    out.push(Insert::System(d.row));
    let ghost head = out@;
    let game = d.game;
    let mut i: usize = 0;
    while i < game.len()
        invariant
            i <= game@.len(),
            game@ == whole.game@,
            owner == whole.row.id,
            out@ == head + Seq::new(i as nat, |k: int| Insert::SystemGame { system: owner, game: game@[k], idx: spec_index(k) }),
        decreases game@.len() - i,
    {
        let idx = index(i);
        out.push(Insert::SystemGame { system: owner, game: game[i], idx });
        assert(Seq::new((i + 1) as nat, |k: int| Insert::SystemGame { system: owner, game: game@[k], idx: spec_index(k) })
            =~= Seq::new(i as nat, |k: int| Insert::SystemGame { system: owner, game: game@[k], idx: spec_index(k) }).push(
            Insert::SystemGame { system: owner, game: game@[i as int], idx: spec_index(i as int) },
        ));
        i = i + 1;
    }
    assert(out@ =~= start + spec_system_rows(whole));
}

/// Appends the rows inserted for one copy.
fn push_copy(out: &mut Vec<Insert>, d: copies::Data)
    ensures
        final(out)@ == old(out)@ + spec_copy_rows(d),
{
    let ghost start = out@;
    let ghost whole = d;
    let owner = d.row.id;
    out.push(Insert::Copies(d.row));
    let ghost head = out@;
    let game = d.game;
    let mut i: usize = 0;
    while i < game.len()
        invariant
            i <= game@.len(),
            game@ == whole.game@,
            owner == whole.row.id,
            out@ == head + Seq::new(i as nat, |k: int| Insert::CopyGame { copy: owner, game: game@[k], idx: spec_index(k) }),
        decreases game@.len() - i,
    {
        let idx = index(i);
        out.push(Insert::CopyGame { copy: owner, game: game[i], idx });
        assert(Seq::new((i + 1) as nat, |k: int| Insert::CopyGame { copy: owner, game: game@[k], idx: spec_index(k) })
            =~= Seq::new(i as nat, |k: int| Insert::CopyGame { copy: owner, game: game@[k], idx: spec_index(k) }).push(
            Insert::CopyGame { copy: owner, game: game@[i as int], idx: spec_index(i as int) },
        ));
        i = i + 1;
    }
    assert(out@ =~= start + spec_copy_rows(whole));
}

/// Appends the rows inserted for one accessory.
fn push_extra(out: &mut Vec<Insert>, d: extras::Data)
    ensures
        final(out)@ == old(out)@ + spec_extra_rows(d),
{
    let ghost start = out@;
    let ghost whole = d;
    let owner = d.row.id;
    out.push(Insert::Extra(d.row));
    let ghost head = out@;
    let game = d.game;
    let mut i: usize = 0;
    while i < game.len()
        invariant
            i <= game@.len(),
            game@ == whole.game@,
            owner == whole.row.id,
            out@ == head + Seq::new(i as nat, |k: int| Insert::ExtraGame { extra: owner, game: game@[k], idx: spec_index(k) }),
        decreases game@.len() - i,
    {
        let idx = index(i);
        out.push(Insert::ExtraGame { extra: owner, game: game[i], idx });
        assert(Seq::new((i + 1) as nat, |k: int| Insert::ExtraGame { extra: owner, game: game@[k], idx: spec_index(k) })
            =~= Seq::new(i as nat, |k: int| Insert::ExtraGame { extra: owner, game: game@[k], idx: spec_index(k) }).push(
            Insert::ExtraGame { extra: owner, game: game@[i as int], idx: spec_index(i as int) },
        ));
        i = i + 1;
    }
    assert(out@ =~= start + spec_extra_rows(whole));
}

/// Appends the rows inserted for the media records.
fn push_all_media(out: &mut Vec<Insert>, ds: Vec<Record<Item>>)
    ensures
        final(out)@ == old(out)@ + spec_media_rows(ds@),
{
    let ghost start = out@;
    let ghost orig = ds@;
    let n = ds.len();
    let mut ds = ds;
    let mut k: usize = 0;
    while ds.len() > 0
        invariant
            k <= orig.len(),
            n == orig.len(),
            k + ds@.len() == n,
            ds@ == orig.skip(k as int),
            out@ == start + spec_media_rows(orig.take(k as int)),
        decreases ds@.len(),
    {
        let d = ds.remove(0);
        assert(orig.skip(k as int)[0] == orig[k as int]);
        assert(orig.take(k + 1).drop_last() =~= orig.take(k as int));
        push_record(out, d);
        k = k + 1;
        assert(ds@ =~= orig.skip(k as int));
    }
    assert(orig.take(k as int) =~= orig);
}

/// Appends the rows inserted for the consoles.
fn push_all_systems(out: &mut Vec<Insert>, ds: Vec<systems::Data>)
    ensures
        final(out)@ == old(out)@ + spec_systems_rows(ds@),
{
    let ghost start = out@;
    let ghost orig = ds@;
    let n = ds.len();
    let mut ds = ds;
    let mut k: usize = 0;
    while ds.len() > 0
        invariant
            k <= orig.len(),
            n == orig.len(),
            k + ds@.len() == n,
            ds@ == orig.skip(k as int),
            out@ == start + spec_systems_rows(orig.take(k as int)),
        decreases ds@.len(),
    {
        let d = ds.remove(0);
        assert(orig.skip(k as int)[0] == orig[k as int]);
        assert(orig.take(k + 1).drop_last() =~= orig.take(k as int));
        push_system(out, d);
        k = k + 1;
        assert(ds@ =~= orig.skip(k as int));
    }
    assert(orig.take(k as int) =~= orig);
}

/// Appends the rows inserted for the copies.
fn push_all_copies(out: &mut Vec<Insert>, ds: Vec<copies::Data>)
    ensures
        final(out)@ == old(out)@ + spec_copies_rows(ds@),
{
    let ghost start = out@;
    let ghost orig = ds@;
    let n = ds.len();
    let mut ds = ds;
    let mut k: usize = 0;
    while ds.len() > 0
        invariant
            k <= orig.len(),
            n == orig.len(),
            k + ds@.len() == n,
            ds@ == orig.skip(k as int),
            out@ == start + spec_copies_rows(orig.take(k as int)),
        decreases ds@.len(),
    {
        let d = ds.remove(0);
        assert(orig.skip(k as int)[0] == orig[k as int]);
        assert(orig.take(k + 1).drop_last() =~= orig.take(k as int));
        push_copy(out, d);
        k = k + 1;
        assert(ds@ =~= orig.skip(k as int));
    }
    assert(orig.take(k as int) =~= orig);
}

/// Appends the rows inserted for the accessories.
fn push_all_extras(out: &mut Vec<Insert>, ds: Vec<extras::Data>)
    ensures
        final(out)@ == old(out)@ + spec_extras_rows(ds@),
{
    let ghost start = out@;
    let ghost orig = ds@;
    let n = ds.len();
    let mut ds = ds;
    let mut k: usize = 0;
    while ds.len() > 0
        invariant
            k <= orig.len(),
            n == orig.len(),
            k + ds@.len() == n,
            ds@ == orig.skip(k as int),
            out@ == start + spec_extras_rows(orig.take(k as int)),
        decreases ds@.len(),
    {
        let d = ds.remove(0);
        assert(orig.skip(k as int)[0] == orig[k as int]);
        assert(orig.take(k + 1).drop_last() =~= orig.take(k as int));
        push_extra(out, d);
        k = k + 1;
        assert(ds@ =~= orig.skip(k as int));
    }
    assert(orig.take(k as int) =~= orig);
}

/// Every row a dump inserts, in the order they are inserted: each media
/// record (its media row, item, tags and logs), then each console, copy and
/// accessory with its games.
pub fn plan(dump: Dump) -> (r: Vec<Insert>)
    ensures
        r@ == spec_plan(dump),
{
    let ghost d = dump;
    let mut r: Vec<Insert> = Vec::new();
    push_all_media(&mut r, dump.media);
    push_all_systems(&mut r, dump.games.systems);
    push_all_copies(&mut r, dump.games.copies);
    push_all_extras(&mut r, dump.games.extras);
    assert(r@ =~= spec_plan(d));
    r
}

/// Primary key of an inserted row, in the table it goes to.
pub enum Key {
    /// Media table, by identifier.
    Media(Uuid),
    /// Books table, by identifier.
    Book(Uuid),
    /// Films table, by identifier.
    Film(Uuid),
    /// Games table, by identifier.
    Game(Uuid),
    /// Links table, by identifier.
    Link(Uuid),
    /// Shows table, by identifier.
    Show(Uuid),
    /// Tags table, by media and label.
    Tag(Uuid, Seq<char>),
    /// Logs table, by identifier.
    Log(Uuid),
    /// Consoles table, by identifier.
    System(Uuid),
    /// Console games table, by console and game.
    SystemGame(Uuid, Uuid),
    /// Copies table, by identifier.
    Copies(Uuid),
    /// Copy games table, by copy and game.
    CopyGame(Uuid, Uuid),
    /// Accessories table, by identifier.
    Extra(Uuid),
    /// Accessory games table, by accessory and game.
    ExtraGame(Uuid, Uuid),
}

/// Primary key of an inserted row.
pub open spec fn spec_key(i: Insert) -> Key {
    match i {
        Insert::Media { id, .. } => Key::Media(id),
        Insert::Item(item) => match item {
            Item::Book(b) => Key::Book(b.id),
            Item::Film(f) => Key::Film(f.id),
            Item::Game(g) => Key::Game(g.id),
            Item::Link(l) => Key::Link(l.id),
            Item::Show(x) => Key::Show(x.id),
        },
        Insert::Tag { media, label } => Key::Tag(media, label@),
        Insert::Log { log, .. } => Key::Log(log.id),
        Insert::System(row) => Key::System(row.id),
        Insert::SystemGame { system, game, .. } => Key::SystemGame(system, game),
        Insert::Copies(row) => Key::Copies(row.id),
        Insert::CopyGame { copy, game, .. } => Key::CopyGame(copy, game),
        Insert::Extra(row) => Key::Extra(row.id),
        Insert::ExtraGame { extra, game, .. } => Key::ExtraGame(extra, game),
    }
}

/// The tables, as a map from primary key to stored row, after one insert:
/// the row is added unless a row with its key is present.
pub open spec fn spec_insert(t: Map<Key, Insert>, i: Insert) -> Map<Key, Insert> {
    if t.dom().contains(spec_key(i)) {
        t
    } else {
        t.insert(spec_key(i), i)
    }
}

/// The tables after the inserts, in order.
pub open spec fn spec_run(t: Map<Key, Insert>, p: Seq<Insert>) -> Map<Key, Insert>
    decreases p.len(),
{
    if p.len() == 0 {
        t
    } else {
        spec_insert(spec_run(t, p.drop_last()), p.last())
    }
}

/// Inserting never removes or changes a stored row.
pub(crate) proof fn lemma_run_keeps(t: Map<Key, Insert>, p: Seq<Insert>, k: Key)
    requires
        t.dom().contains(k),
    ensures
        spec_run(t, p).dom().contains(k),
        spec_run(t, p)[k] == t[k],
    decreases p.len(),
{
    if p.len() > 0 {
        lemma_run_keeps(t, p.drop_last(), k);
    }
}

/// After the inserts, a row with each of their keys is stored.
pub(crate) proof fn lemma_run_covers(t: Map<Key, Insert>, p: Seq<Insert>, i: int)
    requires
        0 <= i < p.len(),
    ensures
        spec_run(t, p).dom().contains(spec_key(p[i])),
    decreases p.len(),
{
    if i < p.len() - 1 {
        lemma_run_covers(t, p.drop_last(), i);
        assert(p.drop_last()[i] == p[i]);
    }
}

/// Inserts whose keys are all stored change nothing.
proof fn lemma_run_present(t: Map<Key, Insert>, p: Seq<Insert>)
    requires
        forall|i: int| 0 <= i < p.len() ==> t.dom().contains(#[trigger] spec_key(p[i])),
    ensures
        spec_run(t, p) == t,
    decreases p.len(),
{
    if p.len() > 0 {
        assert forall|i: int| 0 <= i < p.drop_last().len() implies t.dom().contains(
            #[trigger] spec_key(p.drop_last()[i]),
        ) by {
            assert(p.drop_last()[i] == p[i]);
        }
        lemma_run_present(t, p.drop_last());
        assert(t.dom().contains(spec_key(p[p.len() - 1])));
    }
}

/// A row is stored after the inserts only if it was stored before or one
/// of the inserts has its key.
pub(crate) proof fn lemma_run_from(t: Map<Key, Insert>, p: Seq<Insert>, k: Key)
    requires
        spec_run(t, p).dom().contains(k),
    ensures
        t.dom().contains(k) || exists|j: int| 0 <= j < p.len() && spec_key(#[trigger] p[j]) == k,
    decreases p.len(),
{
    if p.len() > 0 {
        let q = p.drop_last();
        if spec_run(t, q).dom().contains(k) {
            lemma_run_from(t, q, k);
            if !t.dom().contains(k) {
                let j = choose|j: int| 0 <= j < q.len() && spec_key(#[trigger] q[j]) == k;
                assert(p[j] == q[j]);
            }
        } else {
            assert(spec_key(p[p.len() - 1]) == k);
        }
    }
}

/// After the inserts, the row stored under the key of insert `i` is that
/// insert's row, when no row with its key was stored before and no earlier
/// insert has its key.
pub(crate) proof fn lemma_run_first(t: Map<Key, Insert>, p: Seq<Insert>, i: int)
    requires
        0 <= i < p.len(),
        !t.dom().contains(spec_key(p[i])),
        forall|j: int| 0 <= j < i ==> spec_key(#[trigger] p[j]) != spec_key(p[i]),
    ensures
        spec_run(t, p).dom().contains(spec_key(p[i])),
        spec_run(t, p)[spec_key(p[i])] == p[i],
    decreases p.len(),
{
    let q = p.drop_last();
    let k = spec_key(p[i]);
    if i == p.len() - 1 {
        if spec_run(t, q).dom().contains(k) {
            lemma_run_from(t, q, k);
            let j = choose|j: int| 0 <= j < q.len() && spec_key(#[trigger] q[j]) == k;
            assert(p[j] == q[j]);
        }
    } else {
        assert(q[i] == p[i]);
        assert forall|j: int| 0 <= j < i implies spec_key(#[trigger] q[j]) != spec_key(q[i]) by {
            assert(q[j] == p[j]);
        }
        lemma_run_first(t, q, i);
    }
}

/// Running the same inserts a second time changes nothing.
pub proof fn lemma_run_twice(t: Map<Key, Insert>, p: Seq<Insert>)
    ensures
        spec_run(spec_run(t, p), p) == spec_run(t, p),
{
    assert forall|i: int| 0 <= i < p.len() implies spec_run(t, p).dom().contains(
        #[trigger] spec_key(p[i]),
    ) by {
        lemma_run_covers(t, p, i);
    }
    lemma_run_present(spec_run(t, p), p);
}

/// Loading the same dump twice leaves the tables as loading it once:
/// existing rows are left untouched, so the second load inserts nothing.
pub proof fn lemma_load_twice(t: Map<Key, Insert>, d: Dump)
    ensures
        spec_run(spec_run(t, spec_plan(d)), spec_plan(d)) == spec_run(t, spec_plan(d)),
{
    lemma_run_twice(t, spec_plan(d));
}

/// A load leaves every row that was stored before it as it was.
pub proof fn lemma_load_keeps(t: Map<Key, Insert>, d: Dump, k: Key)
    requires
        t.dom().contains(k),
    ensures
        spec_run(t, spec_plan(d)).dom().contains(k),
        spec_run(t, spec_plan(d))[k] == t[k],
{
    lemma_run_keeps(t, spec_plan(d), k);
}

/// A load stores each row of the dump whose key no stored row and no
/// earlier row of the dump has: reading that key back gives the row.
pub proof fn lemma_load_stores(t: Map<Key, Insert>, d: Dump, i: int)
    requires
        0 <= i < spec_plan(d).len(),
        !t.dom().contains(spec_key(spec_plan(d)[i])),
        forall|j: int| 0 <= j < i ==> spec_key(#[trigger] spec_plan(d)[j]) != spec_key(spec_plan(d)[i]),
    ensures
        spec_run(t, spec_plan(d)).dom().contains(spec_key(spec_plan(d)[i])),
        spec_run(t, spec_plan(d))[spec_key(spec_plan(d)[i])] == spec_plan(d)[i],
{
    lemma_run_first(t, spec_plan(d), i);
}

/// A position is stored as itself; one beyond `i64::MAX` as `i64::MAX`.
pub proof fn lemma_index_value(i: int)
    requires
        0 <= i,
    ensures
        i <= i64::MAX ==> spec_index(i) == i,
        i > i64::MAX ==> spec_index(i) == i64::MAX,
{
}

} // verus!
