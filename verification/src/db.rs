//! Rows read from the database, grouped into records.

use vstd::prelude::*;

use crate::item::{duplicate_item, spec_kind_parse, Item, Kind, Meta, Record};
use crate::logs::Log;
use crate::uuid::Uuid;

verus! {

/// The values paired with a key, in the order of the pairs.
pub open spec fn spec_values_for<V>(pairs: Seq<(Uuid, V)>, k: Uuid) -> Seq<V>
    decreases pairs.len(),
{
    if pairs.len() == 0 {
        Seq::empty()
    } else {
        let rest = spec_values_for(pairs.drop_last(), k);
        if pairs.last().0 == k {
            rest.push(pairs.last().1)
        } else {
            rest
        }
    }
}

/// The values for a key are those of exactly the pairs holding that key,
/// each once and in the order the pairs come.
pub proof fn lemma_values_for_filter<V>(pairs: Seq<(Uuid, V)>, k: Uuid)
    ensures
        spec_values_for(pairs, k) == pairs.filter(|p: (Uuid, V)| p.0 == k).map_values(
            |p: (Uuid, V)| p.1,
        ),
    decreases pairs.len(),
{
    reveal(Seq::filter);
    let pred = |p: (Uuid, V)| p.0 == k;
    if pairs.len() > 0 {
        lemma_values_for_filter(pairs.drop_last(), k);
        let sub = pairs.drop_last().filter(pred);
        if pairs.last().0 == k {
            assert(pairs.filter(pred) == sub.push(pairs.last()));
            assert(sub.push(pairs.last()).map_values(|p: (Uuid, V)| p.1) =~= sub.map_values(
                |p: (Uuid, V)| p.1,
            ).push(pairs.last().1));
        } else {
            assert(pairs.filter(pred) == sub);
        }
    } else {
        assert(pairs.filter(pred).map_values(|p: (Uuid, V)| p.1) =~= Seq::<V>::empty());
    }
}

/// The labels paired with a key, in the order of the pairs.
pub fn labels_for(pairs: &Vec<(Uuid, String)>, k: Uuid) -> (r: Vec<String>)
    ensures
        r@ == spec_values_for(pairs@, k),
{
    let mut r: Vec<String> = Vec::new();
    let mut i: usize = 0;
    while i < pairs.len()
        invariant
            i <= pairs@.len(),
            r@ == spec_values_for(pairs@.take(i as int), k),
        decreases pairs@.len() - i,
    {
        assert(pairs@.take(i + 1).drop_last() =~= pairs@.take(i as int));
        if pairs[i].0 == k {
            r.push(pairs[i].1.clone());
        }
        i = i + 1;
    }
    assert(pairs@.take(pairs@.len() as int) =~= pairs@);
    r
}

/// The values paired with a key, in the order of the pairs.
pub fn values_for<V: Copy>(pairs: &Vec<(Uuid, V)>, k: Uuid) -> (r: Vec<V>)
    ensures
        r@ == spec_values_for(pairs@, k),
{
    let mut r: Vec<V> = Vec::new();
    let mut i: usize = 0;
    while i < pairs.len()
        invariant
            i <= pairs@.len(),
            r@ == spec_values_for(pairs@.take(i as int), k),
        decreases pairs@.len() - i,
    {
        assert(pairs@.take(i + 1).drop_last() =~= pairs@.take(i as int));
        if pairs[i].0 == k {
            r.push(pairs[i].1);
        }
        i = i + 1;
    }
    assert(pairs@.take(pairs@.len() as int) =~= pairs@);
    r
}

/// Whether no earlier key in the sequence equals the key at `i`.
pub open spec fn spec_first_at(keys: Seq<Uuid>, i: int) -> bool {
    forall|j: int| 0 <= j < i ==> keys[j] != keys[i]
}

/// Whether the key appears among the first `n` keys.
pub fn seen(keys: &Vec<Uuid>, n: usize, k: Uuid) -> (r: bool)
    requires
        n <= keys@.len(),
    ensures
        r == exists|j: int| 0 <= j < n && keys@[j] == k,
{
    let mut i: usize = 0;
    while i < n
        invariant
            n <= keys@.len(),
            i <= n,
            forall|j: int| 0 <= j < i ==> keys@[j] != k,
        decreases n - i,
    {
        if keys[i] == k {
            return true;
        }
        i = i + 1;
    }
    false
}

/// A media row: identifier, stored kind, created and updated times.
pub type MediaRow = (Uuid, String, i64, i64);

/// The identifiers of the media rows whose stored kind names `k`, in order.
pub open spec fn spec_ids_of(rows: Seq<MediaRow>, k: Kind) -> Seq<Uuid>
    decreases rows.len(),
{
    if rows.len() == 0 {
        Seq::empty()
    } else {
        let rest = spec_ids_of(rows.drop_last(), k);
        if spec_kind_parse(rows.last().1@) == Some(k) {
            rest.push(rows.last().0)
        } else {
            rest
        }
    }
}

/// The identifiers of a kind are those of exactly the rows naming that
/// kind, each once and in row order; a row of an unknown kind is in none.
pub proof fn lemma_ids_of_filter(rows: Seq<MediaRow>, k: Kind)
    ensures
        spec_ids_of(rows, k) == rows.filter(|r: MediaRow| spec_kind_parse(r.1@) == Some(k)).map_values(
            |r: MediaRow| r.0,
        ),
    decreases rows.len(),
{
    reveal(Seq::filter);
    let pred = |r: MediaRow| spec_kind_parse(r.1@) == Some(k);
    if rows.len() > 0 {
        lemma_ids_of_filter(rows.drop_last(), k);
        let sub = rows.drop_last().filter(pred);
        if pred(rows.last()) {
            assert(rows.filter(pred) == sub.push(rows.last()));
            assert(sub.push(rows.last()).map_values(|r: MediaRow| r.0) =~= sub.map_values(
                |r: MediaRow| r.0,
            ).push(rows.last().0));
        } else {
            assert(rows.filter(pred) == sub);
        }
    } else {
        assert(rows.filter(pred).map_values(|r: MediaRow| r.0) =~= Seq::<Uuid>::empty());
    }
}

/// Media identifiers split by the kind table that holds their item.
pub struct Partition {
    /// Reading items.
    pub book: Vec<Uuid>,
    /// Watched films.
    pub film: Vec<Uuid>,
    /// Video games.
    pub game: Vec<Uuid>,
    /// Web bookmarks.
    pub link: Vec<Uuid>,
    /// Television shows.
    pub show: Vec<Uuid>,
}

/// Splits media rows by kind; rows of an unknown kind go nowhere.
pub fn partition(rows: &Vec<MediaRow>) -> (p: Partition)
    ensures
        p.book@ == spec_ids_of(rows@, Kind::Book),
        p.film@ == spec_ids_of(rows@, Kind::Film),
        p.game@ == spec_ids_of(rows@, Kind::Game),
        p.link@ == spec_ids_of(rows@, Kind::Link),
        p.show@ == spec_ids_of(rows@, Kind::Show),
{
    let mut p = Partition {
        book: Vec::new(),
        film: Vec::new(),
        game: Vec::new(),
        link: Vec::new(),
        show: Vec::new(),
    };
    let mut i: usize = 0;
    while i < rows.len()
        invariant
            i <= rows@.len(),
            p.book@ == spec_ids_of(rows@.take(i as int), Kind::Book),
            p.film@ == spec_ids_of(rows@.take(i as int), Kind::Film),
            p.game@ == spec_ids_of(rows@.take(i as int), Kind::Game),
            p.link@ == spec_ids_of(rows@.take(i as int), Kind::Link),
            p.show@ == spec_ids_of(rows@.take(i as int), Kind::Show),
        decreases rows@.len() - i,
    {
        assert(rows@.take(i + 1).drop_last() =~= rows@.take(i as int));
        let id = rows[i].0;
        match Kind::parse(rows[i].1.as_str()) {
            Some(Kind::Book) => p.book.push(id),
            Some(Kind::Film) => p.film.push(id),
            Some(Kind::Game) => p.game.push(id),
            Some(Kind::Link) => p.link.push(id),
            Some(Kind::Show) => p.show.push(id),
            None => {},
        }
        i = i + 1;
    }
    assert(rows@.take(rows@.len() as int) =~= rows@);
    p
}

/// The last loaded item with the identifier, as a map keyed by identifier
/// keeps the last one inserted.
pub open spec fn spec_last_item(items: Seq<Item>, id: Uuid) -> Option<Item>
    decreases items.len(),
{
    if items.len() == 0 {
        None
    } else if items.last().spec_id() == id {
        Some(items.last())
    } else {
        spec_last_item(items.drop_last(), id)
    }
}

/// The item read for an identifier is the last one carrying it: none when
/// no item carries it, else an item with that identifier after which no
/// other item carries it.
pub proof fn lemma_last_item(items: Seq<Item>, id: Uuid)
    ensures
        spec_last_item(items, id) is None <==> (forall|i: int|
            0 <= i < items.len() ==> (#[trigger] items[i]).spec_id() != id),
        spec_last_item(items, id) matches Some(x) ==> exists|i: int|
            0 <= i < items.len() && #[trigger] items[i] == x && x.spec_id() == id && (forall|j: int|
                i < j < items.len() ==> (#[trigger] items[j]).spec_id() != id),
    decreases items.len(),
{
    if items.len() > 0 {
        let t = items.drop_last();
        lemma_last_item(t, id);
        let n = items.len() - 1;
        if items.last().spec_id() == id {
            assert(items[n] == items.last());
        } else {
            assert forall|i: int| 0 <= i < n implies items[i] == #[trigger] t[i] by {}
            if spec_last_item(t, id) is None {
                assert forall|i: int| 0 <= i < items.len() implies (#[trigger] items[i]).spec_id() != id by {
                    if i < n {
                        assert(items[i] == t[i]);
                    }
                }
            } else {
                let x = spec_last_item(t, id)->0;
                let i = choose|i: int|
                    0 <= i < t.len() && #[trigger] t[i] == x && x.spec_id() == id && (forall|j: int|
                        i < j < t.len() ==> (#[trigger] t[j]).spec_id() != id);
                assert(items[i] == t[i]);
                assert forall|j: int| i < j < items.len() implies (#[trigger] items[j]).spec_id() != id by {
                    if j < n {
                        assert(items[j] == t[j]);
                    }
                }
            }
        }
    }
}

/// The last loaded item with the identifier.
pub fn last_item(items: &Vec<Item>, id: Uuid) -> (r: Option<Item>)
    ensures
        r == spec_last_item(items@, id),
{
    let mut i: usize = items.len();
    assert(items@.take(items@.len() as int) =~= items@);
    while i > 0
        invariant
            i <= items@.len(),
            spec_last_item(items@, id) == spec_last_item(items@.take(i as int), id),
        decreases i,
    {
        assert(items@.take(i as int).drop_last() =~= items@.take(i - 1));
        if items[i - 1].id() == id {
            return Some(duplicate_item(&items[i - 1]));
        }
        i = i - 1;
    }
    None
}

/// The indices of the media rows that become records: the first row with a
/// given identifier, when an item with that identifier was loaded.
pub open spec fn spec_selected(rows: Seq<MediaRow>, items: Seq<Item>) -> Seq<int>
    decreases rows.len(),
{
    if rows.len() == 0 {
        Seq::empty()
    } else {
        let rest = spec_selected(rows.drop_last(), items);
        let i = rows.len() - 1;
        if spec_first_at(rows.map_values(|r: MediaRow| r.0), i)
            && spec_last_item(items, rows[i].0) is Some {
            rest.push(i)
        } else {
            rest
        }
    }
}

/// The records assembled from the media rows are those of the rows that
/// first name their identifier and whose item was read, in row order: each
/// such row gives one, and no other row does.
pub proof fn lemma_selected(rows: Seq<MediaRow>, items: Seq<Item>)
    ensures
        forall|k: int|
            0 <= k < spec_selected(rows, items).len() ==> {
                let i = #[trigger] spec_selected(rows, items)[k];
                &&& 0 <= i < rows.len()
                &&& spec_first_at(rows.map_values(|r: MediaRow| r.0), i)
                &&& spec_last_item(items, rows[i].0) is Some
            },
        forall|a: int, b: int|
            0 <= a < b < spec_selected(rows, items).len() ==> spec_selected(rows, items)[a]
                < spec_selected(rows, items)[b],
        forall|i: int|
            0 <= i < rows.len() && spec_first_at(rows.map_values(|r: MediaRow| r.0), i)
                && spec_last_item(items, rows[i].0) is Some ==> #[trigger] spec_selected(
                rows,
                items,
            ).contains(i),
    decreases rows.len(),
{
    if rows.len() > 0 {
        let t = rows.drop_last();
        let n = rows.len() - 1;
        let ids = rows.map_values(|r: MediaRow| r.0);
        let tids = t.map_values(|r: MediaRow| r.0);
        lemma_selected(t, items);
        let st = spec_selected(t, items);
        let sel = spec_selected(rows, items);
        assert forall|i: int| 0 <= i < n implies spec_first_at(tids, i) == spec_first_at(ids, i)
            && #[trigger] rows[i] == t[i] by {
            assert forall|j: int| 0 <= j < i implies tids[j] == ids[j] by {}
            assert(tids[i] == ids[i]);
        }
        assert forall|k: int| 0 <= k < sel.len() implies {
            let i = #[trigger] sel[k];
            &&& 0 <= i < rows.len()
            &&& spec_first_at(ids, i)
            &&& spec_last_item(items, rows[i].0) is Some
        } by {
            if k < st.len() {
                assert(sel[k] == st[k]);
                assert(rows[st[k]] == t[st[k]]);
            }
        }
        assert forall|a: int, b: int| 0 <= a < b < sel.len() implies sel[a] < sel[b] by {
            if b < st.len() {
                assert(sel[a] == st[a] && sel[b] == st[b]);
            } else {
                assert(sel[a] == st[a]);
            }
        }
        assert forall|i: int|
            0 <= i < rows.len() && spec_first_at(ids, i) && spec_last_item(items, rows[i].0)
                is Some implies #[trigger] sel.contains(i) by {
            if i < n {
                assert(rows[i] == t[i]);
                assert(st.contains(i));
                let k = choose|k: int| 0 <= k < st.len() && st[k] == i;
                assert(sel[k] == i);
            } else {
                assert(sel[sel.len() - 1] == i);
            }
        }
    }
}

/// The record built for media row `i`.
pub open spec fn spec_record_of(
    rows: Seq<MediaRow>,
    items: Seq<Item>,
    tags: Seq<(Uuid, String)>,
    logs: Seq<(Uuid, Log)>,
    i: int,
    r: Record<Item>,
) -> bool {
    let id = rows[i].0;
    &&& spec_last_item(items, id) == Some(r.item)
    &&& r.meta == (Meta { created: rows[i].2, updated: rows[i].3 })
    &&& r.tags@ == spec_values_for(tags, id)
    &&& r.logs@ == spec_values_for(logs, id)
}

/// Builds the records of the media rows, in row order, from the items, tags
/// and logs loaded for them.
///
/// Each identifier becomes at most one record, at its first row; a row
/// whose item was not loaded becomes none. A record holds every tag and log
/// of its identifier, in the order given.
pub fn assemble(
    rows: &Vec<MediaRow>,
    items: &Vec<Item>,
    tags: &Vec<(Uuid, String)>,
    logs: &Vec<(Uuid, Log)>,
) -> (r: Vec<Record<Item>>)
    ensures
        r@.len() == spec_selected(rows@, items@).len(),
        forall|k: int|
            0 <= k < r@.len() ==> spec_record_of(
                rows@,
                items@,
                tags@,
                logs@,
                #[trigger] spec_selected(rows@, items@)[k],
                r@[k],
            ),
{
    let mut ids: Vec<Uuid> = Vec::new();
    let mut r: Vec<Record<Item>> = Vec::new();
    let mut i: usize = 0;
    while i < rows.len()
        invariant
            i <= rows@.len(),
            ids@ == rows@.take(i as int).map_values(|x: MediaRow| x.0),
            r@.len() == spec_selected(rows@.take(i as int), items@).len(),
            forall|k: int|
                0 <= k < r@.len() ==> spec_record_of(
                    rows@,
                    items@,
                    tags@,
                    logs@,
                    #[trigger] spec_selected(rows@.take(i as int), items@)[k],
                    r@[k],
                ),
        decreases rows@.len() - i,
    {
        let ghost pre = rows@.take(i as int);
        let ghost cur = rows@.take(i + 1);
        assert(cur.drop_last() =~= pre);
        assert(cur.map_values(|x: MediaRow| x.0).take(i as int) =~= ids@);
        let id = rows[i].0;
        let first = !seen(&ids, i, id);
        let ghost keys = cur.map_values(|x: MediaRow| x.0);
        assert(keys[i as int] == id);
        assert(forall|j: int| 0 <= j < i ==> keys[j] == ids@[j]);
        assert(first == spec_first_at(keys, i as int));
        if first {
            match last_item(items, id) {
                Some(item) => {
                    let rec = Record {
                        item,
                        meta: Meta { created: rows[i].2, updated: rows[i].3 },
                        logs: values_for(logs, id),
                        tags: labels_for(tags, id),
                    };
                    r.push(rec);
                },
                None => {},
            }
        }
        ids.push(id);
        assert(ids@ =~= cur.map_values(|x: MediaRow| x.0));
        i = i + 1;
    }
    assert(rows@.take(rows@.len() as int) =~= rows@);
    r
}

/// The system clock's time, declared so that it can pass between the calls
/// that read it.
#[verifier::external_type_specification]
#[verifier::external_body]
pub struct ExSystemTime(std::time::SystemTime);

/// The system clock's current time, by `SystemTime::now`; it depends on the
/// clock, so nothing is stated of it.
#[verifier::external_body]
fn clock_now() -> (r: std::time::SystemTime) {
    std::time::SystemTime::now()
}

/// The time elapsed from the Unix epoch to `t`, by
/// `SystemTime::duration_since`; `None` when `t` is earlier than the epoch.
/// Nothing is stated of the result.
#[verifier::external_body]
fn since_epoch(t: &std::time::SystemTime) -> (r: Option<core::time::Duration>) {
    t.duration_since(std::time::UNIX_EPOCH).ok()
}

/// The whole seconds of a duration, by `Duration::as_secs`. The duration is
/// opaque here, so nothing is stated of the result.
#[verifier::external_body]
fn whole_seconds(d: &core::time::Duration) -> (r: u64) {
    d.as_secs()
}

/// The timestamp stored for a count of seconds since the epoch: the count
/// as a signed 64-bit integer, wrapping above `i64::MAX`.
pub fn timestamp_of(secs: u64) -> (r: i64)
    ensures
        r == secs as i64,
{
    secs as i64
}

/// Current Unix timestamp in seconds; `None` when the system clock is set
/// before the Unix epoch.
pub fn timestamp() -> (r: Option<i64>) {
    let now = clock_now();
    match since_epoch(&now) {
        Some(elapsed) => Some(timestamp_of(whole_seconds(&elapsed))),
        None => None,
    }
}

} // verus!
