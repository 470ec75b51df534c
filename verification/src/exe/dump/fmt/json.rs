//! JSON dump format.

use vstd::prelude::*;

use crate::db::{seen, spec_first_at, spec_values_for, values_for};
use crate::game::{copies, extras, systems};
use crate::item::{Item, Record};
use crate::text::spec_ends_with;
use crate::uuid::Uuid;

verus! {

/// Top-level dump payload.
pub struct Dump {
    /// Every media record.
    pub media: Vec<Record<Item>>,
    /// Game subcollections.
    pub games: Games,
}

/// Game subcollections.
pub struct Games {
    /// Game consoles.
    pub systems: Vec<systems::Data>,
    /// Game copies.
    pub copies: Vec<copies::Data>,
    /// Game accessories.
    pub extras: Vec<extras::Data>,
}

impl Games {
    /// Whether no subcollection holds anything; such a value is left out of
    /// the dump.
    pub fn is_empty(&self) -> (r: bool)
        ensures
            r == (self.systems@.len() == 0 && self.copies@.len() == 0 && self.extras@.len() == 0),
    {
        self.systems.len() == 0 && self.copies.len() == 0 && self.extras.len() == 0
    }
}

/// The game references attached to each owner: the first owner with an
/// identifier takes every reference to it, in order; a repeated owner takes
/// none.
pub open spec fn spec_refs_at(owners: Seq<Uuid>, pairs: Seq<(Uuid, Uuid)>, i: int) -> Seq<Uuid> {
    if spec_first_at(owners, i) {
        spec_values_for(pairs, owners[i])
    } else {
        Seq::empty()
    }
}

/// Groups `(owner, game)` reference pairs by owner.
pub fn attach(owners: &Vec<Uuid>, pairs: &Vec<(Uuid, Uuid)>) -> (r: Vec<Vec<Uuid>>)
    ensures
        r@.len() == owners@.len(),
        forall|i: int| 0 <= i < owners@.len() ==> (#[trigger] r@[i])@ == spec_refs_at(owners@, pairs@, i),
{
    let mut r: Vec<Vec<Uuid>> = Vec::new();
    let mut i: usize = 0;
    while i < owners.len()
        invariant
            i <= owners@.len(),
            r@.len() == i,
            forall|j: int| 0 <= j < i ==> (#[trigger] r@[j])@ == spec_refs_at(owners@, pairs@, j),
        decreases owners@.len() - i,
    {
        let id = owners[i];
        if seen(owners, i, id) {
            r.push(Vec::new());
        } else {
            r.push(values_for(pairs, id));
        }
        i = i + 1;
    }
    r
}

/// Game consoles with their references attached.
pub fn systems_data(rows: Vec<systems::Row>, pairs: &Vec<(Uuid, Uuid)>) -> (r: Vec<systems::Data>)
    ensures
        r@.len() == rows@.len(),
        forall|i: int|
            0 <= i < rows@.len() ==> (#[trigger] r@[i]).row == rows@[i] && r@[i].game@ == spec_refs_at(
                rows@.map_values(|x: systems::Row| x.id),
                pairs@,
                i,
            ),
{
    let ghost ids = rows@.map_values(|x: systems::Row| x.id);
    let mut owners: Vec<Uuid> = Vec::new();
    let mut i: usize = 0;
    while i < rows.len()
        invariant
            i <= rows@.len(),
            ids == rows@.map_values(|x: systems::Row| x.id),
            owners@ == ids.take(i as int),
        decreases rows@.len() - i,
    {
        owners.push(rows[i].id);
        assert(owners@ =~= ids.take(i + 1));
        i = i + 1;
    }
    assert(owners@ =~= ids);
    let mut refs = attach(&owners, pairs);
    let ghost all_refs = refs@;
    let ghost orig = rows@;
    let mut rows = rows;
    let mut r: Vec<systems::Data> = Vec::new();
    while rows.len() > 0
        invariant
            r@.len() + rows@.len() == orig.len(),
            rows@ == orig.skip(r@.len() as int),
            refs@ == all_refs.skip(r@.len() as int),
            all_refs.len() == orig.len(),
            forall|i: int| 0 <= i < orig.len() ==> (#[trigger] all_refs[i])@ == spec_refs_at(ids, pairs@, i),
            forall|i: int| 0 <= i < r@.len() ==> (#[trigger] r@[i]).row == orig[i] && r@[i].game@ == spec_refs_at(ids, pairs@, i),
        decreases rows@.len(),
    {
        let row = rows.remove(0);
        let game = refs.remove(0);
        proof {
            assert(orig.skip(r@.len() as int)[0] == orig[r@.len() as int]);
            assert(all_refs.skip(r@.len() as int)[0] == all_refs[r@.len() as int]);
        }
        r.push(systems::Data { row, game });
        assert(rows@ =~= orig.skip(r@.len() as int));
        assert(refs@ =~= all_refs.skip(r@.len() as int));
    }
    r
}


/// Game copies with their references attached.
pub fn copies_data(rows: Vec<copies::Row>, pairs: &Vec<(Uuid, Uuid)>) -> (r: Vec<copies::Data>)
    ensures
        r@.len() == rows@.len(),
        forall|i: int|
            0 <= i < rows@.len() ==> (#[trigger] r@[i]).row == rows@[i] && r@[i].game@ == spec_refs_at(
                rows@.map_values(|x: copies::Row| x.id),
                pairs@,
                i,
            ),
{
    let ghost ids = rows@.map_values(|x: copies::Row| x.id);
    let mut owners: Vec<Uuid> = Vec::new();
    let mut i: usize = 0;
    while i < rows.len()
        invariant
            i <= rows@.len(),
            ids == rows@.map_values(|x: copies::Row| x.id),
            owners@ == ids.take(i as int),
        decreases rows@.len() - i,
    {
        owners.push(rows[i].id);
        assert(owners@ =~= ids.take(i + 1));
        i = i + 1;
    }
    assert(owners@ =~= ids);
    let mut refs = attach(&owners, pairs);
    let ghost all_refs = refs@;
    let ghost orig = rows@;
    let mut rows = rows;
    let mut r: Vec<copies::Data> = Vec::new();
    while rows.len() > 0
        invariant
            r@.len() + rows@.len() == orig.len(),
            rows@ == orig.skip(r@.len() as int),
            refs@ == all_refs.skip(r@.len() as int),
            all_refs.len() == orig.len(),
            forall|i: int| 0 <= i < orig.len() ==> (#[trigger] all_refs[i])@ == spec_refs_at(ids, pairs@, i),
            forall|i: int| 0 <= i < r@.len() ==> (#[trigger] r@[i]).row == orig[i] && r@[i].game@ == spec_refs_at(ids, pairs@, i),
        decreases rows@.len(),
    {
        let row = rows.remove(0);
        let game = refs.remove(0);
        proof {
            assert(orig.skip(r@.len() as int)[0] == orig[r@.len() as int]);
            assert(all_refs.skip(r@.len() as int)[0] == all_refs[r@.len() as int]);
        }
        r.push(copies::Data { row, game });
        assert(rows@ =~= orig.skip(r@.len() as int));
        assert(refs@ =~= all_refs.skip(r@.len() as int));
    }
    r
}


/// Game accessories with their references attached.
pub fn extras_data(rows: Vec<extras::Extras>, pairs: &Vec<(Uuid, Uuid)>) -> (r: Vec<extras::Data>)
    ensures
        r@.len() == rows@.len(),
        forall|i: int|
            0 <= i < rows@.len() ==> (#[trigger] r@[i]).row == rows@[i] && r@[i].game@ == spec_refs_at(
                rows@.map_values(|x: extras::Extras| x.id),
                pairs@,
                i,
            ),
{
    let ghost ids = rows@.map_values(|x: extras::Extras| x.id);
    let mut owners: Vec<Uuid> = Vec::new();
    let mut i: usize = 0;
    while i < rows.len()
        invariant
            i <= rows@.len(),
            ids == rows@.map_values(|x: extras::Extras| x.id),
            owners@ == ids.take(i as int),
        decreases rows@.len() - i,
    {
        owners.push(rows[i].id);
        assert(owners@ =~= ids.take(i + 1));
        i = i + 1;
    }
    assert(owners@ =~= ids);
    let mut refs = attach(&owners, pairs);
    let ghost all_refs = refs@;
    let ghost orig = rows@;
    let mut rows = rows;
    let mut r: Vec<extras::Data> = Vec::new();
    while rows.len() > 0
        invariant
            r@.len() + rows@.len() == orig.len(),
            rows@ == orig.skip(r@.len() as int),
            refs@ == all_refs.skip(r@.len() as int),
            all_refs.len() == orig.len(),
            forall|i: int| 0 <= i < orig.len() ==> (#[trigger] all_refs[i])@ == spec_refs_at(ids, pairs@, i),
            forall|i: int| 0 <= i < r@.len() ==> (#[trigger] r@[i]).row == orig[i] && r@[i].game@ == spec_refs_at(ids, pairs@, i),
        decreases rows@.len(),
    {
        let row = rows.remove(0);
        let game = refs.remove(0);
        proof {
            assert(orig.skip(r@.len() as int)[0] == orig[r@.len() as int]);
            assert(all_refs.skip(r@.len() as int)[0] == all_refs[r@.len() as int]);
        }
        r.push(extras::Data { row, game });
        assert(rows@ =~= orig.skip(r@.len() as int));
        assert(refs@ =~= all_refs.skip(r@.len() as int));
    }
    r
}

/// A table read for a JSON dump.
#[derive(Clone, Copy, Debug, PartialEq, Eq, Structural)]
pub enum Read {
    /// The media rows, oldest first.
    Media,
    /// The an item's tags, by label.
    Tags,
    /// The an item's activity logs, oldest first.
    Logs,
    /// The game consoles, by title.
    Systems,
    /// The consoles' game references, by console then position.
    SystemGames,
    /// The game copies, by platform then title.
    Copies,
    /// The copies' game references, by copy then position.
    CopyGames,
    /// The game accessories, by title.
    Extras,
    /// The accessories' game references, by accessory then position.
    ExtraGames,
}

/// The query that reads a table for a dump, in the order the dump lists it.
pub open spec fn spec_read_query(t: Read) -> Seq<char> {
    match t {
        Read::Media => "SELECT id, kind, created, updated FROM media ORDER BY created ASC"@,
        Read::Tags => "SELECT label FROM tags WHERE media = ? ORDER BY label"@,
        Read::Logs => "SELECT id, kind, date FROM logs WHERE media = ? ORDER BY date"@,
        Read::Systems => "SELECT id, title, system, region, model, revision, serial, variant, complete, modified FROM games_systems ORDER BY title ASC"@,
        Read::SystemGames => "SELECT system AS owner, game FROM games_systems_ref ORDER BY system, idx"@,
        Read::Copies => "SELECT id, title, system, region, model, revision, serial, complete, modified FROM games_copies ORDER BY system ASC, title ASC"@,
        Read::CopyGames => "SELECT copy AS owner, game FROM games_copies_ref ORDER BY copy, idx"@,
        Read::Extras => "SELECT id, title, system, region, model, revision, serial, variant, complete, modified FROM games_extras ORDER BY title ASC"@,
        Read::ExtraGames => "SELECT extra AS owner, game FROM games_extras_ref ORDER BY extra, idx"@,
    }
}

/// The query that reads a table for a dump: media oldest first, tags by
/// label, logs oldest first, consoles and accessories by title, copies by
/// platform then title, and game references by owner then position.
pub fn read_query(t: Read) -> (r: &'static str)
    ensures
        r@ == spec_read_query(t),
{
    match t {
        Read::Media => "SELECT id, kind, created, updated FROM media ORDER BY created ASC",
        Read::Tags => "SELECT label FROM tags WHERE media = ? ORDER BY label",
        Read::Logs => "SELECT id, kind, date FROM logs WHERE media = ? ORDER BY date",
        Read::Systems => "SELECT id, title, system, region, model, revision, serial, variant, complete, modified FROM games_systems ORDER BY title ASC",
        Read::SystemGames => "SELECT system AS owner, game FROM games_systems_ref ORDER BY system, idx",
        Read::Copies => "SELECT id, title, system, region, model, revision, serial, complete, modified FROM games_copies ORDER BY system ASC, title ASC",
        Read::CopyGames => "SELECT copy AS owner, game FROM games_copies_ref ORDER BY copy, idx",
        Read::Extras => "SELECT id, title, system, region, model, revision, serial, variant, complete, modified FROM games_extras ORDER BY title ASC",
        Read::ExtraGames => "SELECT extra AS owner, game FROM games_extras_ref ORDER BY extra, idx",
    }
}

/// The dump reads each table in the order it lists it: media oldest first,
/// an item's tags by label and its logs oldest first, consoles and
/// accessories by title, copies by platform then title, and each table of
/// game references by owner then stored position, so that the games of a
/// console, copy or accessory keep their positions.
pub proof fn lemma_read_orders()
    ensures
        spec_ends_with(spec_read_query(Read::Media), " FROM media ORDER BY created ASC"@),
        spec_ends_with(spec_read_query(Read::Tags), " FROM tags WHERE media = ? ORDER BY label"@),
        spec_ends_with(spec_read_query(Read::Logs), " FROM logs WHERE media = ? ORDER BY date"@),
        spec_ends_with(spec_read_query(Read::Systems), " FROM games_systems ORDER BY title ASC"@),
        spec_ends_with(spec_read_query(Read::SystemGames), " FROM games_systems_ref ORDER BY system, idx"@),
        spec_ends_with(spec_read_query(Read::Copies), " FROM games_copies ORDER BY system ASC, title ASC"@),
        spec_ends_with(spec_read_query(Read::CopyGames), " FROM games_copies_ref ORDER BY copy, idx"@),
        spec_ends_with(spec_read_query(Read::Extras), " FROM games_extras ORDER BY title ASC"@),
        spec_ends_with(spec_read_query(Read::ExtraGames), " FROM games_extras_ref ORDER BY extra, idx"@),
{
    reveal_strlit("SELECT id, kind, created, updated FROM media ORDER BY created ASC");
    reveal_strlit(" FROM media ORDER BY created ASC");
    assert(spec_read_query(Read::Media).subrange(spec_read_query(Read::Media).len() - " FROM media ORDER BY created ASC"@.len(), spec_read_query(Read::Media).len() as int) =~= " FROM media ORDER BY created ASC"@);
    reveal_strlit("SELECT label FROM tags WHERE media = ? ORDER BY label");
    reveal_strlit(" FROM tags WHERE media = ? ORDER BY label");
    assert(spec_read_query(Read::Tags).subrange(spec_read_query(Read::Tags).len() - " FROM tags WHERE media = ? ORDER BY label"@.len(), spec_read_query(Read::Tags).len() as int) =~= " FROM tags WHERE media = ? ORDER BY label"@);
    reveal_strlit("SELECT id, kind, date FROM logs WHERE media = ? ORDER BY date");
    reveal_strlit(" FROM logs WHERE media = ? ORDER BY date");
    assert(spec_read_query(Read::Logs).subrange(spec_read_query(Read::Logs).len() - " FROM logs WHERE media = ? ORDER BY date"@.len(), spec_read_query(Read::Logs).len() as int) =~= " FROM logs WHERE media = ? ORDER BY date"@);
    reveal_strlit("SELECT id, title, system, region, model, revision, serial, variant, complete, modified FROM games_systems ORDER BY title ASC");
    reveal_strlit(" FROM games_systems ORDER BY title ASC");
    assert(spec_read_query(Read::Systems).subrange(spec_read_query(Read::Systems).len() - " FROM games_systems ORDER BY title ASC"@.len(), spec_read_query(Read::Systems).len() as int) =~= " FROM games_systems ORDER BY title ASC"@);
    reveal_strlit("SELECT system AS owner, game FROM games_systems_ref ORDER BY system, idx");
    reveal_strlit(" FROM games_systems_ref ORDER BY system, idx");
    assert(spec_read_query(Read::SystemGames).subrange(spec_read_query(Read::SystemGames).len() - " FROM games_systems_ref ORDER BY system, idx"@.len(), spec_read_query(Read::SystemGames).len() as int) =~= " FROM games_systems_ref ORDER BY system, idx"@);
    reveal_strlit("SELECT id, title, system, region, model, revision, serial, complete, modified FROM games_copies ORDER BY system ASC, title ASC");
    reveal_strlit(" FROM games_copies ORDER BY system ASC, title ASC");
    assert(spec_read_query(Read::Copies).subrange(spec_read_query(Read::Copies).len() - " FROM games_copies ORDER BY system ASC, title ASC"@.len(), spec_read_query(Read::Copies).len() as int) =~= " FROM games_copies ORDER BY system ASC, title ASC"@);
    reveal_strlit("SELECT copy AS owner, game FROM games_copies_ref ORDER BY copy, idx");
    reveal_strlit(" FROM games_copies_ref ORDER BY copy, idx");
    assert(spec_read_query(Read::CopyGames).subrange(spec_read_query(Read::CopyGames).len() - " FROM games_copies_ref ORDER BY copy, idx"@.len(), spec_read_query(Read::CopyGames).len() as int) =~= " FROM games_copies_ref ORDER BY copy, idx"@);
    reveal_strlit("SELECT id, title, system, region, model, revision, serial, variant, complete, modified FROM games_extras ORDER BY title ASC");
    reveal_strlit(" FROM games_extras ORDER BY title ASC");
    assert(spec_read_query(Read::Extras).subrange(spec_read_query(Read::Extras).len() - " FROM games_extras ORDER BY title ASC"@.len(), spec_read_query(Read::Extras).len() as int) =~= " FROM games_extras ORDER BY title ASC"@);
    reveal_strlit("SELECT extra AS owner, game FROM games_extras_ref ORDER BY extra, idx");
    reveal_strlit(" FROM games_extras_ref ORDER BY extra, idx");
    assert(spec_read_query(Read::ExtraGames).subrange(spec_read_query(Read::ExtraGames).len() - " FROM games_extras_ref ORDER BY extra, idx"@.len(), spec_read_query(Read::ExtraGames).len() as int) =~= " FROM games_extras_ref ORDER BY extra, idx"@);
}

} // verus!
