//! Game listing route.

use vstd::prelude::*;

use crate::kind::game::Game;
use crate::kind::{Kind, Meta, Record};
use crate::uuid::Uuid;

verus! {

/// A row of the game listing.
pub struct Row {
    /// Unique identifier.
    pub id: Uuid,
    /// TGDB ID.
    pub tgdb: Option<i64>,
    /// Title.
    pub title: String,
    /// Platform.
    pub system: Option<String>,
    /// Owned copy count.
    pub owned: i64,
    /// Rating (1-5).
    pub rated: Option<i64>,
    /// Created timestamp (Unix seconds).
    pub created: i64,
    /// Updated timestamp (Unix seconds).
    pub updated: i64,
}

impl Row {
    /// The record of a game row with its tags.
    pub fn into_record(self, tags: Vec<String>) -> (r: Record)
        ensures
            r.item == Kind::Game(
                Game {
                    id: self.id,
                    tgdb: self.tgdb,
                    title: self.title,
                    system: self.system,
                    owned: self.owned,
                    rated: self.rated,
                },
            ),
            r.meta == (Meta { created: self.created, updated: self.updated }),
            r.tags == tags,
    {
        Record {
            item: Kind::Game(
                Game {
                    id: self.id,
                    tgdb: self.tgdb,
                    title: self.title,
                    system: self.system,
                    owned: self.owned,
                    rated: self.rated,
                },
            ),
            meta: Meta { created: self.created, updated: self.updated },
            tags,
        }
    }
}

/// The owned copy count stored for a request body: 0 when absent.
pub fn owned_count(owned: Option<i64>) -> (r: i64)
    ensures
        r == (match owned {
            Some(n) => n,
            None => 0,
        }),
{
    owned.unwrap_or(0)
}

} // verus!
