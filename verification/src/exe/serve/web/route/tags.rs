//! Tag routes.

use vstd::prelude::*;

use super::all::{records, spec_kept, spec_row_item, spec_row_tags, Row};
use crate::axum::extract::Error;
use crate::kind::{Meta, Record};
use crate::uuid::Uuid;

verus! {

/// The records carrying a tag, from the listing rows that carry it and the
/// tags of those items; no row means the tag is unknown.
pub fn fetch(rows: Vec<Row>, pairs: &Vec<(Uuid, String)>) -> (r: Result<Vec<Record>, Error>)
    ensures
        rows@.len() == 0 ==> r matches Err(Error::NotFound),
        rows@.len() > 0 ==> (r matches Ok(recs) && recs@.len() == spec_kept(rows@).len() && forall|k: int|
            0 <= k < recs@.len() ==> {
                let i = #[trigger] spec_kept(rows@)[k];
                &&& spec_row_item(rows@[i]) == Some(recs@[k].item)
                &&& recs@[k].meta == (Meta { created: rows@[i].created, updated: rows@[i].updated })
                &&& recs@[k].tags@ == spec_row_tags(rows@.map_values(|x: Row| x.id), pairs@, i)
            }),
{
    if rows.len() == 0 {
        return Err(Error::NotFound);
    }
    Ok(records(rows, pairs))
}

} // verus!
