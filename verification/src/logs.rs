//! Activity logs.

use vstd::prelude::*;

use crate::text::str_eq;
use crate::uuid::Uuid;

verus! {

/// Activity log.
#[derive(Clone, Copy, Debug)]
pub struct Log {
    /// Unique identifier.
    pub id: Uuid,
    /// Activity kind.
    pub kind: Kind,
    /// Activity date (Unix seconds).
    pub date: i64,
}

/// Activity kind.
#[derive(Clone, Copy, Debug, PartialEq, Eq, Structural)]
pub enum Kind {
    /// Activity started.
    Start,
    /// Activity stopped.
    Stop,
    /// Activity completed.
    Done,
}

/// Text stored for an activity kind: its lowercase name.
pub open spec fn spec_log_kind_str(k: Kind) -> Seq<char> {
    match k {
        Kind::Start => "start"@,
        Kind::Stop => "stop"@,
        Kind::Done => "done"@,
    }
}

/// Activity kind named by a stored text, if any.
pub open spec fn spec_log_kind_parse(s: Seq<char>) -> Option<Kind> {
    if s == "start"@ {
        Some(Kind::Start)
    } else if s == "stop"@ {
        Some(Kind::Stop)
    } else if s == "done"@ {
        Some(Kind::Done)
    } else {
        None
    }
}

/// A stored text that names no activity kind.
#[derive(Clone, Debug)]
pub struct UnknownKind {
    /// The text found.
    pub text: String,
}

impl Kind {
    /// Lowercase name of the kind.
    pub fn as_str(&self) -> (r: &'static str)
        ensures
            r@ == spec_log_kind_str(*self),
    {
        match self {
            Kind::Start => "start",
            Kind::Stop => "stop",
            Kind::Done => "done",
        }
    }

    /// Text written to the `kind` column.
    pub fn to_sql(&self) -> (r: String)
        ensures
            r@ == spec_log_kind_str(*self),
    {
        self.as_str().to_owned()
    }

    /// Reads an activity kind back from the `kind` column.
    pub fn from_sql(text: String) -> (r: Result<Kind, UnknownKind>)
        ensures
            spec_log_kind_parse(text@) matches Some(k) ==> r == Ok::<Kind, UnknownKind>(k),
            spec_log_kind_parse(text@) is None ==> (r matches Err(e) && e.text == text),
    {
        if str_eq(text.as_str(), "start") {
            Ok(Kind::Start)
        } else if str_eq(text.as_str(), "stop") {
            Ok(Kind::Stop)
        } else if str_eq(text.as_str(), "done") {
            Ok(Kind::Done)
        } else {
            Err(UnknownKind { text })
        }
    }
}

/// Reading back the text written for an activity kind gives the kind.
pub proof fn lemma_log_kind_round_trip(k: Kind, s: Seq<char>)
    ensures
        spec_log_kind_parse(spec_log_kind_str(k)) == Some(k),
        spec_log_kind_parse(s) == Some(k) ==> s == spec_log_kind_str(k),
{
    reveal_strlit("start");
    reveal_strlit("stop");
    reveal_strlit("done");
    assert("start"@.len() == 5 && "stop"@.len() == 4 && "done"@[0] == 'd' && "stop"@[0] == 's');
}

/// Request body.
#[derive(Clone, Copy, Debug)]
pub struct Body {
    /// Activity kind.
    pub kind: Kind,
    /// Activity date (Unix seconds); defaults to now.
    pub date: Option<i64>,
}

impl Body {
    /// The log stored for this body: its date, or `now` when absent.
    pub fn into_log(self, id: Uuid, now: i64) -> (r: Log)
        ensures
            r.id == id,
            r.kind == self.kind,
            r.date == (match self.date {
                Some(d) => d,
                None => now,
            }),
    {
        Log { id, kind: self.kind, date: self.date.unwrap_or(now) }
    }
}

/// Each activity kind is stored under its lowercase name.
pub proof fn lemma_log_kind_names()
    ensures
        spec_log_kind_str(Kind::Start) == "start"@,
        spec_log_kind_str(Kind::Stop) == "stop"@,
        spec_log_kind_str(Kind::Done) == "done"@,
        spec_log_kind_parse("start"@) == Some(Kind::Start),
        spec_log_kind_parse("stop"@) == Some(Kind::Stop),
        spec_log_kind_parse("done"@) == Some(Kind::Done),
{
    lemma_log_kind_round_trip(Kind::Start, "start"@);
    lemma_log_kind_round_trip(Kind::Stop, "stop"@);
    lemma_log_kind_round_trip(Kind::Done, "done"@);
}

} // verus!
