//! Dump command options.

use vstd::prelude::*;

verus! {

/// Serialization format.
#[derive(Clone, Copy, Debug, PartialEq, Eq, Structural)]
pub enum Format {
    /// JSON array of records.
    Json,
    /// SQL INSERT statements.
    Sql,
}

impl Default for Format {
    fn default() -> (r: Format)
        ensures
            r == Format::Json,
    {
        Format::Json
    }
}

/// The final segment of a path: the text after its last `/`.
pub open spec fn spec_last_segment(p: Seq<char>) -> Seq<char>
    decreases p.len(),
{
    if p.len() == 0 {
        p
    } else if p.last() == '/' {
        Seq::empty()
    } else {
        spec_last_segment(p.drop_last()).push(p.last())
    }
}

/// Whether a path names an SQL file: trailing `/`s aside, its final segment
/// is a non-empty stem followed by the extension `.sql`.
pub open spec fn spec_names_sql(p: Seq<char>) -> bool
    decreases p.len(),
{
    if p.len() > 0 && p.last() == '/' {
        spec_names_sql(p.drop_last())
    } else {
        let seg = spec_last_segment(p);
        seg.len() > 4 && seg.subrange(seg.len() - 4, seg.len() as int) == ".sql"@
    }
}

proof fn lemma_last_segment(p: Seq<char>, s: int, e: int)
    requires
        0 <= s <= e <= p.len(),
        s == 0 || p[s - 1] == '/',
        forall|i: int| s <= i < e ==> p[i] != '/',
    ensures
        spec_last_segment(p.take(e)) == p.subrange(s, e),
    decreases e - s,
{
    if e == s {
        if e > 0 {
            assert(p.take(e).last() == '/');
        }
        assert(spec_last_segment(p.take(e)) =~= p.subrange(s, e));
    } else {
        lemma_last_segment(p, s, e - 1);
        assert(p.take(e).drop_last() =~= p.take(e - 1));
        assert(p.subrange(s, e - 1).push(p[e - 1]) =~= p.subrange(s, e));
    }
}

impl Format {
    /// The format named by an output path: SQL for a `.sql` file, JSON for
    /// any other path or none.
    pub fn infer(path: Option<&str>) -> (r: Format)
        ensures
            r == (match path {
                Some(p) => if spec_names_sql(p@) {
                    Format::Sql
                } else {
                    Format::Json
                },
                None => Format::Json,
            }),
    {
        match path {
            None => Format::Json,
            Some(p) => {
                let n = p.unicode_len();
                let mut e: usize = n;
                assert(p@.take(n as int) =~= p@);
                while e > 0 && p.get_char(e - 1) == '/'
                    invariant
                        e <= n,
                        n == p@.len(),
                        spec_names_sql(p@) == spec_names_sql(p@.take(e as int)),
                    decreases e,
                {
                    assert(p@.take(e as int).drop_last() =~= p@.take(e - 1));
                    e = e - 1;
                }
                let mut s: usize = e;
                while s > 0 && p.get_char(s - 1) != '/'
                    invariant
                        s <= e <= n,
                        n == p@.len(),
                        forall|i: int| s <= i < e ==> p@[i] != '/',
                    decreases s,
                {
                    s = s - 1;
                }
                proof {
                    lemma_last_segment(p@, s as int, e as int);
                    if e > 0 {
                        assert(p@.take(e as int).last() == p@[e - 1]);
                    }
                }
                let ghost seg = p@.subrange(s as int, e as int);
                if e - s > 4 && p.get_char(e - 4) == '.' && p.get_char(e - 3) == 's' && p.get_char(e - 2)
                    == 'q' && p.get_char(e - 1) == 'l' {
                    proof {
                        reveal_strlit(".sql");
                        assert(seg.subrange(seg.len() - 4, seg.len() as int) =~= ".sql"@);
                    }
                    Format::Sql
                } else {
                    proof {
                        reveal_strlit(".sql");
                        if seg.len() > 4 && seg.subrange(seg.len() - 4, seg.len() as int) == ".sql"@ {
                            assert(seg.subrange(seg.len() - 4, seg.len() as int)[0] == p@[e - 4]);
                            assert(seg.subrange(seg.len() - 4, seg.len() as int)[1] == p@[e - 3]);
                            assert(seg.subrange(seg.len() - 4, seg.len() as int)[2] == p@[e - 2]);
                            assert(seg.subrange(seg.len() - 4, seg.len() as int)[3] == p@[e - 1]);
                        }
                    }
                    Format::Json
                }
            },
        }
    }
}

/// A file named by a non-empty stem and the extension `.sql`, in any
/// directory or none, is written as SQL; the same stem with the extension
/// `.json` is written as JSON.
pub proof fn lemma_sql_paths(dir: Seq<char>, stem: Seq<char>)
    requires
        stem.len() > 0,
        forall|i: int| 0 <= i < stem.len() ==> stem[i] != '/',
    ensures
        spec_names_sql(stem + ".sql"@),
        spec_names_sql(dir + "/"@ + stem + ".sql"@),
        !spec_names_sql(stem + ".json"@),
        !spec_names_sql(dir + "/"@ + stem + ".json"@),
{
    reveal_strlit(".sql");
    reveal_strlit(".json");
    reveal_strlit("/");
    lemma_named(Seq::empty(), stem, ".sql"@);
    lemma_named(dir + "/"@, stem, ".sql"@);
    lemma_named(Seq::empty(), stem, ".json"@);
    lemma_named(dir + "/"@, stem, ".json"@);
    assert(Seq::<char>::empty() + stem =~= stem);
    assert(Seq::<char>::empty() + stem + ".sql"@ =~= stem + ".sql"@);
    assert(Seq::<char>::empty() + stem + ".json"@ =~= stem + ".json"@);
    let a = stem + ".sql"@;
    assert(a.subrange(a.len() - 4, a.len() as int) =~= ".sql"@);
    let b = stem + ".json"@;
    assert(b.subrange(b.len() - 4, b.len() as int)[0] == 'j');
}

/// The final segment of a path made of a directory ending in `/` (or none),
/// a stem and an extension, neither holding a `/`, is the stem and the
/// extension.
proof fn lemma_named(dir: Seq<char>, stem: Seq<char>, ext: Seq<char>)
    requires
        dir.len() == 0 || dir.last() == '/',
        ext.len() > 0,
        ext.last() != '/',
        forall|i: int| 0 <= i < stem.len() ==> stem[i] != '/',
        forall|i: int| 0 <= i < ext.len() ==> ext[i] != '/',
    ensures
        spec_names_sql(dir + stem + ext) == spec_names_sql(stem + ext),
        spec_last_segment(dir + stem + ext) == stem + ext,
        spec_last_segment(stem + ext) == stem + ext,
{
    let p = dir + stem + ext;
    let q = stem + ext;
    assert forall|i: int| dir.len() <= i < p.len() implies p[i] != '/' by {
        if i < dir.len() + stem.len() {
            assert(p[i] == stem[i - dir.len()]);
        } else {
            assert(p[i] == ext[i - dir.len() - stem.len()]);
        }
    }
    assert forall|i: int| 0 <= i < q.len() implies q[i] != '/' by {
        if i < stem.len() {
            assert(q[i] == stem[i]);
        } else {
            assert(q[i] == ext[i - stem.len()]);
        }
    }
    if dir.len() > 0 {
        assert(p[dir.len() - 1] == dir.last());
    }
    lemma_last_segment(p, dir.len() as int, p.len() as int);
    lemma_last_segment(q, 0, q.len() as int);
    assert(p.take(p.len() as int) =~= p);
    assert(q.take(q.len() as int) =~= q);
    assert(p.subrange(dir.len() as int, p.len() as int) =~= q);
    assert(q.subrange(0, q.len() as int) =~= q);
    assert(p.last() == ext.last());
    assert(q.last() == ext.last());
}

} // verus!
