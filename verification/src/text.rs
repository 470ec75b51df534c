//! Text helpers shared by the record types and the web layer.

use vstd::prelude::*;

verus! {

/// A copy of an optional text value.
pub fn clone_opt(s: &Option<String>) -> (r: Option<String>)
    ensures
        r == *s,
{
    match s {
        Some(v) => Some(v.clone()),
        None => None,
    }
}

/// Whether two texts are equal.
pub fn str_eq(a: &str, b: &str) -> (r: bool)
    ensures
        r == (a@ == b@),
{
    let x = a.to_owned();
    let y = b.to_owned();
    x == y
}

/// Whether a text ends with a suffix.
pub open spec fn spec_ends_with(s: Seq<char>, suffix: Seq<char>) -> bool {
    suffix.len() <= s.len() && s.subrange(s.len() - suffix.len(), s.len() as int) == suffix
}

/// A text followed by another ends with the second.
pub proof fn lemma_ends_with_concat(a: Seq<char>, b: Seq<char>)
    ensures
        spec_ends_with(a + b, b),
{
    assert((a + b).subrange(a.len() as int, (a + b).len() as int) =~= b);
}

/// Whether `needle` occurs in `hay` at position `i`.
pub open spec fn spec_occurs_at(hay: Seq<char>, needle: Seq<char>, i: int) -> bool {
    0 <= i && i + needle.len() <= hay.len() && hay.subrange(i, i + needle.len()) == needle
}

/// Whether `needle` occurs anywhere in `hay`.
pub open spec fn spec_contains(hay: Seq<char>, needle: Seq<char>) -> bool {
    exists|i: int| spec_occurs_at(hay, needle, i)
}

/// A text occurring in another still occurs once more text is added
/// before or after it.
pub proof fn lemma_contains_extend(a: Seq<char>, b: Seq<char>, x: Seq<char>)
    ensures
        spec_contains(a, x) ==> spec_contains(a + b, x),
        spec_contains(b, x) ==> spec_contains(a + b, x),
        spec_contains(x, x),
{
    if spec_contains(a, x) {
        let i = choose|i: int| spec_occurs_at(a, x, i);
        assert((a + b).subrange(i, i + x.len()) =~= a.subrange(i, i + x.len()));
        assert(spec_occurs_at(a + b, x, i));
    }
    if spec_contains(b, x) {
        let i = choose|i: int| spec_occurs_at(b, x, i);
        assert((a + b).subrange(a.len() + i, a.len() + i + x.len()) =~= b.subrange(i, i + x.len()));
        assert(spec_occurs_at(a + b, x, a.len() + i));
    }
    assert(x.subrange(0, x.len() as int) =~= x);
    assert(spec_occurs_at(x, x, 0));
}

/// A text placed between two others occurs in the whole.
pub proof fn lemma_contains_middle(a: Seq<char>, b: Seq<char>, c: Seq<char>)
    ensures
        spec_contains(a + b + c, b),
{
    assert((a + b + c).subrange(a.len() as int, (a.len() + b.len()) as int) =~= b);
    assert(spec_occurs_at(a + b + c, b, a.len() as int));
}

/// Whether `needle` occurs in `hay` at position `i`.
fn occurs_at(hay: &str, n: usize, needle: &str, m: usize, i: usize) -> (r: bool)
    requires
        n == hay@.len(),
        m == needle@.len(),
        i + m <= n,
    ensures
        r == spec_occurs_at(hay@, needle@, i as int),
{
    let mut j: usize = 0;
    while j < m
        invariant
            n == hay@.len(),
            m == needle@.len(),
            i + m <= n,
            j <= m,
            forall|k: int| 0 <= k < j ==> hay@[i + k] == needle@[k],
        decreases m - j,
    {
        if hay.get_char(i + j) != needle.get_char(j) {
            assert(hay@.subrange(i as int, i + m)[j as int] != needle@[j as int]);
            return false;
        }
        j = j + 1;
    }
    assert(hay@.subrange(i as int, i + m) =~= needle@);
    true
}

/// Whether `needle` occurs anywhere in `hay`.
pub fn contains(hay: &str, needle: &str) -> (r: bool)
    ensures
        r == spec_contains(hay@, needle@),
{
    let n = hay.unicode_len();
    let m = needle.unicode_len();
    if m > n {
        return false;
    }
    if m == 0 {
        assert(hay@.subrange(0, 0) =~= needle@);
        assert(spec_occurs_at(hay@, needle@, 0));
        return true;
    }
    let mut i: usize = 0;
    while i <= n - m
        invariant
            n == hay@.len(),
            m == needle@.len(),
            1 <= m <= n,
            i <= n - m + 1,
            forall|k: int| 0 <= k < i ==> !spec_occurs_at(hay@, needle@, k),
        decreases n - m + 1 - i,
    {
        if occurs_at(hay, n, needle, m, i) {
            return true;
        }
        i = i + 1;
    }
    false
}

/// Whether a character is whitespace: one with the Unicode property
/// `White_Space`.
pub open spec fn spec_white(c: char) -> bool {
    let v = c as u32;
    ||| 0x9 <= v <= 0xd
    ||| v == 0x20
    ||| v == 0x85
    ||| v == 0xa0
    ||| v == 0x1680
    ||| 0x2000 <= v <= 0x200a
    ||| v == 0x2028
    ||| v == 0x2029
    ||| v == 0x202f
    ||| v == 0x205f
    ||| v == 0x3000
}

/// Whether a character is whitespace.
fn is_white(c: char) -> (r: bool)
    ensures
        r == spec_white(c),
{
    let v = c as u32;
    (0x9 <= v && v <= 0xd) || v == 0x20 || v == 0x85 || v == 0xa0 || v == 0x1680 || (0x2000 <= v
        && v <= 0x200a) || v == 0x2028 || v == 0x2029 || v == 0x202f || v == 0x205f || v == 0x3000
}

/// A text with its leading whitespace removed.
pub open spec fn spec_trim_start(s: Seq<char>) -> Seq<char>
    decreases s.len(),
{
    if s.len() > 0 && spec_white(s[0]) {
        spec_trim_start(s.drop_first())
    } else {
        s
    }
}

/// A text with its trailing whitespace removed.
pub open spec fn spec_trim_end(s: Seq<char>) -> Seq<char>
    decreases s.len(),
{
    if s.len() > 0 && spec_white(s.last()) {
        spec_trim_end(s.drop_last())
    } else {
        s
    }
}

/// A text with its leading and trailing whitespace removed, as `str::trim`
/// removes it.
pub open spec fn spec_trim(s: Seq<char>) -> Seq<char> {
    spec_trim_end(spec_trim_start(s))
}

/// Removes leading and trailing whitespace.
pub fn trim(s: &str) -> (r: String)
    ensures
        r@ == spec_trim(s@),
{
    let n = s.unicode_len();
    let mut i: usize = 0;
    assert(s@.subrange(0, n as int) =~= s@);
    while i < n && is_white(s.get_char(i))
        invariant
            n == s@.len(),
            i <= n,
            spec_trim_start(s@) == spec_trim_start(s@.subrange(i as int, n as int)),
        decreases n - i,
    {
        assert(s@.subrange(i as int, n as int).drop_first() =~= s@.subrange(i + 1, n as int));
        i = i + 1;
    }
    assert(spec_trim_start(s@) == s@.subrange(i as int, n as int)) by {
        if i == n {
            assert(s@.subrange(i as int, n as int).len() == 0);
        }
    }
    let mut j: usize = n;
    while j > i && is_white(s.get_char(j - 1))
        invariant
            n == s@.len(),
            i <= j <= n,
            spec_trim(s@) == spec_trim_end(s@.subrange(i as int, j as int)),
        decreases j,
    {
        assert(s@.subrange(i as int, j as int).drop_last() =~= s@.subrange(i as int, j - 1));
        j = j - 1;
    }
    assert(spec_trim_end(s@.subrange(i as int, j as int)) == s@.subrange(i as int, j as int)) by {
        if j == i {
            assert(s@.subrange(i as int, j as int).len() == 0);
        }
    }
    s.substring_char(i, j).to_owned()
}

/// Where leading whitespace ends: the trimmed text is the rest from there.
proof fn lemma_trim_start_at(s: Seq<char>) -> (i: int)
    ensures
        0 <= i <= s.len(),
        spec_trim_start(s) == s.subrange(i, s.len() as int),
        forall|k: int| 0 <= k < i ==> spec_white(#[trigger] s[k]),
        i < s.len() ==> !spec_white(s[i]),
    decreases s.len(),
{
    if s.len() > 0 && spec_white(s[0]) {
        let t = s.drop_first();
        let i0 = lemma_trim_start_at(t);
        assert(t.subrange(i0, t.len() as int) =~= s.subrange(i0 + 1, s.len() as int));
        assert forall|k: int| 0 <= k < i0 + 1 implies spec_white(#[trigger] s[k]) by {
            if k > 0 {
                assert(s[k] == t[k - 1]);
            }
        }
        if i0 + 1 < s.len() {
            assert(s[i0 + 1] == t[i0]);
        }
        i0 + 1
    } else {
        assert(s.subrange(0, s.len() as int) =~= s);
        0
    }
}

/// Where trailing whitespace starts: the trimmed text is the part before.
proof fn lemma_trim_end_at(s: Seq<char>) -> (j: int)
    ensures
        0 <= j <= s.len(),
        spec_trim_end(s) == s.subrange(0, j),
        forall|k: int| j <= k < s.len() ==> spec_white(#[trigger] s[k]),
        j > 0 ==> !spec_white(s[j - 1]),
    decreases s.len(),
{
    if s.len() > 0 && spec_white(s.last()) {
        let t = s.drop_last();
        let j0 = lemma_trim_end_at(t);
        assert(t.subrange(0, j0) =~= s.subrange(0, j0));
        assert forall|k: int| j0 <= k < s.len() implies spec_white(#[trigger] s[k]) by {
            if k < s.len() - 1 {
                assert(s[k] == t[k]);
            }
        }
        if j0 > 0 {
            assert(s[j0 - 1] == t[j0 - 1]);
        }
        j0
    } else {
        assert(s.subrange(0, s.len() as int) =~= s);
        s.len() as int
    }
}

/// Trimming keeps one contiguous part of the text and removes only
/// whitespace before and after it; the part kept neither starts nor ends
/// with whitespace.
pub proof fn lemma_trim_parts(s: Seq<char>)
    ensures
        exists|i: int, j: int|
            #![trigger s.subrange(i, j)]
            0 <= i <= j <= s.len() && spec_trim(s) == s.subrange(i, j) && (forall|k: int|
                0 <= k < i ==> spec_white(#[trigger] s[k])) && (forall|k: int|
                j <= k < s.len() ==> spec_white(#[trigger] s[k])),
        spec_trim(s).len() > 0 ==> !spec_white(spec_trim(s)[0]) && !spec_white(
            spec_trim(s).last(),
        ),
{
    let i = lemma_trim_start_at(s);
    let u = s.subrange(i, s.len() as int);
    let j0 = lemma_trim_end_at(u);
    let j = i + j0;
    assert(u.subrange(0, j0) =~= s.subrange(i, j));
    assert forall|k: int| j <= k < s.len() implies spec_white(#[trigger] s[k]) by {
        assert(s[k] == u[k - i]);
    }
    if spec_trim(s).len() > 0 {
        assert(spec_trim(s)[0] == s[i]);
        assert(spec_trim(s).last() == u[j0 - 1]);
    }
    assert(0 <= i <= j <= s.len() && spec_trim(s) == s.subrange(i, j) && (forall|k: int|
        0 <= k < i ==> spec_white(#[trigger] s[k])) && (forall|k: int|
        j <= k < s.len() ==> spec_white(#[trigger] s[k])));
}

/// A path with a relative name appended, as `PathBuf::join` appends on
/// Unix: a `/` goes between them unless the path is empty or ends with one.
pub open spec fn spec_join(base: Seq<char>, name: Seq<char>) -> Seq<char> {
    if base.len() == 0 || base.last() == '/' {
        base + name
    } else {
        base + "/"@ + name
    }
}

/// Appends a relative name to a path.
pub fn join(base: &str, name: &str) -> (r: String)
    ensures
        r@ == spec_join(base@, name@),
{
    let n = base.unicode_len();
    let mut r = base.to_owned();
    if n == 0 || base.get_char(n - 1) == '/' {
        r.append(name);
    } else {
        r.append("/");
        r.append(name);
    }
    r
}

} // verus!
