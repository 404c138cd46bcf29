//! Character-level helpers on strings, stated over the `Seq<char>` view.

use vstd::prelude::*;
use vstd::string::*;
use vstd::utf8::*;

verus! {

/// `p` is a prefix of `s`.
pub open spec fn has_prefix(s: Seq<char>, p: Seq<char>) -> bool {
    p.len() <= s.len() && s.subrange(0, p.len() as int) == p
}

/// The characters of a string slice, in order.
pub fn chars_of(s: &str) -> (r: Vec<char>)
    ensures
        r@ == s@,
{
    let mut r: Vec<char> = Vec::new();
    for c in it: s.chars()
        invariant
            it.seq() == s@,
            r@ == it.seq().take(it.index() as int),
    {
        r.push(c);
    }
    r
}

/// Collects characters into a `String` (`String: FromIterator<char>`).
#[verifier::external_body]
pub(crate) fn string_of(v: &[char]) -> (r: String)
    ensures
        r@ == v@,
{
    v.iter().collect()
}

/// Two character sequences are equal.
pub fn chars_eq(a: &Vec<char>, b: &Vec<char>) -> (r: bool)
    ensures
        r == (a@ == b@),
{
    if a.len() != b.len() {
        return false;
    }
    let mut i: usize = 0;
    while i < a.len()
        invariant
            a@.len() == b@.len(),
            i <= a@.len(),
            forall|j: int| 0 <= j < i ==> a@[j] == b@[j],
        decreases a.len() - i,
    {
        if a[i] != b[i] {
            return false;
        }
        i = i + 1;
    }
    assert(a@ =~= b@);
    true
}

/// Two string slices hold the same characters.
pub fn str_eq(a: &str, b: &str) -> (r: bool)
    ensures
        r == (a@ == b@),
{
    let ca = chars_of(a);
    let cb = chars_of(b);
    chars_eq(&ca, &cb)
}

/// The optional string is present and equals `lit`.
pub open spec fn spec_opt_is(o: Option<String>, lit: Seq<char>) -> bool {
    o matches Some(s) && s@ == lit
}

/// The optional string is present and equals `lit`.
pub fn opt_str_is(o: &Option<String>, lit: &str) -> (r: bool)
    ensures
        r == spec_opt_is(*o, lit@),
{
    match o {
        Some(s) => str_eq(s.as_str(), lit),
        None => false,
    }
}

/// The view of an optional string.
pub open spec fn opt_view(o: Option<String>) -> Option<Seq<char>> {
    match o {
        Some(s) => Some(s@),
        None => None,
    }
}

/// A copy of an optional string.
pub fn opt_string_copy(o: &Option<String>) -> (r: Option<String>)
    ensures
        r == *o,
{
    match o {
        Some(s) => Some(s.clone()),
        None => None,
    }
}

/// Decodes bytes as UTF-8 (`String::from_utf8`): `Some` exactly when the
/// bytes are valid UTF-8, holding the decoded characters.
#[verifier::external_body]
pub(crate) fn utf8_string(bytes: &[u8]) -> (r: Option<String>)
    ensures
        r is Some <==> valid_utf8(bytes@),
        r matches Some(s) ==> s@ == decode_utf8(bytes@),
{
    String::from_utf8(bytes.to_vec()).ok()
}

/// What `String::from_utf8_lossy` makes of some bytes.
pub uninterp spec fn utf8_lossy_decoding(bytes: Seq<u8>) -> Seq<char>;

/// Decodes bytes as UTF-8, replacing invalid sequences with U+FFFD
/// (`String::from_utf8_lossy`). On valid UTF-8 it is plain decoding; what it
/// makes of invalid input is left to the name `utf8_lossy_decoding`.
#[verifier::external_body]
pub(crate) fn utf8_lossy_string(bytes: &[u8]) -> (r: String)
    ensures
        r@ == utf8_lossy_decoding(bytes@),
        valid_utf8(bytes@) ==> r@ == decode_utf8(bytes@),
{
    String::from_utf8_lossy(bytes).to_string()
}

/// `cs[start..end]`, copied.
pub fn sub_chars(cs: &Vec<char>, start: usize, end: usize) -> (r: Vec<char>)
    requires
        start <= end <= cs@.len(),
    ensures
        r@ == cs@.subrange(start as int, end as int),
{
    let mut r: Vec<char> = Vec::new();
    let mut i: usize = start;
    while i < end
        invariant
            start <= i <= end,
            end <= cs@.len(),
            r@ == cs@.subrange(start as int, i as int),
        decreases end - i,
    {
        r.push(cs[i]);
        i = i + 1;
        assert(r@ =~= cs@.subrange(start as int, i as int));
    }
    r
}

/// `p` is a prefix of `cs`.
pub fn chars_have_prefix(cs: &Vec<char>, p: &Vec<char>) -> (r: bool)
    ensures
        r == has_prefix(cs@, p@),
{
    if p.len() > cs.len() {
        return false;
    }
    let mut i: usize = 0;
    while i < p.len()
        invariant
            p.len() <= cs.len(),
            i <= p.len(),
            forall|j: int| 0 <= j < i ==> cs@[j] == p@[j],
        decreases p.len() - i,
    {
        if cs[i] != p[i] {
            assert(cs@.subrange(0, p@.len() as int)[i as int] != p@[i as int]);
            return false;
        }
        i = i + 1;
    }
    assert(cs@.subrange(0, p@.len() as int) =~= p@);
    true
}

/// `s` with the prefix `p` removed, if it has it (`str::strip_prefix`).
pub open spec fn spec_strip_prefix(s: Seq<char>, p: Seq<char>) -> Option<Seq<char>> {
    if has_prefix(s, p) {
        Some(s.skip(p.len() as int))
    } else {
        None
    }
}

/// `s` with the suffix `p` removed, if it has it (`str::strip_suffix`).
pub open spec fn spec_strip_suffix(s: Seq<char>, p: Seq<char>) -> Option<Seq<char>> {
    if p.len() <= s.len() && s.skip(s.len() - p.len()) == p {
        Some(s.take(s.len() - p.len()))
    } else {
        None
    }
}

/// `cs` with the prefix `p` removed, if it has it.
pub fn strip_prefix_chars(cs: &Vec<char>, p: &Vec<char>) -> (r: Option<Vec<char>>)
    ensures
        match r {
            Some(v) => spec_strip_prefix(cs@, p@) == Some(v@),
            None => spec_strip_prefix(cs@, p@) is None,
        },
{
    if chars_have_prefix(cs, p) {
        let v = sub_chars(cs, p.len(), cs.len());
        assert(v@ =~= cs@.skip(p@.len() as int));
        Some(v)
    } else {
        None
    }
}

/// `cs` with the suffix `p` removed, if it has it.
pub fn strip_suffix_chars(cs: &Vec<char>, p: &Vec<char>) -> (r: Option<Vec<char>>)
    ensures
        match r {
            Some(v) => spec_strip_suffix(cs@, p@) == Some(v@),
            None => spec_strip_suffix(cs@, p@) is None,
        },
{
    if p.len() > cs.len() {
        return None;
    }
    let start = cs.len() - p.len();
    let tail = sub_chars(cs, start, cs.len());
    assert(tail@ =~= cs@.skip(cs@.len() - p@.len()));
    if chars_eq(&tail, p) {
        let v = sub_chars(cs, 0, start);
        assert(v@ =~= cs@.take(cs@.len() - p@.len()));
        Some(v)
    } else {
        None
    }
}

/// `s` cut at every occurrence of `c` (`str::split` with a `char`): the
/// pieces between separators, in order, empty ones included.
pub open spec fn spec_split(s: Seq<char>, c: char) -> Seq<Seq<char>>
    decreases s.len(),
{
    if s.len() == 0 {
        seq![Seq::<char>::empty()]
    } else {
        let init = spec_split(s.drop_last(), c);
        if s.last() == c {
            init.push(Seq::<char>::empty())
        } else {
            init.update(init.len() - 1, init.last().push(s.last()))
        }
    }
}

pub proof fn lemma_split_nonempty(s: Seq<char>, c: char)
    ensures
        spec_split(s, c).len() >= 1,
    decreases s.len(),
{
    if s.len() > 0 {
        lemma_split_nonempty(s.drop_last(), c);
    }
}

/// The views of a sequence of character vectors.
pub open spec fn views_of(v: Seq<Vec<char>>) -> Seq<Seq<char>> {
    v.map_values(|x: Vec<char>| x@)
}

/// Split `cs` at every occurrence of `c`.
pub fn split_chars(cs: &Vec<char>, c: char) -> (r: Vec<Vec<char>>)
    ensures
        views_of(r@) == spec_split(cs@, c),
{
    let mut pieces: Vec<Vec<char>> = Vec::new();
    let mut cur: Vec<char> = Vec::new();
    let mut i: usize = 0;
    while i < cs.len()
        invariant
            i <= cs@.len(),
            views_of(pieces@).push(cur@) == spec_split(cs@.take(i as int), c),
        decreases cs.len() - i,
    {
        let ghost before = views_of(pieces@).push(cur@);
        assert(cs@.take(i + 1).drop_last() =~= cs@.take(i as int));
        assert(cs@.take(i + 1).last() == cs@[i as int]);
        if cs[i] == c {
            let done = cur;
            pieces.push(done);
            cur = Vec::new();
            assert(views_of(pieces@).push(cur@) =~= before.push(Seq::<char>::empty()));
        } else {
            cur.push(cs[i]);
            assert(views_of(pieces@).push(cur@) =~= before.update(before.len() - 1, before.last().push(cs@[i as int])));
        }
        i = i + 1;
    }
    pieces.push(cur);
    assert(cs@.take(cs@.len() as int) =~= cs@);
    assert(views_of(pieces@) =~= spec_split(cs@, c));
    pieces
}

/// What `char::is_whitespace` says of a character.
pub uninterp spec fn char_is_whitespace(c: char) -> bool;

/// `char::is_whitespace`: Unicode `White_Space`. The ASCII space, tab,
/// line feed, vertical tab, form feed and carriage return are whitespace;
/// ASCII letters, digits and punctuation are not. What it says of other
/// characters is left to the name `char_is_whitespace`.
#[verifier::external_body]
pub(crate) fn is_whitespace(c: char) -> (r: bool)
    ensures
        r == char_is_whitespace(c),
        c == ' ' || c == '\t' || c == '\n' || c == '\x0B' || c == '\x0C' || c == '\r' ==> r,
        ('!' <= c <= '~') ==> !r,
{
    c.is_whitespace()
}

/// `s` without the leading characters that satisfy `f`.
pub open spec fn spec_trim_start(s: Seq<char>, f: spec_fn(char) -> bool) -> Seq<char>
    decreases s.len(),
{
    if s.len() > 0 && f(s[0]) {
        spec_trim_start(s.drop_first(), f)
    } else {
        s
    }
}

/// `s` without the trailing characters that satisfy `f`.
pub open spec fn spec_trim_end(s: Seq<char>, f: spec_fn(char) -> bool) -> Seq<char>
    decreases s.len(),
{
    if s.len() > 0 && f(s.last()) {
        spec_trim_end(s.drop_last(), f)
    } else {
        s
    }
}

/// `s` without leading and trailing characters that satisfy `f`
/// (`str::trim_matches`).
pub open spec fn spec_trim(s: Seq<char>, f: spec_fn(char) -> bool) -> Seq<char> {
    spec_trim_end(spec_trim_start(s, f), f)
}

/// Whitespace in the sense of `char::is_whitespace`.
pub open spec fn ws() -> spec_fn(char) -> bool {
    |c: char| char_is_whitespace(c)
}

/// A single character.
pub open spec fn is_char(q: char) -> spec_fn(char) -> bool {
    |c: char| c == q
}

/// `cs` without leading and trailing whitespace (`str::trim`).
pub fn trim_chars(cs: &Vec<char>) -> (r: Vec<char>)
    ensures
        r@ == spec_trim(cs@, ws()),
{
    let mut lo: usize = 0;
    assert(cs@.skip(0) =~= cs@);
    while lo < cs.len() && is_whitespace(cs[lo])
        invariant
            lo <= cs@.len(),
            spec_trim_start(cs@.skip(lo as int), ws()) == spec_trim_start(cs@, ws()),
        decreases cs.len() - lo,
    {
        assert(cs@.skip(lo as int).drop_first() =~= cs@.skip(lo + 1));
        lo = lo + 1;
    }
    let mut hi: usize = cs.len();
    let ghost t = cs@.skip(lo as int);
    assert(spec_trim_start(t, ws()) == t);
    while hi > lo && is_whitespace(cs[hi - 1])
        invariant
            lo <= hi <= cs@.len(),
            t == cs@.skip(lo as int),
            spec_trim_end(cs@.subrange(lo as int, hi as int), ws()) == spec_trim_end(t, ws()),
        decreases hi - lo,
    {
        assert(cs@.subrange(lo as int, hi as int).drop_last() =~= cs@.subrange(lo as int, hi - 1));
        hi = hi - 1;
    }
    assert(cs@.subrange(lo as int, cs@.len() as int) =~= t);
    sub_chars(cs, lo, hi)
}

/// `cs` without leading and trailing occurrences of `q` (`str::trim_matches`).
pub fn trim_char_chars(cs: &Vec<char>, q: char) -> (r: Vec<char>)
    ensures
        r@ == spec_trim(cs@, is_char(q)),
{
    let mut lo: usize = 0;
    assert(cs@.skip(0) =~= cs@);
    while lo < cs.len() && cs[lo] == q
        invariant
            lo <= cs@.len(),
            spec_trim_start(cs@.skip(lo as int), is_char(q)) == spec_trim_start(cs@, is_char(q)),
        decreases cs.len() - lo,
    {
        assert(cs@.skip(lo as int).drop_first() =~= cs@.skip(lo + 1));
        lo = lo + 1;
    }
    let mut hi: usize = cs.len();
    let ghost t = cs@.skip(lo as int);
    assert(spec_trim_start(t, is_char(q)) == t);
    while hi > lo && cs[hi - 1] == q
        invariant
            lo <= hi <= cs@.len(),
            t == cs@.skip(lo as int),
            spec_trim_end(cs@.subrange(lo as int, hi as int), is_char(q)) == spec_trim_end(t, is_char(q)),
        decreases hi - lo,
    {
        assert(cs@.subrange(lo as int, hi as int).drop_last() =~= cs@.subrange(lo as int, hi - 1));
        hi = hi - 1;
    }
    assert(cs@.subrange(lo as int, cs@.len() as int) =~= t);
    sub_chars(cs, lo, hi)
}

/// Index of the first occurrence of `c` in `s`, if any.
pub open spec fn spec_find_char(s: Seq<char>, c: char) -> Option<int>
    decreases s.len(),
{
    if s.len() == 0 {
        None
    } else if s[0] == c {
        Some(0)
    } else {
        match spec_find_char(s.drop_first(), c) {
            Some(i) => Some(i + 1),
            None => None,
        }
    }
}

/// `s` cut at the first occurrence of `c` (`str::split_once` with a `char`).
pub open spec fn spec_split_once(s: Seq<char>, c: char) -> Option<(Seq<char>, Seq<char>)> {
    match spec_find_char(s, c) {
        Some(i) => Some((s.take(i), s.skip(i + 1))),
        None => None,
    }
}

/// Cut `cs` at the first occurrence of `c`.
pub fn split_once_chars(cs: &Vec<char>, c: char) -> (r: Option<(Vec<char>, Vec<char>)>)
    ensures
        match r {
            Some((a, b)) => spec_split_once(cs@, c) == Some((a@, b@)),
            None => spec_split_once(cs@, c) is None,
        },
{
    let mut i: usize = 0;
    assert(cs@.skip(0) =~= cs@);
    while i < cs.len()
        invariant
            i <= cs@.len(),
            forall|j: int| 0 <= j < i ==> cs@[j] != c,
            spec_find_char(cs@, c) == match spec_find_char(cs@.skip(i as int), c) {
                Some(k) => Some(k + i),
                None => None::<int>,
            },
        decreases cs.len() - i,
    {
        assert(cs@.skip(i as int).drop_first() =~= cs@.skip(i + 1));
        if cs[i] == c {
            let a = sub_chars(cs, 0, i);
            let b = sub_chars(cs, i + 1, cs.len());
            assert(a@ =~= cs@.take(i as int));
            assert(b@ =~= cs@.skip(i + 1));
            return Some((a, b));
        }
        i = i + 1;
    }
    None
}

/// `s` with every occurrence of `pat` replaced by `rep`, scanning left to
/// right without overlaps (`str::replace` with a non-empty pattern).
pub open spec fn spec_replace(s: Seq<char>, pat: Seq<char>, rep: Seq<char>) -> Seq<char>
    decreases s.len(),
{
    if s.len() == 0 || pat.len() == 0 {
        s
    } else if has_prefix(s, pat) {
        rep + spec_replace(s.skip(pat.len() as int), pat, rep)
    } else {
        seq![s[0]] + spec_replace(s.drop_first(), pat, rep)
    }
}

/// Replace every occurrence of a non-empty `pat` in `cs` by `rep`.
pub fn replace_chars(cs: &Vec<char>, pat: &Vec<char>, rep: &Vec<char>) -> (r: Vec<char>)
    requires
        pat@.len() > 0,
    ensures
        r@ == spec_replace(cs@, pat@, rep@),
{
    let mut out: Vec<char> = Vec::new();
    let mut i: usize = 0;
    assert(cs@.skip(0) =~= cs@);
    assert(out@ + cs@ =~= cs@);
    while i < cs.len()
        invariant
            i <= cs@.len(),
            pat@.len() > 0,
            out@ + spec_replace(cs@.skip(i as int), pat@, rep@) == spec_replace(cs@, pat@, rep@),
        decreases cs.len() - i,
    {
        let rest = sub_chars(cs, i, cs.len());
        assert(rest@ =~= cs@.skip(i as int));
        if chars_have_prefix(&rest, pat) {
            let ghost old_out = out@;
            let mut j: usize = 0;
            while j < rep.len()
                invariant
                    j <= rep@.len(),
                    out@ == old_out + rep@.take(j as int),
                decreases rep.len() - j,
            {
                out.push(rep[j]);
                j = j + 1;
                assert(out@ =~= old_out + rep@.take(j as int));
            }
            assert(rep@.take(rep@.len() as int) =~= rep@);
            assert(cs@.skip(i as int).skip(pat@.len() as int) =~= cs@.skip(i + pat@.len()));
            assert(out@ + spec_replace(cs@.skip(i + pat@.len()), pat@, rep@)
                =~= old_out + (rep@ + spec_replace(cs@.skip(i + pat@.len()), pat@, rep@)));
            i = i + pat.len();
        } else {
            let ghost old_out = out@;
            out.push(cs[i]);
            assert(cs@.skip(i as int).drop_first() =~= cs@.skip(i + 1));
            assert(out@ + spec_replace(cs@.skip(i + 1), pat@, rep@)
                =~= old_out + (seq![cs@[i as int]] + spec_replace(cs@.skip(i + 1), pat@, rep@)));
            i = i + 1;
        }
    }
    assert(cs@.skip(cs@.len() as int) =~= Seq::<char>::empty());
    assert(out@ + Seq::<char>::empty() =~= out@);
    out
}

/// The characters of a string literal or slice, followed by those of another.
pub fn concat_chars(a: &Vec<char>, b: &Vec<char>) -> (r: Vec<char>)
    ensures
        r@ == a@ + b@,
{
    let mut r: Vec<char> = Vec::new();
    let mut i: usize = 0;
    while i < a.len()
        invariant
            i <= a@.len(),
            r@ == a@.take(i as int),
        decreases a.len() - i,
    {
        r.push(a[i]);
        i = i + 1;
        assert(r@ =~= a@.take(i as int));
    }
    let mut j: usize = 0;
    while j < b.len()
        invariant
            i == a@.len(),
            j <= b@.len(),
            r@ == a@ + b@.take(j as int),
        decreases b.len() - j,
    {
        r.push(b[j]);
        j = j + 1;
        assert(r@ =~= a@ + b@.take(j as int));
    }
    assert(a@.take(a@.len() as int) =~= a@);
    assert(b@.take(b@.len() as int) =~= b@);
    r
}

} // verus!
