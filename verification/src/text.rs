//! Character-level text handling: whitespace trimming, prefix stripping,
//! line splitting and word extraction, with the semantics of the matching
//! `str` methods (`trim_start`, `trim_end`, `trim`, `trim_matches`,
//! `strip_prefix`, `lines`, `split_whitespace`).
//!
//! Text is held as a `Vec<char>` and the functions here work on index
//! ranges `[lo, hi)` of it, so that no copies are made while scanning.
use vstd::prelude::*;

verus! {

broadcast use vstd::string::group_string_axioms;

/// Whether `c` has the Unicode `White_Space` property (the set that
/// `char::is_whitespace` accepts).
pub open spec fn is_whitespace(c: char) -> bool {
    let u = c as u32;
    (0x9 <= u && u <= 0xd) || u == 0x20 || u == 0x85 || u == 0xa0 || u == 0x1680 || (0x2000 <= u
        && u <= 0x200a) || u == 0x2028 || u == 0x2029 || u == 0x202f || u == 0x205f || u == 0x3000
}

/// A class of characters that a scan runs over.
#[derive(Debug, Clone, Copy, PartialEq, Eq, Structural)]
pub enum CharClass {
    /// Unicode whitespace.
    Whitespace,
    /// Anything but Unicode whitespace.
    NotWhitespace,
    /// Exactly the given character.
    Is(char),
    /// Anything but the given character.
    IsNot(char),
}

/// Whether `c` belongs to the class `cls`.
pub open spec fn in_class(cls: CharClass, c: char) -> bool {
    match cls {
        CharClass::Whitespace => is_whitespace(c),
        CharClass::NotWhitespace => !is_whitespace(c),
        CharClass::Is(x) => c == x,
        CharClass::IsNot(x) => c != x,
    }
}

/// Length of the longest prefix of `s` made of characters of class `cls`.
pub open spec fn prefix_len(s: Seq<char>, cls: CharClass) -> nat
    decreases s.len(),
{
    if s.len() > 0 && in_class(cls, s[0]) {
        1 + prefix_len(s.drop_first(), cls)
    } else {
        0
    }
}

/// Length of the longest suffix of `s` made of characters of class `cls`.
pub open spec fn suffix_len(s: Seq<char>, cls: CharClass) -> nat
    decreases s.len(),
{
    if s.len() > 0 && in_class(cls, s.last()) {
        1 + suffix_len(s.drop_last(), cls)
    } else {
        0
    }
}

/// `s` without its leading characters of class `cls`.
pub open spec fn strip_leading(s: Seq<char>, cls: CharClass) -> Seq<char> {
    s.skip(prefix_len(s, cls) as int)
}

/// `s` without its trailing characters of class `cls`.
pub open spec fn strip_trailing(s: Seq<char>, cls: CharClass) -> Seq<char> {
    s.take(s.len() - suffix_len(s, cls))
}

/// `str::trim_start`.
pub open spec fn trim_start(s: Seq<char>) -> Seq<char> {
    strip_leading(s, CharClass::Whitespace)
}

/// `str::trim`.
pub open spec fn trim(s: Seq<char>) -> Seq<char> {
    strip_trailing(strip_leading(s, CharClass::Whitespace), CharClass::Whitespace)
}

/// `str::trim_matches` with a single character.
pub open spec fn trim_matches(s: Seq<char>, c: char) -> Seq<char> {
    strip_trailing(strip_leading(s, CharClass::Is(c)), CharClass::Is(c))
}

/// `str::strip_prefix`.
pub open spec fn strip_prefix(s: Seq<char>, p: Seq<char>) -> Option<Seq<char>> {
    if p.len() <= s.len() && s.take(p.len() as int) == p {
        Some(s.skip(p.len() as int))
    } else {
        None
    }
}

/// The first item of `str::split_whitespace`.
pub open spec fn first_word(s: Seq<char>) -> Option<Seq<char>> {
    let t = trim_start(s);
    if t.len() == 0 {
        None
    } else {
        Some(t.take(prefix_len(t, CharClass::NotWhitespace) as int))
    }
}

/// A line as `str::lines` yields it: without its `\n`, and without a `\r`
/// just before that `\n`.
pub open spec fn strip_cr(line: Seq<char>) -> Seq<char> {
    if line.len() > 0 && line.last() == '\r' {
        line.drop_last()
    } else {
        line
    }
}

/// `str::lines`: the text split at each `\n`; a final line ending is optional.
pub open spec fn lines(s: Seq<char>) -> Seq<Seq<char>>
    decreases s.len(),
{
    if s.len() == 0 {
        Seq::empty()
    } else {
        let i = prefix_len(s, CharClass::IsNot('\n'));
        if i < s.len() {
            seq![strip_cr(s.take(i as int))] + lines(s.skip(i + 1 as int))
        } else {
            seq![s]
        }
    }
}

/// A prefix of a class never runs past the end of the text.
pub proof fn lemma_prefix_len_bound(s: Seq<char>, cls: CharClass)
    ensures
        prefix_len(s, cls) <= s.len(),
        prefix_len(s, cls) < s.len() ==> !in_class(cls, s[prefix_len(s, cls) as int]),
        forall|i: int| 0 <= i < prefix_len(s, cls) ==> in_class(cls, #[trigger] s[i]),
    decreases s.len(),
{
    if s.len() > 0 && in_class(cls, s[0]) {
        lemma_prefix_len_bound(s.drop_first(), cls);
        assert forall|i: int| 0 <= i < prefix_len(s, cls) implies in_class(cls, #[trigger] s[i]) by {
            if i > 0 {
                assert(s[i] == s.drop_first()[i - 1]);
            }
        }
    }
}

/// A suffix of a class never runs past the start of the text.
pub proof fn lemma_suffix_len_bound(s: Seq<char>, cls: CharClass)
    ensures
        suffix_len(s, cls) <= s.len(),
    decreases s.len(),
{
    if s.len() > 0 && in_class(cls, s.last()) {
        lemma_suffix_len_bound(s.drop_last(), cls);
    }
}

/// A text whose characters are all outside `cls` keeps its whole length
/// under both strips.
pub proof fn lemma_no_class_chars(s: Seq<char>, cls: CharClass)
    requires
        forall|i: int| 0 <= i < s.len() ==> !in_class(cls, #[trigger] s[i]),
    ensures
        prefix_len(s, cls) == 0,
        suffix_len(s, cls) == 0,
{
    if s.len() > 0 {
        assert(!in_class(cls, s[0]));
        assert(!in_class(cls, s[s.len() - 1]));
    }
}

/// The characters of a string slice.
pub fn chars_of(s: &str) -> (v: Vec<char>)
    ensures
        v@ == s@,
{
    let mut v: Vec<char> = Vec::new();
    for c in it: s.chars()
        invariant
            it.seq() == s@,
            v@ == it.seq().take(it.index()),
    {
        assert(it.seq().take(it.index() + 1) =~= it.seq().take(it.index()).push(c));
        v.push(c);
    }
    assert(s@.take(s@.len() as int) =~= s@);
    v
}

/// Whether `c` belongs to `cls`.
pub fn char_in_class(cls: CharClass, c: char) -> (b: bool)
    ensures
        b == in_class(cls, c),
{
    match cls {
        CharClass::Whitespace => is_whitespace_char(c),
        CharClass::NotWhitespace => !is_whitespace_char(c),
        CharClass::Is(x) => c == x,
        CharClass::IsNot(x) => c != x,
    }
}

/// `char::is_whitespace`.
pub fn is_whitespace_char(c: char) -> (b: bool)
    ensures
        b == is_whitespace(c),
{
    let u = c as u32;
    (0x9 <= u && u <= 0xd) || u == 0x20 || u == 0x85 || u == 0xa0 || u == 0x1680 || (0x2000 <= u
        && u <= 0x200a) || u == 0x2028 || u == 0x2029 || u == 0x202f || u == 0x205f || u == 0x3000
}

/// The end of the run of `cls` characters that starts at `lo`, not going past `hi`.
pub fn scan_forward(v: &Vec<char>, lo: usize, hi: usize, cls: CharClass) -> (k: usize)
    requires
        lo <= hi <= v.len(),
    ensures
        k == lo + prefix_len(v@.subrange(lo as int, hi as int), cls),
        lo <= k <= hi,
{
    let mut k = lo;
    while k < hi && char_in_class(cls, v[k])
        invariant
            lo <= k <= hi <= v.len(),
            lo + prefix_len(v@.subrange(lo as int, hi as int), cls) == k + prefix_len(
                v@.subrange(k as int, hi as int),
                cls,
            ),
        decreases hi - k,
    {
        assert(v@.subrange(k as int, hi as int).drop_first() =~= v@.subrange(k + 1, hi as int));
        k = k + 1;
    }
    k
}

/// The start of the run of `cls` characters that ends at `hi`, not going before `lo`.
pub fn scan_backward(v: &Vec<char>, lo: usize, hi: usize, cls: CharClass) -> (k: usize)
    requires
        lo <= hi <= v.len(),
    ensures
        k == hi - suffix_len(v@.subrange(lo as int, hi as int), cls),
        lo <= k <= hi,
{
    let mut k = hi;
    while k > lo && char_in_class(cls, v[k - 1])
        invariant
            lo <= k <= hi <= v.len(),
            hi - suffix_len(v@.subrange(lo as int, hi as int), cls) == k - suffix_len(
                v@.subrange(lo as int, k as int),
                cls,
            ),
        decreases k - lo,
    {
        assert(v@.subrange(lo as int, k as int).drop_last() =~= v@.subrange(lo as int, k - 1));
        k = k - 1;
    }
    k
}

/// The range of `v[lo..hi]` that remains after stripping `cls` characters
/// from both ends.
pub fn strip_range(v: &Vec<char>, lo: usize, hi: usize, cls: CharClass) -> (r: (usize, usize))
    requires
        lo <= hi <= v.len(),
    ensures
        lo <= r.0 <= r.1 <= hi,
        v@.subrange(r.0 as int, r.1 as int) == strip_trailing(
            strip_leading(v@.subrange(lo as int, hi as int), cls),
            cls,
        ),
{
    let a = scan_forward(v, lo, hi, cls);
    let b = scan_backward(v, a, hi, cls);
    let ghost s = v@.subrange(lo as int, hi as int);
    assert(strip_leading(s, cls) =~= v@.subrange(a as int, hi as int));
    proof {
        lemma_suffix_len_bound(v@.subrange(a as int, hi as int), cls);
    }
    assert(v@.subrange(a as int, b as int) =~= strip_trailing(v@.subrange(a as int, hi as int), cls));
    (a, b)
}

/// Whether `v[lo..hi]` starts with `p`.
pub fn starts_with_at(v: &Vec<char>, lo: usize, hi: usize, p: &Vec<char>) -> (b: bool)
    requires
        lo <= hi <= v.len(),
    ensures
        b == strip_prefix(v@.subrange(lo as int, hi as int), p@) is Some,
{
    let ghost s = v@.subrange(lo as int, hi as int);
    if p.len() > hi - lo {
        return false;
    }
    let mut i: usize = 0;
    while i < p.len()
        invariant
            i <= p.len() <= hi - lo,
            lo <= hi <= v.len(),
            s == v@.subrange(lo as int, hi as int),
            forall|j: int| 0 <= j < i ==> s[j] == p@[j],
        decreases p.len() - i,
    {
        if v[lo + i] != p[i] {
            assert(s.take(p.len() as int)[i as int] != p@[i as int]);
            return false;
        }
        i = i + 1;
    }
    assert(s.take(p.len() as int) =~= p@);
    true
}

/// The end of the current line: the position of the first `\n` at or after
/// `from`, or `v.len()` when there is none.
pub fn line_end(v: &Vec<char>, from: usize) -> (k: usize)
    requires
        from <= v.len(),
    ensures
        k == from + prefix_len(v@.skip(from as int), CharClass::IsNot('\n')),
        from <= k <= v.len(),
{
    let k = scan_forward(v, from, v.len(), CharClass::IsNot('\n'));
    assert(v@.subrange(from as int, v.len() as int) =~= v@.skip(from as int));
    k
}

/// How `lines` proceeds from position `from` of a non-exhausted text: the
/// first line is `v[from..e]` (less a final `\r` when a `\n` ends it), and
/// the rest are the lines after `e`.
pub proof fn lemma_lines_step(s: Seq<char>, from: int, e: int)
    requires
        0 <= from < s.len(),
        e == from + prefix_len(s.skip(from), CharClass::IsNot('\n')),
    ensures
        e < s.len() ==> lines(s.skip(from)) == seq![strip_cr(s.subrange(from, e))] + lines(
            s.skip(e + 1),
        ),
        e >= s.len() ==> lines(s.skip(from)) == seq![s.subrange(from, s.len() as int)],
{
    let t = s.skip(from);
    lemma_prefix_len_bound(t, CharClass::IsNot('\n'));
    if e < s.len() {
        assert(t.take(e - from) =~= s.subrange(from, e));
        assert(t.skip(e - from + 1) =~= s.skip(e + 1));
    } else {
        assert(t =~= s.subrange(from, s.len() as int));
    }
}

} // verus!
