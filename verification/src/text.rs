//! Character classes and the two normalisations applied to user input:
//! trimming of surrounding whitespace and ASCII lowercasing.

use vstd::prelude::*;

verus! {

/// The whitespace characters that trimming removes and that make a blank text.
pub open spec fn is_space(c: char) -> bool {
    c == ' ' || c == '\t' || c == '\n' || c == '\r' || c == '\u{0B}' || c == '\u{0C}'
}

/// `c` with the ASCII capitals mapped to their small letters; every other
/// character is unchanged.
pub open spec fn lower(c: char) -> char {
    if 'A' <= c && c <= 'Z' {
        ((c as u8) + 32) as char
    } else {
        c
    }
}

/// `s` without its leading whitespace.
pub open spec fn trim_start(s: Seq<char>) -> Seq<char>
    decreases s.len(),
{
    if s.len() > 0 && is_space(s[0]) {
        trim_start(s.subrange(1, s.len() as int))
    } else {
        s
    }
}

/// `s` without its trailing whitespace.
pub open spec fn trim_end(s: Seq<char>) -> Seq<char>
    decreases s.len(),
{
    if s.len() > 0 && is_space(s.last()) {
        trim_end(s.drop_last())
    } else {
        s
    }
}

/// `s` without leading and trailing whitespace.
pub open spec fn trimmed(s: Seq<char>) -> Seq<char> {
    trim_end(trim_start(s))
}

/// `s` with every character lowered.
pub open spec fn lowered(s: Seq<char>) -> Seq<char> {
    Seq::new(s.len(), |i: int| lower(s[i]))
}

/// Every character of `s` is whitespace (true of the empty text).
pub open spec fn all_space(s: Seq<char>) -> bool {
    forall|i: int| 0 <= i < s.len() ==> is_space(#[trigger] s[i])
}

/// Whether `c` is whitespace.
pub fn char_is_space(c: char) -> (b: bool)
    ensures
        b == is_space(c),
{
    c == ' ' || c == '\t' || c == '\n' || c == '\r' || c == '\u{0B}' || c == '\u{0C}'
}

/// `c` as a small letter if it is an ASCII capital, and `c` otherwise.
pub fn char_lower(c: char) -> (r: char)
    ensures
        r == lower(c),
{
    if 'A' <= c && c <= 'Z' {
        ((c as u8) + 32) as char
    } else {
        c
    }
}

/// Bounds `(start, end)` of the trimmed part of `s`, in characters.
pub fn trim_bounds(s: &str) -> (r: (usize, usize))
    ensures
        r.0 <= r.1 <= s@.len(),
        s@.subrange(r.0 as int, r.1 as int) == trimmed(s@),
{
    let n: usize = s.unicode_len();
    let mut start: usize = 0;
    assert(s@.subrange(0, n as int) =~= s@);
    while start < n && char_is_space(s.get_char(start))
        invariant
            start <= n,
            n == s@.len(),
            trim_start(s@) == trim_start(s@.subrange(start as int, n as int)),
        decreases n - start,
    {
        assert(s@.subrange(start as int, n as int).subrange(1, n - start) =~= s@.subrange(
            start as int + 1,
            n as int,
        ));
        start = start + 1;
    }
    let mut end: usize = n;
    while end > start && char_is_space(s.get_char(end - 1))
        invariant
            start <= end <= n,
            n == s@.len(),
            trim_start(s@) == s@.subrange(start as int, n as int),
            trimmed(s@) == trim_end(s@.subrange(start as int, end as int)),
        decreases end,
    {
        assert(s@.subrange(start as int, end as int).drop_last() =~= s@.subrange(
            start as int,
            end as int - 1,
        ));
        end = end - 1;
    }
    (start, end)
}

/// Trimming at the front removes nothing but a whitespace prefix: what is
/// left after `left`, all whitespace, is taken from before a text that
/// does not start with whitespace, is that text.
pub proof fn lemma_trim_start_pad(left: Seq<char>, rest: Seq<char>)
    requires
        all_space(left),
        rest.len() == 0 || !is_space(rest[0]),
    ensures
        trim_start(left + rest) == rest,
    decreases left.len(),
{
    let s = left + rest;
    if left.len() == 0 {
        assert(s =~= rest);
    } else {
        assert(s[0] == left[0]);
        let tail = left.subrange(1, left.len() as int);
        assert(s.subrange(1, s.len() as int) =~= tail + rest);
        assert forall|i: int| 0 <= i < tail.len() implies is_space(#[trigger] tail[i]) by {
            assert(tail[i] == left[i + 1]);
        }
        lemma_trim_start_pad(tail, rest);
    }
}

/// The same at the end.
pub proof fn lemma_trim_end_pad(rest: Seq<char>, right: Seq<char>)
    requires
        all_space(right),
        rest.len() == 0 || !is_space(rest.last()),
    ensures
        trim_end(rest + right) == rest,
    decreases right.len(),
{
    let s = rest + right;
    if right.len() == 0 {
        assert(s =~= rest);
    } else {
        assert(s.last() == right.last());
        let head = right.drop_last();
        assert(s.drop_last() =~= rest + head);
        assert forall|i: int| 0 <= i < head.len() implies is_space(#[trigger] head[i]) by {
            assert(head[i] == right[i]);
        }
        lemma_trim_end_pad(rest, head);
    }
}

/// Trimming a text that is wrapped in whitespace gives the text, if the
/// text itself neither starts nor ends with whitespace.
pub proof fn trimmed_of_padded(left: Seq<char>, core: Seq<char>, right: Seq<char>)
    requires
        all_space(left),
        all_space(right),
        core.len() > 0,
        !is_space(core[0]),
        !is_space(core.last()),
    ensures
        trimmed(left + core + right) == core,
{
    assert(left + core + right =~= left + (core + right));
    assert((core + right)[0] == core[0]);
    lemma_trim_start_pad(left, core + right);
    lemma_trim_end_pad(core, right);
}

/// Trimming keeps only characters of the text.
pub proof fn lemma_trim_start_within(s: Seq<char>, c: char)
    requires
        trim_start(s).contains(c),
    ensures
        s.contains(c),
    decreases s.len(),
{
    if s.len() > 0 && is_space(s[0]) {
        let tail = s.subrange(1, s.len() as int);
        lemma_trim_start_within(tail, c);
        let i = choose|i: int| 0 <= i < tail.len() && tail[i] == c;
        assert(s[i + 1] == c);
    }
}

/// The same at the end.
pub proof fn lemma_trim_end_within(s: Seq<char>, c: char)
    requires
        trim_end(s).contains(c),
    ensures
        s.contains(c),
    decreases s.len(),
{
    if s.len() > 0 && is_space(s.last()) {
        let head = s.drop_last();
        lemma_trim_end_within(head, c);
        let i = choose|i: int| 0 <= i < head.len() && head[i] == c;
        assert(s[i] == c);
    }
}

/// A character of the trimmed text is a character of the text.
pub proof fn trimmed_within(s: Seq<char>, c: char)
    requires
        trimmed(s).contains(c),
    ensures
        s.contains(c),
{
    lemma_trim_end_within(trim_start(s), c);
    lemma_trim_start_within(s, c);
}

/// Trimming the empty text leaves it empty.
pub proof fn trimmed_of_empty(s: Seq<char>)
    requires
        s.len() == 0,
    ensures
        trimmed(s).len() == 0,
{
}

/// Appends one character; this is `String::push`, of which the standard
/// library documents exactly that.
#[verifier::external_body]
pub(crate) fn push_char(s: &mut String, c: char)
    ensures
        final(s)@ == old(s)@.push(c),
{
    s.push(c)
}

} // verus!
