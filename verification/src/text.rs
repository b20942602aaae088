//! Character-level text extraction: whitespace trimming and
//! bounds-tolerant character access, the two primitives every field of a
//! snapshot line is read with.

use vstd::prelude::*;

verus! {

/// The whitespace characters stripped from the ends of a text field:
/// the ASCII white-space set (space, tab, line feed, vertical tab, form
/// feed, carriage return).
pub open spec fn is_space(c: char) -> bool {
    c == ' ' || c == '\t' || c == '\n' || c == '\u{000B}' || c == '\u{000C}' || c == '\r'
}

/// Executable counterpart of [`is_space`].
pub fn is_space_char(c: char) -> (b: bool)
    ensures
        b == is_space(c),
{
    c == ' ' || c == '\t' || c == '\n' || c == '\u{000B}' || c == '\u{000C}' || c == '\r'
}

/// `s` with its leading whitespace removed.
pub open spec fn trim_start_spec(s: Seq<char>) -> Seq<char>
    decreases s.len(),
{
    if s.len() == 0 {
        s
    } else if is_space(s[0]) {
        trim_start_spec(s.drop_first())
    } else {
        s
    }
}

/// `s` with its trailing whitespace removed.
pub open spec fn trim_end_spec(s: Seq<char>) -> Seq<char>
    decreases s.len(),
{
    if s.len() == 0 {
        s
    } else if is_space(s.last()) {
        trim_end_spec(s.drop_last())
    } else {
        s
    }
}

/// `s` with both leading and trailing whitespace removed.
pub open spec fn trim_spec(s: Seq<char>) -> Seq<char> {
    trim_end_spec(trim_start_spec(s))
}

/// If the first `i` characters of `s` are whitespace and the one at `i`
/// (when present) is not, trimming the start keeps exactly `s[i..]`.
pub proof fn lemma_trim_start_at(s: Seq<char>, i: int)
    requires
        0 <= i <= s.len(),
        forall|k: int| 0 <= k < i ==> is_space(s[k]),
        i < s.len() ==> !is_space(s[i]),
    ensures
        trim_start_spec(s) == s.subrange(i, s.len() as int),
    decreases i,
{
    if i == 0 {
        assert(trim_start_spec(s) =~= s.subrange(0, s.len() as int));
    } else {
        let rest = s.drop_first();
        lemma_trim_start_at(rest, i - 1);
        assert(rest.subrange(i - 1, rest.len() as int) =~= s.subrange(i, s.len() as int));
    }
}

/// If every character of `s` from `j` on is whitespace and the one just
/// before `j` (when present) is not, trimming the end keeps exactly
/// `s[..j]`.
pub proof fn lemma_trim_end_at(s: Seq<char>, j: int)
    requires
        0 <= j <= s.len(),
        forall|k: int| j <= k < s.len() ==> is_space(s[k]),
        j > 0 ==> !is_space(s[j - 1]),
    ensures
        trim_end_spec(s) == s.subrange(0, j),
    decreases s.len(),
{
    if j == s.len() {
        assert(trim_end_spec(s) =~= s.subrange(0, j));
    } else {
        let rest = s.drop_last();
        lemma_trim_end_at(rest, j);
        assert(rest.subrange(0, j) =~= s.subrange(0, j));
    }
}

/// A trimmed sequence is a contiguous piece of the original: trimming
/// never reorders, duplicates or rewrites characters.
pub proof fn lemma_trim_is_subrange(s: Seq<char>)
    ensures
        exists|i: int, j: int|
            0 <= i <= j <= s.len() && trim_spec(s) == s.subrange(i, j),
{
    let head = first_non_space(s);
    lemma_first_non_space(s);
    lemma_trim_start_at(s, head);
    let started = s.subrange(head, s.len() as int);
    let tail = last_non_space_end(started);
    lemma_last_non_space_end(started);
    lemma_trim_end_at(started, tail);
    assert(started.subrange(0, tail) =~= s.subrange(head, head + tail));
    assert(0 <= head <= head + tail <= s.len() && trim_spec(s) == s.subrange(
        head,
        head + tail,
    ));
}

/// Index of the first non-whitespace character of `s`, or `s.len()` when
/// there is none.
pub open spec fn first_non_space(s: Seq<char>) -> int
    decreases s.len(),
{
    if s.len() == 0 {
        0
    } else if is_space(s[0]) {
        1 + first_non_space(s.drop_first())
    } else {
        0
    }
}

/// One past the index of the last non-whitespace character of `s`, or 0
/// when there is none.
pub open spec fn last_non_space_end(s: Seq<char>) -> int
    decreases s.len(),
{
    if s.len() == 0 {
        0
    } else if is_space(s.last()) {
        last_non_space_end(s.drop_last())
    } else {
        s.len() as int
    }
}

/// `first_non_space` points at the first non-whitespace character.
pub proof fn lemma_first_non_space(s: Seq<char>)
    ensures
        0 <= first_non_space(s) <= s.len(),
        forall|k: int| 0 <= k < first_non_space(s) ==> is_space(s[k]),
        first_non_space(s) < s.len() ==> !is_space(s[first_non_space(s)]),
    decreases s.len(),
{
    if s.len() > 0 && is_space(s[0]) {
        let rest = s.drop_first();
        lemma_first_non_space(rest);
        assert forall|k: int| 0 <= k < first_non_space(s) implies is_space(s[k]) by {
            if k > 0 {
                assert(s[k] == rest[k - 1]);
            }
        }
        if first_non_space(s) < s.len() {
            assert(s[first_non_space(s)] == rest[first_non_space(rest)]);
        }
    }
}

/// `last_non_space_end` points just past the last non-whitespace
/// character.
pub proof fn lemma_last_non_space_end(s: Seq<char>)
    ensures
        0 <= last_non_space_end(s) <= s.len(),
        forall|k: int| last_non_space_end(s) <= k < s.len() ==> is_space(s[k]),
        last_non_space_end(s) > 0 ==> !is_space(s[last_non_space_end(s) - 1]),
    decreases s.len(),
{
    if s.len() > 0 && is_space(s.last()) {
        let rest = s.drop_last();
        lemma_last_non_space_end(rest);
        assert forall|k: int| last_non_space_end(s) <= k < s.len() implies is_space(s[k]) by {
            if k < s.len() - 1 {
                assert(s[k] == rest[k]);
            }
        }
        if last_non_space_end(s) > 0 {
            assert(s[last_non_space_end(s) - 1] == rest[last_non_space_end(rest) - 1]);
        }
    }
}

/// Trimming a sequence made of whitespace alone leaves nothing.
pub proof fn lemma_trim_all_spaces(s: Seq<char>)
    requires
        forall|k: int| 0 <= k < s.len() ==> is_space(s[k]),
    ensures
        trim_spec(s).len() == 0,
{
    lemma_trim_start_at(s, s.len() as int);
    assert(trim_start_spec(s) =~= Seq::<char>::empty());
}

/// The substring of `line` at `[start, end)`, both ends trimmed of
/// whitespace. Extracts exactly `trim_spec` of that character range.
pub fn extract_trimmed(line: &str, start: usize, end: usize) -> (t: String)
    requires
        start <= end <= line@.len(),
    ensures
        t@ == trim_spec(line@.subrange(start as int, end as int)),
{
    let ghost field = line@.subrange(start as int, end as int);
    let mut lo = start;
    while lo < end && is_space_char(line.get_char(lo))
        invariant
            start <= lo <= end <= line@.len(),
            forall|k: int| start <= k < lo ==> is_space(line@[k]),
        decreases end - lo,
    {
        lo = lo + 1;
    }
    let mut hi = end;
    while hi > lo && is_space_char(line.get_char(hi - 1))
        invariant
            lo <= hi <= end <= line@.len(),
            forall|k: int| hi <= k < end ==> is_space(line@[k]),
        decreases hi,
    {
        hi = hi - 1;
    }
    proof {
        lemma_trim_start_at(field, lo - start);
        let started = field.subrange(lo - start, field.len() as int);
        assert(started =~= line@.subrange(lo as int, end as int));
        lemma_trim_end_at(started, hi - lo);
        assert(started.subrange(0, hi - lo) =~= line@.subrange(lo as int, hi as int));
    }
    line.substring_char(lo, hi).to_owned()
}

/// `n`, clipped to at most `len`.
pub open spec fn clip(n: int, len: int) -> int {
    if n <= len {
        n
    } else {
        len
    }
}

/// The value of a trimmed text field declared at `[start, end)` of
/// `line`: the part of that range actually present in the line, with
/// surrounding whitespace removed. For a line of the layout's full
/// length the clipping does nothing; for a truncated line the field is
/// read only as far as the line reaches.
pub open spec fn field_text_spec(line: Seq<char>, start: int, end: int) -> Seq<char> {
    trim_spec(line.subrange(clip(start, line.len() as int), clip(end, line.len() as int)))
}

/// Reads the trimmed text field declared at `[start, end)` of `line`,
/// clipping the range to the line's actual length first, so that a
/// truncated line never makes the read run past its end.
pub fn field_text(line: &str, start: usize, end: usize) -> (t: String)
    requires
        start <= end,
    ensures
        t@ == field_text_spec(line@, start as int, end as int),
{
    let n = line.unicode_len();
    let lo = if start < n {
        start
    } else {
        n
    };
    let hi = if end < n {
        end
    } else {
        n
    };
    extract_trimmed(line, lo, hi)
}

/// The character of `s` at `i`, or a space when `i` lies beyond the end.
/// This is the leniency rule for single-character fields of a truncated
/// line.
pub open spec fn char_at_or_space_spec(s: Seq<char>, i: int) -> char {
    if 0 <= i < s.len() {
        s[i]
    } else {
        ' '
    }
}

/// Bounds-tolerant character read: the character of `line` at `i`, or a
/// space when the line is shorter.
pub fn char_at_or_space(line: &str, i: usize) -> (c: char)
    ensures
        c == char_at_or_space_spec(line@, i as int),
{
    let n = line.unicode_len();
    if i < n {
        line.get_char(i)
    } else {
        ' '
    }
}

} // verus!
