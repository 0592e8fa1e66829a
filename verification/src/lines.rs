//! How a text divides into lines.
//!
//! A line starts at the start of the text and just behind every line break,
//! and a line break belongs to the line that it ends. A text that ends in a
//! line break therefore has an empty last line. Everything here is
//! specification: offsets count chars, not bytes.

use vstd::prelude::*;

verus! {

/// The chars that break a line: LF, VT, FF, CR, NEL, LS and PS.
pub open spec fn is_line_break(c: char) -> bool {
    c == '\u{000A}' || c == '\u{000B}' || c == '\u{000C}' || c == '\u{000D}' || c == '\u{0085}'
        || c == '\u{2028}' || c == '\u{2029}'
}

/// True when the char at offset `i` is the last char of a line break.
///
/// A CR that stands directly before an LF is the first half of one break
/// and ends no line by itself.
pub open spec fn ends_line(text: Seq<char>, i: int) -> bool {
    &&& 0 <= i < text.len()
    &&& is_line_break(text[i])
    &&& !(text[i] == '\u{000D}' && i + 1 < text.len() && text[i + 1] == '\u{000A}')
}

/// The number of line breaks that are complete before offset `idx`: the
/// index of the line that holds `idx`.
pub open spec fn line_index(text: Seq<char>, idx: int) -> nat
    decreases idx,
{
    if idx <= 0 {
        0
    } else if ends_line(text, idx - 1) {
        line_index(text, idx - 1) + 1
    } else {
        line_index(text, idx - 1)
    }
}

/// The number of lines of a text: one more than its line breaks.
pub open spec fn line_count(text: Seq<char>) -> nat {
    line_index(text, text.len() as int) + 1
}

/// The offset at which the line that holds offset `idx` starts.
pub open spec fn line_start(text: Seq<char>, idx: int) -> int
    decreases idx,
{
    if idx <= 0 {
        0
    } else if ends_line(text, idx - 1) {
        idx
    } else {
        line_start(text, idx - 1)
    }
}

/// The offset just behind the line that holds offset `idx`, the line's own
/// break included.
pub open spec fn line_end(text: Seq<char>, idx: int) -> int
    decreases text.len() - idx,
{
    if idx >= text.len() {
        text.len() as int
    } else if ends_line(text, idx) {
        idx + 1
    } else {
        line_end(text, idx + 1)
    }
}

/// The number of chars of the line that holds offset `idx`, the line's own
/// break included.
pub open spec fn line_len(text: Seq<char>, idx: int) -> int {
    line_end(text, idx) - line_start(text, idx)
}

/// The offset at which line number `k` starts; the length of the text where
/// it has fewer lines.
pub open spec fn nth_line_start(text: Seq<char>, k: nat) -> int
    decreases k,
{
    if k == 0 {
        0
    } else {
        line_end(text, nth_line_start(text, (k - 1) as nat))
    }
}

/// Line number `k` of a text, its break included.
pub open spec fn nth_line(text: Seq<char>, k: nat) -> Seq<char> {
    text.subrange(nth_line_start(text, k), line_end(text, nth_line_start(text, k)))
}

/// A line starts inside the text, at or before every offset that it holds,
/// and directly behind a line break or at offset 0; between its start and an
/// offset that it holds no line ends.
pub proof fn lemma_line_start(text: Seq<char>, idx: int)
    requires
        0 <= idx <= text.len(),
    ensures
        0 <= line_start(text, idx) <= idx,
        line_start(text, idx) == 0 || ends_line(text, line_start(text, idx) - 1),
        forall|j: int| line_start(text, idx) <= j < idx ==> !ends_line(text, j),
    decreases idx,
{
    if idx > 0 && !ends_line(text, idx - 1) {
        lemma_line_start(text, idx - 1);
    }
}

/// A line ends inside the text, behind every offset that it holds unless the
/// text ends there, and directly behind a line break or at the end of the
/// text; no line ends between an offset that it holds and its last char.
pub proof fn lemma_line_end(text: Seq<char>, idx: int)
    requires
        0 <= idx <= text.len(),
    ensures
        idx <= line_end(text, idx) <= text.len(),
        idx < text.len() ==> idx < line_end(text, idx),
        line_end(text, idx) == text.len() || ends_line(text, line_end(text, idx) - 1),
        forall|j: int| idx <= j < line_end(text, idx) - 1 ==> !ends_line(text, j),
    decreases text.len() - idx,
{
    if idx < text.len() && !ends_line(text, idx) {
        lemma_line_end(text, idx + 1);
    }
}

/// Two offsets with no line end from the first up to the second lie in one
/// line, so their lines end at the same offset.
pub proof fn lemma_line_end_within_line(text: Seq<char>, from: int, to: int)
    requires
        0 <= from <= to <= text.len(),
        forall|j: int| from <= j < to ==> !ends_line(text, j),
    ensures
        line_end(text, from) == line_end(text, to),
    decreases to - from,
{
    if from < to {
        lemma_line_end_within_line(text, from + 1, to);
    }
}

/// The index of a line never exceeds that of a line further on.
pub proof fn lemma_line_index_monotonic(text: Seq<char>, a: int, b: int)
    requires
        a <= b,
    ensures
        line_index(text, a) <= line_index(text, b),
    decreases b - a,
{
    if a < b {
        lemma_line_index_monotonic(text, a, b - 1);
    }
}

/// The line that holds offset `idx` is the line whose number is the count of
/// line breaks before `idx`: that line exists, starts where the line of `idx`
/// starts, and has its length.
pub proof fn lemma_line_of_offset(text: Seq<char>, idx: int)
    requires
        0 <= idx <= text.len(),
    ensures
        line_index(text, idx) < line_count(text),
        nth_line_start(text, line_index(text, idx)) == line_start(text, idx),
        nth_line(text, line_index(text, idx)).len() == line_len(text, idx),
        0 <= line_len(text, idx) <= text.len(),
    decreases idx,
{
    lemma_line_index_monotonic(text, idx, text.len() as int);
    lemma_line_start(text, idx);
    lemma_line_end(text, idx);
    lemma_line_end_within_line(text, line_start(text, idx), idx);
    if idx > 0 {
        lemma_line_of_offset(text, idx - 1);
        if ends_line(text, idx - 1) {
            let prev = line_start(text, idx - 1);
            lemma_line_start(text, idx - 1);
            lemma_line_end_within_line(text, prev, idx - 1);
        }
    }
}

/// A char other than LF that is added behind a text moves no line start in
/// the text.
pub proof fn lemma_line_start_push(text: Seq<char>, c: char, idx: int)
    requires
        0 <= idx <= text.len(),
        c != '\u{000A}',
    ensures
        line_start(text.push(c), idx) == line_start(text, idx),
    decreases idx,
{
    if idx > 0 {
        assert(ends_line(text.push(c), idx - 1) == ends_line(text, idx - 1));
        lemma_line_start_push(text, c, idx - 1);
    }
}

/// A char that breaks no line, added behind a text, makes the last line one
/// char longer.
pub proof fn lemma_line_len_push_plain(text: Seq<char>, c: char)
    requires
        !is_line_break(c),
    ensures
        line_len(text.push(c), text.len() as int + 1) == line_len(text, text.len() as int) + 1,
{
    let longer = text.push(c);
    assert(!ends_line(longer, text.len() as int));
    lemma_line_start_push(text, c, text.len() as int);
}

/// A text without a line break is one line.
pub proof fn lemma_line_len_without_breaks(text: Seq<char>)
    requires
        forall|i: int| 0 <= i < text.len() ==> !is_line_break(text[i]),
    ensures
        line_len(text, text.len() as int) == text.len(),
    decreases text.len(),
{
    if text.len() > 0 {
        lemma_line_len_without_breaks(text.drop_last());
        lemma_line_len_push_plain(text.drop_last(), text.last());
        assert(text.drop_last().push(text.last()) =~= text);
    }
}

/// A line break other than CR, added behind a text, leaves an empty last
/// line.
pub proof fn lemma_line_len_push_break(text: Seq<char>, c: char)
    requires
        is_line_break(c),
        c != '\u{000D}',
    ensures
        line_len(text.push(c), text.len() as int + 1) == 0,
{
    let longer = text.push(c);
    assert(ends_line(longer, text.len() as int));
}

} // verus!
