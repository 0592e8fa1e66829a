//! The text rope that holds the edited text, and what is assumed of it.
//!
//! Nothing in this file is proved: each contract restates what ropey
//! documents of the function that it names, over the chars that the rope
//! holds and the line model of [`crate::lines`]. The line model is that of
//! ropey with its default features, under which every Unicode line break
//! counts.

use crate::lines::{line_count, line_index, nth_line};
use ropey::Rope;
use ropey::RopeSlice;
use vstd::prelude::*;

verus! {

/// ropey's `Rope`, a text that is edited by char offsets. Nothing is known
/// of what is inside it but through [`rope_text`].
#[verifier::external_type_specification]
#[verifier::external_body]
pub struct ExRope(Rope);

/// ropey's `RopeSlice`, a part of a rope that is only read. Nothing is known
/// of what is inside it but through [`slice_text`].
#[verifier::external_type_specification]
#[verifier::external_body]
pub struct ExRopeSlice<'a>(RopeSlice<'a>);

/// The chars that a rope holds, in order.
pub uninterp spec fn rope_text(rope: Rope) -> Seq<char>;

/// The chars that a slice of a rope holds, in order.
pub uninterp spec fn slice_text(slice: RopeSlice) -> Seq<char>;

/// `Rope::new` makes an empty rope.
pub assume_specification[ Rope::new ]() -> (rope: Rope)
    ensures
        rope_text(rope) == Seq::<char>::empty(),
;

/// `Rope::len_chars` is the number of chars that the rope holds.
pub assume_specification[ Rope::len_chars ](rope: &Rope) -> (n: usize)
    ensures
        n == rope_text(*rope).len(),
;

/// `Rope::insert_char` puts one char in at a char offset, which may be the
/// end of the text; behind the end it panics.
pub assume_specification[ Rope::insert_char ](rope: &mut Rope, char_idx: usize, ch: char)
    requires
        char_idx <= rope_text(*old(rope)).len(),
    ensures
        rope_text(*final(rope)) == rope_text(*old(rope)).insert(char_idx as int, ch),
;

/// `Rope::get_char` is the char at a char offset, and `None` at the end of
/// the text and behind it.
pub assume_specification[ Rope::get_char ](rope: &Rope, char_idx: usize) -> (c: Option<char>)
    ensures
        c == if char_idx < rope_text(*rope).len() {
            Some(rope_text(*rope)[char_idx as int])
        } else {
            None::<char>
        },
;

/// `Rope::char_to_line` is the index of the line that holds a char offset:
/// the number of line breaks before it. The offset may be the end of the
/// text; behind the end it panics.
pub assume_specification[ Rope::char_to_line ](rope: &Rope, char_idx: usize) -> (line_idx: usize)
    requires
        char_idx <= rope_text(*rope).len(),
    ensures
        line_idx == line_index(rope_text(*rope), char_idx as int),
;

/// `Rope::line` is the line with a given index, its line break included; at
/// the number of lines and behind it panics.
pub assume_specification<'a>[ Rope::line ](rope: &'a Rope, line_idx: usize) -> (line: RopeSlice<
    'a,
>)
    requires
        line_idx < line_count(rope_text(*rope)),
    ensures
        slice_text(line) == nth_line(rope_text(*rope), line_idx as nat),
;

/// `RopeSlice::len_chars` is the number of chars that the slice holds.
pub assume_specification<'a>[ RopeSlice::<'a>::len_chars ](slice: &RopeSlice<'a>) -> (n: usize)
    ensures
        n == slice_text(*slice).len(),
;

/// `Rope::remove` takes out the chars of a range of char offsets; it panics
/// where the range starts behind its end or ends behind the text.
#[verifier::external_body]
pub(crate) fn remove_range(rope: &mut Rope, start: usize, end: usize)
    requires
        start <= end <= rope_text(*old(rope)).len(),
    ensures
        rope_text(*final(rope)) == rope_text(*old(rope)).subrange(0, start as int) + rope_text(
            *old(rope),
        ).subrange(end as int, rope_text(*old(rope)).len() as int),
{
    rope.remove(start..end);
}

/// `Rope::chars` walks the chars of the rope from first to last; they are
/// handed out as a vector.
#[verifier::external_body]
pub(crate) fn chars_of(rope: &Rope) -> (chars: Vec<char>)
    ensures
        chars@ == rope_text(*rope),
{
    rope.chars().collect()
}

} // verus!
