//! What is assumed of `String` where vstd says nothing of it.

use vstd::prelude::*;

verus! {

/// `String::push` appends the char to the end of the string.
pub assume_specification[ String::push ](s: &mut String, ch: char)
    ensures
        final(s)@ == old(s)@.push(ch),
;

} // verus!
