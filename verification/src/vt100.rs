//! The control tokens that the prompt sends to the terminal, and the codes of
//! the keys that it tells apart.

use vstd::prelude::*;
use vstd::string::StringExecFns;

verus! {

/// Carriage return and line feed: starts the next row.
pub const CRLF: &'static str = "\r\n";

/// Moves the cursor one row up.
pub const CURSOR_UP: &'static str = "\x1b[A";

/// Moves the cursor one row down.
pub const CURSOR_DOWN: &'static str = "\x1b[B";

/// Moves the cursor one column to the right.
pub const CURSOR_RIGHT: &'static str = "\x1b[C";

/// Moves the cursor one column to the left.
pub const CURSOR_LEFT: &'static str = "\x1b[D";

/// Takes the cursor back to column zero of its row.
pub const REWIND: char = '\r';

/// Erases the char before the cursor.
pub const BACKSPACE: char = '\u{0008}';

/// The marker of a line that was broken because the row was full. It never
/// comes from the Enter key, and it is a line break to the text all the same.
pub const PARAGRAPH_SEPARATOR: char = '\u{2029}';

/// The code of the Backspace key.
pub const KEY_BACKSPACE: u32 = 8;

/// The code of the Enter key.
pub const KEY_ENTER: u32 = 13;

/// The code of the Arrow-Left key.
pub const KEY_ARROW_LEFT: u32 = 37;

/// The code of the Arrow-Up key.
pub const KEY_ARROW_UP: u32 = 38;

/// The code of the Arrow-Right key.
pub const KEY_ARROW_RIGHT: u32 = 39;

/// The code of the Arrow-Down key.
pub const KEY_ARROW_DOWN: u32 = 40;

/// The chars of `n` moves of the cursor by one column to the right.
pub open spec fn cursor_right_seq(n: nat) -> Seq<char>
    decreases n,
{
    if n == 0 {
        Seq::empty()
    } else {
        cursor_right_seq((n - 1) as nat) + CURSOR_RIGHT@
    }
}

/// Appends `n` moves of the cursor by one column to the right.
pub fn cursor_right(out: &mut String, n: usize)
    ensures
        final(out)@ == old(out)@ + cursor_right_seq(n as nat),
{
    let mut i: usize = 0;
    while i < n
        invariant
            i <= n,
            out@ == old(out)@ + cursor_right_seq(i as nat),
        decreases n - i,
    {
        out.append(CURSOR_RIGHT);
        i += 1;
    }
}

} // verus!
