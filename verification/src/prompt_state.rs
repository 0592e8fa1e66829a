//! The mathematical model of the prompt: what it is at one moment, and what
//! each key does to it.

use crate::key_event::{KeyCode, KeyEvent};
use crate::lines::line_len;
use crate::vt100::{
    cursor_right_seq, BACKSPACE, CRLF, CURSOR_DOWN, CURSOR_LEFT, CURSOR_RIGHT, CURSOR_UP,
    PARAGRAPH_SEPARATOR, REWIND,
};
use vstd::prelude::*;

verus! {

/// The prompt that opens a statement.
pub const PROMPT_INIT: &'static str = "duckdb> ";

/// The prompt that opens every further row of a statement.
pub const PROMPT_CONT: &'static str = "   ...> ";

/// The number of columns that either prompt takes.
pub const PROMPT_WIDTH: usize = 8;

/// The explicit line break that the Enter key puts in.
pub const NEWLINE: char = '\n';

/// What a prompt is at one moment.
pub struct PromptState {
    /// The edited text, line markers included.
    pub text: Seq<char>,
    /// The offset in `text` at which the next edit happens.
    pub cursor: nat,
    /// The terminal output that has not been flushed yet.
    pub output: Seq<char>,
    /// The number of columns of the terminal.
    pub terminal_width: nat,
}

/// True of the two chars that mark a line boundary in the text: the explicit
/// newline and the marker of a wrapped line.
pub open spec fn is_line_marker(c: char) -> bool {
    c == NEWLINE || c == PARAGRAPH_SEPARATOR
}

/// The text as it is handed on: every marker of a wrapped line has become a
/// newline, and every other char is as it was.
pub open spec fn reflow(text: Seq<char>) -> Seq<char> {
    text.map_values(
        |c: char|
            if c == PARAGRAPH_SEPARATOR {
                NEWLINE
            } else {
                c
            },
    )
}

impl PromptState {
    /// The cursor lies inside the text or at its end.
    pub open spec fn well_formed(self) -> bool {
        self.cursor <= self.text.len()
    }

    /// A prompt without text, output or terminal.
    pub open spec fn empty() -> PromptState {
        PromptState { text: Seq::empty(), cursor: 0, output: Seq::empty(), terminal_width: 0 }
    }

    /// The prompt on a terminal of `cols` columns.
    pub open spec fn configure(self, cols: nat) -> PromptState {
        PromptState { terminal_width: cols, ..self }
    }

    /// The prompt once its output has gone to the terminal.
    pub open spec fn flush(self) -> PromptState {
        PromptState { output: Seq::empty(), ..self }
    }

    /// The prompt at the start of a statement: no text, the cursor at 0, and
    /// the initial prompt as the only output. The terminal stays.
    pub open spec fn reset(self) -> PromptState {
        PromptState {
            text: Seq::empty(),
            cursor: 0,
            output: PROMPT_INIT@,
            terminal_width: self.terminal_width,
        }
    }

    /// The prompt with the cursor at another offset and `out` added to the
    /// output.
    pub open spec fn move_to(self, cursor: nat, out: Seq<char>) -> PromptState {
        PromptState { cursor, output: self.output + out, ..self }
    }

    /// The prompt after the line marker `marker` went in at the cursor: the
    /// terminal starts a new row with the continuation prompt, and the
    /// cursor stands behind the marker.
    pub open spec fn break_line(self, marker: char) -> PromptState {
        PromptState {
            text: self.text.insert(self.cursor as int, marker),
            cursor: self.cursor + 1,
            output: self.output + CRLF@ + PROMPT_CONT@,
            terminal_width: self.terminal_width,
        }
    }

    /// The prompt after Enter.
    pub open spec fn insert_newline(self) -> PromptState {
        self.break_line(NEWLINE)
    }

    /// The prompt after the line at the cursor was wrapped.
    pub open spec fn insert_linewrap(self) -> PromptState {
        self.break_line(PARAGRAPH_SEPARATOR)
    }

    /// True when the prompt and the line at the cursor fill the row, so that
    /// one more char must go to a new row.
    pub open spec fn row_is_full(self) -> bool {
        PROMPT_WIDTH + line_len(self.text, self.cursor as int) >= self.terminal_width
    }

    /// The prompt after the char `c` was typed: where the row is full the
    /// line is wrapped first; then `c` goes in at the cursor and is echoed.
    pub open spec fn insert_char(self, c: char) -> PromptState {
        let s = if self.row_is_full() {
            self.insert_linewrap()
        } else {
            self
        };
        PromptState {
            text: s.text.insert(s.cursor as int, c),
            cursor: s.cursor + 1,
            output: s.output.push(c),
            terminal_width: s.terminal_width,
        }
    }

    /// The prompt after Backspace: the char before the cursor goes, unless
    /// there is none or it is a line marker.
    pub open spec fn backspace(self) -> PromptState {
        if self.cursor == 0 || is_line_marker(self.text[self.cursor - 1]) {
            self
        } else {
            PromptState {
                text: self.text.remove(self.cursor - 1),
                cursor: (self.cursor - 1) as nat,
                output: self.output.push(BACKSPACE),
                terminal_width: self.terminal_width,
            }
        }
    }

    /// The prompt after Arrow-Left: the cursor steps one char back, unless it
    /// is at the start. Over a newline the terminal goes up a row and right
    /// by the length of the line that the newline ends; over any other char
    /// it goes left by one column.
    pub open spec fn move_left(self) -> PromptState {
        if self.cursor == 0 {
            self
        } else if self.text[self.cursor - 1] == NEWLINE {
            self.move_to(
                (self.cursor - 1) as nat,
                seq![REWIND] + CURSOR_UP@ + cursor_right_seq(
                    line_len(self.text, self.cursor - 1) as nat,
                ),
            )
        } else {
            self.move_to((self.cursor - 1) as nat, CURSOR_LEFT@)
        }
    }

    /// The prompt after Arrow-Right: the cursor steps one char on, unless it
    /// is at the end. Over a newline the terminal goes down a row and right
    /// by the width of the prompt; over any other char it goes right by one
    /// column.
    pub open spec fn move_right(self) -> PromptState {
        if self.cursor >= self.text.len() {
            self
        } else if self.text[self.cursor as int] == NEWLINE {
            self.move_to(
                self.cursor + 1,
                seq![REWIND] + CURSOR_DOWN@ + cursor_right_seq(PROMPT_WIDTH as nat),
            )
        } else {
            self.move_to(self.cursor + 1, CURSOR_RIGHT@)
        }
    }

    /// The prompt after one key event.
    pub open spec fn step(self, event: KeyEvent) -> PromptState {
        match event.spec_code() {
            KeyCode::Enter => self.insert_newline(),
            KeyCode::Backspace => self.backspace(),
            KeyCode::ArrowUp => self,
            KeyCode::ArrowDown => self,
            KeyCode::ArrowLeft => self.move_left(),
            KeyCode::ArrowRight => self.move_right(),
            KeyCode::Other => match event.spec_typed_char() {
                Some(c) => self.insert_char(c),
                None => self,
            },
        }
    }

    /// The prompt after a sequence of key events, first to last.
    pub open spec fn run(self, events: Seq<KeyEvent>) -> PromptState
        decreases events.len(),
    {
        if events.len() == 0 {
            self
        } else {
            self.run(events.drop_last()).step(events.last())
        }
    }
}

} // verus!
