//! The prompt: an editable text with a cursor, and the terminal output that
//! keeps the screen in step with it.
//!
//! [`PromptState`] is the mathematical model of a prompt and says, key by
//! key, what an edit does. [`PromptBuffer`] is the prompt itself; each of its
//! operations is proved to move it as the model says.

use crate::key_event::{KeyCode, KeyEvent};
use crate::lines::{lemma_line_of_offset, line_len};
use crate::prompt_state::{
    reflow, PromptState, NEWLINE, PROMPT_CONT, PROMPT_INIT, PROMPT_WIDTH,
};
use crate::rope::{chars_of, remove_range, rope_text};
use crate::vt100::{
    cursor_right, cursor_right_seq, BACKSPACE, CRLF, CURSOR_DOWN, CURSOR_LEFT, CURSOR_RIGHT,
    CURSOR_UP, PARAGRAPH_SEPARATOR, REWIND,
};
use ropey::Rope;
use vstd::prelude::*;
use vstd::string::StringExecFns;

verus! {

/// An editable text with a cursor, on a terminal of a known width, together
/// with the terminal output that is still to be written.
pub struct PromptBuffer {
    /// The pending output.
    output_buffer: String,
    /// The text.
    text_buffer: Rope,
    /// The cursor, a char offset in the text.
    cursor: usize,
    /// The terminal width in columns.
    terminal_width: usize,
}

impl View for PromptBuffer {
    type V = PromptState;

    closed spec fn view(&self) -> PromptState {
        PromptState {
            text: rope_text(self.text_buffer),
            cursor: self.cursor as nat,
            output: self.output_buffer@,
            terminal_width: self.terminal_width as nat,
        }
    }
}

impl PromptBuffer {
    /// A prompt without text, output or terminal. Until it is configured
    /// its terminal has no columns, so every typed char goes to a new row.
    pub fn default() -> (buffer: Self)
        ensures
            buffer@ == PromptState::empty(),
    {
        Self {
            output_buffer: String::new(),
            text_buffer: Rope::new(),
            cursor: 0,
            terminal_width: 0,
        }
    }

    /// Takes the width of the terminal, in columns. Lines are wrapped by it
    /// from now on; what is in the text stays as it is.
    pub fn configure(&mut self, cols: usize)
        ensures
            final(self)@ == old(self)@.configure(cols as nat),
    {
        self.terminal_width = cols;
    }

    /// Hands out the pending output, in one piece, and leaves none pending.
    pub fn flush(&mut self) -> (out: String)
        ensures
            out@ == old(self)@.output,
            final(self)@ == old(self)@.flush(),
    {
        let mut out = String::new();
        core::mem::swap(&mut out, &mut self.output_buffer);
        out
    }

    /// The text as it is handed on, with a newline for each wrapped line.
    /// The prompt stays as it is.
    pub fn collect(&mut self) -> (text: String)
        ensures
            text@ == reflow(old(self)@.text),
            final(self)@ == old(self)@,
    {
        let chars = chars_of(&self.text_buffer);
        let mut buffer = String::new();
        let mut i: usize = 0;
        while i < chars.len()
            invariant
                i <= chars.len(),
                buffer@ == reflow(chars@.take(i as int)),
            decreases chars.len() - i,
        {
            let c = chars[i];
            if c == PARAGRAPH_SEPARATOR {
                buffer.push(NEWLINE);
            } else {
                buffer.push(c);
            }
            i += 1;
            assert(chars@.take(i as int) == chars@.take(i - 1).push(c));
        }
        assert(chars@.take(i as int) == chars@);
        buffer
    }

    /// Starts a new statement: the text is empty, the cursor at its start,
    /// and the initial prompt is all that is pending, whatever was before.
    /// The terminal width stays.
    pub fn reset(&mut self)
        ensures
            final(self)@ == old(self)@.reset(),
            final(self)@.well_formed(),
    {
        self.output_buffer = String::from_str(PROMPT_INIT);
        self.text_buffer = Rope::new();
        self.cursor = 0;
    }

    /// Moves the cursor behind the char that it stands on.
    fn advance_cursor(&mut self)
        requires
            old(self)@.cursor < old(self)@.text.len(),
        ensures
            final(self)@ == old(self)@.move_to(old(self)@.cursor + 1, Seq::empty()),
    {
        // The rope counts its chars in a `usize`, so there is room above a
        // cursor that stands on a char.
        if self.cursor < self.text_buffer.len_chars() {
            self.cursor += 1;
        }
    }

    /// Puts the line marker `marker` in at the cursor and starts a new row
    /// with the continuation prompt.
    fn break_line(&mut self, marker: char)
        requires
            old(self)@.well_formed(),
        ensures
            final(self)@ == old(self)@.break_line(marker),
    {
        self.text_buffer.insert_char(self.cursor, marker);
        self.output_buffer.append(CRLF);
        self.output_buffer.append(PROMPT_CONT);
        self.advance_cursor();
    }

    /// Puts a newline in at the cursor.
    fn insert_newline(&mut self)
        requires
            old(self)@.well_formed(),
        ensures
            final(self)@ == old(self)@.insert_newline(),
    {
        self.break_line(NEWLINE);
    }

    /// Wraps the line at the cursor. The rope takes the paragraph separator
    /// for a line break, so the rest of the line is a line of its own.
    fn insert_linewrap(&mut self)
        requires
            old(self)@.well_formed(),
        ensures
            final(self)@ == old(self)@.insert_linewrap(),
    {
        self.break_line(PARAGRAPH_SEPARATOR);
    }

    /// The number of chars of the line that holds the char offset `at`.
    fn line_len_at(&self, at: usize) -> (n: usize)
        requires
            at <= self@.text.len(),
        ensures
            n == line_len(self@.text, at as int),
    {
        let line_id = self.text_buffer.char_to_line(at);
        proof {
            lemma_line_of_offset(self@.text, at as int);
        }
        let line = self.text_buffer.line(line_id);
        line.len_chars()
    }

    /// Puts the char `c` in at the cursor, on a new row where the current one
    /// is full, and echoes it.
    fn insert_char(&mut self, c: char)
        requires
            old(self)@.well_formed(),
        ensures
            final(self)@ == old(self)@.insert_char(c),
    {
        let line_len = self.line_len_at(self.cursor);
        if self.terminal_width <= PROMPT_WIDTH || line_len >= self.terminal_width - PROMPT_WIDTH {
            self.insert_linewrap();
        }
        self.text_buffer.insert_char(self.cursor, c);
        self.output_buffer.push(c);
        self.advance_cursor();
    }

    /// Takes out the char before the cursor, unless it is a line marker.
    fn backspace(&mut self)
        requires
            old(self)@.well_formed(),
        ensures
            final(self)@ == old(self)@.backspace(),
    {
        if self.cursor == 0 {
            return ;
        }
        match self.text_buffer.get_char(self.cursor - 1) {
            Some(c) => {
                if c != NEWLINE && c != PARAGRAPH_SEPARATOR {
                    self.output_buffer.push(BACKSPACE);
                    remove_range(&mut self.text_buffer, self.cursor - 1, self.cursor);
                    self.cursor -= 1;
                }
            },
            None => {},
        }
    }

    /// Moves the cursor one char back.
    fn move_left(&mut self)
        requires
            old(self)@.well_formed(),
        ensures
            final(self)@ == old(self)@.move_left(),
    {
        if self.cursor == 0 {
            return ;
        }
        match self.text_buffer.get_char(self.cursor - 1) {
            Some(c) => {
                if c == NEWLINE {
                    let line_len = self.line_len_at(self.cursor - 1);
                    self.output_buffer.push(REWIND);
                    self.output_buffer.append(CURSOR_UP);
                    cursor_right(&mut self.output_buffer, line_len);
                    assert(self.output_buffer@ =~= old(self)@.output + (seq![REWIND] + CURSOR_UP@
                        + cursor_right_seq(line_len as nat)));
                } else {
                    self.output_buffer.append(CURSOR_LEFT);
                }
                self.cursor -= 1;
            },
            None => {},
        }
    }

    /// Moves the cursor one char on.
    fn move_right(&mut self)
        requires
            old(self)@.well_formed(),
        ensures
            final(self)@ == old(self)@.move_right(),
    {
        match self.text_buffer.get_char(self.cursor) {
            Some(c) => {
                if c == NEWLINE {
                    self.output_buffer.push(REWIND);
                    self.output_buffer.append(CURSOR_DOWN);
                    cursor_right(&mut self.output_buffer, PROMPT_WIDTH);
                    assert(self.output_buffer@ =~= old(self)@.output + (seq![REWIND]
                        + CURSOR_DOWN@ + cursor_right_seq(PROMPT_WIDTH as nat)));
                } else {
                    self.output_buffer.append(CURSOR_RIGHT);
                }
                self.advance_cursor();
            },
            None => {},
        }
    }

    /// The cursor: the char offset in the text at which the next edit
    /// happens.
    pub fn cursor(&self) -> (cursor: usize)
        ensures
            cursor == self@.cursor,
    {
        self.cursor
    }

    /// The width of the terminal, in columns.
    pub fn terminal_width(&self) -> (cols: usize)
        ensures
            cols == self@.terminal_width,
    {
        self.terminal_width
    }

    /// The number of chars of the text, line markers included.
    pub fn len_chars(&self) -> (n: usize)
        ensures
            n == self@.text.len(),
    {
        self.text_buffer.len_chars()
    }

    /// The chars of the text, line markers included.
    pub fn chars(&self) -> (chars: Vec<char>)
        ensures
            chars@ == self@.text,
    {
        chars_of(&self.text_buffer)
    }

    /// The output that is pending.
    pub fn output(&self) -> (out: &str)
        ensures
            out@ == self@.output,
    {
        self.output_buffer.as_str()
    }

    /// Takes one key event. Enter breaks the line at the cursor, Backspace
    /// takes out the char before it, Arrow-Left and Arrow-Right move it,
    /// Arrow-Up and Arrow-Down do nothing, and any other key types the first
    /// char of its text unless Alt, Ctrl or Meta is held. What goes to the
    /// terminal for it is added to the pending output.
    pub fn consume(&mut self, event: KeyEvent)
        requires
            old(self)@.well_formed(),
        ensures
            final(self)@ == old(self)@.step(event),
            final(self)@.well_formed(),
    {
        match event.code() {
            KeyCode::Enter => self.insert_newline(),
            KeyCode::Backspace => self.backspace(),
            KeyCode::ArrowUp | KeyCode::ArrowDown => {},
            KeyCode::ArrowLeft => self.move_left(),
            KeyCode::ArrowRight => self.move_right(),
            KeyCode::Other => {
                match event.typed_char() {
                    Some(c) => self.insert_char(c),
                    None => {},
                }
            },
        }
    }
}

} // verus!
