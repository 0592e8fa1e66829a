//! What holds of the prompt whatever is typed.

use crate::key_event::{KeyCode, KeyEvent};
use crate::lines::{
    is_line_break, lemma_line_len_push_break, lemma_line_len_push_plain,
    lemma_line_len_without_breaks, line_len,
};
use crate::prompt_state::{reflow, PromptState, PROMPT_CONT, PROMPT_INIT, PROMPT_WIDTH};
use crate::vt100::PARAGRAPH_SEPARATOR;
use vstd::prelude::*;

verus! {

/// Both prompts are as wide as `PROMPT_WIDTH` says.
pub proof fn lemma_prompts_have_prompt_width()
    ensures
        PROMPT_INIT@.len() == PROMPT_WIDTH,
        PROMPT_CONT@.len() == PROMPT_WIDTH,
{
    reveal_strlit("duckdb> ");
    reveal_strlit("   ...> ");
}

/// The text that is handed on is as long as the text, and a text without a
/// wrapped line is handed on as it is.
pub proof fn lemma_reflow(text: Seq<char>)
    ensures
        reflow(text).len() == text.len(),
        (forall|i: int| 0 <= i < text.len() ==> text[i] != PARAGRAPH_SEPARATOR) ==> reflow(text)
            == text,
        forall|i: int| 0 <= i < text.len() ==> #[trigger] reflow(text)[i] != PARAGRAPH_SEPARATOR,
{
    if forall|i: int| 0 <= i < text.len() ==> text[i] != PARAGRAPH_SEPARATOR {
        assert(reflow(text) =~= text);
    }
}

impl PromptState {
    /// Whatever key comes, the cursor stays inside the text, and the
    /// terminal width stays what it was.
    pub proof fn lemma_step_keeps_cursor_in_text(self, event: KeyEvent)
        requires
            self.well_formed(),
        ensures
            self.step(event).well_formed(),
            self.step(event).terminal_width == self.terminal_width,
    {
    }

    /// An empty prompt has its cursor inside its text, and so has a prompt
    /// after it was configured, flushed or reset, if it had before.
    pub proof fn lemma_operations_keep_cursor_in_text(self, cols: nat)
        requires
            self.well_formed(),
        ensures
            PromptState::empty().well_formed(),
            self.configure(cols).well_formed(),
            self.flush().well_formed(),
            self.reset().well_formed(),
    {
    }

    /// After any sequence of keys the cursor is inside the text.
    pub proof fn lemma_run_keeps_cursor_in_text(self, events: Seq<KeyEvent>)
        requires
            self.well_formed(),
        ensures
            self.run(events).well_formed(),
            self.run(events).terminal_width == self.terminal_width,
        decreases events.len(),
    {
        if events.len() > 0 {
            self.lemma_run_keeps_cursor_in_text(events.drop_last());
            self.run(events.drop_last()).lemma_step_keeps_cursor_in_text(events.last());
        }
    }

    /// A key only ever adds to the pending output.
    pub proof fn lemma_step_extends_output(self, event: KeyEvent)
        ensures
            self.output.is_prefix_of(self.step(event).output),
    {
        let after = self.step(event).output;
        assert(self.output.len() <= after.len());
        assert(after.subrange(0, self.output.len() as int) =~= self.output);
    }

    /// Keys taken one sequence after another do what the two sequences do as
    /// one.
    pub proof fn lemma_run_concat(self, first: Seq<KeyEvent>, second: Seq<KeyEvent>)
        ensures
            self.run(first + second) == self.run(first).run(second),
        decreases second.len(),
    {
        if second.len() == 0 {
            assert(first + second =~= first);
        } else {
            assert((first + second).drop_last() =~= first + second.drop_last());
            self.lemma_run_concat(first, second.drop_last());
        }
    }

    /// Arrow-Left, pressed no more often than chars stand before the cursor,
    /// takes the cursor back by one char for each press and leaves the text.
    pub proof fn lemma_run_left(self, events: Seq<KeyEvent>)
        requires
            self.well_formed(),
            events.len() <= self.cursor,
            forall|i: int| 0 <= i < events.len() ==> events[i].spec_code() == KeyCode::ArrowLeft,
        ensures
            self.run(events).text == self.text,
            self.run(events).cursor == self.cursor - events.len(),
        decreases events.len(),
    {
        if events.len() > 0 {
            self.lemma_run_left(events.drop_last());
        }
    }

    /// Arrow-Right, pressed no more often than chars stand behind the cursor,
    /// takes the cursor on by one char for each press and leaves the text.
    pub proof fn lemma_run_right(self, events: Seq<KeyEvent>)
        requires
            self.cursor + events.len() <= self.text.len(),
            forall|i: int| 0 <= i < events.len() ==> events[i].spec_code() == KeyCode::ArrowRight,
        ensures
            self.run(events).text == self.text,
            self.run(events).cursor == self.cursor + events.len(),
        decreases events.len(),
    {
        if events.len() > 0 {
            self.lemma_run_right(events.drop_last());
        }
    }

    /// Moving left some number of times and then right as often brings the
    /// cursor back to where it was, over newlines as over other chars, and
    /// leaves the text.
    pub proof fn lemma_left_then_right_restores_cursor(
        self,
        lefts: Seq<KeyEvent>,
        rights: Seq<KeyEvent>,
    )
        requires
            self.well_formed(),
            lefts.len() == rights.len(),
            lefts.len() <= self.cursor,
            forall|i: int| 0 <= i < lefts.len() ==> lefts[i].spec_code() == KeyCode::ArrowLeft,
            forall|i: int| 0 <= i < rights.len() ==> rights[i].spec_code() == KeyCode::ArrowRight,
        ensures
            self.run(lefts + rights).cursor == self.cursor,
            self.run(lefts + rights).text == self.text,
    {
        self.lemma_run_concat(lefts, rights);
        self.lemma_run_left(lefts);
        self.run(lefts).lemma_run_right(rights);
    }

    /// A statement starts the same way whatever the prompt was before, so
    /// starting it twice is starting it once; and the cursor of a fresh
    /// statement is inside its text.
    pub proof fn lemma_reset_is_idempotent(self)
        ensures
            self.reset().text == Seq::<char>::empty(),
            self.reset().cursor == 0,
            self.reset().output == PROMPT_INIT@,
            self.reset().reset() == self.reset(),
            self.reset().well_formed(),
    {
    }

    /// Chars that break no line, typed one after another into an empty
    /// prompt on a terminal that holds them all in its first row, are the
    /// text, in the order typed, and are handed on as they were typed.
    pub proof fn lemma_typed_text_round_trips(self, events: Seq<KeyEvent>, typed: Seq<char>)
        requires
            self.text.len() == 0,
            self.cursor == 0,
            events.len() == typed.len(),
            PROMPT_WIDTH + typed.len() <= self.terminal_width,
            forall|i: int|
                0 <= i < events.len() ==> events[i].spec_code() == KeyCode::Other
                    && events[i].spec_typed_char() == Some(typed[i]),
            forall|i: int| 0 <= i < typed.len() ==> !is_line_break(typed[i]),
        ensures
            self.run(events).text == typed,
            self.run(events).cursor == typed.len(),
            reflow(self.run(events).text) == typed,
        decreases events.len(),
    {
        lemma_reflow(typed);
        if events.len() == 0 {
            assert(self.text =~= typed);
        } else {
            let before = typed.drop_last();
            self.lemma_typed_text_round_trips(events.drop_last(), before);
            self.lemma_run_keeps_cursor_in_text(events.drop_last());
            lemma_line_len_without_breaks(before);
            assert(before.insert(before.len() as int, typed.last()) =~= typed);
        }
    }

    /// While chars that break no line are typed at the end of the text, on a
    /// terminal that is wider than the prompt, the prompt and the line at the
    /// cursor never take more columns than the terminal has: the line is
    /// wrapped before the char that would not fit.
    pub proof fn lemma_typing_at_end_fits_row(self, c: char)
        requires
            self.cursor == self.text.len(),
            !is_line_break(c),
            PROMPT_WIDTH < self.terminal_width,
        ensures
            self.insert_char(c).cursor == self.insert_char(c).text.len(),
            PROMPT_WIDTH + line_len(self.insert_char(c).text, self.insert_char(c).cursor as int)
                <= self.terminal_width,
    {
        if self.row_is_full() {
            let wrapped = self.text.push(PARAGRAPH_SEPARATOR);
            assert(self.insert_linewrap().text =~= wrapped);
            assert(self.insert_char(c).text =~= wrapped.push(c));
            lemma_line_len_push_break(self.text, PARAGRAPH_SEPARATOR);
            lemma_line_len_push_plain(wrapped, c);
        } else {
            assert(self.insert_char(c).text =~= self.text.push(c));
            lemma_line_len_push_plain(self.text, c);
        }
    }
}

} // verus!
