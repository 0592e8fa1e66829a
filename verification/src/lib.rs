//! A line-editing engine for a prompt on a fixed-width terminal.
//!
//! The prompt holds an editable text of one or more lines and a cursor. Each
//! key event changes the text or moves the cursor, and adds to a pending
//! output the control tokens and chars that bring the terminal in step. Lines
//! that would not fit the terminal are wrapped char by char.

pub mod key_event;
pub mod laws;
pub mod lines;
pub mod prompt_buffer;
pub mod prompt_state;
pub mod rope;
pub mod strings;
pub mod vt100;

pub use crate::key_event::{KeyCode, KeyEvent};
pub use crate::prompt_buffer::PromptBuffer;
pub use crate::prompt_state::{PromptState, PROMPT_CONT, PROMPT_INIT, PROMPT_WIDTH};
