//! Key events as the prompt receives them.

use crate::vt100::{
    KEY_ARROW_DOWN, KEY_ARROW_LEFT, KEY_ARROW_RIGHT, KEY_ARROW_UP, KEY_BACKSPACE, KEY_ENTER,
};
use vstd::prelude::*;

verus! {

broadcast use vstd::string::group_string_axioms;

/// What a key asks the prompt to do.
#[derive(Clone, Copy, Debug, PartialEq, Eq, Structural)]
pub enum KeyCode {
    /// Break the line at the cursor.
    Enter,
    /// Take out the char before the cursor.
    Backspace,
    /// Kept for going back in the history; does nothing.
    ArrowUp,
    /// Kept for going on in the history; does nothing.
    ArrowDown,
    /// Move the cursor one char back.
    ArrowLeft,
    /// Move the cursor one char on.
    ArrowRight,
    /// Any other key: type the char that it produces.
    Other,
}

/// One key press: the code of the key, the text that the key produces, and
/// the modifier keys that were held.
#[derive(Debug)]
pub struct KeyEvent {
    /// The numeric code of the key.
    pub key_code: u32,
    /// The text of the key: the char that it produces, or its name.
    pub key: String,
    /// Alt was held.
    pub alt_key: bool,
    /// Ctrl was held.
    pub ctrl_key: bool,
    /// Meta was held.
    pub meta_key: bool,
    /// Shift was held.
    pub shift_key: bool,
}

impl Clone for KeyEvent {
    /// The same event once more.
    fn clone(&self) -> (event: Self)
        ensures
            event == *self,
    {
        KeyEvent {
            key_code: self.key_code,
            key: self.key.clone(),
            alt_key: self.alt_key,
            ctrl_key: self.ctrl_key,
            meta_key: self.meta_key,
            shift_key: self.shift_key,
        }
    }
}

impl KeyCode {
    /// The action that belongs to a numeric key code.
    pub open spec fn spec_from_code(key_code: u32) -> KeyCode {
        if key_code == KEY_ENTER {
            KeyCode::Enter
        } else if key_code == KEY_BACKSPACE {
            KeyCode::Backspace
        } else if key_code == KEY_ARROW_UP {
            KeyCode::ArrowUp
        } else if key_code == KEY_ARROW_DOWN {
            KeyCode::ArrowDown
        } else if key_code == KEY_ARROW_LEFT {
            KeyCode::ArrowLeft
        } else if key_code == KEY_ARROW_RIGHT {
            KeyCode::ArrowRight
        } else {
            KeyCode::Other
        }
    }

    /// Classifies a numeric key code.
    #[verifier::when_used_as_spec(spec_from_code)]
    pub fn from_code(key_code: u32) -> (code: KeyCode)
        ensures
            code == KeyCode::spec_from_code(key_code),
    {
        if key_code == KEY_ENTER {
            KeyCode::Enter
        } else if key_code == KEY_BACKSPACE {
            KeyCode::Backspace
        } else if key_code == KEY_ARROW_UP {
            KeyCode::ArrowUp
        } else if key_code == KEY_ARROW_DOWN {
            KeyCode::ArrowDown
        } else if key_code == KEY_ARROW_LEFT {
            KeyCode::ArrowLeft
        } else if key_code == KEY_ARROW_RIGHT {
            KeyCode::ArrowRight
        } else {
            KeyCode::Other
        }
    }
}

impl KeyEvent {
    /// The action that the key of this event asks for.
    pub open spec fn spec_code(&self) -> KeyCode {
        KeyCode::spec_from_code(self.key_code)
    }

    /// The char that this event types, if it types one: the first char of
    /// the key's text, unless Alt, Ctrl or Meta is held or the text is empty.
    /// Shift does not matter.
    pub open spec fn spec_typed_char(&self) -> Option<char> {
        if self.alt_key || self.ctrl_key || self.meta_key || self.key@.len() == 0 {
            None
        } else {
            Some(self.key@[0])
        }
    }

    /// An event of the key with code `key_code` and text `key`, no modifier
    /// held.
    pub fn new(key_code: u32, key: &str) -> (event: KeyEvent)
        ensures
            event.key_code == key_code,
            event.key@ == key@,
            !event.alt_key,
            !event.ctrl_key,
            !event.meta_key,
            !event.shift_key,
    {
        KeyEvent {
            key_code,
            key: key.to_owned(),
            alt_key: false,
            ctrl_key: false,
            meta_key: false,
            shift_key: false,
        }
    }

    /// The action that the key of this event asks for.
    #[verifier::when_used_as_spec(spec_code)]
    pub fn code(&self) -> (code: KeyCode)
        ensures
            code == self.spec_code(),
    {
        KeyCode::from_code(self.key_code)
    }

    /// The char that this event types, if it types one.
    #[verifier::when_used_as_spec(spec_typed_char)]
    pub fn typed_char(&self) -> (c: Option<char>)
        ensures
            c == self.spec_typed_char(),
    {
        if self.alt_key || self.ctrl_key || self.meta_key {
            None
        } else {
            let mut chars = self.key.as_str().chars();
            chars.next()
        }
    }
}

} // verus!
