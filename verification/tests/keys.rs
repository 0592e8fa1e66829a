use prompt_buffer::vt100::{
    cursor_right, BACKSPACE, CRLF, CURSOR_DOWN, CURSOR_LEFT, CURSOR_RIGHT, CURSOR_UP,
    KEY_ARROW_DOWN, KEY_ARROW_LEFT, KEY_ARROW_RIGHT, KEY_ARROW_UP, KEY_BACKSPACE, KEY_ENTER,
    PARAGRAPH_SEPARATOR, REWIND,
};
use prompt_buffer::{KeyCode, KeyEvent};

#[test]
fn key_codes_are_told_apart() {
    assert_eq!(KeyCode::from_code(13), KeyCode::Enter);
    assert_eq!(KeyCode::from_code(8), KeyCode::Backspace);
    assert_eq!(KeyCode::from_code(38), KeyCode::ArrowUp);
    assert_eq!(KeyCode::from_code(40), KeyCode::ArrowDown);
    assert_eq!(KeyCode::from_code(37), KeyCode::ArrowLeft);
    assert_eq!(KeyCode::from_code(39), KeyCode::ArrowRight);
    assert_eq!(KeyCode::from_code(KEY_ENTER), KeyCode::Enter);
    assert_eq!(KeyCode::from_code(KEY_BACKSPACE), KeyCode::Backspace);
    assert_eq!(KeyCode::from_code(KEY_ARROW_UP), KeyCode::ArrowUp);
    assert_eq!(KeyCode::from_code(KEY_ARROW_DOWN), KeyCode::ArrowDown);
    assert_eq!(KeyCode::from_code(KEY_ARROW_LEFT), KeyCode::ArrowLeft);
    assert_eq!(KeyCode::from_code(KEY_ARROW_RIGHT), KeyCode::ArrowRight);
}

#[test]
fn every_other_key_code_is_other() {
    for code in [0, 7, 9, 12, 14, 16, 32, 36, 41, 65, 90, 255, u32::MAX] {
        assert_eq!(KeyCode::from_code(code), KeyCode::Other);
    }
}

#[test]
fn new_event_holds_no_modifier() {
    let event = KeyEvent::new(65, "a");
    assert_eq!(event.key_code, 65);
    assert_eq!(event.key, "a");
    assert!(!event.alt_key);
    assert!(!event.ctrl_key);
    assert!(!event.meta_key);
    assert!(!event.shift_key);
    assert_eq!(event.code(), KeyCode::Other);
}

#[test]
fn event_code_follows_the_key_code() {
    assert_eq!(KeyEvent::new(13, "Enter").code(), KeyCode::Enter);
    assert_eq!(KeyEvent::new(37, "x").code(), KeyCode::ArrowLeft);
}

#[test]
fn typed_char_is_the_first_char() {
    assert_eq!(KeyEvent::new(65, "a").typed_char(), Some('a'));
    assert_eq!(KeyEvent::new(9, "Tab").typed_char(), Some('T'));
    assert_eq!(KeyEvent::new(0, "é!").typed_char(), Some('é'));
    assert_eq!(KeyEvent::new(0, "").typed_char(), None);
}

#[test]
fn typed_char_heeds_alt_ctrl_and_meta() {
    let mut event = KeyEvent::new(65, "a");
    event.shift_key = true;
    assert_eq!(event.typed_char(), Some('a'));
    event.alt_key = true;
    assert_eq!(event.typed_char(), None);
    let mut event = KeyEvent::new(65, "a");
    event.ctrl_key = true;
    assert_eq!(event.typed_char(), None);
    let mut event = KeyEvent::new(65, "a");
    event.meta_key = true;
    assert_eq!(event.typed_char(), None);
}

#[test]
fn cursor_right_repeats_the_move() {
    let mut out = String::from("x");
    cursor_right(&mut out, 0);
    assert_eq!(out, "x");
    cursor_right(&mut out, 1);
    assert_eq!(out, "x\x1b[C");
    cursor_right(&mut out, 3);
    assert_eq!(out, "x\x1b[C\x1b[C\x1b[C\x1b[C");
}

#[test]
fn tokens_are_what_the_terminal_expects() {
    assert_eq!(CRLF, "\r\n");
    assert_eq!(CURSOR_UP, "\x1b[A");
    assert_eq!(CURSOR_DOWN, "\x1b[B");
    assert_eq!(CURSOR_RIGHT, "\x1b[C");
    assert_eq!(CURSOR_LEFT, "\x1b[D");
    assert_eq!(REWIND, '\r');
    assert_eq!(BACKSPACE, '\u{0008}');
    assert_eq!(PARAGRAPH_SEPARATOR, '\u{2029}');
}

#[test]
fn a_cloned_event_is_the_same_event() {
    let mut event = KeyEvent::new(65, "a");
    event.shift_key = true;
    event.ctrl_key = true;
    let copy = event.clone();
    assert_eq!(copy.key_code, 65);
    assert_eq!(copy.key, "a");
    assert!(!copy.alt_key);
    assert!(copy.ctrl_key);
    assert!(!copy.meta_key);
    assert!(copy.shift_key);
}
