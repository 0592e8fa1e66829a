use prompt_buffer::vt100::{KEY_ARROW_LEFT, KEY_ENTER};
use prompt_buffer::{KeyEvent, PromptBuffer, PROMPT_WIDTH};

fn typed(c: char) -> KeyEvent {
    let mut text = String::new();
    text.push(c);
    KeyEvent::new(0, &text)
}

fn prompt(cols: usize) -> PromptBuffer {
    let mut buffer = PromptBuffer::default();
    buffer.configure(cols);
    buffer.reset();
    buffer
}

fn type_str(buffer: &mut PromptBuffer, text: &str) {
    for c in text.chars() {
        buffer.consume(typed(c));
    }
}

fn text_of(buffer: &PromptBuffer) -> String {
    buffer.chars().into_iter().collect()
}

#[test]
fn a_plain_char_fills_the_row() {
    for plain in [
        '\t', ' ', 'x', '\0', '\u{0008}', '\u{001C}', '\u{001E}', '\u{00A0}', '\u{0084}',
        '\u{0086}', '\u{2027}', '\u{202A}', 'é', '漢',
    ] {
        let mut buffer = prompt(PROMPT_WIDTH + 3);
        type_str(&mut buffer, "ab");
        buffer.consume(typed(plain));
        buffer.consume(typed('c'));
        let mut expected = String::from("ab");
        expected.push(plain);
        expected.push_str("\u{2029}c");
        assert_eq!(text_of(&buffer), expected);
        assert_eq!(buffer.cursor(), 5);
    }
}

#[test]
fn every_line_break_starts_a_new_line() {
    for line_break in [
        '\u{000A}', '\u{000B}', '\u{000C}', '\u{000D}', '\u{0085}', '\u{2028}', '\u{2029}',
    ] {
        let mut buffer = prompt(PROMPT_WIDTH + 3);
        type_str(&mut buffer, "ab");
        buffer.consume(typed(line_break));
        buffer.consume(typed('c'));
        let mut expected = String::from("ab");
        expected.push(line_break);
        expected.push('c');
        assert_eq!(text_of(&buffer), expected);
        assert_eq!(buffer.cursor(), 4);
    }
}

#[test]
fn a_line_break_counts_for_the_line_that_it_ends() {
    let mut buffer = prompt(PROMPT_WIDTH + 3);
    type_str(&mut buffer, "ab\u{000C}");
    buffer.consume(KeyEvent::new(KEY_ARROW_LEFT, "ArrowLeft"));
    buffer.consume(typed('x'));
    assert_eq!(text_of(&buffer), "ab\u{2029}x\u{000C}");
}

#[test]
fn carriage_return_and_line_feed_are_one_break() {
    let mut buffer = prompt(80);
    type_str(&mut buffer, "a\r");
    buffer.consume(KeyEvent::new(KEY_ENTER, "Enter"));
    type_str(&mut buffer, "b");
    assert_eq!(text_of(&buffer), "a\r\nb");
    buffer.consume(KeyEvent::new(KEY_ARROW_LEFT, "ArrowLeft"));
    buffer.flush();
    buffer.consume(KeyEvent::new(KEY_ARROW_LEFT, "ArrowLeft"));
    assert_eq!(buffer.cursor(), 2);
    assert_eq!(buffer.flush(), "\r\x1b[A\x1b[C\x1b[C\x1b[C");
}

#[test]
fn a_char_between_carriage_return_and_line_feed_parts_them() {
    let mut buffer = prompt(PROMPT_WIDTH + 4);
    type_str(&mut buffer, "a\r");
    buffer.consume(KeyEvent::new(KEY_ENTER, "Enter"));
    buffer.consume(KeyEvent::new(KEY_ARROW_LEFT, "ArrowLeft"));
    assert_eq!(buffer.cursor(), 2);
    type_str(&mut buffer, "xy");
    assert_eq!(text_of(&buffer), "a\rxy\n");
    buffer.consume(typed('z'));
    assert_eq!(text_of(&buffer), "a\rxyz\n");
    buffer.consume(typed('w'));
    assert_eq!(text_of(&buffer), "a\rxyz\u{2029}w\n");
}

#[test]
fn a_line_feed_behind_a_carriage_return_joins_it() {
    let mut buffer = prompt(PROMPT_WIDTH + 4);
    type_str(&mut buffer, "ab\r");
    buffer.consume(KeyEvent::new(KEY_ENTER, "Enter"));
    assert_eq!(text_of(&buffer), "ab\r\n");
    buffer.consume(KeyEvent::new(KEY_ARROW_LEFT, "ArrowLeft"));
    buffer.consume(KeyEvent::new(KEY_ARROW_LEFT, "ArrowLeft"));
    assert_eq!(buffer.cursor(), 2);
    buffer.consume(typed('x'));
    assert_eq!(text_of(&buffer), "ab\u{2029}x\r\n");
}

#[test]
fn a_lone_carriage_return_ends_its_line() {
    let mut buffer = prompt(PROMPT_WIDTH + 4);
    type_str(&mut buffer, "ab\r");
    buffer.consume(KeyEvent::new(KEY_ARROW_LEFT, "ArrowLeft"));
    assert_eq!(buffer.cursor(), 2);
    buffer.consume(typed('x'));
    assert_eq!(text_of(&buffer), "abx\r");
    buffer.consume(typed('y'));
    assert_eq!(text_of(&buffer), "abx\u{2029}y\r");
}
