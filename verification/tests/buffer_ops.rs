use tedit::buffer::TextBuffer;

#[test]
fn new_buffer_is_empty() {
    let buf = TextBuffer::new();
    let (text, cursor) = buf.snapshot();
    assert_eq!(text, "");
    assert_eq!(cursor, 0);
}

#[test]
fn insert_text_advances_by_character_count() {
    let mut buf = TextBuffer::new();
    buf.insert_text("hello");
    let (text, cursor) = buf.snapshot();
    assert_eq!(text, "hello");
    assert_eq!(cursor, 5);
}

#[test]
fn cursor_counts_characters_not_bytes() {
    let mut buf = TextBuffer::new();
    buf.insert_text("é");
    let (text, cursor) = buf.snapshot();
    assert_eq!(text, "é");
    assert_eq!(cursor, 1);
    buf.insert_text("漢字");
    let (text, cursor) = buf.snapshot();
    assert_eq!(text, "é漢字");
    assert_eq!(cursor, 3);
    buf.backspace();
    let (text, cursor) = buf.snapshot();
    assert_eq!(text, "é漢");
    assert_eq!(cursor, 2);
}

#[test]
fn insert_char_at_cursor() {
    let mut buf = TextBuffer::new();
    buf.insert_char('a');
    buf.insert_char('c');
    buf.move_left();
    buf.insert_char('b');
    let (text, cursor) = buf.snapshot();
    assert_eq!(text, "abc");
    assert_eq!(cursor, 2);
}

#[test]
fn insert_newline_and_space() {
    let mut buf = TextBuffer::new();
    buf.insert_char('a');
    buf.insert_newline();
    buf.insert_space();
    buf.insert_char('b');
    let (text, cursor) = buf.snapshot();
    assert_eq!(text, "a\n b");
    assert_eq!(cursor, 4);
}

#[test]
fn backspace_on_empty_buffer_is_noop() {
    let mut buf = TextBuffer::new();
    buf.backspace();
    let (text, cursor) = buf.snapshot();
    assert_eq!(text, "");
    assert_eq!(cursor, 0);
}

#[test]
fn delete_forward_at_end_is_noop() {
    let mut buf = TextBuffer::new();
    buf.insert_text("ab");
    buf.delete_forward();
    let (text, cursor) = buf.snapshot();
    assert_eq!(text, "ab");
    assert_eq!(cursor, 2);
}

#[test]
fn delete_forward_removes_at_cursor() {
    let mut buf = TextBuffer::new();
    buf.insert_text("abc");
    buf.move_home();
    buf.delete_forward();
    let (text, cursor) = buf.snapshot();
    assert_eq!(text, "bc");
    assert_eq!(cursor, 0);
}

#[test]
fn movement_clamps_at_boundaries() {
    let mut buf = TextBuffer::new();
    buf.move_left();
    assert_eq!(buf.cursor_position(), 0);
    buf.move_right();
    assert_eq!(buf.cursor_position(), 0);
    buf.insert_text("ab");
    buf.move_right();
    assert_eq!(buf.cursor_position(), 2);
    buf.move_home();
    assert_eq!(buf.cursor_position(), 0);
    buf.move_end();
    assert_eq!(buf.cursor_position(), 2);
}

#[test]
fn insert_then_backspace_restores_buffer() {
    let mut buf = TextBuffer::new();
    buf.insert_text("ax");
    buf.move_left();
    buf.insert_char('q');
    buf.backspace();
    let (text, cursor) = buf.snapshot();
    assert_eq!(text, "ax");
    assert_eq!(cursor, 1);
}
