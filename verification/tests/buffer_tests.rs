use hecto::buffer::Buffer;
use hecto::view::Location;

#[test]
fn test_load() {}

#[test]
fn load_splits_on_line_feeds() {
    let buffer = Buffer::load("ab\ncd");
    assert_eq!(buffer.height(), 2);
    assert_eq!(buffer.lines[0].to_text(), "ab");
    assert_eq!(buffer.lines[1].to_text(), "cd");
}

#[test]
fn load_strips_carriage_return_before_line_feed() {
    let buffer = Buffer::load("ab\r\ncd\r\n");
    assert_eq!(buffer.height(), 2);
    assert_eq!(buffer.lines[0].to_text(), "ab");
    assert_eq!(buffer.lines[1].to_text(), "cd");
}

#[test]
fn load_final_line_ending_is_optional() {
    assert_eq!(Buffer::load("ab\n").height(), 1);
    assert_eq!(Buffer::load("ab").height(), 1);
    assert_eq!(Buffer::load("").height(), 0);
    assert!(Buffer::load("").is_empty());
}

#[test]
fn load_keeps_empty_lines() {
    let buffer = Buffer::load("ab\n\ncd");
    assert_eq!(buffer.height(), 3);
    assert_eq!(buffer.lines[1].to_text(), "");
}

#[test]
fn load_keeps_lone_carriage_return() {
    let buffer = Buffer::load("a\rb");
    assert_eq!(buffer.height(), 1);
    assert_eq!(buffer.lines[0].to_text(), "a\rb");
}

#[test]
fn delete_at_line_end_merges_next_line() {
    let mut buffer = Buffer::load("ab\ncd");
    buffer.delete(Location { line_index: 0, grapheme_index: 2 });
    assert_eq!(buffer.height(), 1);
    assert_eq!(buffer.lines[0].to_text(), "abcd");
}

#[test]
fn delete_inside_line_removes_one_cluster() {
    let mut buffer = Buffer::load("abc");
    buffer.delete(Location { line_index: 0, grapheme_index: 1 });
    assert_eq!(buffer.height(), 1);
    assert_eq!(buffer.lines[0].to_text(), "ac");
}

#[test]
fn delete_at_end_of_last_line_does_nothing() {
    let mut buffer = Buffer::load("ab\ncd");
    buffer.delete(Location { line_index: 1, grapheme_index: 2 });
    assert_eq!(buffer.height(), 2);
    assert_eq!(buffer.lines[0].to_text(), "ab");
    assert_eq!(buffer.lines[1].to_text(), "cd");
}

#[test]
fn delete_outside_buffer_does_nothing() {
    let mut buffer = Buffer::load("ab");
    buffer.delete(Location { line_index: 5, grapheme_index: 0 });
    assert_eq!(buffer.height(), 1);
    assert_eq!(buffer.lines[0].to_text(), "ab");
}

#[test]
fn insert_into_line() {
    let mut buffer = Buffer::load("ab\ncd");
    buffer.insert_char('x', Location { line_index: 1, grapheme_index: 1 });
    assert_eq!(buffer.lines[1].to_text(), "cxd");
}

#[test]
fn insert_at_height_appends_line() {
    let mut buffer = Buffer::load("ab");
    buffer.insert_char('z', Location { line_index: 1, grapheme_index: 0 });
    assert_eq!(buffer.height(), 2);
    assert_eq!(buffer.lines[1].to_text(), "z");
}

#[test]
fn insert_past_height_does_nothing() {
    let mut buffer = Buffer::load("ab");
    buffer.insert_char('z', Location { line_index: 2, grapheme_index: 0 });
    assert_eq!(buffer.height(), 1);
    assert_eq!(buffer.lines[0].to_text(), "ab");
}

#[test]
fn insert_into_empty_buffer_appends_line() {
    let mut buffer = Buffer::default();
    buffer.insert_char('a', Location { line_index: 0, grapheme_index: 0 });
    assert_eq!(buffer.height(), 1);
    assert_eq!(buffer.lines[0].to_text(), "a");
}
