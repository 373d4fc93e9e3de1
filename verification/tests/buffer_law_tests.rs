use klh::buffer::{Buffer, Coordinate, LineBuffer};
use klh::buffer_provider;
use klh::buffer_provider::BufferType;
use klh::buffer_store::{BufferStore, BufferStoreArgs};

fn buffer_with(text: &str) -> LineBuffer {
    let mut buffer = LineBuffer::new();
    buffer.append_at_point(text).unwrap();
    buffer
}

#[test]
fn moving_forward_then_back_returns_to_the_point() {
    let mut buffer = buffer_with("ab\ncd\nef");
    buffer.move_current_location(-6).unwrap();
    let start = buffer.get_current_location().unwrap();
    assert_eq!(start, Coordinate { line: 0, offset: 2 });
    buffer.move_current_location(4).unwrap();
    assert_eq!(buffer.get_current_location().unwrap(), Coordinate { line: 2, offset: 0 });
    buffer.move_current_location(-4).unwrap();
    assert_eq!(buffer.get_current_location().unwrap(), start);
}

#[test]
fn moving_is_clamped_at_both_ends_of_the_text() {
    let mut buffer = buffer_with("ab\ncd");
    assert_eq!(buffer.move_current_location(100).unwrap(), Coordinate { line: 1, offset: 2 });
    assert_eq!(buffer.move_current_location(-100).unwrap(), Coordinate { line: 0, offset: 0 });
    assert_eq!(buffer.get_chars().unwrap(), String::from("ab\ncd"));
}

#[test]
fn moving_an_empty_buffer_back_keeps_the_origin() {
    let mut buffer = LineBuffer::new();
    assert_eq!(buffer.move_current_location(-3).unwrap(), Coordinate { line: 0, offset: 0 });
    assert_eq!(buffer.move_current_location(0).unwrap(), Coordinate { line: 0, offset: 0 });
    assert_eq!(buffer.line_count(), 0);
}

#[test]
fn appending_twice_equals_appending_the_concatenation() {
    let mut twice = buffer_with("xy");
    twice.move_current_location(-1).unwrap();
    twice.append_at_point("a\nb").unwrap();
    twice.append_at_point("c").unwrap();
    let mut once = buffer_with("xy");
    once.move_current_location(-1).unwrap();
    once.append_at_point("a\nbc").unwrap();
    assert_eq!(twice.get_chars().unwrap(), once.get_chars().unwrap());
    assert_eq!(twice.get_current_location().unwrap(), once.get_current_location().unwrap());
    assert_eq!(once.get_chars().unwrap(), String::from("xa\nbcy"));
    assert_eq!(once.get_current_location().unwrap(), Coordinate { line: 1, offset: 2 });
}

#[test]
fn appending_nothing_changes_nothing() {
    let mut buffer = LineBuffer::new();
    buffer.append_at_point("").unwrap();
    assert_eq!(buffer.line_count(), 0);
    assert_eq!(buffer.get_chars().unwrap(), String::from(""));
}

#[test]
fn deleting_enough_stops_at_the_beginning_and_keeps_later_lines() {
    let mut buffer = buffer_with("ab\ncd\nef");
    buffer.move_current_location(-3).unwrap();
    assert_eq!(buffer.get_current_location().unwrap(), Coordinate { line: 1, offset: 2 });
    buffer.delete_at_point(10).unwrap();
    assert_eq!(buffer.get_chars().unwrap(), String::from("\nef"));
    assert_eq!(buffer.get_current_location().unwrap(), Coordinate { line: 0, offset: 0 });
    assert_eq!(buffer.line_count(), 2);
}

#[test]
fn deleting_takes_the_last_character_of_the_point_line() {
    let mut buffer = buffer_with("abcd");
    buffer.move_current_location(-2).unwrap();
    buffer.delete_at_point(1).unwrap();
    assert_eq!(buffer.get_chars().unwrap(), String::from("abc"));
    assert_eq!(buffer.get_current_location().unwrap(), Coordinate { line: 0, offset: 1 });
}

#[test]
fn deleting_nothing_on_an_empty_buffer_is_allowed() {
    let mut buffer = LineBuffer::new();
    buffer.delete_at_point(0).unwrap();
    assert_eq!(buffer.line_count(), 0);
}

#[test]
fn unimplemented_queries_report_errors() {
    let buffer = buffer_with("abc");
    assert_eq!(buffer.get_char_at_index(0).err(), Some(String::from("Not yet implemented")));
    assert_eq!(buffer.get_next_for_char('a').err(), Some(String::from("Not yet implemented")));
}

#[test]
fn coordinate_as_tuple_gives_offset_then_line() {
    let mut buffer = buffer_with("ab\nc");
    let location = buffer.move_current_location(0).unwrap();
    assert_eq!(location.as_tuple(), (1, 1));
}

#[test]
fn buffer_provider_makes_an_empty_buffer() {
    let buffer = buffer_provider::new(BufferType::Normal).unwrap();
    assert_eq!(buffer.line_count(), 0);
    assert_eq!(buffer.get_current_location().unwrap(), Coordinate { line: 0, offset: 0 });
}

#[test]
fn buffer_store_has_no_current_buffer_when_empty() {
    let mut store = BufferStore::new();
    assert_eq!(store.get_current_mut().err(), Some("No"));
}

#[test]
fn buffer_store_current_buffer_is_the_first_added() {
    let mut store = BufferStore::new();
    let first = store.add_new(buffer_with("first")).unwrap();
    assert_eq!(first.get_chars().unwrap(), String::from("first"));
    let still_first = store.add_new(buffer_with("second")).unwrap();
    assert_eq!(still_first.get_chars().unwrap(), String::from("first"));
    let current = store.get_current_mut().unwrap();
    current.append_at_point("!").unwrap();
    assert_eq!(store.get_current_mut().unwrap().get_chars().unwrap(), String::from("first!"));
}

#[test]
fn buffer_store_args_keep_the_file_name() {
    let args = BufferStoreArgs::new(BufferType::Normal, "notes.txt");
    assert_eq!(args.file_name(), "notes.txt");
    assert!(matches!(args.buffer_type(), BufferType::Normal));
}

#[test]
fn deleting_what_was_appended_at_the_end_gives_the_text_back() {
    let mut buffer = buffer_with("ab\ncd");
    buffer.append_at_point("x\n\ny").unwrap();
    assert_eq!(buffer.get_chars().unwrap(), "ab\ncdx\n\ny");
    buffer.delete_at_point(4).unwrap();
    assert_eq!(buffer.get_chars().unwrap(), "ab\ncd");

    let mut empty = LineBuffer::new();
    empty.append_at_point("hi").unwrap();
    empty.delete_at_point(2).unwrap();
    assert_eq!(empty.get_chars().unwrap(), "");
}

#[test]
fn deleting_on_the_last_line_takes_the_last_characters() {
    let mut buffer = buffer_with("ab\ncd");
    buffer.delete_at_point(3).unwrap();
    assert_eq!(buffer.get_chars().unwrap(), "ab");
    buffer.delete_at_point(10).unwrap();
    assert_eq!(buffer.get_chars().unwrap(), "");
}

#[test]
fn appending_one_character_puts_it_at_the_point() {
    let mut buffer = buffer_with("ac");
    buffer.move_current_location(-1).unwrap();
    buffer.append_at_point("b").unwrap();
    assert_eq!(buffer.get_chars().unwrap(), "abc");
    assert_eq!(buffer.get_current_location().unwrap(), Coordinate { line: 0, offset: 2 });
}
