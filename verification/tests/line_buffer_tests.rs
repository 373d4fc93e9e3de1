use klh::buffer::{Buffer, Coordinate, LineBuffer};

#[test]
fn line_buffer_should_append_at_point() {
    let mut buffer: LineBuffer = LineBuffer::new();
    buffer.append_at_point("a").unwrap();
    assert_eq!(buffer.get_chars().unwrap(), String::from("a"))
}

#[test]
fn line_buffer_should_append_many_at_point() {
    let mut buffer = LineBuffer::new();
    buffer.append_at_point("abcd").unwrap();
    assert_eq!(buffer.get_chars().unwrap(), String::from("abcd"))
}
#[test]
fn line_buffer_should_append_existing_text() {
    let mut buffer = LineBuffer::new();
    buffer.append_at_point("here already. ").unwrap();
    buffer.append_at_point("Here now too").unwrap();
    assert_eq!(
        buffer.get_chars().unwrap(),
        String::from("here already. Here now too")
    );

}

#[test]
fn line_buffer_should_append_newline() {
    let mut buffer = LineBuffer::new();
    buffer.append_at_point("here already. ").unwrap();
    buffer.append_at_point("\n Here now too").unwrap();
    assert_eq!(
        buffer.get_chars().unwrap(),
        String::from("\
here already. 
 Here now too"
        ),
    );
    assert_eq!(buffer.line_count(), 2);
    assert_eq!(buffer.get_current_location().unwrap(), Coordinate{ line: 1, offset: 13})
}

#[test]
fn line_buffer_should_append_consecutive_newlines() {
    let mut buffer = LineBuffer::new();
    buffer.append_at_point("ab\n\n").unwrap();

    assert_eq!(buffer.get_chars().unwrap(), String::from("ab\n\n"));
    assert_eq!(buffer.get_current_location().unwrap(), Coordinate { line: 2, offset: 0})
}

#[test]
fn line_buffer_should_move_point_on_append() {
    let mut buffer = LineBuffer::new();
    buffer.append_at_point("abcd").unwrap();
    assert_eq!(buffer.get_current_location().unwrap().offset, 4)
}

#[test]
fn line_buffer_should_move_point_across_newlines_on_append() {
    let mut buffer = LineBuffer::new();
    buffer.append_at_point("ab\nc").unwrap();
    assert_eq!(buffer.get_current_location().unwrap(), Coordinate { line: 1, offset: 1})
}

#[test]
fn line_buffer_should_append_in_middle_of_content() {
    let mut buffer = LineBuffer::new();
    buffer.append_at_point("abcd").unwrap();
    buffer.move_current_location(-2).unwrap();

    buffer.append_at_point("e").unwrap();
    assert_eq!(buffer.get_chars().unwrap(), String::from("abecd"))
}

#[test]
fn line_buffer_should_append_newline_in_midddle_of_content() {
    let mut buffer = LineBuffer::new();
    buffer.append_at_point("abcd").unwrap();
    buffer.move_current_location(-2).unwrap();

    buffer.append_at_point("\nf").unwrap();

    assert_eq!(buffer.get_chars().unwrap(), String::from("ab\nfcd"));
    assert_eq!(buffer.get_current_location().unwrap(), Coordinate { line: 1, offset: 1});
}

#[test]
fn line_buffer_should_delete_char_from_point() {
    let mut buffer = LineBuffer::new();
    buffer.append_at_point("abcd").unwrap();

    buffer.delete_at_point(1).unwrap();
    assert_eq!(buffer.get_chars().unwrap(), String::from("abc"))
}

#[test]
fn line_buffer_should_delete_some_chars_from_point() {
    let mut buffer = LineBuffer::new();
    buffer.append_at_point("abcd").unwrap();

    buffer.delete_at_point(2).unwrap();
    assert_eq!(buffer.get_chars().unwrap(), String::from("ab"))
}

#[test]
fn line_buffer_should_delete_newlines() {
    let mut buffer = LineBuffer::new();
    buffer.append_at_point("ab\ncd").unwrap();

    buffer.delete_at_point(3).unwrap();
    assert_eq!(buffer.get_chars().unwrap(), String::from("ab"))
}

#[test]
fn line_buffer_should_not_delete_past_beginning_of_buffer() {
    let mut buffer = LineBuffer::new();
    buffer.append_at_point("abcd");

    buffer.delete_at_point(5).unwrap();

    assert_eq!(buffer.get_chars().unwrap(), String::from(""));
    assert_eq!(buffer.get_current_location().unwrap(), Coordinate { line: 0, offset: 0,})
}

#[test]
fn line_buffer_should_move_current_location_backward() {
    let mut buffer = LineBuffer::new();
    buffer.append_at_point("abcd").unwrap();

    buffer.move_current_location(-2).unwrap();
    assert_eq!(buffer.get_current_location().unwrap(), Coordinate { line: 0, offset: 2,})
}

#[test]
fn line_buffer_should_not_move_current_location_past_beginning_of_buffer() {
    let mut buffer = LineBuffer::new();
    buffer.append_at_point("abcd").unwrap();

    buffer.move_current_location(-5).unwrap();
    assert_eq!(buffer.get_current_location().unwrap(), Coordinate { line: 0, offset: 0,})
}

#[test]
fn line_buffer_should_move_current_location_forward() {
    let mut buffer = LineBuffer::new();
    buffer.append_at_point("abcd").unwrap();
    buffer.move_current_location(-2).unwrap();

    buffer.move_current_location(1).unwrap();

    assert_eq!(buffer.get_current_location().unwrap(), Coordinate { line: 0, offset: 3,})
}

#[test]
fn line_buffer_should_not_move_current_location_past_end_of_buffer() {
    let mut buffer = LineBuffer::new();
    buffer.append_at_point("abcd").unwrap();
    assert_eq!(buffer.get_current_location().unwrap(), Coordinate { line: 0, offset: 4,});

    buffer.move_current_location(1).unwrap();

    assert_eq!(buffer.get_current_location().unwrap(), Coordinate { line: 0, offset: 4,})
}

#[test]
fn line_buffer_should_move_current_location_up_a_line() {
    let mut buffer = LineBuffer::new();
    buffer.append_at_point("ab\ncd").unwrap();
    assert_eq!(buffer.get_current_location().unwrap(), Coordinate { line: 1, offset: 2,});

    buffer.move_current_location(-3).unwrap();

    assert_eq!(buffer.get_current_location().unwrap(), Coordinate { line: 0, offset: 2,})
}

#[test]
fn line_buffer_should_move_current_location_down_a_line() {
    let mut buffer = LineBuffer::new();
    buffer.append_at_point("ab\ncde").unwrap();
    buffer.move_current_location(-4).unwrap();
    assert_eq!(buffer.get_current_location().unwrap(), Coordinate { line: 0, offset: 2});

    buffer.move_current_location(2).unwrap();

    assert_eq!(buffer.get_current_location().unwrap(), Coordinate { line: 1, offset: 1})
}
