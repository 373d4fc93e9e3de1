use vstd::prelude::*;

use crate::buffer::text_model::{
    join_lines, lemma_line_start_step, lemma_position_bounded, lemma_position_injective,
    text_position,
};
use crate::buffer::{
    buffer_invariant, can_append, clamp, delete_steps, point_position, Buffer, Coordinate,
};
use crate::models::Command;
use crate::text_util::push_char;

verus! {

/// What `command` needs of the buffer it runs on.
pub open spec fn command_allowed(command: Command, lines: Seq<Seq<char>>) -> bool {
    match command {
        Command::BufferInsert(ch) => can_append(lines, seq![ch]),
        Command::BufferDelete => lines.len() > 0,
        Command::AdvancePoint => lines.len() > 0,
        _ => true,
    }
}

/// What running `command` does to a buffer's lines and point.
pub open spec fn command_effect(
    command: Command,
    lines: Seq<Seq<char>>,
    point: Coordinate,
    new_lines: Seq<Seq<char>>,
    new_point: Coordinate,
) -> bool {
    let t = join_lines(lines);
    let p = point_position(lines, point);
    match command {
        Command::BufferInsert(ch) => {
            &&& join_lines(new_lines) == t.take(p) + seq![ch] + t.skip(p)
            &&& point_position(new_lines, new_point) == p + 1
        },
        Command::BufferDelete => delete_steps(lines, point.line as int, point.offset as int, 1) == (
            new_lines,
            new_point.line as int,
            new_point.offset as int,
        ),
        Command::AdvancePoint => {
            &&& new_lines == lines
            &&& point_position(new_lines, new_point) == clamp(p + 1, 0, t.len() as int)
        },
        Command::RetreatPoint => {
            &&& new_lines == lines
            &&& point_position(new_lines, new_point) == clamp(p - 1, 0, t.len() as int)
        },
        _ => new_lines == lines && new_point == point,
    }
}

/// A string of the one character `ch`.
pub fn char_to_string(ch: char) -> (s: String)
    ensures
        s@ == seq![ch],
{
    let mut s = String::new();
    push_char(&mut s, ch);
    s
}

/// Executes `command` on `buffer`. Returns `Some(0)` for `Quit`, which asks
/// the editor to stop, and `None` otherwise. Inserting puts the character
/// at the point, deleting deletes once at the point, advancing and
/// retreating move the point by one character; saving writes the buffer
/// out, which the caller does, and leaves the buffer as it is.
pub fn execute_command_v2<B: Buffer>(command: &Command, buffer: &mut B) -> (r: Option<u16>)
    requires
        buffer_invariant(old(buffer).lines_view(), old(buffer).point_view()),
        command_allowed(*command, old(buffer).lines_view()),
    ensures
        buffer_invariant(final(buffer).lines_view(), final(buffer).point_view()),
        r == (if *command == Command::Quit {
            Some(0u16)
        } else {
            None
        }),
        command_effect(
            *command,
            old(buffer).lines_view(),
            old(buffer).point_view(),
            final(buffer).lines_view(),
            final(buffer).point_view(),
        ),
{
    match command {
        Command::BufferInsert(ch) => {
            let s = char_to_string(*ch);
            let _ = buffer.append_at_point(s.as_str());
        },
        Command::Quit => {
            return Some(0);
        },
        Command::BufferDelete => {
            let _ = buffer.delete_at_point(1);
        },
        Command::AdvancePoint => {
            let _ = buffer.move_current_location(1);
        },
        Command::RetreatPoint => {
            let _ = buffer.move_current_location(-1);
        },
        Command::Save => {},
        _ => {},
    }
    None
}

/// `AdvancePoint` moves the point to the next place in the text: one
/// character on along its line, or from the end of a line to the start of
/// the next; at the end of the text it stays. The text does not change.
pub proof fn law_advance_moves_one_char(
    lines: Seq<Seq<char>>,
    point: Coordinate,
    new_lines: Seq<Seq<char>>,
    new_point: Coordinate,
)
    requires
        buffer_invariant(lines, point),
        buffer_invariant(new_lines, new_point),
        command_effect(Command::AdvancePoint, lines, point, new_lines, new_point),
    ensures
        new_lines == lines,
        lines.len() == 0 ==> new_point == point,
        lines.len() > 0 ==> new_point == (if point.offset < lines[point.line as int].len() {
            Coordinate { line: point.line, offset: (point.offset + 1) as usize }
        } else if point.line + 1 < lines.len() {
            Coordinate { line: (point.line + 1) as usize, offset: 0 }
        } else {
            point
        }),
{
    let l = point.line as int;
    let o = point.offset as int;
    let t = join_lines(lines);
    let p = point_position(lines, point);
    lemma_position_bounded(lines, l, o);
    lemma_position_bounded(lines, new_point.line as int, new_point.offset as int);
    if lines.len() == 0 {
        lemma_position_injective(lines, 0, 0, new_point.line as int, new_point.offset as int);
    } else if o < lines[l].len() {
        assert(p < t.len());
        assert(text_position(lines, l, o + 1) == p + 1);
        lemma_position_injective(lines, l, o + 1, new_point.line as int, new_point.offset as int);
    } else if l + 1 < lines.len() {
        lemma_line_start_step(lines, l);
        assert(text_position(lines, l + 1, 0) == p + 1);
        lemma_position_bounded(lines, l + 1, 0);
        lemma_position_injective(lines, l + 1, 0, new_point.line as int, new_point.offset as int);
    } else {
        assert(p == t.len());
        lemma_position_injective(lines, l, o, new_point.line as int, new_point.offset as int);
    }
}

/// `RetreatPoint` moves the point to the previous place in the text: one
/// character back along its line, or from the start of a line to the end
/// of the one above; at the start of the text it stays. The text does not
/// change.
pub proof fn law_retreat_moves_one_char(
    lines: Seq<Seq<char>>,
    point: Coordinate,
    new_lines: Seq<Seq<char>>,
    new_point: Coordinate,
)
    requires
        buffer_invariant(lines, point),
        buffer_invariant(new_lines, new_point),
        command_effect(Command::RetreatPoint, lines, point, new_lines, new_point),
    ensures
        new_lines == lines,
        lines.len() == 0 ==> new_point == point,
        lines.len() > 0 ==> new_point == (if point.offset > 0 {
            Coordinate { line: point.line, offset: (point.offset - 1) as usize }
        } else if point.line > 0 {
            Coordinate {
                line: (point.line - 1) as usize,
                offset: lines[point.line - 1].len() as usize,
            }
        } else {
            point
        }),
{
    let l = point.line as int;
    let o = point.offset as int;
    let t = join_lines(lines);
    let p = point_position(lines, point);
    lemma_position_bounded(lines, l, o);
    lemma_position_bounded(lines, new_point.line as int, new_point.offset as int);
    if lines.len() == 0 {
        lemma_position_injective(lines, 0, 0, new_point.line as int, new_point.offset as int);
    } else if o > 0 {
        assert(text_position(lines, l, o - 1) == p - 1);
        lemma_position_injective(lines, l, o - 1, new_point.line as int, new_point.offset as int);
    } else if l > 0 {
        lemma_line_start_step(lines, l - 1);
        let m = lines[l - 1].len() as int;
        assert(text_position(lines, l - 1, m) == p - 1);
        lemma_position_injective(lines, l - 1, m, new_point.line as int, new_point.offset as int);
    } else {
        assert(p == 0);
        lemma_position_injective(lines, l, o, new_point.line as int, new_point.offset as int);
    }
}

} // verus!
