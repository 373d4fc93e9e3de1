use vstd::prelude::*;

use crate::content_editor::models::{Command, ControlType, InputType};
use crate::input_handler::TerminalKey;

verus! {

/// The characters inserted when typed: the printable ASCII characters but
/// the apostrophe, and the newline.
pub open spec fn is_insertable_char(c: char) -> bool {
    c == '\n' || (' ' <= c && c <= '~' && c != '\'')
}

/// The command that an input stands for.
pub open spec fn command_for_input(input: InputType) -> Command {
    match input {
        InputType::Insert(c) => if is_insertable_char(c) {
            Command::BufferInsert(c)
        } else {
            Command::Default
        },
        InputType::Control(ControlType::Escape) => Command::Quit,
        InputType::Control(ControlType::Backspace) => Command::BufferDelete,
        InputType::Control(ControlType::CursorForward) => Command::AdvancePoint,
        InputType::Control(ControlType::CursorBack) => Command::RetreatPoint,
        _ => Command::Default,
    }
}

/// Translates an input into the command it stands for; inputs without a
/// binding give `Command::Default`.
pub fn process_input_v2(input_type: InputType) -> (r: Result<Command, std::io::Error>)
    ensures
        r matches Ok(c) && c == command_for_input(input_type),
{
    let cmd = match input_type {
        InputType::Insert(c) => if c == '\n' || (' ' <= c && c <= '~' && c != '\'') {
            Command::BufferInsert(c)
        } else {
            Command::Default
        },
        InputType::Control(ControlType::Escape) => Command::Quit,
        InputType::Control(ControlType::Backspace) => Command::BufferDelete,
        InputType::Control(ControlType::CursorForward) => Command::AdvancePoint,
        InputType::Control(ControlType::CursorBack) => Command::RetreatPoint,
        _ => Command::Default,
    };
    Ok(cmd)
}

/// The input that a key stands for in the single-string editor: the
/// arrows move the cursor, backspace and escape are controls, a character
/// is inserted, and any other key gives `Waiting`.
pub open spec fn input_for_key_spec(key: TerminalKey) -> InputType {
    match key {
        TerminalKey::Backspace => InputType::Control(ControlType::Backspace),
        TerminalKey::Up => InputType::Control(ControlType::CursorUp),
        TerminalKey::Down => InputType::Control(ControlType::CursorDown),
        TerminalKey::Left => InputType::Control(ControlType::CursorBack),
        TerminalKey::Right => InputType::Control(ControlType::CursorForward),
        TerminalKey::Esc => InputType::Control(ControlType::Escape),
        TerminalKey::Char(c) => InputType::Insert(c),
        _ => InputType::Waiting,
    }
}

/// The input that a key read from the terminal stands for (see
/// `input_for_key_spec`).
pub fn input_for_key(key: TerminalKey) -> (i: InputType)
    ensures
        i == input_for_key_spec(key),
{
    match key {
        TerminalKey::Backspace => InputType::Control(ControlType::Backspace),
        TerminalKey::Up => InputType::Control(ControlType::CursorUp),
        TerminalKey::Down => InputType::Control(ControlType::CursorDown),
        TerminalKey::Left => InputType::Control(ControlType::CursorBack),
        TerminalKey::Right => InputType::Control(ControlType::CursorForward),
        TerminalKey::Esc => InputType::Control(ControlType::Escape),
        TerminalKey::Char(c) => InputType::Insert(c),
        _ => InputType::Waiting,
    }
}

/// The single-string editor inserts exactly the printable ASCII characters
/// (codes 0x20 through 0x7e) other than the apostrophe, and the newline,
/// each as itself; any other character inserts nothing.
pub proof fn law_typed_characters_insert_themselves(c: char)
    ensures
        ((0x20 <= (c as u32) <= 0x7e && (c as u32) != 0x27) || c == '\n') ==> command_for_input(
            InputType::Insert(c),
        ) == Command::BufferInsert(c),
        !((0x20 <= (c as u32) <= 0x7e && (c as u32) != 0x27) || c == '\n') ==> command_for_input(
            InputType::Insert(c),
        ) == Command::Default,
        command_for_input(InputType::Insert(' ')) == Command::BufferInsert(' '),
{
}

} // verus!
