use vstd::prelude::*;

use crate::models::{Command, ControlType, InputType};

verus! {

/// The characters that the editor inserts when typed: the printable ASCII
/// characters and the newline.
pub open spec fn is_insertable_char(c: char) -> bool {
    c == '\n' || (' ' <= c && c <= '~')
}

/// The command that an input stands for.
pub open spec fn command_for_input(input: InputType) -> Command {
    match input {
        InputType::Insert(c) => if is_insertable_char(c) {
            Command::BufferInsert(c)
        } else {
            Command::Default
        },
        InputType::Control(ControlType::Escape) => Command::Quit,
        InputType::Control(ControlType::Backspace) => Command::BufferDelete,
        InputType::Control(ControlType::ArrowRight) => Command::AdvancePoint,
        InputType::Control(ControlType::ArrowLeft) => Command::RetreatPoint,
        InputType::Control(ControlType::Save) => Command::Save,
        _ => Command::Default,
    }
}

/// Whether `c` is one of the characters that the editor inserts.
pub fn is_insertable(c: char) -> (b: bool)
    ensures
        b == is_insertable_char(c),
{
    c == '\n' || (' ' <= c && c <= '~')
}

/// Translates an input into the command it stands for; inputs without a
/// binding give `Command::Default`.
pub fn process_input_v2(input_type: InputType) -> (r: Result<Command, std::io::Error>)
    ensures
        r matches Ok(c) && c == command_for_input(input_type),
{
    let cmd = match input_type {
        InputType::Insert(c) => if is_insertable(c) {
            Command::BufferInsert(c)
        } else {
            Command::Default
        },
        InputType::Control(ControlType::Escape) => Command::Quit,
        InputType::Control(ControlType::Backspace) => Command::BufferDelete,
        InputType::Control(ControlType::ArrowRight) => Command::AdvancePoint,
        InputType::Control(ControlType::ArrowLeft) => Command::RetreatPoint,
        InputType::Control(ControlType::Save) => Command::Save,
        _ => Command::Default,
    };
    Ok(cmd)
}

/// Whether acting on `input` saves the buffer: it stands for `Save`.
pub fn saves(input: &InputType) -> (b: bool)
    ensures
        b == (command_for_input(*input) == Command::Save),
{
    match input {
        InputType::Control(ControlType::Save) => true,
        _ => false,
    }
}

/// A key read from the terminal, as far as the editor tells keys apart.
#[derive(Clone, Copy, Debug, PartialEq, Eq, Structural)]
pub enum TerminalKey {
    Backspace,
    Up,
    Down,
    Left,
    Right,
    Esc,
    Char(char),
    /// A character typed with the control key held.
    Ctrl(char),
    /// Any other key.
    Other,
}

/// The input that a key stands for: the arrows, backspace and escape are
/// controls, control-S saves, a character is inserted, and any other key
/// gives `Waiting`.
pub open spec fn input_for_key_spec(key: TerminalKey) -> InputType {
    match key {
        TerminalKey::Backspace => InputType::Control(ControlType::Backspace),
        TerminalKey::Up => InputType::Control(ControlType::CursorUp),
        TerminalKey::Down => InputType::Control(ControlType::CursorDown),
        TerminalKey::Left => InputType::Control(ControlType::ArrowLeft),
        TerminalKey::Right => InputType::Control(ControlType::ArrowRight),
        TerminalKey::Esc => InputType::Control(ControlType::Escape),
        TerminalKey::Char(c) => InputType::Insert(c),
        TerminalKey::Ctrl(c) => if c == 's' {
            InputType::Control(ControlType::Save)
        } else {
            InputType::Waiting
        },
        TerminalKey::Other => InputType::Waiting,
    }
}

/// The input that a key read from the terminal stands for (see
/// `input_for_key_spec`).
pub fn input_for_key(key: TerminalKey) -> (i: InputType)
    ensures
        i == input_for_key_spec(key),
{
    match key {
        TerminalKey::Backspace => InputType::Control(ControlType::Backspace),
        TerminalKey::Up => InputType::Control(ControlType::CursorUp),
        TerminalKey::Down => InputType::Control(ControlType::CursorDown),
        TerminalKey::Left => InputType::Control(ControlType::ArrowLeft),
        TerminalKey::Right => InputType::Control(ControlType::ArrowRight),
        TerminalKey::Esc => InputType::Control(ControlType::Escape),
        TerminalKey::Char(c) => InputType::Insert(c),
        TerminalKey::Ctrl(c) => if c == 's' {
            InputType::Control(ControlType::Save)
        } else {
            InputType::Waiting
        },
        TerminalKey::Other => InputType::Waiting,
    }
}

/// Typing inserts exactly the printable ASCII characters (codes 0x20, the
/// space, through 0x7e) and the newline, each as itself; any other
/// character inserts nothing.
pub proof fn law_typed_characters_insert_themselves(c: char)
    ensures
        (0x20 <= (c as u32) <= 0x7e || c == '\n') ==> command_for_input(InputType::Insert(c))
            == Command::BufferInsert(c),
        !(0x20 <= (c as u32) <= 0x7e || c == '\n') ==> command_for_input(InputType::Insert(c))
            == Command::Default,
        command_for_input(InputType::Insert(' ')) == Command::BufferInsert(' '),
{
}

} // verus!
