use vstd::prelude::*;

verus! {

/// A buffer of text held as one string, with a point that indexes its
/// UTF-8 bytes.
pub struct ContentBuffer {
    pub content: String,
    pub point: i64,
}

/// An editing command.
#[derive(Copy, Clone, Debug, PartialEq, Eq, Structural)]
pub enum Command {
    BufferInsert(char),
    BufferDelete,
    AdvancePoint,
    RetreatPoint,
    Quit,
    /// No action.
    Default,
}

/// A control key.
#[derive(PartialEq, Eq, Hash, Debug, Structural)]
pub enum ControlType {
    Escape,
    Backspace,
    CursorBack,
    CursorForward,
    CursorUp,
    CursorDown,
}

/// One input from the user.
#[derive(PartialEq, Eq, Hash, Debug, Structural)]
pub enum InputType {
    /// Nothing received yet.
    Waiting,
    Insert(char),
    Control(ControlType),
}

} // verus!
