use vstd::prelude::*;

verus! {

/// An editing command, as the editor executes it on a buffer.
#[derive(Copy, Clone, Debug, PartialEq, Eq, Structural)]
pub enum Command {
    BufferInsert(char),
    BufferDelete,
    AdvancePoint,
    RetreatPoint,
    Save,
    Quit,
    /// No action.
    Default,
}

/// A control key.
#[derive(PartialEq, Eq, Hash, Debug, Structural)]
pub enum ControlType {
    Escape,
    Backspace,
    ArrowLeft,
    ArrowRight,
    CursorUp,
    CursorDown,
    Save,
}

/// One input from the user.
#[derive(PartialEq, Eq, Hash, Debug, Structural)]
pub enum InputType {
    /// Nothing received yet.
    Waiting,
    Insert(char),
    Control(ControlType),
}

} // verus!
