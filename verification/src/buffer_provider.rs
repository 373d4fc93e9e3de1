use vstd::prelude::*;

use crate::buffer::{Buffer, Coordinate, LineBuffer};

verus! {

/// The kinds of buffer that can be made.
#[derive(Debug)]
pub enum BufferType {
    Normal,
}

/// A new, empty buffer of the given kind.
pub fn new(buffer_type: BufferType) -> (r: Result<LineBuffer, String>)
    ensures
        r matches Ok(b) && b.lines_view() == Seq::<Seq<char>>::empty() && b.point_view() == (
        Coordinate { offset: 0, line: 0 }),
{
    match buffer_type {
        BufferType::Normal => Ok(LineBuffer::new()),
    }
}

} // verus!
