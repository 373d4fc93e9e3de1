use vstd::prelude::*;

use crate::buffer::Coordinate;

verus! {

/// The 1-based (column, row) on screen of a location in a buffer, or
/// `None` when either does not fit the screen's numbers.
pub fn screen_position(location: Coordinate) -> (r: Option<(u16, u16)>)
    ensures
        location.offset + 1 <= u16::MAX && location.line + 1 <= u16::MAX ==> r == Some(
            ((location.offset + 1) as u16, (location.line + 1) as u16),
        ),
        !(location.offset + 1 <= u16::MAX && location.line + 1 <= u16::MAX) ==> r is None,
{
    if location.offset >= 65535 || location.line >= 65535 {
        None
    } else {
        Some(((location.offset + 1) as u16, (location.line + 1) as u16))
    }
}

} // verus!
