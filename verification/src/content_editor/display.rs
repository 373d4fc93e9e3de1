use vstd::prelude::*;
use vstd::utf8::{encode_utf8, is_char_boundary};

use crate::content_editor::models::ContentBuffer;

verus! {

/// The number of newline bytes in `bytes`.
pub open spec fn newline_count(bytes: Seq<u8>) -> nat
    decreases bytes.len(),
{
    if bytes.len() == 0 {
        0
    } else if bytes.last() == 10u8 {
        newline_count(bytes.drop_last()) + 1
    } else {
        newline_count(bytes.drop_last())
    }
}

/// The index just after the last newline byte in `bytes`, or 0 when there
/// is none: where the last line of `bytes` starts.
pub open spec fn last_line_start(bytes: Seq<u8>) -> int
    decreases bytes.len(),
{
    if bytes.len() == 0 {
        0
    } else if bytes.last() == 10u8 {
        bytes.len() as int
    } else {
        last_line_start(bytes.drop_last())
    }
}

/// The column of the point, before it is made 1-based: the number of bytes
/// between the start of its line and the point, as an `i16`.
pub open spec fn cursor_column(bytes: Seq<u8>, point: int) -> i16 {
    (point - last_line_start(bytes.take(point))) as i16
}

/// The number of newline bytes in `bytes` counts each of them, and
/// nothing else: it is the length of the newline bytes filtered out of
/// `bytes`; one more newline adds one, and the count over two parts is the
/// sum of their counts. So the cursor's row after `k` newlines is `k + 1`.
pub proof fn law_newline_count_counts_newlines(b: Seq<u8>, c: Seq<u8>)
    ensures
        newline_count(b) == b.filter(|x: u8| x == 10u8).len(),
        newline_count(b.push(10u8)) == newline_count(b) + 1,
        newline_count(b + c) == newline_count(b) + newline_count(c),
{
    lemma_newline_count_filter(b);
    lemma_newline_count_filter(c);
    lemma_newline_count_filter(b + c);
    lemma_newline_count_filter(b.push(10u8));
    reveal(Seq::filter);
    assert(b.push(10u8).drop_last() =~= b);
    Seq::filter_distributes_over_add(b, c, |x: u8| x == 10u8);
}

/// `newline_count` is the number of newline bytes.
proof fn lemma_newline_count_filter(b: Seq<u8>)
    ensures
        newline_count(b) == b.filter(|x: u8| x == 10u8).len(),
    decreases b.len(),
{
    reveal(Seq::filter);
    if b.len() > 0 {
        lemma_newline_count_filter(b.drop_last());
    }
}

/// Where the last line of `bytes` starts: just after a newline byte (or at
/// the start), with no newline byte from there to the end.
pub proof fn law_last_line_start_follows_last_newline(b: Seq<u8>)
    ensures
        0 <= last_line_start(b) <= b.len(),
        last_line_start(b) > 0 ==> b[last_line_start(b) - 1] == 10u8,
        forall|i: int| last_line_start(b) <= i < b.len() ==> b[i] != 10u8,
    decreases b.len(),
{
    if b.len() > 0 {
        law_last_line_start_follows_last_newline(b.drop_last());
        if b.last() != 10u8 {
            assert forall|i: int| last_line_start(b) <= i < b.len() implies b[i] != 10u8 by {
                if i < b.len() - 1 {
                    assert(b[i] == b.drop_last()[i]);
                }
            }
            if last_line_start(b) > 0 {
                assert(b[last_line_start(b) - 1] == b.drop_last()[last_line_start(b) - 1]);
            }
        }
    }
}

/// Where `calculate_cursor` can place the point: it lies on a character
/// boundary of the text, and its row and column fit the screen's numbers.
pub open spec fn cursor_computable(content: Seq<char>, point: i64) -> bool {
    let bytes = encode_utf8(content);
    &&& 0 <= point <= bytes.len()
    &&& is_char_boundary(bytes, point as int)
    &&& newline_count(bytes.take(point as int)) + 1 <= u16::MAX
    &&& cursor_column(bytes, point as int) != i16::MAX
}

/// The 1-based (column, row) on screen of `point` in `content`. The row is
/// one more than the number of newlines before the point; the column one
/// more than the number of bytes between the start of the point's line and
/// the point, counted as an `i16` and not below zero.
pub open spec fn cursor_at(content: Seq<char>, point: i64) -> (u16, u16) {
    let bytes = encode_utf8(content);
    let x = cursor_column(bytes, point as int);
    let column = if x > 0 {
        x
    } else {
        0
    };
    ((column + 1) as u16, (newline_count(bytes.take(point as int)) + 1) as u16)
}

/// The number of newline bytes among the first `point` bytes, and where
/// the last line among them starts.
fn lines_before(bytes: &[u8], point: usize) -> (r: (usize, usize))
    requires
        point <= bytes@.len(),
    ensures
        r.0 == newline_count(bytes@.take(point as int)),
        r.1 == last_line_start(bytes@.take(point as int)),
        r.0 <= point,
        r.1 <= point,
{
    let mut y: usize = 0;
    let mut last_newline: usize = 0;
    let mut i: usize = 0;
    while i < point
        invariant
            point <= bytes@.len(),
            i <= point,
            y == newline_count(bytes@.take(i as int)),
            last_newline == last_line_start(bytes@.take(i as int)),
            y <= i,
            last_newline <= i,
        decreases point - i,
    {
        assert(bytes@.take(i + 1).drop_last() =~= bytes@.take(i as int));
        if bytes[i] == 10u8 {
            y = y + 1;
            last_newline = i + 1;
        }
        i = i + 1;
    }
    (y, last_newline)
}

/// The 1-based (column, row) on screen of the buffer's point (see
/// `cursor_at`).
pub fn calculate_cursor(buffer: &ContentBuffer) -> (r: (u16, u16))
    requires
        cursor_computable(buffer.content@, buffer.point),
    ensures
        r == cursor_at(buffer.content@, buffer.point),
{
    let bytes = buffer.content.as_str().as_bytes();
    assert(bytes@ == encode_utf8(buffer.content@));
    let len = bytes.len();
    assert(buffer.point <= len);
    let point_as_index = buffer.point as usize;
    let (y, last_newline) = lines_before(bytes, point_as_index);
    let raw: i16 = (point_as_index - last_newline) as i16;
    assert(raw == cursor_column(bytes@, buffer.point as int));
    let x: i16 = if raw > 0 {
        raw
    } else {
        0
    };
    ((x + 1) as u16, (y + 1) as u16)
}

/// The cursor of the buffer's point, or `None` where `calculate_cursor`
/// cannot give it: the point lies outside the text or inside a character,
/// or its row or column does not fit.
pub fn try_calculate_cursor(buffer: &ContentBuffer) -> (r: Option<(u16, u16)>)
    ensures
        cursor_computable(buffer.content@, buffer.point) ==> r == Some(
            cursor_at(buffer.content@, buffer.point),
        ),
        !cursor_computable(buffer.content@, buffer.point) ==> r is None,
{
    let text = buffer.content.as_str();
    let bytes = text.as_bytes();
    assert(bytes@ == encode_utf8(buffer.content@));
    if buffer.point < 0 {
        return None;
    }
    if buffer.point as u64 > bytes.len() as u64 {
        return None;
    }
    let point_as_index = buffer.point as usize;
    if !text.is_char_boundary(point_as_index) {
        return None;
    }
    let (y, last_newline) = lines_before(bytes, point_as_index);
    let raw: i16 = (point_as_index - last_newline) as i16;
    assert(raw == cursor_column(bytes@, buffer.point as int));
    if y >= 65535 || raw == i16::MAX {
        return None;
    }
    Some(calculate_cursor(buffer))
}

} // verus!
