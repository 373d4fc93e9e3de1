use vstd::prelude::*;

use crate::buffer::text_model::{
    join_lines, lemma_join_concat, lemma_join_split, lemma_line_start_step,
    lemma_position_bounded, lemma_position_injective, line_start, lines_without_newlines,
    point_in_lines, text_after_line, text_before_line,
};
use crate::buffer::{buffer_invariant, clamp, delete_one, delete_steps, point_position, Coordinate};

verus! {

/// Moving the point by `k` characters and then by `-k` characters brings
/// it back where it was, whenever the first move stays within the text.
pub proof fn law_move_then_move_back(
    lines: Seq<Seq<char>>,
    point: Coordinate,
    moved: Coordinate,
    back: Coordinate,
    k: int,
)
    requires
        buffer_invariant(lines, point),
        buffer_invariant(lines, moved),
        buffer_invariant(lines, back),
        0 <= point_position(lines, point) + k <= join_lines(lines).len(),
        point_position(lines, moved) == clamp(
            point_position(lines, point) + k,
            0,
            join_lines(lines).len() as int,
        ),
        point_position(lines, back) == clamp(
            point_position(lines, moved) - k,
            0,
            join_lines(lines).len() as int,
        ),
    ensures
        back == point,
{
    lemma_position_bounded(lines, point.line as int, point.offset as int);
    lemma_position_injective(
        lines,
        back.line as int,
        back.offset as int,
        point.line as int,
        point.offset as int,
    );
}

/// Appending `a` and then `b` at the point leaves the same text and point
/// as appending `a` followed by `b` at once.
pub proof fn law_append_twice(
    t: Seq<char>,
    p: int,
    a: Seq<char>,
    b: Seq<char>,
    t1: Seq<char>,
    p1: int,
    t2: Seq<char>,
    p2: int,
)
    requires
        0 <= p <= t.len(),
        t1 == t.take(p) + a + t.skip(p),
        p1 == p + a.len(),
        t2 == t1.take(p1) + b + t1.skip(p1),
        p2 == p1 + b.len(),
    ensures
        t2 == t.take(p) + (a + b) + t.skip(p),
        p2 == p + (a + b).len(),
{
    assert(t1.take(p1) =~= t.take(p) + a);
    assert(t1.skip(p1) =~= t.skip(p));
    assert(t2 =~= t.take(p) + (a + b) + t.skip(p));
}

/// One deletion keeps the buffer invariant and the lines after the
/// point's line.
proof fn lemma_delete_one_keeps_invariant(lines: Seq<Seq<char>>, l: int, o: int)
    requires
        lines.len() > 0,
        lines_without_newlines(lines),
        point_in_lines(lines, l, o),
    ensures
        ({
            let (l2, line2, o2) = delete_one(lines, l, o);
            &&& l2.len() > 0
            &&& lines_without_newlines(l2)
            &&& point_in_lines(l2, line2, o2)
            &&& l2.skip(line2 + 1) == lines.skip(l + 1)
        }),
{
    let (l2, line2, o2) = delete_one(lines, l, o);
    if lines[l].len() > 0 {
        assert forall|i: int, j: int|
            0 <= i < l2.len() && 0 <= j < l2[i].len() implies #[trigger] l2[i][j] != '\n' by {
            if i == l {
                assert(l2[i][j] == lines[i][j]);
            }
        }
        assert(l2.skip(line2 + 1) =~= lines.skip(l + 1));
    } else if l >= 1 {
        assert forall|i: int, j: int|
            0 <= i < l2.len() && 0 <= j < l2[i].len() implies #[trigger] l2[i][j] != '\n' by {
            if i >= l {
                assert(l2[i] == lines[i + 1]);
            }
        }
        assert(l2.skip(line2 + 1) =~= lines.skip(l + 1));
    }
}

/// Deleting at least as many times as there are characters up to the end
/// of the point's line (newlines included) empties everything up to that
/// line end, leaves the lines after it untouched, and puts the point at
/// the beginning of the buffer: deletion never goes past the beginning.
pub proof fn law_delete_stops_at_beginning(lines: Seq<Seq<char>>, point: Coordinate, n: nat)
    requires
        lines.len() > 0,
        buffer_invariant(lines, point),
        n >= line_start(lines, point.line as int) + lines[point.line as int].len(),
    ensures
        delete_steps(lines, point.line as int, point.offset as int, n) == (
            seq![Seq::<char>::empty()] + lines.skip(point.line + 1),
            0int,
            0int,
        ),
{
    lemma_delete_reaches_beginning(lines, point.line as int, point.offset as int, n);
}

/// Enough deletions from line `l` empty everything up to that line's end.
proof fn lemma_delete_reaches_beginning(lines: Seq<Seq<char>>, l: int, o: int, n: nat)
    requires
        lines.len() > 0,
        lines_without_newlines(lines),
        point_in_lines(lines, l, o),
        n >= line_start(lines, l) + lines[l].len(),
    ensures
        delete_steps(lines, l, o, n) == (seq![Seq::<char>::empty()] + lines.skip(l + 1), 0int, 0int),
    decreases n,
{
    if n == 0 {
        assert(lines[l].len() == 0);
        if l > 0 {
            assert(line_start(lines, l) > 0);
        }
        assert(l == 0);
        assert(lines[0] =~= Seq::<char>::empty());
        assert(lines =~= seq![Seq::<char>::empty()] + lines.skip(1));
    } else {
        let (l2, line2, o2) = delete_one(lines, l, o);
        lemma_delete_one_keeps_invariant(lines, l, o);
        if lines[l].len() > 0 {
            assert(l2.take(l) =~= lines.take(l));
            if l > 0 {
                assert(line_start(l2, l) == line_start(lines, l));
            }
            lemma_delete_reaches_beginning(l2, line2, o2, (n - 1) as nat);
        } else if l >= 1 {
            lemma_line_start_step(lines, l - 1);
            assert(l2.take(l - 1) =~= lines.take(l - 1));
            assert(l2[l - 1] == lines[l - 1]);
            if l - 1 > 0 {
                assert(line_start(l2, l - 1) == line_start(lines, l - 1));
            }
            lemma_delete_reaches_beginning(l2, line2, o2, (n - 1) as nat);
        } else {
            assert(o == 0);
            lemma_delete_reaches_beginning(l2, line2, o2, (n - 1) as nat);
        }
    }
}

/// One deletion with the point on the last line takes the last character
/// of the text, if there is one, and leaves the point on the last line.
proof fn lemma_delete_one_on_last_line(lines: Seq<Seq<char>>, l: int, o: int)
    requires
        lines.len() > 0,
        l == lines.len() - 1,
    ensures
        ({
            let (l2, line2, o2) = delete_one(lines, l, o);
            let t = join_lines(lines);
            &&& l2.len() > 0
            &&& line2 == l2.len() - 1
            &&& join_lines(l2) == (if t.len() > 0 {
                t.drop_last()
            } else {
                t
            })
        }),
{
    let (l2, line2, o2) = delete_one(lines, l, o);
    let t = join_lines(lines);
    if lines[l].len() > 0 {
        assert(l2.drop_last() =~= lines.drop_last());
        assert(l2.last() =~= lines.last().drop_last());
        if lines.len() == 1 {
            assert(t == lines[0]);
        } else {
            assert(join_lines(l2) =~= t.drop_last());
        }
    } else if l >= 1 {
        assert(l2 =~= lines.drop_last());
        assert(join_lines(l2) =~= t.drop_last());
    } else {
        assert(t == lines[0]);
    }
}

/// Deleting `n` times with the point on the last line takes the last `n`
/// characters of the text, or all of it when it is shorter.
proof fn lemma_delete_steps_on_last_line(lines: Seq<Seq<char>>, l: int, o: int, n: nat)
    requires
        lines.len() > 0,
        l == lines.len() - 1,
    ensures
        ({
            let t = join_lines(lines);
            let kept = if n <= t.len() {
                t.len() - n
            } else {
                0
            };
            join_lines(delete_steps(lines, l, o, n).0) == t.take(kept)
        }),
    decreases n,
{
    let t = join_lines(lines);
    if n == 0 {
        assert(t.take(t.len() as int) =~= t);
    } else {
        let (l2, line2, o2) = delete_one(lines, l, o);
        lemma_delete_one_on_last_line(lines, l, o);
        lemma_delete_steps_on_last_line(l2, line2, o2, (n - 1) as nat);
        let t2 = join_lines(l2);
        if t.len() > 0 {
            let kept2 = if n - 1 <= t2.len() {
                t2.len() - (n - 1)
            } else {
                0
            };
            assert(t2.take(kept2) =~= t.take(if n <= t.len() {
                t.len() - n
            } else {
                0
            }));
        } else {
            assert(t2.take(0) =~= t.take(0));
        }
    }
}

/// Appending a text at the end of the buffer and then deleting once for
/// each of its characters gives back the text the buffer had.
pub proof fn law_delete_undoes_append_at_end(
    lines: Seq<Seq<char>>,
    point: Coordinate,
    s: Seq<char>,
    lines2: Seq<Seq<char>>,
    point2: Coordinate,
)
    requires
        buffer_invariant(lines, point),
        buffer_invariant(lines2, point2),
        point_position(lines, point) == join_lines(lines).len(),
        join_lines(lines2) == join_lines(lines).take(point_position(lines, point)) + s
            + join_lines(lines).skip(point_position(lines, point)),
        point_position(lines2, point2) == point_position(lines, point) + s.len(),
    ensures
        join_lines(delete_steps(lines2, point2.line as int, point2.offset as int, s.len()).0)
            == join_lines(lines),
{
    let t = join_lines(lines);
    let p = point_position(lines, point);
    assert(t.take(p) =~= t);
    assert(t.skip(p) =~= Seq::<char>::empty());
    assert(join_lines(lines2) =~= t + s);
    if lines2.len() == 0 {
        assert(s.len() == 0);
    } else {
        lemma_position_bounded(lines2, point2.line as int, point2.offset as int);
        lemma_delete_steps_on_last_line(
            lines2,
            point2.line as int,
            point2.offset as int,
            s.len(),
        );
        assert((t + s).take(t.len() as int) =~= t);
    }
}

/// Deleting `n` times with the point on the last line (for instance at the
/// end of the text) takes the last `n` characters of the text, a newline
/// counting as one, or all of it when it is shorter: nothing before the
/// start of the buffer goes.
pub proof fn law_delete_on_last_line_removes_last_chars(
    lines: Seq<Seq<char>>,
    point: Coordinate,
    n: nat,
)
    requires
        buffer_invariant(lines, point),
        lines.len() > 0,
        point.line == lines.len() - 1,
    ensures
        ({
            let t = join_lines(lines);
            join_lines(delete_steps(lines, point.line as int, point.offset as int, n).0) == t.take(
                if n <= t.len() {
                    t.len() - n
                } else {
                    0
                },
            )
        }),
{
    lemma_delete_steps_on_last_line(lines, point.line as int, point.offset as int, n);
}

/// Appending one character puts it into the text at the point, keeps the
/// text before and after it, and moves the point just past it.
pub proof fn law_append_one_char(
    lines: Seq<Seq<char>>,
    point: Coordinate,
    ch: char,
    lines2: Seq<Seq<char>>,
    point2: Coordinate,
)
    requires
        buffer_invariant(lines, point),
        buffer_invariant(lines2, point2),
        join_lines(lines2) == join_lines(lines).take(point_position(lines, point)) + seq![ch]
            + join_lines(lines).skip(point_position(lines, point)),
        point_position(lines2, point2) == point_position(lines, point) + 1,
    ensures
        ({
            let t = join_lines(lines);
            let t2 = join_lines(lines2);
            let p = point_position(lines, point);
            &&& lines2.len() > 0
            &&& t2.len() == t.len() + 1
            &&& t2[p] == ch
            &&& t2.take(p) == t.take(p)
            &&& t2.skip(p + 1) == t.skip(p)
            &&& point_position(lines2, point2) == p + 1
        }),
{
    let t = join_lines(lines);
    let t2 = join_lines(lines2);
    let p = point_position(lines, point);
    lemma_position_bounded(lines, point.line as int, point.offset as int);
    assert(t2.take(p) =~= t.take(p));
    assert(t2.skip(p + 1) =~= t.skip(p));
    assert(t2[p] == ch);
    if lines2.len() == 0 {
        assert(t2.len() == 0);
    }
}

/// One deletion takes exactly one character of the text, on whatever line
/// the point is: the last character of the point's line, or, on an empty
/// line after the first, the newline that ends the line above. Only an
/// empty first line loses nothing. On a line with characters the point
/// stays on its line and its offset goes back by one, not below zero.
pub proof fn law_delete_takes_one_char(lines: Seq<Seq<char>>, point: Coordinate)
    requires
        buffer_invariant(lines, point),
        lines.len() > 0,
    ensures
        ({
            let t = join_lines(lines);
            let l = point.line as int;
            let e = line_start(lines, l) + lines[l].len();
            let after = delete_steps(lines, l, point.offset as int, 1);
            &&& e > 0 ==> join_lines(after.0) == t.take(e - 1) + t.skip(e)
            &&& e > 0 ==> join_lines(after.0).len() == t.len() - 1
            &&& e == 0 ==> after.0 == lines
            &&& lines[l].len() > 0 ==> after.1 == l && after.2 == (if point.offset < 1 {
                0
            } else {
                point.offset - 1
            })
        }),
{
    let t = join_lines(lines);
    let l = point.line as int;
    let o = point.offset as int;
    let e = line_start(lines, l) + lines[l].len();
    let (l2, line2, o2) = delete_one(lines, l, o);
    assert(delete_steps(l2, line2, o2, 0) == (l2, line2, o2));
    assert(delete_steps(lines, l, o, 1) == (l2, line2, o2));
    lemma_join_split(lines, l);
    let b = text_before_line(lines, l);
    let a = text_after_line(lines, l);
    assert(t == b + lines[l] + a);
    if lines[l].len() > 0 {
        lemma_join_split(l2, l);
        assert(l2.take(l) =~= lines.take(l));
        assert(l2.skip(l + 1) =~= lines.skip(l + 1));
        assert(text_before_line(l2, l) == b);
        assert(text_after_line(l2, l) == a);
        assert(t.take(e - 1) =~= b + lines[l].drop_last());
        assert(t.skip(e) =~= a);
        assert(join_lines(l2) =~= t.take(e - 1) + t.skip(e));
    } else if l >= 1 {
        let pre = lines.take(l);
        assert(b == join_lines(pre) + seq!['\n']);
        if l == lines.len() - 1 {
            assert(l2 =~= pre);
            assert(a =~= Seq::<char>::empty());
        } else {
            assert(l2 =~= pre + lines.skip(l + 1));
            lemma_join_concat(pre, lines.skip(l + 1));
        }
        assert(join_lines(l2) =~= join_lines(pre) + a);
        assert(t.take(e - 1) =~= join_lines(pre));
        assert(t.skip(e) =~= a);
    } else {
        assert(e == 0);
    }
}

} // verus!
