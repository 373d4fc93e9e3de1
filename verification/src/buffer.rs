use vstd::prelude::*;

use crate::buffer::text_model::{
    join_lines, lemma_insert_in_line, lemma_line_start_step, lemma_position_bounded,
    lemma_split_line, lemma_text_len, line_start, lines_without_newlines, point_in_lines,
    text_position,
};
use crate::text_util::{chars_of, string_from_chars};

pub mod buffer_laws;
pub mod text_model;

verus! {

/// The index in the text of `lines` of the position `point`.
pub open spec fn point_position(lines: Seq<Seq<char>>, point: Coordinate) -> int {
    text_position(lines, point.line as int, point.offset as int)
}

/// What every buffer keeps: no line holds a newline, and the point lies
/// in the lines.
pub open spec fn buffer_invariant(lines: Seq<Seq<char>>, point: Coordinate) -> bool {
    &&& lines_without_newlines(lines)
    &&& point_in_lines(lines, point.line as int, point.offset as int)
}

/// `s` can be appended to a buffer with these lines: a buffer that holds
/// no line yet cannot take a newline as its first character.
pub open spec fn can_append(lines: Seq<Seq<char>>, s: Seq<char>) -> bool {
    lines.len() == 0 && s.len() > 0 ==> s[0] != '\n'
}

/// `x` bounded below by `lo` and above by `hi`.
pub open spec fn clamp(x: int, lo: int, hi: int) -> int {
    if x < lo {
        lo
    } else if x > hi {
        hi
    } else {
        x
    }
}

/// One deletion at the point: the last character of the point's line
/// goes, and the point's offset moves back by one (not below zero); on an
/// empty line that is not the first, the line itself goes and the point
/// moves to the line above.
pub open spec fn delete_one(lines: Seq<Seq<char>>, line: int, offset: int) -> (
    Seq<Seq<char>>,
    int,
    int,
) {
    if lines[line].len() > 0 {
        (
            lines.update(line, lines[line].drop_last()),
            line,
            if offset < 1 {
                0
            } else {
                offset - 1
            },
        )
    } else if line < 1 {
        (lines, 0, offset)
    } else {
        (lines.remove(line), line - 1, offset)
    }
}

/// `n` deletions at the point, one after the other.
pub open spec fn delete_steps(lines: Seq<Seq<char>>, line: int, offset: int, n: nat) -> (
    Seq<Seq<char>>,
    int,
    int,
)
    decreases n,
{
    if n == 0 {
        (lines, line, offset)
    } else {
        let (l2, line2, offset2) = delete_one(lines, line, offset);
        delete_steps(l2, line2, offset2, (n - 1) as nat)
    }
}

/// A text buffer made of lines, with a point at which it is edited.
pub trait Buffer {
    /// The lines of the buffer.
    spec fn lines_view(&self) -> Seq<Seq<char>>;

    /// The point: the line, and the offset in that line, where edits happen.
    spec fn point_view(&self) -> Coordinate;

    /// Inserts `chars` at the point and moves the point past them.
    fn append_at_point(&mut self, chars: &str) -> (r: Result<(), String>)
        requires
            buffer_invariant(old(self).lines_view(), old(self).point_view()),
            can_append(old(self).lines_view(), chars@),
        ensures
            r is Ok,
            buffer_invariant(final(self).lines_view(), final(self).point_view()),
            ({
                let t = join_lines(old(self).lines_view());
                let p = point_position(old(self).lines_view(), old(self).point_view());
                &&& join_lines(final(self).lines_view()) == t.take(p) + chars@ + t.skip(p)
                &&& point_position(final(self).lines_view(), final(self).point_view()) == p
                    + chars@.len()
            }),
            chars@.len() > 0 ==> final(self).lines_view().len() > 0,
            chars@.len() == 0 ==> final(self).lines_view() == old(self).lines_view()
                && final(self).point_view() == old(self).point_view(),
    ;

    /// Deletes `deletions` times at the point (see `delete_one`).
    fn delete_at_point(&mut self, deletions: usize) -> (r: Result<(), String>)
        requires
            buffer_invariant(old(self).lines_view(), old(self).point_view()),
            deletions > 0 ==> old(self).lines_view().len() > 0,
        ensures
            r is Ok,
            buffer_invariant(final(self).lines_view(), final(self).point_view()),
            delete_steps(
                old(self).lines_view(),
                old(self).point_view().line as int,
                old(self).point_view().offset as int,
                deletions as nat,
            ) == (
                final(self).lines_view(),
                final(self).point_view().line as int,
                final(self).point_view().offset as int,
            ),
    ;

    fn get_char_at_index(&self, index: i64) -> Result<char, String>;

    fn get_next_for_char(&self, query_char: char) -> Result<Coordinate, String>;

    /// The point.
    fn get_current_location(&self) -> (r: Result<Coordinate, String>)
        ensures
            r == Ok::<Coordinate, String>(self.point_view()),
    ;

    /// Moves the point by `amount` characters through the text, forward
    /// when positive and backward when negative, stopping at either end of
    /// the text; a newline between lines counts as one character.
    fn move_current_location(&mut self, amount: i64) -> (r: Result<Coordinate, String>)
        requires
            buffer_invariant(old(self).lines_view(), old(self).point_view()),
            amount > 0 ==> old(self).lines_view().len() > 0,
        ensures
            buffer_invariant(final(self).lines_view(), final(self).point_view()),
            final(self).lines_view() == old(self).lines_view(),
            r == Ok::<Coordinate, String>(final(self).point_view()),
            point_position(final(self).lines_view(), final(self).point_view()) == clamp(
                point_position(old(self).lines_view(), old(self).point_view()) + amount,
                0,
                join_lines(old(self).lines_view()).len() as int,
            ),
    ;

    /// All the text of the buffer: its lines joined by newlines.
    fn get_chars(&self) -> (r: Result<String, String>)
        ensures
            r matches Ok(s) && s@ == join_lines(self.lines_view()),
    ;
}

/// Something that can report its position as (x, y) coordinates.
pub trait Location {
    fn get_xy_coordinates(&self) -> Result<(usize, usize), String>;
}

/// A position in a buffer: a line, and an offset in that line.
#[derive(Copy, Clone, Debug, PartialEq, Eq, Structural)]
pub struct Coordinate {
    pub offset: usize,
    pub line: usize,
}

impl Coordinate {
    /// The origin: first line, offset zero.
    pub(crate) fn new() -> (c: Coordinate)
        ensures
            c.line == 0,
            c.offset == 0,
    {
        Coordinate { line: 0, offset: 0 }
    }

    /// The coordinate as `(offset, line)`.
    pub fn as_tuple(&self) -> (t: (usize, usize))
        ensures
            t == (self.offset, self.line),
    {
        (self.offset, self.line)
    }
}

/// The lines of a buffer and its point, as plain data: the editing steps
/// of `LineBuffer` work on this and hand it back whole.
struct LineText {
    point: Coordinate,
    lines: Vec<Vec<char>>,
}

/// A buffer that holds its text as a list of lines. Its lines and point
/// always satisfy `buffer_invariant`.
pub struct LineBuffer {
    text: LineText,
}

impl LineText {
    spec fn lines_view(&self) -> Seq<Seq<char>> {
        self.lines@.map_values(|line: Vec<char>| line@)
    }

    spec fn point_view(&self) -> Coordinate {
        self.point
    }

    /// No lines, point at the origin.
    fn empty() -> (t: LineText)
        ensures
            t.lines_view() == Seq::<Seq<char>>::empty(),
            t.point_view() == (Coordinate { offset: 0, line: 0 }),
            buffer_invariant(t.lines_view(), t.point_view()),
    {
        let t = LineText { point: Coordinate::new(), lines: Vec::new() };
        assert(t.lines_view() =~= Seq::<Seq<char>>::empty());
        t
    }

    /// Inserts one character at the point and moves the point past it.
    fn append_char_at_point(&mut self, ch: char)
        requires
            buffer_invariant(old(self).lines_view(), old(self).point_view()),
            old(self).lines_view().len() == 0 ==> ch != '\n',
        ensures
            buffer_invariant(final(self).lines_view(), final(self).point_view()),
            final(self).lines_view().len() > 0,
            ({
                let t = join_lines(old(self).lines_view());
                let p = point_position(old(self).lines_view(), old(self).point_view());
                &&& join_lines(final(self).lines_view()) == t.take(p) + seq![ch] + t.skip(p)
                &&& point_position(final(self).lines_view(), final(self).point_view()) == p + 1
            }),
    {
        let ghost old_lines = self.lines_view();
        let l = self.point.line;
        let o = self.point.offset;
        assert(self.lines@.len() == old_lines.len());
        proof {
            if old_lines.len() > 0 {
                assert(self.lines[l as int]@ == old_lines[l as int]);
            }
        }
        if ch == '\n' {
            assert(old_lines.len() > 0);
            assert(l < self.lines.len());
            let ghost old_line = old_lines[l as int];
            let mut line: Vec<char> = Vec::new();
            std::mem::swap(&mut line, &mut self.lines[l]);
            assert(line@ == old_line);
            let second: Vec<char> = if o == line.len() {
                Vec::new()
            } else {
                line.split_off(o)
            };
            assert(line@ =~= old_line.take(o as int));
            assert(l < self.lines.len());
            assert(second@ =~= old_line.skip(o as int));
            self.lines.set(l, line);
            self.lines.insert(l + 1, second);
            self.point = Coordinate { line: l + 1, offset: 0 };
            proof {
                assert(self.lines_view() =~= old_lines.update(l as int, old_line.take(o as int)).insert(
                    l + 1,
                    old_line.skip(o as int),
                ));
                lemma_split_line(old_lines, l as int, o as int);
            }
        } else if l < self.lines.len() {
            let mut line: Vec<char> = Vec::new();
            std::mem::swap(&mut line, &mut self.lines[l]);
            assert(line@ == old_lines[l as int]);
            line.insert(o, ch);
            let line_len = line.len();
            assert(o < line_len);
            self.lines.set(l, line);
            self.point = Coordinate { line: l, offset: o + 1 };
            proof {
                assert(self.lines_view() =~= old_lines.update(
                    l as int,
                    old_lines[l as int].insert(o as int, ch),
                ));
                lemma_insert_in_line(old_lines, l as int, o as int, ch);
            }
        } else {
            let mut line: Vec<char> = Vec::new();
            line.push(ch);
            self.lines.push(line);
            self.point = Coordinate { line: l, offset: 1 };
            proof {
                assert(self.lines_view() =~= seq![seq![ch]]);
                assert(join_lines(old_lines) =~= Seq::<char>::empty());
            }
        }
    }

    fn append_at_point(&mut self, chars: &str) -> (r: Result<(), String>)
        requires
            buffer_invariant(old(self).lines_view(), old(self).point_view()),
            can_append(old(self).lines_view(), chars@),
        ensures
            r is Ok,
            buffer_invariant(final(self).lines_view(), final(self).point_view()),
            ({
                let t = join_lines(old(self).lines_view());
                let p = point_position(old(self).lines_view(), old(self).point_view());
                &&& join_lines(final(self).lines_view()) == t.take(p) + chars@ + t.skip(p)
                &&& point_position(final(self).lines_view(), final(self).point_view()) == p
                    + chars@.len()
            }),
            chars@.len() > 0 ==> final(self).lines_view().len() > 0,
            chars@.len() == 0 ==> final(self).lines_view() == old(self).lines_view()
                && final(self).point_view() == old(self).point_view(),
    {
        let cs = chars_of(chars);
        let ghost t0 = join_lines(self.lines_view());
        let ghost p0 = point_position(self.lines_view(), self.point_view());
        let ghost lines0 = self.lines_view();
        let ghost point0 = self.point_view();
        proof {
            lemma_position_bounded(lines0, point0.line as int, point0.offset as int);
            assert(t0.take(p0) + cs@.take(0) + t0.skip(p0) =~= t0);
        }
        let mut i: usize = 0;
        while i < cs.len()
            invariant
                cs@ == chars@,
                i <= cs.len(),
                0 <= p0 <= t0.len(),
                buffer_invariant(self.lines_view(), self.point_view()),
                can_append(lines0, chars@),
                i == 0 ==> self.lines_view() == lines0 && self.point_view() == point0,
                i > 0 ==> self.lines_view().len() > 0,
                join_lines(self.lines_view()) == t0.take(p0) + cs@.take(i as int) + t0.skip(p0),
                point_position(self.lines_view(), self.point_view()) == p0 + i,
            decreases cs.len() - i,
        {
            let ghost t = join_lines(self.lines_view());
            let ghost p = point_position(self.lines_view(), self.point_view());
            self.append_char_at_point(cs[i]);
            proof {
                let done = cs@.take(i as int);
                assert(t.take(p) =~= t0.take(p0) + done);
                assert(t.skip(p) =~= t0.skip(p0));
                assert(cs@.take(i + 1) =~= done.push(cs@[i as int]));
                assert(join_lines(self.lines_view()) =~= t0.take(p0) + cs@.take(i + 1) + t0.skip(
                    p0,
                ));
            }
            i = i + 1;
        }
        assert(cs@.take(cs.len() as int) =~= chars@);
        Ok(())
    }


    fn delete_at_point(&mut self, deletions: usize) -> (r: Result<(), String>)
        requires
            buffer_invariant(old(self).lines_view(), old(self).point_view()),
            deletions > 0 ==> old(self).lines_view().len() > 0,
        ensures
            r is Ok,
            buffer_invariant(final(self).lines_view(), final(self).point_view()),
            delete_steps(
                old(self).lines_view(),
                old(self).point_view().line as int,
                old(self).point_view().offset as int,
                deletions as nat,
            ) == (
                final(self).lines_view(),
                final(self).point_view().line as int,
                final(self).point_view().offset as int,
            ),
    {
        let ghost target = delete_steps(
            self.lines_view(),
            self.point.line as int,
            self.point.offset as int,
            deletions as nat,
        );
        let mut n: usize = 0;
        while n < deletions
            invariant
                n <= deletions,
                buffer_invariant(self.lines_view(), self.point_view()),
                deletions > 0 ==> self.lines_view().len() > 0,
                delete_steps(
                    self.lines_view(),
                    self.point.line as int,
                    self.point.offset as int,
                    (deletions - n) as nat,
                ) == target,
            decreases deletions - n,
        {
            let ghost before = self.lines_view();
            let l = self.point.line;
            match self.lines[l].pop() {
                Some(_ch) => {
                    self.point.offset = if self.point.offset < 1 {
                        0
                    } else {
                        self.point.offset - 1
                    };
                    proof {
                        assert(self.lines_view() =~= before.update(
                            l as int,
                            before[l as int].drop_last(),
                        ));
                    }
                },
                None => {
                    self.point.line = if self.point.line < 1 {
                        0
                    } else {
                        self.lines.remove(self.point.line);
                        self.point.line - 1
                    };
                    proof {
                        if l >= 1 {
                            assert(self.lines_view() =~= before.remove(l as int));
                        } else {
                            assert(self.lines_view() =~= before);
                        }
                    }
                },
            }
            n = n + 1;
        }
        Ok(())
    }


    fn move_current_location(&mut self, amount: i64) -> (r: Result<Coordinate, String>)
        requires
            buffer_invariant(old(self).lines_view(), old(self).point_view()),
            amount > 0 ==> old(self).lines_view().len() > 0,
        ensures
            buffer_invariant(final(self).lines_view(), final(self).point_view()),
            final(self).lines_view() == old(self).lines_view(),
            r == Ok::<Coordinate, String>(final(self).point_view()),
            point_position(final(self).lines_view(), final(self).point_view()) == clamp(
                point_position(old(self).lines_view(), old(self).point_view()) + amount,
                0,
                join_lines(old(self).lines_view()).len() as int,
            ),
    {
        let ghost lines = self.lines_view();
        let ghost p0 = point_position(lines, self.point_view());
        let ghost len = join_lines(lines).len() as int;
        proof {
            lemma_position_bounded(lines, self.point.line as int, self.point.offset as int);
        }
        if amount < 0 {
            let mut k: i64 = amount;
            while k < 0
                invariant
                    amount <= k <= 0,
                    self.lines_view() == lines,
                    buffer_invariant(lines, self.point_view()),
                    point_position(lines, self.point_view()) == clamp(p0 + (amount - k), 0, len),
                    0 <= p0 <= len,
                decreases 0 - k,
            {
                let ghost p = point_position(lines, self.point_view());
                let ghost l0 = self.point.line as int;
                self.point.offset = {
                    if self.point.offset < 1 {
                        if self.point.line < 1 {
                            0
                        } else {
                            self.point.line = self.point.line - 1;
                            self.lines[self.point.line].len()
                        }
                    } else {
                        self.point.offset - 1
                    }
                };
                proof {
                    if self.point.line as int != l0 {
                        lemma_line_start_step(lines, self.point.line as int);
                    }
                }
                k = k + 1;
            }
        } else {
            let mut k: i64 = 0;
            while k < amount
                invariant
                    0 <= k <= amount,
                    self.lines_view() == lines,
                    amount > 0 ==> lines.len() > 0,
                    buffer_invariant(lines, self.point_view()),
                    point_position(lines, self.point_view()) == clamp(p0 + k, 0, len),
                    0 <= p0 <= len,
                    len == join_lines(lines).len(),
                decreases amount - k,
            {
                let ghost p = point_position(lines, self.point_view());
                let ghost l0 = self.point.line as int;
                let ghost o0 = self.point.offset as int;
                proof {
                    lemma_position_bounded(lines, l0, self.point.offset as int);
                    lemma_text_len(lines);
                    assert(self.lines@.len() == lines.len());
                    assert(self.lines@[l0]@ == lines[l0]);
                }
                self.point.offset = if self.point.offset == self.lines[self.point.line].len() {
                    if self.point.line < (self.lines.len() - 1) {
                        self.point.line = self.point.line + 1;
                        0
                    } else {
                        self.point.offset
                    }
                } else {
                    self.point.offset + 1
                };
                proof {
                    let np = point_position(lines, self.point_view());
                    if self.point.line as int != l0 {
                        lemma_line_start_step(lines, l0);
                        assert(np == p + 1);
                        assert(p < len);
                    } else if self.point.offset as int == o0 {
                        assert(p == len);
                    } else {
                        assert(np == p + 1);
                        assert(p < len);
                    }
                }
                k = k + 1;
            }
        }
        Ok(self.point)
    }


    fn get_chars(&self) -> (r: Result<String, String>)
        ensures
            r matches Ok(s) && s@ == join_lines(self.lines_view()),
    {
        let ghost lines = self.lines_view();
        let mut out: Vec<char> = Vec::new();
        let mut i: usize = 0;
        while i < self.lines.len()
            invariant
                i <= self.lines.len(),
                lines == self.lines_view(),
                out@ == join_lines(lines.take(i as int)),
            decreases self.lines.len() - i,
        {
            let ghost before = out@;
            if i > 0 {
                out.push('\n');
            }
            let mut j: usize = 0;
            while j < self.lines[i].len()
                invariant
                    i < self.lines.len(),
                    j <= self.lines[i as int].len(),
                    lines == self.lines_view(),
                    out@ == (if i > 0 {
                        before + seq!['\n']
                    } else {
                        before
                    }) + self.lines[i as int]@.take(j as int),
                decreases self.lines[i as int].len() - j,
            {
                out.push(self.lines[i][j]);
                assert(self.lines[i as int]@.take(j + 1) =~= self.lines[i as int]@.take(
                    j as int,
                ).push(self.lines[i as int]@[j as int]));
                j = j + 1;
            }
            proof {
                assert(self.lines[i as int]@.take(j as int) =~= lines[i as int]);
                if i > 0 {
                    assert(lines.take(i + 1).drop_last() =~= lines.take(i as int));
                } else {
                    assert(lines.take(1) =~= seq![lines[0]]);
                    assert(before =~= Seq::<char>::empty());
                }
            }
            i = i + 1;
        }
        assert(lines.take(lines.len() as int) =~= lines);
        Ok(string_from_chars(&out))
    }
}

impl LineBuffer {
    /// What every line buffer keeps: see `buffer_invariant`.
    #[verifier::type_invariant]
    pub open spec fn well_formed(&self) -> bool {
        buffer_invariant(self.lines_view(), self.point_view())
    }

    /// A buffer over text that satisfies `buffer_invariant` is well formed.
    proof fn lemma_wraps_well_formed(text: LineText)
        requires
            buffer_invariant(text.lines_view(), text.point_view()),
        ensures
            (LineBuffer { text }).well_formed(),
    {
    }

    /// An empty buffer: no lines, point at the origin.
    pub fn new() -> (b: LineBuffer)
        ensures
            b.lines_view() == Seq::<Seq<char>>::empty(),
            b.point_view() == (Coordinate { offset: 0, line: 0 }),
    {
        LineBuffer { text: LineText::empty() }
    }

    /// The number of lines in the buffer.
    pub fn line_count(&self) -> (n: usize)
        ensures
            n == self.lines_view().len(),
    {
        self.text.lines.len()
    }
}

impl Buffer for LineBuffer {
    closed spec fn lines_view(&self) -> Seq<Seq<char>> {
        self.text.lines_view()
    }

    closed spec fn point_view(&self) -> Coordinate {
        self.text.point
    }

    fn append_at_point(&mut self, chars: &str) -> (r: Result<(), String>) {
        let mut text = LineText::empty();
        proof {
            LineBuffer::lemma_wraps_well_formed(text);
        }
        std::mem::swap(&mut text, &mut self.text);
        let r = text.append_at_point(chars);
        proof {
            LineBuffer::lemma_wraps_well_formed(text);
        }
        self.text = text;
        r
    }

    fn delete_at_point(&mut self, deletions: usize) -> (r: Result<(), String>) {
        let mut text = LineText::empty();
        proof {
            LineBuffer::lemma_wraps_well_formed(text);
        }
        std::mem::swap(&mut text, &mut self.text);
        let r = text.delete_at_point(deletions);
        proof {
            LineBuffer::lemma_wraps_well_formed(text);
        }
        self.text = text;
        r
    }

    fn get_char_at_index(&self, index: i64) -> (r: Result<char, String>)
        ensures
            r matches Err(e) && e@ == "Not yet implemented"@,
    {
        proof {
            reveal_strlit("Not yet implemented");
        }
        Err(String::from_str("Not yet implemented"))
    }

    fn get_next_for_char(&self, query_char: char) -> (r: Result<Coordinate, String>)
        ensures
            r matches Err(e) && e@ == "Not yet implemented"@,
    {
        proof {
            reveal_strlit("Not yet implemented");
        }
        Err(String::from_str("Not yet implemented"))
    }

    fn get_current_location(&self) -> (r: Result<Coordinate, String>) {
        Ok(self.text.point)
    }

    fn move_current_location(&mut self, amount: i64) -> (r: Result<Coordinate, String>) {
        let mut text = LineText::empty();
        proof {
            LineBuffer::lemma_wraps_well_formed(text);
        }
        std::mem::swap(&mut text, &mut self.text);
        let r = text.move_current_location(amount);
        proof {
            LineBuffer::lemma_wraps_well_formed(text);
        }
        self.text = text;
        r
    }

    fn get_chars(&self) -> (r: Result<String, String>) {
        self.text.get_chars()
    }
}

} // verus!
