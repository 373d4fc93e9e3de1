use vstd::prelude::*;

verus! {

/// The text of a sequence of lines: the lines joined by single newlines.
pub open spec fn join_lines(lines: Seq<Seq<char>>) -> Seq<char>
    decreases lines.len(),
{
    if lines.len() == 0 {
        Seq::empty()
    } else if lines.len() == 1 {
        lines[0]
    } else {
        join_lines(lines.drop_last()) + seq!['\n'] + lines.last()
    }
}

/// The index in the joined text at which line `k` begins.
pub open spec fn line_start(lines: Seq<Seq<char>>, k: int) -> int {
    if k <= 0 {
        0
    } else {
        join_lines(lines.take(k)).len() + 1int
    }
}

/// The index in the joined text of the position (`line`, `offset`).
pub open spec fn text_position(lines: Seq<Seq<char>>, line: int, offset: int) -> int {
    line_start(lines, line) + offset
}

/// No line holds a newline character: newlines only ever separate lines.
pub open spec fn lines_without_newlines(lines: Seq<Seq<char>>) -> bool {
    forall|i: int, j: int|
        0 <= i < lines.len() && 0 <= j < lines[i].len() ==> #[trigger] lines[i][j] != '\n'
}

/// The position (`line`, `offset`) lies in the lines: on an existing line,
/// at most at its end; or at the origin when there are no lines at all.
pub open spec fn point_in_lines(lines: Seq<Seq<char>>, line: int, offset: int) -> bool {
    if lines.len() == 0 {
        line == 0 && offset == 0
    } else {
        0 <= line < lines.len() && 0 <= offset <= lines[line].len()
    }
}

/// The text before line `l`, with the newline that ends it.
pub open spec fn text_before_line(lines: Seq<Seq<char>>, l: int) -> Seq<char> {
    if l == 0 {
        Seq::empty()
    } else {
        join_lines(lines.take(l)) + seq!['\n']
    }
}

/// The text after line `l`, with the newline that starts it.
pub open spec fn text_after_line(lines: Seq<Seq<char>>, l: int) -> Seq<char> {
    if l == lines.len() - 1 {
        Seq::empty()
    } else {
        seq!['\n'] + join_lines(lines.skip(l + 1))
    }
}

/// Joining two non-empty lists of lines is joining each and putting a
/// newline between them.
pub proof fn lemma_join_concat(a: Seq<Seq<char>>, b: Seq<Seq<char>>)
    requires
        a.len() > 0,
        b.len() > 0,
    ensures
        join_lines(a + b) == join_lines(a) + seq!['\n'] + join_lines(b),
    decreases b.len(),
{
    if b.len() == 1 {
        assert((a + b).drop_last() =~= a);
        assert(join_lines(a + b) =~= join_lines(a) + seq!['\n'] + join_lines(b));
    } else {
        lemma_join_concat(a, b.drop_last());
        assert((a + b).drop_last() =~= a + b.drop_last());
        assert(join_lines(a + b) =~= join_lines(a) + seq!['\n'] + join_lines(b));
    }
}

/// Joining a line in front of other lines puts a newline between it and
/// their text.
pub proof fn lemma_join_cons(x: Seq<char>, rest: Seq<Seq<char>>)
    ensures
        rest.len() == 0 ==> join_lines(seq![x] + rest) == x,
        rest.len() > 0 ==> join_lines(seq![x] + rest) == x + seq!['\n'] + join_lines(rest),
{
    if rest.len() == 0 {
        assert(seq![x] + rest =~= seq![x]);
    } else {
        lemma_join_concat(seq![x], rest);
        assert(join_lines(seq![x]) == x);
    }
}

/// The text splits around any line into what comes before it, the line,
/// and what comes after it.
pub proof fn lemma_join_split(lines: Seq<Seq<char>>, l: int)
    requires
        0 <= l < lines.len(),
    ensures
        join_lines(lines) == text_before_line(lines, l) + lines[l] + text_after_line(lines, l),
        text_before_line(lines, l).len() == line_start(lines, l),
{
    let pre = lines.take(l);
    let post = lines.skip(l + 1);
    assert(lines =~= pre + (seq![lines[l]] + post));
    lemma_join_cons(lines[l], post);
    if l > 0 {
        lemma_join_concat(pre, seq![lines[l]] + post);
    } else {
        assert(pre + (seq![lines[l]] + post) =~= seq![lines[l]] + post);
    }
    if l == lines.len() - 1 {
        assert(post.len() == 0);
    }
    assert(join_lines(lines) =~= text_before_line(lines, l) + lines[l] + text_after_line(lines, l));
}

/// Each line starts one past the end of the line before it.
pub proof fn lemma_line_start_step(lines: Seq<Seq<char>>, k: int)
    requires
        0 <= k < lines.len(),
    ensures
        line_start(lines, k + 1) == line_start(lines, k) + lines[k].len() + 1,
{
    if k > 0 {
        assert(lines.take(k + 1).drop_last() =~= lines.take(k));
        assert(lines.take(k + 1).last() == lines[k]);
    } else {
        assert(lines.take(1) =~= seq![lines[0]]);
    }
}

/// The length of the text: where the last line starts plus its length.
pub proof fn lemma_text_len(lines: Seq<Seq<char>>)
    requires
        lines.len() > 0,
    ensures
        join_lines(lines).len() == line_start(lines, lines.len() - 1) + lines.last().len(),
{
    if lines.len() > 1 {
        assert(lines.drop_last() =~= lines.take(lines.len() - 1));
    }
}

/// Every position in the lines lies within the text.
pub proof fn lemma_position_bounded(lines: Seq<Seq<char>>, line: int, offset: int)
    requires
        point_in_lines(lines, line, offset),
    ensures
        0 <= text_position(lines, line, offset) <= join_lines(lines).len(),
        text_position(lines, line, offset) == join_lines(lines).len() <==> (lines.len() == 0 || (
        line == lines.len() - 1 && offset == lines[line].len())),
    decreases lines.len() - line,
{
    if lines.len() > 0 {
        lemma_text_len(lines);
        if line < lines.len() - 1 {
            lemma_line_start_step(lines, line);
            lemma_position_bounded(lines, line + 1, 0);
        }
    }
}

/// Inserting the character `c` into line `l` at `offset` inserts it into the text.
pub proof fn lemma_insert_in_line(lines: Seq<Seq<char>>, l: int, offset: int, c: char)
    requires
        0 <= l < lines.len(),
        0 <= offset <= lines[l].len(),
    ensures
        ({
            let p = text_position(lines, l, offset);
            let t = join_lines(lines);
            let new_lines = lines.update(l, lines[l].insert(offset, c));
            &&& join_lines(new_lines) == t.take(p) + seq![c] + t.skip(p)
            &&& text_position(new_lines, l, offset + 1) == p + 1
        }),
{
    let new_lines = lines.update(l, lines[l].insert(offset, c));
    lemma_join_split(lines, l);
    lemma_join_split(new_lines, l);
    assert(new_lines.take(l) =~= lines.take(l));
    assert(new_lines.skip(l + 1) =~= lines.skip(l + 1));
    let pre = text_before_line(lines, l);
    let post = text_after_line(lines, l);
    assert(text_before_line(new_lines, l) == pre);
    assert(text_after_line(new_lines, l) == post);
    let p = text_position(lines, l, offset);
    let t = join_lines(lines);
    assert(t.take(p) =~= pre + lines[l].take(offset));
    assert(t.skip(p) =~= lines[l].skip(offset) + post);
    assert(join_lines(new_lines) =~= t.take(p) + seq![c] + t.skip(p));
}

/// Splitting line `l` at `offset` inserts a newline into the text.
pub proof fn lemma_split_line(lines: Seq<Seq<char>>, l: int, offset: int)
    requires
        0 <= l < lines.len(),
        0 <= offset <= lines[l].len(),
    ensures
        ({
            let p = text_position(lines, l, offset);
            let t = join_lines(lines);
            let new_lines = lines.update(l, lines[l].take(offset)).insert(
                l + 1,
                lines[l].skip(offset),
            );
            &&& join_lines(new_lines) == t.take(p) + seq!['\n'] + t.skip(p)
            &&& text_position(new_lines, l + 1, 0) == p + 1
        }),
{
    let line = lines[l];
    let new_lines = lines.update(l, line.take(offset)).insert(l + 1, line.skip(offset));
    lemma_join_split(lines, l);
    lemma_join_split(new_lines, l);
    assert(new_lines.take(l) =~= lines.take(l));
    let pre = text_before_line(lines, l);
    let post = text_after_line(lines, l);
    assert(text_before_line(new_lines, l) == pre);
    let rest = lines.skip(l + 1);
    assert(new_lines.skip(l + 1) =~= seq![line.skip(offset)] + rest);
    lemma_join_cons(line.skip(offset), rest);
    if l == lines.len() - 1 {
        assert(rest.len() == 0);
    }
    assert(text_after_line(new_lines, l) =~= seq!['\n'] + line.skip(offset) + post);
    let p = text_position(lines, l, offset);
    let t = join_lines(lines);
    assert(t.take(p) =~= pre + line.take(offset));
    assert(t.skip(p) =~= line.skip(offset) + post);
    assert(join_lines(new_lines) =~= t.take(p) + seq!['\n'] + t.skip(p));
    lemma_line_start_step(new_lines, l);
}


/// Later lines start later.
pub proof fn lemma_line_start_monotonic(lines: Seq<Seq<char>>, a: int, b: int)
    requires
        0 <= a <= b < lines.len(),
    ensures
        line_start(lines, a) + b - a <= line_start(lines, b),
    decreases b - a,
{
    if a < b {
        lemma_line_start_monotonic(lines, a, b - 1);
        lemma_line_start_step(lines, b - 1);
    }
}

/// Two positions in the lines with the same index in the text are the same
/// position.
pub proof fn lemma_position_injective(
    lines: Seq<Seq<char>>,
    l1: int,
    o1: int,
    l2: int,
    o2: int,
)
    requires
        point_in_lines(lines, l1, o1),
        point_in_lines(lines, l2, o2),
        text_position(lines, l1, o1) == text_position(lines, l2, o2),
    ensures
        l1 == l2,
        o1 == o2,
{
    if lines.len() > 0 {
        if l1 < l2 {
            lemma_line_start_step(lines, l1);
            lemma_line_start_monotonic(lines, l1 + 1, l2);
        } else if l2 < l1 {
            lemma_line_start_step(lines, l2);
            lemma_line_start_monotonic(lines, l2 + 1, l1);
        }
    }
}

} // verus!
