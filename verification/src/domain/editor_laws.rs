//! Where the editor puts what is typed.
use vstd::prelude::*;
use crate::domain::input_buffer::{pasted_lines, EditorView};
use crate::text::{join_of_split, join_with, split_on, split_on_nonempty, without_cr};

verus! {

/// The text before the cursor.
pub open spec fn before_cursor(v: EditorView) -> Seq<char> {
    join_with(v.lines.take(v.row).push(v.lines[v.row].take(v.col)), '\n')
}

/// The text behind the cursor.
pub open spec fn behind_cursor(v: EditorView) -> Seq<char> {
    join_with(seq![v.lines[v.row].skip(v.col)] + v.lines.skip(v.row + 1), '\n')
}

/// Lines that are joined read as the first of them up to a point and the others from there on.
proof fn joined_in_the_middle(above: Seq<Seq<char>>, left: Seq<char>, right: Seq<char>, below: Seq<Seq<char>>)
    ensures
        join_with(above.push(left + right) + below, '\n') == join_with(above.push(left), '\n') + join_with(
            seq![right] + below,
            '\n',
        ),
    decreases below.len(),
{
    let all = above.push(left + right) + below;
    let tail = seq![right] + below;
    if below.len() == 0 {
        assert(all =~= above.push(left + right));
        assert(tail =~= seq![right]);
        if above.len() > 0 {
            assert(above.push(left + right).drop_last() =~= above);
            assert(above.push(left).drop_last() =~= above);
            assert(join_with(above, '\n').push('\n') + (left + right) =~= join_with(above, '\n').push('\n') + left + right);
        } else {
            assert(above.push(left + right)[0] == left + right);
        }
    } else {
        joined_in_the_middle(above, left, right, below.drop_last());
        assert(all.drop_last() =~= above.push(left + right) + below.drop_last());
        assert(tail.drop_last() =~= seq![right] + below.drop_last());
        let a = join_with(above.push(left), '\n');
        let b = join_with(tail.drop_last(), '\n');
        assert((a + b).push('\n') + below.last() =~= a + (b.push('\n') + below.last()));
    }
}

/// Lines joined one list behind the other have a line break between the two.
proof fn joined_behind(above: Seq<Seq<char>>, below: Seq<Seq<char>>)
    requires
        above.len() > 0,
        below.len() > 0,
    ensures
        join_with(above + below, '\n') == join_with(above, '\n').push('\n') + join_with(below, '\n'),
    decreases below.len(),
{
    let all = above + below;
    if below.len() == 1 {
        assert(all.drop_last() =~= above);
    } else {
        joined_behind(above, below.drop_last());
        assert(all.drop_last() =~= above + below.drop_last());
        let a = join_with(above, '\n').push('\n');
        let b = join_with(below.drop_last(), '\n');
        assert((a + b).push('\n') + below.last() =~= a + (b.push('\n') + below.last()));
    }
}

/// The text is what stands before the cursor and what stands behind it.
pub proof fn the_cursor_parts_the_text(v: EditorView)
    requires
        v.wf(),
    ensures
        v.text() == before_cursor(v) + behind_cursor(v),
{
    let line = v.lines[v.row];
    joined_in_the_middle(v.lines.take(v.row), line.take(v.col), line.skip(v.col), v.lines.skip(v.row + 1));
    assert(line.take(v.col) + line.skip(v.col) =~= line);
    assert(v.lines.take(v.row).push(line) + v.lines.skip(v.row + 1) =~= v.lines);
}

/// A typed character goes in where the cursor is, and the cursor stands behind it; what is before and behind stays.
pub proof fn typing_goes_in_at_the_cursor(v: EditorView, c: char)
    requires
        v.wf(),
        v.anchor is None,
    ensures
        v.with_char(c).text() == before_cursor(v).push(c) + behind_cursor(v),
        before_cursor(v.with_char(c)) == before_cursor(v).push(c),
        behind_cursor(v.with_char(c)) == behind_cursor(v),
{
    let n = v.with_char(c);
    let line = v.lines[v.row];
    let above = v.lines.take(v.row);
    let typed = n.lines[v.row];
    assert(n.lines.take(v.row) =~= above);
    assert(n.lines.skip(v.row + 1) =~= v.lines.skip(v.row + 1));
    assert(typed.take(v.col + 1) =~= line.take(v.col).push(c));
    assert(typed.skip(v.col + 1) =~= line.skip(v.col));
    one_more(above, line.take(v.col), c);
    the_cursor_parts_the_text(n);
}

proof fn one_more(above: Seq<Seq<char>>, left: Seq<char>, c: char)
    ensures
        join_with(above.push(left.push(c)), '\n') == join_with(above.push(left), '\n').push(c),
{
    if above.len() > 0 {
        assert(above.push(left.push(c)).drop_last() =~= above);
        assert(above.push(left).drop_last() =~= above);
        let a = join_with(above, '\n').push('\n');
        assert(a + left.push(c) =~= (a + left).push(c));
    }
}

/// A line break goes in where the cursor is, and the cursor stands at the start of the new line.
pub proof fn breaking_goes_in_at_the_cursor(v: EditorView)
    requires
        v.wf(),
        v.anchor is None,
    ensures
        v.with_newline().text() == before_cursor(v).push('\n') + behind_cursor(v),
        v.with_newline().row == v.row + 1,
        v.with_newline().col == 0,
{
    let n = v.with_newline();
    let line = v.lines[v.row];
    let above = v.lines.take(v.row).push(line.take(v.col));
    let below = seq![line.skip(v.col)] + v.lines.skip(v.row + 1);
    assert(line.take(v.col) + Seq::<char>::empty() =~= line.take(v.col));
    assert(Seq::<char>::empty() + line.skip(v.col) =~= line.skip(v.col));
    assert(n.lines =~= above + below);
    joined_behind(above, below);
}

/// A pasted text without carriage returns goes in where the cursor is, whole, and the cursor stands behind it.
pub proof fn pasting_goes_in_at_the_cursor(v: EditorView, s: Seq<char>)
    requires
        v.wf(),
        v.anchor is None,
        !s.contains('\r'),
    ensures
        v.with_text(s).text() == before_cursor(v) + s + behind_cursor(v),
{
    let p = pasted_lines(s);
    let pieces = split_on(s, '\n');
    split_on_nonempty(s, '\n');
    join_of_split(s, '\n');
    assert forall|i: int| 0 <= i < pieces.len() implies p[i] == pieces[i] by {
        pieces_hold_no_more(s, '\n', '\r');
        assert(!pieces[i].contains('\r'));
        if pieces[i].len() > 0 {
            assert(pieces[i].last() != '\r') by {
                if pieces[i].last() == '\r' {
                    assert(pieces[i].contains(pieces[i][pieces[i].len() - 1]));
                }
            }
        }
        assert(without_cr(pieces[i]) == pieces[i]);
    }
    assert(p =~= pieces);
    let n = v.with_text(s);
    let line = v.lines[v.row];
    let above = v.lines.take(v.row);
    let left = line.take(v.col);
    let right = line.skip(v.col);
    let below = v.lines.skip(v.row + 1);
    let a = join_with(above.push(left), '\n');
    let b = join_with(seq![right] + below, '\n');
    if p.len() == 1 {
        assert(n.lines =~= above.push((left + p[0]) + right) + below);
        joined_in_the_middle(above, left + p[0], right, below);
        joined_in_the_middle(above, left, p[0], Seq::empty());
        assert(above.push(left + p[0]) + Seq::<Seq<char>>::empty() =~= above.push(left + p[0]));
        assert(seq![p[0]] + Seq::<Seq<char>>::empty() =~= seq![p[0]]);
    } else {
        let mid = p.subrange(1, p.len() - 1);
        let first = above.push(left + p[0]);
        let last = p.last();
        assert(n.lines =~= (first + mid).push(last + right) + below);
        joined_in_the_middle(first + mid, last, right, below);
        assert((first + mid).push(last) =~= above.push(left + p[0]) + mid.push(last));
        joined_in_the_middle(above, left, p[0], mid.push(last));
        assert(seq![p[0]] + mid.push(last) =~= p);
    }
    assert(n.text() =~= a + s + b);
}

proof fn pieces_hold_no_more(s: Seq<char>, sep: char, c: char)
    requires
        !s.contains(c),
    ensures
        forall|i: int| 0 <= i < split_on(s, sep).len() ==> !(#[trigger] split_on(s, sep)[i]).contains(c),
    decreases s.len(),
{
    if s.len() > 0 {
        assert(!s.drop_last().contains(c)) by {
            if s.drop_last().contains(c) {
                let k = choose|k: int| 0 <= k < s.drop_last().len() && s.drop_last()[k] == c;
                assert(s[k] == c);
            }
        }
        pieces_hold_no_more(s.drop_last(), sep, c);
        split_on_nonempty(s.drop_last(), sep);
        let before = split_on(s.drop_last(), sep);
        assert forall|i: int| 0 <= i < split_on(s, sep).len() implies !(#[trigger] split_on(s, sep)[i]).contains(c) by {
            let x = split_on(s, sep)[i];
            if x.contains(c) {
                let k = choose|k: int| 0 <= k < x.len() && x[k] == c;
                if s.last() != sep && i == before.len() - 1 {
                    if k < before[i].len() {
                        assert(before[i][k] == c);
                        assert(before[i].contains(c));
                    } else {
                        assert(s[s.len() - 1] == c);
                    }
                } else if i < before.len() {
                    assert(x == before[i]);
                }
            }
        }
    }
}

/// What is selected is what stands between its ends: with the text before it and the text behind it, it makes up the whole,
/// and cutting it leaves the other two, with the cursor between them.
pub proof fn a_selection_is_what_stands_between(v: EditorView)
    requires
        v.wf(),
        v.span() is Some,
    ensures
        v.text() == before_cursor(v.cut()) + v.cut().yank + behind_cursor(v.cut()),
        v.cut().text() == before_cursor(v.cut()) + behind_cursor(v.cut()),
        v.copied().yank == v.cut().yank,
        v.copied().text() == v.text(),
{
    let (s, e) = v.span()->0;
    let c = v.cut();
    let above = v.lines.take(s.0);
    let below = v.lines.skip(e.0 + 1);
    let first = v.lines[s.0];
    let last = v.lines[e.0];
    let left = first.take(s.1);
    let right = last.skip(e.1);
    let rest = seq![first.skip(s.1)] + v.lines.skip(s.0 + 1);
    assert(c.lines.take(s.0) =~= above);
    assert(c.lines.skip(s.0 + 1) =~= below);
    assert(c.lines[s.0] == left + right);
    assert((left + right).take(s.1) =~= left);
    assert((left + right).skip(s.1) =~= right);
    joined_in_the_middle(above, left, right, below);
    joined_in_the_middle(above, left, first.skip(s.1), v.lines.skip(s.0 + 1));
    assert(left + first.skip(s.1) =~= first);
    assert(above.push(first) + v.lines.skip(s.0 + 1) =~= v.lines);
    if s.0 == e.0 {
        let mid = first.subrange(s.1, e.1);
        let none = Seq::<Seq<char>>::empty();
        joined_in_the_middle(none, mid, right, below);
        assert(mid + right =~= first.skip(s.1));
        assert(none.push(mid + right) + below =~= rest);
        assert(none.push(mid) =~= seq![mid]);
        assert(join_with(seq![mid], '\n') == mid);
    } else {
        let between = seq![first.skip(s.1)] + v.lines.subrange(s.0 + 1, e.0);
        joined_in_the_middle(between, last.take(e.1), right, below);
        assert(last.take(e.1) + right =~= last);
        assert(between.push(last) + below =~= rest);
        assert(between.push(last.take(e.1)) =~= between + seq![last.take(e.1)]);
    }
    assert(v.text() =~= join_with(above.push(left), '\n') + c.yank + join_with(seq![right] + below, '\n'));
}

} // verus!
