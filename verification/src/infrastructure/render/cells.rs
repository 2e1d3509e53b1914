//! How wide text is on the screen, and how it is cut to fit.
use vstd::prelude::*;
use crate::text::{
    chars_of, join_of_split, join_with, split, split_on, split_on_nonempty, string_of, views,
};

verus! {

/// The terminal cells that a character takes.
pub uninterp spec fn char_cells(c: char) -> nat;

/// `ratatui::text::Span::width` of a single character, which is what `unicode-width` gives it: one cell for
/// printable ASCII and for the ellipsis, and never more than three. The Unicode width tables are not spelled out: the width is named.
#[verifier::external_body]
pub(crate) fn cells_of_char(c: char) -> (r: usize)
    ensures
        r == char_cells(c),
        ' ' <= c <= '~' || c == '…' ==> r == 1,
        r <= 3,
{
    ratatui::text::Span::raw(c.to_string()).width()
}

/// The terminal cells that a text takes: those of its characters, as far as the machine counts.
pub open spec fn cells(s: Seq<char>) -> int
    decreases s.len(),
{
    if s.len() == 0 {
        0
    } else {
        let n = cells(s.drop_last()) + char_cells(s.last());
        if n <= usize::MAX {
            n
        } else {
            usize::MAX as int
        }
    }
}

pub proof fn cells_bounds(s: Seq<char>)
    ensures
        0 <= cells(s) <= usize::MAX,
    decreases s.len(),
{
    if s.len() > 0 {
        cells_bounds(s.drop_last());
    }
}

/// A longer text is at least as wide.
pub proof fn cells_grow(s: Seq<char>, n: int)
    requires
        0 <= n <= s.len(),
    ensures
        cells(s.take(n)) <= cells(s),
    decreases s.len(),
{
    cells_bounds(s);
    if n == s.len() {
        assert(s.take(n) =~= s);
    } else {
        cells_grow(s.drop_last(), n);
        assert(s.drop_last().take(n) =~= s.take(n));
        cells_bounds(s.drop_last());
    }
}

/// The terminal cells that a text takes.
pub fn display_width(s: &str) -> (r: usize)
    ensures
        r == cells(s@),
{
    let mut sum: usize = 0;
    assert(s@.take(0) =~= Seq::<char>::empty());
    for c in it: s.chars()
        invariant
            it.seq() == s@,
            sum == cells(s@.take(it.index() as int)),
    {
        let ghost next = s@.take(it.index() as int + 1);
        assert(next.drop_last() =~= s@.take(it.index() as int));
        sum = sum.saturating_add(cells_of_char(c));
    }
    assert(s@.take(s@.len() as int) =~= s@);
    sum
}

/// The longest end of a text that takes at most `width` cells.
pub open spec fn tail_within(s: Seq<char>, width: int) -> Seq<char>
    decreases s.len(),
{
    if s.len() == 0 || cells(s) <= width {
        s
    } else {
        tail_within(s.drop_first(), width)
    }
}

/// The longest beginning of a text that takes at most `width` cells.
pub open spec fn head_within(s: Seq<char>, width: int) -> Seq<char>
    decreases s.len(),
{
    if s.len() == 0 || cells(s) <= width {
        s
    } else {
        head_within(s.drop_last(), width)
    }
}

/// Both ends fit.
pub proof fn ends_fit(s: Seq<char>, width: int)
    requires
        0 <= width,
    ensures
        cells(tail_within(s, width)) <= width,
        cells(head_within(s, width)) <= width,
    decreases s.len(),
{
    if s.len() > 0 && cells(s) > width {
        ends_fit(s.drop_first(), width);
        ends_fit(s.drop_last(), width);
    }
}

/// The longest end of a text that takes at most `width` cells.
pub fn take_tail(s: &str, width: usize) -> (r: String)
    ensures
        r@ == tail_within(s@, width as int),
        cells(r@) <= width,
{
    let chars: Vec<char> = chars_of(s);
    let mut from: usize = 0;
    assert(s@.skip(0) =~= s@);
    proof {
        ends_fit(s@, width as int);
    }
    loop
        invariant
            chars@ == s@,
            from <= s@.len(),
            tail_within(s@, width as int) == tail_within(s@.skip(from as int), width as int),
            cells(tail_within(s@, width as int)) <= width,
        decreases s@.len() - from,
    {
        let tail: String = string_of(&chars, from, chars.len());
        assert(tail@ =~= s@.skip(from as int));
        if from == chars.len() || display_width(tail.as_str()) <= width {
            return tail;
        }
        assert(s@.skip(from as int).drop_first() =~= s@.skip(from + 1));
        from = from + 1;
    }
}

/// The longest beginning of a text that takes at most `width` cells.
pub fn take_head(s: &str, width: usize) -> (r: String)
    ensures
        r@ == head_within(s@, width as int),
        cells(r@) <= width,
{
    let chars: Vec<char> = chars_of(s);
    let mut to: usize = chars.len();
    assert(s@.take(s@.len() as int) =~= s@);
    proof {
        ends_fit(s@, width as int);
    }
    loop
        invariant
            chars@ == s@,
            to <= s@.len(),
            head_within(s@, width as int) == head_within(s@.take(to as int), width as int),
            cells(head_within(s@, width as int)) <= width,
        decreases to,
    {
        let head: String = string_of(&chars, 0, to);
        assert(head@ =~= s@.take(to as int));
        if to == 0 || display_width(head.as_str()) <= width {
            return head;
        }
        assert(s@.take(to as int).drop_last() =~= s@.take(to - 1));
        to = to - 1;
    }
}

/// A text behind or before an ellipsis takes one cell more.
pub proof fn ellipsis_adds_one(s: Seq<char>)
    requires
        char_cells('…') == 1,
        cells(s) + 1 < usize::MAX,
    ensures
        cells("…"@ + s) == cells(s) + 1,
        cells(s + "…"@) == cells(s) + 1,
{
    reveal_strlit("…");
    let dots = "…"@;
    assert(dots =~= seq!['…']);
    assert(dots.drop_last() =~= Seq::<char>::empty());
    assert(cells(dots.drop_last()) == 0);
    assert(cells(dots) == 1);
    cells_add_up(dots, s);
    cells_add_up(s, dots);
}

/// A text cut into pieces of at most `width` cells, from the front: the finished pieces, and the one being
/// filled. A character wider than `width` is a piece of its own.
pub open spec fn cut(s: Seq<char>, width: int) -> (Seq<Seq<char>>, Seq<char>)
    decreases s.len(),
{
    if s.len() == 0 {
        (Seq::empty(), Seq::empty())
    } else {
        let (done, current) = cut(s.drop_last(), width);
        if current.len() > 0 && cells(current) + char_cells(s.last()) > width {
            (done.push(current), seq![s.last()])
        } else {
            (done, current.push(s.last()))
        }
    }
}

/// A text cut into pieces of at most `width` cells.
pub open spec fn chunks(s: Seq<char>, width: int) -> Seq<Seq<char>> {
    let (done, current) = cut(s, width);
    if current.len() > 0 {
        done.push(current)
    } else {
        done
    }
}

/// Cut a text into pieces of at most `width` cells.
pub fn chunk_by_width(s: &str, width: usize) -> (r: Vec<String>)
    ensures
        views(r@) == chunks(s@, width as int),
{
    let chars: Vec<char> = chars_of(s);
    let mut out: Vec<String> = Vec::new();
    let mut from: usize = 0;
    let mut held: usize = 0;
    let mut i: usize = 0;
    proof {
        assert(chars@.take(0) =~= Seq::<char>::empty());
        assert(chars@.subrange(0, 0) =~= Seq::<char>::empty());
        assert(views(out@) =~= Seq::<Seq<char>>::empty());
    }
    while i < chars.len()
        invariant
            from <= i <= chars@.len(),
            chars@ == s@,
            cut(s@.take(i as int), width as int) == (
                views(out@),
                chars@.subrange(from as int, i as int),
            ),
            held == cells(chars@.subrange(from as int, i as int)),
        decreases chars@.len() - i,
    {
        let ghost next = s@.take(i as int + 1);
        let ghost current = chars@.subrange(from as int, i as int);
        assert(next.drop_last() =~= s@.take(i as int));
        let w: usize = cells_of_char(chars[i]);
        let over: bool = held > width || w > width - held;
        if i > from && over {
            let ghost before = out@;
            out.push(string_of(&chars, from, i));
            assert(views(out@) =~= views(before).push(current));
            from = i;
            held = w;
            assert(chars@.subrange(from as int, i as int + 1) =~= seq![chars@[i as int]]);
            assert(cells(seq![chars@[i as int]]) == w) by {
                reveal_with_fuel(cells, 2);
            }
        } else {
            held = held.saturating_add(w);
            assert(chars@.subrange(from as int, i as int + 1) =~= current.push(chars@[i as int]));
            assert(current.push(chars@[i as int]).drop_last() =~= current);
        }
        i = i + 1;
    }
    assert(s@.take(s@.len() as int) =~= s@);
    if from < chars.len() {
        let ghost before = out@;
        out.push(string_of(&chars, from, chars.len()));
        assert(views(out@) =~= views(before).push(chars@.subrange(from as int, i as int)));
    } else {
        assert(chars@.subrange(from as int, i as int).len() == 0);
    }
    out
}

/// A piece fits the width, or is a single character.
pub open spec fn narrow(s: Seq<char>, width: int) -> bool {
    cells(s) <= width || s.len() == 1
}

/// The pieces one behind the other.
pub open spec fn glued(parts: Seq<Seq<char>>) -> Seq<char>
    decreases parts.len(),
{
    if parts.len() == 0 {
        Seq::empty()
    } else {
        glued(parts.drop_last()) + parts.last()
    }
}

/// Cutting loses nothing and keeps the order, and every piece fits or is a single character.
pub proof fn cutting_is_faithful(s: Seq<char>, width: int)
    requires
        width >= 0,
    ensures
        glued(chunks(s, width)) == s,
        forall|i: int|
            0 <= i < chunks(s, width).len() ==> narrow(#[trigger] chunks(s, width)[i], width) && chunks(
                s,
                width,
            )[i].len() > 0,
{
    cut_is_faithful(s, width);
    let (done, current) = cut(s, width);
    assert(done.push(current).drop_last() =~= done);
    if current.len() == 0 {
        assert(glued(done) + current =~= glued(done));
    }
}

proof fn cut_is_faithful(s: Seq<char>, width: int)
    requires
        width >= 0,
    ensures
        glued(cut(s, width).0) + cut(s, width).1 == s,
        forall|i: int|
            0 <= i < cut(s, width).0.len() ==> narrow(#[trigger] cut(s, width).0[i], width) && cut(
                s,
                width,
            ).0[i].len() > 0,
        narrow(cut(s, width).1, width),
        s.len() > 0 ==> cut(s, width).1.len() > 0,
    decreases s.len(),
{
    if s.len() == 0 {
        assert(glued(Seq::<Seq<char>>::empty()) + Seq::<char>::empty() =~= s);
    } else {
        cut_is_faithful(s.drop_last(), width);
        let (done, current) = cut(s.drop_last(), width);
        let c = s.last();
        assert(s =~= s.drop_last().push(c));
        assert(done.push(current).drop_last() =~= done);
        assert(glued(done) + current.push(c) =~= (glued(done) + current).push(c));
        assert((glued(done) + current) + seq![c] =~= (glued(done) + current).push(c));
        assert(current.push(c).drop_last() =~= current);
        if current.len() == 0 {
            assert(current.push(c).len() == 1);
        }
    }
}


/// Rows for a word on a row of its own: the finished ones, and the one that goes on. A word wider than the row is
/// cut.
pub open spec fn placed(word: Seq<char>, width: int) -> (Seq<Seq<char>>, Seq<char>) {
    if cells(word) <= width {
        (Seq::empty(), word)
    } else {
        cut(word, width)
    }
}

/// Rows for a list of words, each row as full as it gets: the finished ones, and the one that goes on.
pub open spec fn filled(words: Seq<Seq<char>>, width: int) -> (Seq<Seq<char>>, Seq<char>)
    decreases words.len(),
{
    if words.len() == 0 {
        (Seq::empty(), Seq::empty())
    } else if words.len() == 1 {
        placed(words[0], width)
    } else {
        let (rows, current) = filled(words.drop_last(), width);
        let word = words.last();
        if cells(current) + 1 + cells(word) <= width {
            (rows, current.push(' ') + word)
        } else {
            let (more, rest) = placed(word, width);
            (rows.push(current) + more, rest)
        }
    }
}

/// The rows of a line of text wrapped at its blanks.
pub open spec fn greedy(line: Seq<char>, width: int) -> Seq<Seq<char>> {
    let (rows, current) = filled(split_on(line, ' '), width);
    rows.push(current)
}

/// The rows of the first lines of a text, wrapped.
pub open spec fn wrapped_lines(lines: Seq<Seq<char>>, width: int) -> Seq<Seq<char>>
    decreases lines.len(),
{
    if lines.len() == 0 {
        Seq::empty()
    } else {
        wrapped_lines(lines.drop_last(), width) + greedy(lines.last(), width)
    }
}

/// A width of at least one cell.
pub open spec fn at_least_one(width: int) -> int {
    if width < 1 {
        1
    } else {
        width
    }
}

/// The rows of a text wrapped to a width: each line on rows of its own, blank lines kept.
pub open spec fn hard_wrapped(text: Seq<char>, width: int) -> Seq<Seq<char>> {
    wrapped_lines(split_on(text, '\n'), at_least_one(width))
}

/// Widths add up, as far as the machine counts.
pub proof fn cells_add_up(a: Seq<char>, b: Seq<char>)
    requires
        cells(a) + cells(b) < usize::MAX,
    ensures
        cells(a + b) == cells(a) + cells(b),
    decreases b.len(),
{
    if b.len() == 0 {
        assert(a + b =~= a);
    } else {
        cells_bounds(b.drop_last());
        cells_bounds(a);
        assert((a + b).drop_last() =~= a + b.drop_last());
        cells_add_up(a, b.drop_last());
    }
}

/// Every wrapped row fits the width, or is a single character.
proof fn filled_rows_fit(words: Seq<Seq<char>>, width: int)
    requires
        0 <= width < usize::MAX,
        char_cells(' ') == 1,
    ensures
        forall|i: int|
            0 <= i < filled(words, width).0.len() ==> narrow(
                #[trigger] filled(words, width).0[i],
                width,
            ),
        narrow(filled(words, width).1, width),
    decreases words.len(),
{
    if words.len() == 0 {
        assert(cells(Seq::<char>::empty()) == 0);
    } else if words.len() == 1 {
        cut_is_faithful(words[0], width);
    } else {
        filled_rows_fit(words.drop_last(), width);
        let (rows, current) = filled(words.drop_last(), width);
        let word = words.last();
        cut_is_faithful(word, width);
        cells_bounds(current);
        cells_bounds(word);
        if cells(current) + 1 + cells(word) <= width {
            assert(current.push(' ').drop_last() =~= current);
            assert(cells(current.push(' ')) == cells(current) + 1);
            cells_add_up(current.push(' '), word);
        } else {
            let (more, rest) = placed(word, width);
            let all = rows.push(current) + more;
            assert forall|i: int| 0 <= i < all.len() implies narrow(#[trigger] all[i], width) by {
                if i < rows.len() {
                    assert(all[i] == rows[i]);
                } else if i == rows.len() {
                    assert(all[i] == current);
                } else {
                    assert(all[i] == more[i - rows.len() - 1]);
                }
            }
        }
    }
}

/// A text without its blanks.
pub open spec fn unspaced(s: Seq<char>) -> Seq<char>
    decreases s.len(),
{
    if s.len() == 0 {
        s
    } else if s.last() == ' ' {
        unspaced(s.drop_last())
    } else {
        unspaced(s.drop_last()).push(s.last())
    }
}

/// Dropping the blanks of two texts and of the two together comes to the same.
pub proof fn unspaced_adds_up(a: Seq<char>, b: Seq<char>)
    ensures
        unspaced(a + b) == unspaced(a) + unspaced(b),
    decreases b.len(),
{
    if b.len() == 0 {
        assert(a + b =~= a);
        assert(unspaced(a) + unspaced(b) =~= unspaced(a));
    } else {
        assert((a + b).drop_last() =~= a + b.drop_last());
        unspaced_adds_up(a, b.drop_last());
        assert(unspaced(a) + unspaced(b.drop_last()).push(b.last()) =~= (unspaced(a) + unspaced(
            b.drop_last(),
        )).push(b.last()));
    }
}

/// Gluing two lists of pieces and gluing all of them comes to the same.
pub proof fn glued_adds_up(a: Seq<Seq<char>>, b: Seq<Seq<char>>)
    ensures
        glued(a + b) == glued(a) + glued(b),
    decreases b.len(),
{
    if b.len() == 0 {
        assert(a + b =~= a);
        assert(glued(a) + glued(b) =~= glued(a));
    } else {
        assert((a + b).drop_last() =~= a + b.drop_last());
        glued_adds_up(a, b.drop_last());
        assert(glued(a) + (glued(b.drop_last()) + b.last()) =~= (glued(a) + glued(b.drop_last()))
            + b.last());
    }
}

proof fn filling_loses_blanks_only(words: Seq<Seq<char>>, width: int)
    requires
        width >= 0,
    ensures
        unspaced(glued(filled(words, width).0) + filled(words, width).1) == unspaced(glued(words)),
    decreases words.len(),
{
    let (rows, current) = filled(words, width);
    if words.len() == 0 {
        assert(glued(rows) + current =~= Seq::<char>::empty());
    } else if words.len() == 1 {
        cut_is_faithful(words[0], width);
        assert(words.drop_last() =~= Seq::<Seq<char>>::empty());
        reveal_with_fuel(glued, 2);
        assert(glued(words) =~= words[0]);
        assert(glued(rows) + current =~= words[0]);
    } else {
        filling_loses_blanks_only(words.drop_last(), width);
        let (before, open) = filled(words.drop_last(), width);
        let word = words.last();
        unspaced_adds_up(glued(words.drop_last()), word);
        if cells(open) + 1 + cells(word) <= width {
            assert(glued(before) + (open.push(' ') + word) =~= (glued(before) + open).push(' ') + word);
            unspaced_adds_up((glued(before) + open).push(' '), word);
            assert((glued(before) + open).push(' ').drop_last() =~= glued(before) + open);
        } else {
            let (more, rest) = placed(word, width);
            cut_is_faithful(word, width);
            assert(glued(more) + rest =~= word);
            glued_adds_up(before.push(open), more);
            assert(before.push(open).drop_last() =~= before);
            assert(glued(rows) + current =~= (glued(before) + open) + (glued(more) + rest));
            unspaced_adds_up(glued(before) + open, word);
        }
    }
}

/// Splitting a text at its blanks drops nothing but them.
pub proof fn splitting_loses_blanks_only(s: Seq<char>)
    ensures
        unspaced(glued(split_on(s, ' '))) == unspaced(s),
    decreases s.len(),
{
    if s.len() == 0 {
        assert(split_on(s, ' ').drop_last() =~= Seq::<Seq<char>>::empty());
        reveal_with_fuel(glued, 2);
        assert(glued(split_on(s, ' ')) =~= s);
    } else {
        splitting_loses_blanks_only(s.drop_last());
        split_on_nonempty(s.drop_last(), ' ');
        let before = split_on(s.drop_last(), ' ');
        if s.last() == ' ' {
            assert(before.push(Seq::<char>::empty()).drop_last() =~= before);
            assert(glued(before) + Seq::<char>::empty() =~= glued(before));
        } else {
            let grown = before.drop_last().push(before.last().push(s.last()));
            assert(grown.drop_last() =~= before.drop_last());
            assert(glued(grown) =~= glued(before).push(s.last()));
            assert(glued(before).push(s.last()).drop_last() =~= glued(before));
        }
    }
}

/// Wrapping a line drops nothing but blanks, and keeps the order of everything else.
pub proof fn wrapping_loses_blanks_only(line: Seq<char>, width: int)
    requires
        width >= 0,
    ensures
        unspaced(glued(greedy(line, width))) == unspaced(line),
{
    let (rows, current) = filled(split_on(line, ' '), width);
    filling_loses_blanks_only(split_on(line, ' '), width);
    splitting_loses_blanks_only(line);
    assert(rows.push(current).drop_last() =~= rows);
}

/// A text that fits on one row stays as it is.
pub proof fn short_lines_stay_whole(line: Seq<char>, width: int)
    requires
        !line.contains(' '),
        cells(line) <= width,
    ensures
        greedy(line, width) == seq![line],
{
    one_word(line);
    assert(greedy(line, width) =~= seq![line]);
}

/// Words that fit on one row together stand on it together, a blank between each two.
proof fn words_that_fit(words: Seq<Seq<char>>, width: int)
    requires
        words.len() > 0,
        cells(" "@) == 1,
        cells(join_with(words, ' ')) <= width < usize::MAX,
    ensures
        filled(words, width) == (Seq::<Seq<char>>::empty(), join_with(words, ' ')),
    decreases words.len(),
{
    if words.len() > 1 {
        let head = join_with(words.drop_last(), ' ');
        let blanked = head.push(' ');
        let whole = blanked + words.last();
        assert(whole.take(blanked.len() as int) =~= blanked);
        assert(whole.take(head.len() as int) =~= head);
        cells_grow(whole, blanked.len() as int);
        cells_grow(whole, head.len() as int);
        assert(blanked.drop_last() =~= head);
        reveal_strlit(" ");
        assert(" "@.drop_last() =~= Seq::<char>::empty());
        assert(char_cells(' ') == 1) by {
            assert(cells(" "@.drop_last()) == 0);
        }
        assert(cells(blanked) == cells(head) + 1);
        words_that_fit(words.drop_last(), width);
        tail_cells(blanked, words.last(), width);
    }
}

/// What is left of a width once the front of a text is taken off is enough for the rest of it.
proof fn tail_cells(a: Seq<char>, b: Seq<char>, width: int)
    requires
        cells(a + b) <= width < usize::MAX,
    ensures
        cells(a) + cells(b) <= width,
        cells(a) + cells(b) == cells(a + b),
    decreases b.len(),
{
    if b.len() == 0 {
        assert(a + b =~= a);
    } else {
        assert((a + b).drop_last() =~= a + b.drop_last());
        cells_grow(a + b, (a + b).len() - 1);
        assert((a + b).take((a + b).len() - 1) =~= (a + b).drop_last());
        tail_cells(a, b.drop_last(), width);
        cells_bounds(a);
        assert((a + b).last() == b.last());
    }
}

/// A line that fits the width stays as it is, blanks and all.
pub proof fn fitting_lines_stay_whole(line: Seq<char>, width: int)
    requires
        cells(" "@) == 1,
        cells(line) <= width < usize::MAX,
    ensures
        greedy(line, width) == seq![line],
{
    join_of_split(line, ' ');
    split_on_nonempty(line, ' ');
    words_that_fit(split_on(line, ' '), width);
    assert(greedy(line, width) =~= seq![line]);
}

/// A text whose lines all fit the width has one row per line, and the row is the line.
pub proof fn fitting_texts_stay_whole(text: Seq<char>, width: int)
    requires
        cells(" "@) == 1,
        1 <= width < usize::MAX,
        forall|i: int| 0 <= i < split_on(text, '\n').len() ==> cells(#[trigger] split_on(text, '\n')[i]) <= width,
    ensures
        hard_wrapped(text, width) == split_on(text, '\n'),
{
    fitting_rows(split_on(text, '\n'), width);
}

proof fn fitting_rows(lines: Seq<Seq<char>>, width: int)
    requires
        cells(" "@) == 1,
        1 <= width < usize::MAX,
        forall|i: int| 0 <= i < lines.len() ==> cells(#[trigger] lines[i]) <= width,
    ensures
        wrapped_lines(lines, width) == lines,
    decreases lines.len(),
{
    if lines.len() > 0 {
        assert forall|i: int| 0 <= i < lines.drop_last().len() implies cells(
            #[trigger] lines.drop_last()[i],
        ) <= width by {
            assert(lines.drop_last()[i] == lines[i]);
        }
        fitting_rows(lines.drop_last(), width);
        fitting_lines_stay_whole(lines.last(), width);
        assert(wrapped_lines(lines, width) =~= lines);
    } else {
        assert(wrapped_lines(lines, width) =~= lines);
    }
}

/// What a text shows: all its characters but blanks and line breaks.
pub open spec fn solid(s: Seq<char>) -> Seq<char> {
    unspaced(glued(split_on(s, '\n')))
}

/// A text without line breaks shows all its characters but the blanks.
pub proof fn solid_of_a_line(s: Seq<char>)
    requires
        !s.contains('\n'),
    ensures
        solid(s) == unspaced(s),
{
    crate::text::split_of_clean(s, '\n');
    reveal_with_fuel(glued, 2);
    assert(glued(seq![s].drop_last()) =~= Seq::<char>::empty());
    assert(glued(seq![s]) =~= s);
}

/// Wrapping a text drops nothing but blanks and line breaks, and keeps the order of everything else.
pub proof fn wrapping_keeps_the_text(text: Seq<char>, width: int)
    ensures
        unspaced(glued(hard_wrapped(text, width))) == solid(text),
{
    wrapping_keeps_the_lines(split_on(text, '\n'), at_least_one(width));
}

proof fn wrapping_keeps_the_lines(lines: Seq<Seq<char>>, width: int)
    requires
        width >= 0,
    ensures
        unspaced(glued(wrapped_lines(lines, width))) == unspaced(glued(lines)),
    decreases lines.len(),
{
    if lines.len() > 0 {
        wrapping_keeps_the_lines(lines.drop_last(), width);
        wrapping_loses_blanks_only(lines.last(), width);
        glued_adds_up(wrapped_lines(lines.drop_last(), width), greedy(lines.last(), width));
        unspaced_adds_up(
            glued(wrapped_lines(lines.drop_last(), width)),
            glued(greedy(lines.last(), width)),
        );
        unspaced_adds_up(glued(lines.drop_last()), lines.last());
    }
}

/// Every row of a wrapped text fits the width, or is a single character.
pub proof fn wrapped_texts_fit(text: Seq<char>, width: int, i: int)
    requires
        cells(" "@) == 1,
        1 <= width < usize::MAX,
        0 <= i < hard_wrapped(text, width).len(),
    ensures
        narrow(hard_wrapped(text, width)[i], width),
{
    reveal_strlit(" ");
    assert(" "@.drop_last() =~= Seq::<char>::empty());
    assert(cells(" "@.drop_last()) == 0);
    wrapped_lines_fit(split_on(text, '\n'), width, i);
}

proof fn wrapped_lines_fit(lines: Seq<Seq<char>>, width: int, i: int)
    requires
        char_cells(' ') == 1,
        1 <= width < usize::MAX,
        0 <= i < wrapped_lines(lines, width).len(),
    ensures
        narrow(wrapped_lines(lines, width)[i], width),
    decreases lines.len(),
{
    let before = wrapped_lines(lines.drop_last(), width);
    if i < before.len() {
        wrapped_lines_fit(lines.drop_last(), width, i);
    } else {
        let words = split_on(lines.last(), ' ');
        filled_rows_fit(words, width);
        let (rows, current) = filled(words, width);
        assert(greedy(lines.last(), width)[i - before.len()] == wrapped_lines(lines, width)[i]);
    }
}

proof fn one_word(line: Seq<char>)
    requires
        !line.contains(' '),
    ensures
        split_on(line, ' ') == seq![line],
    decreases line.len(),
{
    if line.len() > 0 {
        assert forall|i: int| 0 <= i < line.drop_last().len() implies line.drop_last()[i] != ' ' by {
            assert(line[i] != ' ') by {
                if line[i] == ' ' {
                    assert(line.contains(' '));
                }
            }
        }
        one_word(line.drop_last());
        assert(line.last() != ' ') by {
            if line.last() == ' ' {
                assert(line.contains(line[line.len() - 1]));
            }
        }
        assert(seq![line.drop_last()].drop_last() =~= Seq::<Seq<char>>::empty());
        assert(line.drop_last().push(line.last()) =~= line);
        assert(Seq::<Seq<char>>::empty().push(line) =~= seq![line]);
    } else {
        assert(line =~= Seq::<char>::empty());
    }
}

/// Put a word on a row of its own.
fn place(word: &str, width: usize, rows: &mut Vec<String>) -> (rest: String)
    ensures
        views(final(rows)@) == views(old(rows)@) + placed(word@, width as int).0,
        rest@ == placed(word@, width as int).1,
{
    if display_width(word) <= width {
        assert(views(rows@) + Seq::<Seq<char>>::empty() =~= views(rows@));
        return word.to_owned();
    }
    let mut pieces: Vec<String> = chunk_by_width(word, width);
    let ghost all = views(pieces@);
    proof {
        cut_is_faithful(word@, width as int);
        if word@.len() == 0 {
            assert(word@ =~= Seq::<char>::empty());
        }
    }
    let ghost done = cut(word@, width as int).0;
    assert(all == done.push(cut(word@, width as int).1));
    let n: usize = pieces.len() - 1;
    let rest: String = pieces[n].clone();
    assert(rest@ == all[n as int]);
    let ghost full = pieces@;
    pieces.truncate(n);
    let ghost kept = pieces@;
    assert forall|k: int| 0 <= k < n implies #[trigger] views(kept)[k] == done[k] by {
        assert(kept[k] == full[k]);
        assert(views(full)[k] == all[k]);
    }
    assert(views(kept) =~= done);
    let ghost before = rows@;
    rows.append(&mut pieces);
    assert(views(rows@) =~= views(before) + views(kept));
    rest
}

/// Wrap a line of text at its blanks, each row as full as it gets. Words wider than the width are cut, so no row
/// overflows.
pub fn greedy_wrap(line: &str, width: usize) -> (r: Vec<String>)
    requires
        width < usize::MAX,
    ensures
        views(r@) == greedy(line@, width as int),
        r@.len() >= 1,
        forall|i: int| 0 <= i < r@.len() ==> narrow((#[trigger] r@[i])@, width as int),
{
    let words: Vec<String> = split(line, ' ');
    let ghost v = views(words@);
    let mut rows: Vec<String> = Vec::new();
    assert(views(rows@) =~= Seq::<Seq<char>>::empty());
    let mut current: String = place(words[0].as_str(), width, &mut rows);
    proof {
        assert(v.take(1) =~= seq![v[0]]);
        assert(views(rows@) =~= placed(v[0], width as int).0);
    }
    let mut i: usize = 1;
    while i < words.len()
        invariant
            1 <= i <= words@.len(),
            v == views(words@),
            filled(v.take(i as int), width as int) == (views(rows@), current@),
        decreases words@.len() - i,
    {
        let ghost next = v.take(i as int + 1);
        assert(next.drop_last() =~= v.take(i as int));
        assert(next.last() == words@[i as int]@);
        let held: usize = display_width(current.as_str());
        let wide: usize = display_width(words[i].as_str());
        if wide < width && held <= width - 1 - wide {
            current.push(' ');
            let grown: String = crate::text::cat2(current.as_str(), words[i].as_str());
            current = grown;
        } else {
            let ghost before = rows@;
            let ghost open = current@;
            rows.push(current);
            assert(views(rows@) =~= views(before).push(open));
            current = place(words[i].as_str(), width, &mut rows);
        }
        i = i + 1;
    }
    let space: usize = cells_of_char(' ');
    proof {
        assert(v.take(v.len() as int) =~= v);
        filled_rows_fit(v, width as int);
    }
    let ghost before = rows@;
    let ghost open = current@;
    rows.push(current);
    assert(views(rows@) =~= views(before).push(open));
    assert forall|k: int| 0 <= k < rows@.len() implies narrow((#[trigger] rows@[k])@, width as int) by {
        if k < before.len() {
            assert(rows@[k] == before[k]);
            assert(filled(v, width as int).0[k] == views(before)[k]);
        } else {
            assert(rows@[k]@ == filled(v, width as int).1);
        }
    }
    rows
}

/// Wrap by word to the pane width, preserving blank lines. Words longer than the width are cut so they never
/// overflow.
pub fn hard_wrap(text: &str, width: usize) -> (r: Vec<String>)
    requires
        width < usize::MAX,
    ensures
        views(r@) == hard_wrapped(text@, width as int),
        r@.len() >= 1,
        forall|i: int| 0 <= i < r@.len() ==> narrow((#[trigger] r@[i])@, at_least_one(width as int)),
{
    let width: usize = if width < 1 {
        1
    } else {
        width
    };
    let lines: Vec<String> = split(text, '\n');
    let ghost v = views(lines@);
    let mut rows: Vec<String> = Vec::new();
    proof {
        assert(v.take(0) =~= Seq::<Seq<char>>::empty());
        assert(views(rows@) =~= Seq::<Seq<char>>::empty());
    }
    let mut i: usize = 0;
    while i < lines.len()
        invariant
            i <= lines@.len(),
            width < usize::MAX,
            v == views(lines@),
            views(rows@) == wrapped_lines(v.take(i as int), width as int),
            i > 0 ==> rows@.len() >= 1,
            forall|k: int| 0 <= k < rows@.len() ==> narrow((#[trigger] rows@[k])@, width as int),
        decreases lines@.len() - i,
    {
        let ghost next = v.take(i as int + 1);
        assert(next.drop_last() =~= v.take(i as int));
        let mut more: Vec<String> = greedy_wrap(lines[i].as_str(), width);
        let ghost before = rows@;
        let ghost m = more@;
        rows.append(&mut more);
        assert(views(rows@) =~= views(before) + views(m));
        assert forall|k: int| 0 <= k < rows@.len() implies narrow(
            (#[trigger] rows@[k])@,
            width as int,
        ) by {
            if k >= before.len() {
                assert(rows@[k] == m[k - before.len()]);
            } else {
                assert(rows@[k] == before[k]);
            }
        }
        i = i + 1;
    }
    assert(v.take(v.len() as int) =~= v);
    rows
}

} // verus!
