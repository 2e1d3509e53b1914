//! What the markdown layout keeps.
use vstd::prelude::*;
use crate::infrastructure::render::cells::{
    cells, cells_bounds, char_cells, chunks, cutting_is_faithful, glued, narrow, unspaced, unspaced_adds_up,
};
use crate::infrastructure::render::ink::{
    ink_adds_up, ink_of, ink_of_a_row, one_run, row_text_adds_up, row_texts,
};
use crate::infrastructure::render::line::{row_text, styled_row, styled_run, SpanView};
use crate::infrastructure::render::markdown::parse::BlockView;
use crate::infrastructure::render::markdown::render::{
    block_rows, block_tokens, byte_total, code_lines, cut_rows, fed_lines, flat_line, line_tokens,
    one_or_more, padded, padded_rows, page_rows, piece_runs, piece_texts, prefixed, row_cells, spelled,
    stacked_rows, syntax_by_token, text_rows, wrapped_runs, Highlighter, WrapView,
};
use crate::infrastructure::render::theme::Ink;
use crate::style::{Color, TextStyle};
use crate::text::{repeated, strip_tail};

verus! {

/// A row fits the width, or is a single character.
pub open spec fn row_fits(row: Seq<SpanView>, width: int) -> bool {
    row_cells(row) <= width || (row.len() == 1 && row[0].text.len() == 1)
}

proof fn one_run_cells(run: SpanView)
    ensures
        row_cells(seq![run]) == cells(run.text),
{
    cells_bounds(run.text);
    reveal_with_fuel(row_cells, 2);
    assert(seq![run].drop_last() =~= Seq::<SpanView>::empty());
}

/// The finished rows fit, and the current one takes as many cells as it says.
spec fn wrap_ok(w: WrapView, width: int) -> bool {
    &&& 0 <= w.cols <= width
    &&& w.cols == row_cells(w.current)
    &&& forall|i: int| 0 <= i < w.rows.len() ==> row_fits(#[trigger] w.rows[i], width)
}

proof fn word_ok(w: WrapView, run: SpanView, width: int)
    requires
        wrap_ok(w, width),
        width >= 1,
    ensures
        wrap_ok(w.with_word(run, width), width),
{
    let next = w.with_word(run, width);
    if cells(run.text) <= width {
        one_run_cells(run);
        cells_bounds(run.text);
    } else {
        cutting_is_faithful(run.text, width);
        let pieces = chunks(run.text, width);
        let cut = cut_rows(run, width);
        assert forall|i: int| 0 <= i < next.rows.len() implies row_fits(#[trigger] next.rows[i], width) by {
            if i < w.rows.len() {
                assert(next.rows[i] == w.rows[i]);
            } else {
                let k = i - w.rows.len();
                assert(next.rows[i] == cut[k]);
                assert(narrow(pieces[k], width));
                one_run_cells(styled_run(pieces[k], run.style));
                assert(cut[k] =~= seq![styled_run(pieces[k], run.style)]);
            }
        }
        assert(row_cells(Seq::<SpanView>::empty()) == 0);
    }
}

proof fn broken_ok(w: WrapView, width: int)
    requires
        wrap_ok(w, width),
        width >= 1,
    ensures
        wrap_ok(w.broken(), width),
{
    let next = w.broken();
    assert forall|i: int| 0 <= i < next.rows.len() implies row_fits(#[trigger] next.rows[i], width) by {
        if i < w.rows.len() {
            assert(next.rows[i] == w.rows[i]);
        } else {
            assert(next.rows[i] == w.current);
        }
    }
    assert(row_cells(Seq::<SpanView>::empty()) == 0);
}

proof fn step_ok(w: WrapView, run: SpanView, width: int)
    requires
        wrap_ok(w, width),
        1 <= width <= usize::MAX,
        char_cells(' ') == 1,
    ensures
        wrap_ok(w.step(run, width), width),
{
    reveal_strlit(" ");
    assert(" "@ =~= seq![' ']);
    assert(cells(" "@) == 1) by {
        reveal_with_fuel(cells, 2);
        assert(seq![' '].drop_last() =~= Seq::<char>::empty());
    }
    if run.text == " "@ {
        if w.current.len() > 0 {
            if w.cols < width {
                assert(w.current.push(run).drop_last() =~= w.current);
                assert(row_cells(w.current.push(run)) == w.cols + 1);
            } else {
                broken_ok(w, width);
            }
        }
    } else if w.current.len() == 0 {
        word_ok(w, run, width);
    } else if w.cols + 1 + cells(run.text) <= width {
        let blank = styled_run(" "@, TextStyle::plain());
        cells_bounds(run.text);
        assert(w.current.push(blank).drop_last() =~= w.current);
        assert(row_cells(w.current.push(blank)) == w.cols + 1);
        assert(w.current.push(blank).push(run).drop_last() =~= w.current.push(blank));
        assert(row_cells(w.current.push(blank).push(run)) == w.cols + 1 + cells(run.text));
    } else {
        broken_ok(w, width);
        word_ok(w.broken(), run, width);
    }
}

proof fn after_ok(runs: Seq<SpanView>, width: int)
    requires
        1 <= width <= usize::MAX,
        char_cells(' ') == 1,
    ensures
        wrap_ok(WrapView::new().after(runs, width), width),
    decreases runs.len(),
{
    if runs.len() == 0 {
        assert(row_cells(Seq::<SpanView>::empty()) == 0);
    } else {
        after_ok(runs.drop_last(), width);
        step_ok(WrapView::new().after(runs.drop_last(), width), runs.last(), width);
    }
}

/// No wrapped row overflows its width, but for a single character that is wider than the width itself; a blank
/// takes one cell.
pub proof fn wrapped_rows_fit(runs: Seq<SpanView>, width: int)
    requires
        0 <= width <= usize::MAX,
        char_cells(' ') == 1,
    ensures
        forall|i: int|
            0 <= i < wrapped_runs(runs, width).len() ==> row_fits(
                #[trigger] wrapped_runs(runs, width)[i],
                one_or_more(width),
            ),
{
    let w = one_or_more(width);
    after_ok(runs, w);
    let end = WrapView::new().after(runs, w);
    if end.current.len() > 0 {
        broken_ok(end, w);
        assert(end.finished() == end.broken().rows);
    }
}

/// The same texts, whatever their styles.
pub open spec fn same_texts(a: Seq<SpanView>, b: Seq<SpanView>) -> bool {
    a.len() == b.len() && forall|i: int| 0 <= i < a.len() ==> (#[trigger] a[i]).text == b[i].text
}

/// The same rows of texts, whatever their styles.
pub open spec fn same_rows(a: Seq<Seq<SpanView>>, b: Seq<Seq<SpanView>>) -> bool {
    a.len() == b.len() && forall|i: int| 0 <= i < a.len() ==> same_texts(#[trigger] a[i], b[i])
}

spec fn same_wrap(a: WrapView, b: WrapView) -> bool {
    same_rows(a.rows, b.rows) && same_texts(a.current, b.current) && a.cols == b.cols
}

proof fn same_after_word(a: WrapView, b: WrapView, x: SpanView, y: SpanView, width: int)
    requires
        same_wrap(a, b),
        x.text == y.text,
    ensures
        same_wrap(a.with_word(x, width), b.with_word(y, width)),
{
    if cells(x.text) > width {
        let p = a.rows + cut_rows(x, width);
        let q = b.rows + cut_rows(y, width);
        assert forall|i: int| 0 <= i < p.len() implies same_texts(#[trigger] p[i], q[i]) by {
            if i < a.rows.len() {
                assert(p[i] == a.rows[i]);
                assert(q[i] == b.rows[i]);
            } else {
                let k = i - a.rows.len();
                assert(p[i] == cut_rows(x, width)[k]);
                assert(q[i] == cut_rows(y, width)[k]);
            }
        }
    }
}

proof fn same_after_step(a: WrapView, b: WrapView, x: SpanView, y: SpanView, width: int)
    requires
        same_wrap(a, b),
        x.text == y.text,
    ensures
        same_wrap(a.step(x, width), b.step(y, width)),
{
    if x.text == " "@ {
    } else if a.current.len() == 0 {
        same_after_word(a, b, x, y, width);
    } else if a.cols + 1 + cells(x.text) <= width {
        let blank = styled_run(" "@, TextStyle::plain());
        let p = a.current.push(blank).push(x);
        let q = b.current.push(blank).push(y);
        assert forall|i: int| 0 <= i < p.len() implies (#[trigger] p[i]).text == q[i].text by {
            if i < a.current.len() {
                assert(p[i] == a.current[i]);
                assert(q[i] == b.current[i]);
            }
        }
    } else {
        same_after_word(a.broken(), b.broken(), x, y, width);
    }
}

proof fn same_after(a: Seq<SpanView>, b: Seq<SpanView>, width: int)
    requires
        same_texts(a, b),
    ensures
        same_wrap(WrapView::new().after(a, width), WrapView::new().after(b, width)),
    decreases a.len(),
{
    if a.len() > 0 {
        assert forall|i: int| 0 <= i < a.drop_last().len() implies (#[trigger] a.drop_last()[i]).text
            == b.drop_last()[i].text by {
            assert(a.drop_last()[i] == a[i]);
            assert(b.drop_last()[i] == b[i]);
        }
        same_after(a.drop_last(), b.drop_last(), width);
        assert(a[a.len() - 1].text == b[b.len() - 1].text);
        same_after_step(
            WrapView::new().after(a.drop_last(), width),
            WrapView::new().after(b.drop_last(), width),
            a.last(),
            b.last(),
            width,
        );
    }
}

/// Styling is additive: however a text is formatted, it wraps into the same rows of the same words, so scroll
/// offsets counted in rows stay exact.
pub proof fn styling_does_not_move_text(a: Seq<SpanView>, b: Seq<SpanView>, width: int)
    requires
        same_texts(a, b),
    ensures
        same_rows(wrapped_runs(a, width), wrapped_runs(b, width)),
        wrapped_runs(a, width).len() == wrapped_runs(b, width).len(),
{
    same_after(a, b, one_or_more(width));
}

proof fn stripped_glue(texts: Seq<Seq<char>>, line: Seq<char>)
    requires
        glued(texts) == line.push('\n'),
        !line.contains('\n'),
    ensures
        glued(texts.map_values(|t: Seq<char>| strip_tail(t, '\n'))) == line,
    decreases texts.len(),
{
    let f = |t: Seq<char>| strip_tail(t, '\n');
    if texts.len() == 0 {
        assert(line.push('\n').len() > 0);
    } else {
        let last = texts.last();
        let head = glued(texts.drop_last());
        assert(glued(texts) == head + last);
        assert(texts.map_values(f).drop_last() =~= texts.drop_last().map_values(f));
        if last.len() == 0 {
            assert(head =~= line.push('\n'));
            stripped_glue(texts.drop_last(), line);
            assert(f(last) =~= Seq::<char>::empty());
            assert(glued(texts.map_values(f)) =~= line + f(last));
            assert(line + Seq::<char>::empty() =~= line);
        } else {
            assert((head + last).last() == last.last());
            assert(last.last() == '\n');
            assert(head + last.drop_last() =~= (head + last).drop_last());
            assert((head + last).drop_last() =~= line);
            clean_glue(texts.drop_last(), head);
            assert forall|i: int| 0 <= i < last.drop_last().len() implies last.drop_last()[i] != '\n' by {
                assert(line[head.len() + i] == last.drop_last()[i]);
            }
            assert(strip_tail(last, '\n') == strip_tail(last.drop_last(), '\n'));
            if last.drop_last().len() > 0 {
                assert(last.drop_last().last() == last.drop_last()[last.len() - 2]);
            }
            assert(strip_tail(last, '\n') == last.drop_last());
            assert forall|i: int| 0 <= i < head.len() implies head[i] != '\n' by {
                assert(line[i] == head[i]);
            }
        }
    }
}

proof fn clean_glue(texts: Seq<Seq<char>>, all: Seq<char>)
    requires
        glued(texts) == all,
    ensures
        !all.contains('\n') ==> glued(texts.map_values(|t: Seq<char>| strip_tail(t, '\n'))) == all,
    decreases texts.len(),
{
    let f = |t: Seq<char>| strip_tail(t, '\n');
    if !all.contains('\n') {
        if texts.len() == 0 {
            assert(texts.map_values(f) =~= texts);
        } else {
            let last = texts.last();
            let head = glued(texts.drop_last());
            assert forall|i: int| 0 <= i < head.len() implies head[i] != '\n' by {
                assert(all[i] == head[i]);
            }
            clean_glue(texts.drop_last(), head);
            assert(texts.map_values(f).drop_last() =~= texts.drop_last().map_values(f));
            if last.len() > 0 {
                assert(all[all.len() - 1] == last.last());
                assert(last.last() != '\n') by {
                    if last.last() == '\n' {
                        assert(all.contains(all[all.len() - 1]));
                    }
                }
            }
            assert(f(last) == last);
        }
    }
}

proof fn runs_spell_the_pieces(pieces: Seq<(Color, Seq<char>)>)
    ensures
        row_text(piece_runs(pieces)) == glued(
            piece_texts(pieces).map_values(|t: Seq<char>| strip_tail(t, '\n')),
        ),
    decreases pieces.len(),
{
    let f = |t: Seq<char>| strip_tail(t, '\n');
    let runs = piece_runs(pieces);
    let texts = piece_texts(pieces).map_values(f);
    if pieces.len() > 0 {
        runs_spell_the_pieces(pieces.drop_last());
        assert(runs.drop_last() =~= piece_runs(pieces.drop_last()));
        assert(texts.drop_last() =~= piece_texts(pieces.drop_last()).map_values(f));
        assert(runs.last().text == texts.last());
    }
}

/// A flat code line shows exactly its text, behind the indent.
pub proof fn flat_shows_the_text(line: Seq<char>)
    ensures
        row_text(flat_line(line)) == " "@ + line,
{
    reveal_with_fuel(row_text, 2);
    assert(flat_line(line).drop_last() =~= Seq::<SpanView>::empty());
    assert(row_text(flat_line(line)) =~= " "@ + line);
}

/// A highlighted code line shows exactly its text, behind the indent: whatever colours its pieces get, no character
/// is dropped or added. The highlighter is fed the line with a line break, which does not show.
pub proof fn highlighting_keeps_the_text(line: Seq<char>, pieces: Seq<(Color, Seq<char>)>)
    requires
        !line.contains('\n'),
        glued(piece_texts(pieces)) == fed_lines(seq![line])[0],
    ensures
        row_text(piece_runs(pieces)) == " "@ + line,
{
    reveal_strlit(" ");
    reveal_strlit("\n");
    let shown = " "@ + line;
    assert(" "@ + line + "\n"@ =~= shown.push('\n'));
    assert forall|i: int| 0 <= i < shown.len() implies shown[i] != '\n' by {
        if i > 0 {
            assert(line[i - 1] != '\n') by {
                if line[i - 1] == '\n' {
                    assert(line.contains(line[i - 1]));
                }
            }
        }
    }
    stripped_glue(piece_texts(pieces), shown);
    runs_spell_the_pieces(pieces);
}

// ---- what a wrap keeps ----

proof fn cut_ink(run: SpanView, width: int)
    requires
        width >= 0,
    ensures
        ink_of(cut_rows(run, width)) == unspaced(run.text),
{
    cutting_is_faithful(run.text, width);
    let pieces = chunks(run.text, width);
    assert forall|i: int| 0 <= i < pieces.len() implies row_texts(cut_rows(run, width))[i] == pieces[i] by {
        one_run(pieces[i], run.style);
    }
    assert(row_texts(cut_rows(run, width)) =~= pieces);
}

/// All that a wrap holds so far.
spec fn held(w: WrapView) -> Seq<char> {
    ink_of(w.rows) + unspaced(row_text(w.current))
}

proof fn wrap_holds(runs: Seq<SpanView>, width: int)
    requires
        width >= 1,
    ensures
        held(WrapView::new().after(runs, width)) == unspaced(row_text(runs)),
    decreases runs.len(),
{
    let w = WrapView::new().after(runs, width);
    if runs.len() == 0 {
        assert(row_texts(w.rows) =~= Seq::<Seq<char>>::empty());
        assert(held(w) =~= Seq::<char>::empty());
    } else {
        wrap_holds(runs.drop_last(), width);
        let p = WrapView::new().after(runs.drop_last(), width);
        let run = runs.last();
        assert(w == p.step(run, width));
        unspaced_adds_up(row_text(runs.drop_last()), run.text);
        one_run(run.text, run.style);
        reveal_strlit(" ");
        assert(unspaced(" "@) =~= Seq::<char>::empty()) by {
            reveal_with_fuel(unspaced, 2);
            assert(" "@.drop_last() =~= Seq::<char>::empty());
        }
        // The row that a break finishes.
        let b = p.broken();
        assert(b.rows =~= p.rows + seq![p.current]);
        ink_adds_up(p.rows, seq![p.current]);
        ink_of_a_row(p.current);
        assert(held(b) =~= held(p));
        assert(held(p) + Seq::<char>::empty() =~= held(p));
        if run.text == " "@ {
            if p.current.len() > 0 && p.cols < width {
                unspaced_adds_up(row_text(p.current), run.text);
                assert(p.current.push(run).drop_last() =~= p.current);
                assert(held(w) =~= held(p));
            }
        } else if p.current.len() == 0 {
            assert(row_text(p.current) =~= Seq::<char>::empty());
            word_held(p, run, width);
        } else if p.cols + 1 + cells(run.text) <= width {
            let blank = styled_run(" "@, TextStyle::plain());
            let blanked = p.current.push(blank);
            assert(blanked.drop_last() =~= p.current);
            assert(w.current.drop_last() =~= blanked);
            unspaced_adds_up(row_text(p.current), " "@);
            unspaced_adds_up(row_text(blanked), run.text);
            assert(held(w) =~= held(p) + unspaced(run.text));
        } else {
            word_held(b, run, width);
        }
    }
}

proof fn word_held(w: WrapView, run: SpanView, width: int)
    requires
        width >= 1,
        w.current.len() == 0,
    ensures
        held(w.with_word(run, width)) == held(w) + unspaced(run.text),
{
    assert(unspaced(row_text(w.current)) =~= Seq::<char>::empty());
    let t = w.with_word(run, width);
    if cells(run.text) <= width {
        one_run(run.text, run.style);
        assert(t.current =~= styled_row(run.text, run.style));
        assert(held(t) =~= held(w) + unspaced(run.text));
    } else {
        cut_ink(run, width);
        ink_adds_up(w.rows, cut_rows(run, width));
        assert(held(t) =~= held(w) + unspaced(run.text));
    }
}

/// Wrapping styled text drops nothing but blanks, and keeps the order of everything else.
pub proof fn wrapping_keeps_the_words(runs: Seq<SpanView>, width: int)
    ensures
        ink_of(wrapped_runs(runs, width)) == unspaced(row_text(runs)),
{
    let w = one_or_more(width);
    wrap_holds(runs, w);
    let end = WrapView::new().after(runs, w);
    if end.current.len() == 0 {
        assert(row_text(end.current) =~= Seq::<char>::empty());
        assert(held(end) =~= ink_of(end.rows));
    } else {
        assert(end.finished() =~= end.rows + seq![end.current]);
        ink_adds_up(end.rows, seq![end.current]);
        ink_of_a_row(end.current);
    }
}

/// The runs that are no blanks.
pub open spec fn words_of(runs: Seq<SpanView>) -> Seq<SpanView>
    decreases runs.len(),
{
    if runs.len() == 0 {
        runs
    } else if runs.last().text == " "@ {
        words_of(runs.drop_last())
    } else {
        words_of(runs.drop_last()).push(runs.last())
    }
}

/// The runs of all rows, from top to bottom.
pub open spec fn all_runs(rows: Seq<Seq<SpanView>>) -> Seq<SpanView>
    decreases rows.len(),
{
    if rows.len() == 0 {
        Seq::empty()
    } else {
        all_runs(rows.drop_last()) + rows.last()
    }
}

proof fn words_kept(runs: Seq<SpanView>, width: int)
    requires
        width >= 1,
        forall|i: int| 0 <= i < runs.len() ==> cells((#[trigger] runs[i]).text) <= width,
    ensures
        ({
            let w = WrapView::new().after(runs, width);
            words_of(all_runs(w.rows) + w.current) == words_of(runs)
        }),
    decreases runs.len(),
{
    let w = WrapView::new().after(runs, width);
    if runs.len() == 0 {
        assert(all_runs(w.rows) + w.current =~= runs);
    } else {
        assert forall|i: int| 0 <= i < runs.drop_last().len() implies cells((#[trigger] runs.drop_last()[i]).text)
            <= width by {
            assert(runs.drop_last()[i] == runs[i]);
        }
        words_kept(runs.drop_last(), width);
        let p = WrapView::new().after(runs.drop_last(), width);
        let run = runs.last();
        assert(w == p.step(run, width));
        let flat = all_runs(p.rows) + p.current;
        let blank = styled_run(" "@, TextStyle::plain());
        assert(flat.push(run).drop_last() =~= flat);
        assert(flat.push(blank).drop_last() =~= flat);
        assert(flat.push(blank).push(run).drop_last() =~= flat.push(blank));
        assert(words_of(flat.push(blank)) == words_of(flat));
        assert(words_of(runs) == if run.text == " "@ {
            words_of(flat)
        } else {
            words_of(flat).push(run)
        });
        assert(p.broken().rows.drop_last() =~= p.rows);
        assert(all_runs(p.broken().rows) =~= flat);
        assert(cells(runs[runs.len() - 1].text) <= width);
        let now = all_runs(w.rows) + w.current;
        if run.text == " "@ {
            if p.current.len() > 0 {
                if p.cols < width {
                    assert(now =~= flat.push(run));
                } else {
                    assert(now =~= flat);
                }
            }
        } else if p.current.len() == 0 {
            assert(now =~= flat.push(run));
        } else if p.cols + 1 + cells(run.text) <= width {
            assert(now =~= flat.push(blank).push(run));
        } else {
            assert(now =~= flat.push(run));
        }
    }
}

/// Words that fit a row are never cut, and keep their styles: the rows hold them one after the other as they came.
pub proof fn fitting_words_stay_whole(runs: Seq<SpanView>, width: int)
    requires
        forall|i: int| 0 <= i < runs.len() ==> cells((#[trigger] runs[i]).text) <= width,
        width >= 1,
    ensures
        words_of(all_runs(wrapped_runs(runs, width))) == words_of(runs),
{
    words_kept(runs, width);
    let end = WrapView::new().after(runs, width);
    if end.current.len() == 0 {
        assert(all_runs(end.rows) + end.current =~= all_runs(end.rows));
    } else {
        assert(end.finished().drop_last() =~= end.rows);
    }
}

// ---- what the blocks show ----

/// A paragraph shows all of its lines in order, each from a row of its own on; a blank line stays blank.
pub proof fn a_paragraph_shows_its_lines(lines: Seq<Seq<SpanView>>, line: Seq<SpanView>, width: int)
    ensures
        ({
            let above = text_rows(lines, width);
            let rows = text_rows(lines.push(line), width);
            &&& rows.len() >= above.len()
            &&& rows.take(above.len() as int) == above
            &&& ink_of(rows.skip(above.len() as int)) == unspaced(row_text(line))
            &&& line.len() == 0 ==> rows.len() == above.len() + 1 && rows.last().len() == 0
        }),
{
    let above = text_rows(lines, width);
    let rows = text_rows(lines.push(line), width);
    assert(lines.push(line).drop_last() =~= lines);
    assert(rows.take(above.len() as int) =~= above);
    let own = rows.skip(above.len() as int);
    if line.len() == 0 {
        assert(own =~= seq![Seq::<SpanView>::empty()]);
        ink_of_a_row(Seq::<SpanView>::empty());
        assert(row_text(line) =~= row_text(Seq::<SpanView>::empty()));
    } else {
        assert(own =~= wrapped_runs(line, width));
        wrapping_keeps_the_words(line, width);
    }
}

/// Every row of a quote is a row of what is quoted, at two cells less, behind a bar.
pub proof fn a_quote_is_barred(inner: Seq<BlockView>, width: int, h: Highlighter, i: int)
    requires
        2 < width,
        0 <= i < stacked_rows(inner, width - 2, h).len(),
    ensures
        ({
            let rows = block_rows(BlockView::Quote { inner }, width, h);
            let quoted = stacked_rows(inner, width - 2, h);
            &&& rows.len() == quoted.len()
            &&& row_text(rows[i]) == "│ "@ + row_text(quoted[i])
            &&& rows[i].skip(1) == quoted[i]
        }),
{
    let rows = block_rows(BlockView::Quote { inner }, width, h);
    let quoted = stacked_rows(inner, width - 2, h);
    assert(rows[i].skip(1) =~= quoted[i]);
    prefix_shows("│ "@, quoted[i]);
}

proof fn prefix_shows(prefix: Seq<char>, row: Seq<SpanView>)
    ensures
        row_text(prefixed(prefix, row)) == prefix + row_text(row),
{
    let front = styled_row(prefix, TextStyle::plain());
    assert(prefixed(prefix, row) =~= front + row);
    row_text_adds_up(front, row);
    one_run(prefix, TextStyle::plain());
}

/// A list item stands behind its marker: the first of its rows shows the marker and what the item begins with, and the
/// others are set in by as many blanks as the marker is wide.
pub proof fn an_item_stands_behind_its_marker(marker: Seq<char>, inner: Seq<BlockView>, width: int, h: Highlighter, i: int)
    requires
        cells(marker) < width,
        0 <= i < stacked_rows(inner, width - cells(marker), h).len(),
    ensures
        ({
            let rows = block_rows(BlockView::Item { marker, inner }, width, h);
            let held = stacked_rows(inner, width - cells(marker), h);
            &&& rows.len() == held.len()
            &&& i == 0 ==> row_text(rows[i]) == marker + row_text(held[i])
            &&& i > 0 ==> {
                &&& row_text(rows[i]).len() == cells(marker) + row_text(held[i]).len()
                &&& row_text(rows[i]).skip(cells(marker)) == row_text(held[i])
                &&& forall|k: int| 0 <= k < cells(marker) ==> #[trigger] row_text(rows[i])[k] == ' '
            }
            &&& rows[i].skip(1) == held[i]
        }),
{
    let rows = block_rows(BlockView::Item { marker, inner }, width, h);
    let held = stacked_rows(inner, width - cells(marker), h);
    cells_bounds(marker);
    let pad = repeated(' ', cells(marker) as nat);
    assert(rows[i].skip(1) =~= held[i]);
    prefix_shows(marker, held[i]);
    prefix_shows(pad, held[i]);
    if i > 0 {
        assert(row_text(rows[i]).skip(cells(marker)) =~= row_text(held[i]));
    }
}

/// Blocks stand one below the other in their order, a blank row between each two.
pub proof fn blocks_stand_in_order(blocks: Seq<BlockView>, last: BlockView, width: int, h: Highlighter)
    ensures
        stacked_rows(seq![last], width, h) == block_rows(last, width, h),
        blocks.len() > 0 ==> {
            let above = stacked_rows(blocks, width, h);
            let rows = stacked_rows(blocks.push(last), width, h);
            let own = block_rows(last, width, h);
            &&& rows.len() == above.len() + 1 + own.len()
            &&& rows.take(above.len() as int) == above
            &&& rows[above.len() as int].len() == 0
            &&& rows.skip(above.len() as int + 1) == own
        },
        page_rows(blocks.push(last), width, h).len() >= 1,
{
    assert(blocks.push(last).drop_last() =~= blocks);
    if blocks.len() > 0 {
        let above = stacked_rows(blocks, width, h);
        let rows = stacked_rows(blocks.push(last), width, h);
        assert(rows.take(above.len() as int) =~= above);
        assert(rows.skip(above.len() as int + 1) =~= block_rows(last, width, h));
    }
}

/// A rendered text is its blocks one below the other, and takes a row even where there is nothing to show.
pub proof fn a_page_is_its_blocks(blocks: Seq<BlockView>, width: int, h: Highlighter)
    ensures
        stacked_rows(blocks, width, h).len() > 0 ==> page_rows(blocks, width, h) == stacked_rows(blocks, width, h),
        stacked_rows(blocks, width, h).len() == 0 ==> page_rows(blocks, width, h).len() == 1 && page_rows(
            blocks,
            width,
            h,
        )[0].len() == 0,
{
}

/// A code block has one row per line, and the row shows the line behind a blank, filled up with blanks on the code
/// background; so it does whether the block highlights or not, and however its pieces are coloured.
pub proof fn a_code_block_shows_its_lines(
    lines: Seq<Seq<char>>,
    tokens: Option<Seq<Option<Seq<(Color, Seq<char>)>>>>,
    width: int,
    i: int,
)
    requires
        0 <= i < lines.len(),
        !lines[i].contains('\n'),
        tokens matches Some(t) ==> t.len() == lines.len() && spelled(t, fed_lines(lines)),
    ensures
        ({
            let rows = padded_rows(code_lines(lines, tokens), width);
            let shown = " "@ + lines[i];
            &&& rows.len() == lines.len()
            &&& row_text(rows[i]).len() >= shown.len()
            &&& row_text(rows[i]).take(shown.len() as int) == shown
            &&& forall|k: int| shown.len() <= k < row_text(rows[i]).len() ==> #[trigger] row_text(rows[i])[k] == ' '
            &&& forall|k: int| 0 <= k < rows[i].len() ==> (#[trigger] rows[i][k]).style.bg == Some(Ink::CodeBg.rgb())
            &&& tokens is None ==> rows[i][0].style.fg == Some(Ink::CodeFg.rgb())
        }),
{
    let flat = code_lines(lines, tokens)[i];
    let shown = " "@ + lines[i];
    match tokens {
        Some(t) => match t[i] {
            Some(p) => {
                assert(fed_lines(seq![lines[i]])[0] == fed_lines(lines)[i]);
                highlighting_keeps_the_text(lines[i], p);
            },
            None => flat_shows_the_text(lines[i]),
        },
        None => flat_shows_the_text(lines[i]),
    }
    assert(row_text(flat) == shown);
    let row = padded(flat, width);
    if row_cells(flat) < width {
        assert(row.drop_last() =~= flat);
        assert(row_text(row).take(shown.len() as int) =~= shown);
    } else {
        assert(shown.take(shown.len() as int) =~= shown);
    }
}

/// A code block highlights in a language that the definitions know by the name it gives, up to 64 KiB of code; without a
/// language, in an unknown one or above that it does not.
pub proof fn code_highlights_in_known_languages(h: Highlighter, lines: Seq<Seq<char>>, lang: Option<Seq<char>>)
    ensures
        lang is None ==> block_tokens(h, lines, lang) is None,
        byte_total(lines) > 65536 ==> block_tokens(h, lines, lang) is None,
        lang matches Some(l) ==> (syntax_by_token(h.set, l) is None ==> block_tokens(h, lines, lang) is None),
        lang matches Some(l) ==> (byte_total(lines) <= 65536 ==> (syntax_by_token(h.set, l) matches Some(syntax)
            ==> block_tokens(h, lines, lang) == Some(line_tokens(h, syntax, lines)))),
{
}

} // verus!
