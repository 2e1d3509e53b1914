//! What the conversation column shows of what was said and done.
use vstd::prelude::*;
use crate::clock::Duration;
use crate::domain::model::Motion;
use crate::domain::transcript::{ActivityView, ItemView, NoticeLevel, ToolStatus};
use crate::infrastructure::render::cells::{
    cells, fitting_texts_stay_whole, glued, hard_wrapped, solid, solid_of_a_line, unspaced,
    unspaced_adds_up, wrapped_lines, wrapping_keeps_the_text,
};
use crate::infrastructure::render::ink::{in_color, ink_adds_up, ink_of, one_run, row_texts};
use crate::infrastructure::render::line::{row_text, styled_row, SpanView};
use crate::infrastructure::render::markdown::cache::rendered;
use crate::infrastructure::render::markdown::render::Highlighter;
use crate::infrastructure::render::theme::{Ink, COOLING_RAMP};
use crate::infrastructure::render::widgets::transcript_pane::{
    diff_block, diff_lines, diff_rows, duration_text, item_rows, pane_rows, preview_rows, result_rows,
    seconds_text, shown_count, streamed_rows, styled_rows, tool_rows, transcript_rows, wrapped_rows,
    PaneView, PREVIEW_LINES,
};
use crate::style::{Color, TextStyle};
use crate::text::{decimal, split_of_clean, split_on, split_on_nonempty, split_on_pieces_are_clean, strip_tail};

verus! {

/// The lines of a text all fit a width.
pub open spec fn lines_fit(text: Seq<char>, width: int) -> bool {
    forall|i: int| 0 <= i < split_on(text, '\n').len() ==> cells(#[trigger] split_on(text, '\n')[i]) <= width
}

proof fn styled_texts(texts: Seq<Seq<char>>, style: TextStyle)
    ensures
        row_texts(styled_rows(texts, style)) == texts,
{
    assert forall|i: int| 0 <= i < texts.len() implies row_texts(styled_rows(texts, style))[i] == texts[i] by {
        one_run(texts[i], style);
    }
    assert(row_texts(styled_rows(texts, style)) =~= texts);
}

/// Text that is wrapped into the column shows in full: nothing is lost but blanks at the row ends and line breaks, the
/// order stays, and where every line fits, each has a row of its own.
pub proof fn wrapped_text_shows_in_full(text: Seq<char>, width: int, style: TextStyle)
    ensures
        ink_of(wrapped_rows(text, width, style)) == solid(text),
        cells(" "@) == 1 && 1 <= width < usize::MAX && lines_fit(text, width) ==> row_texts(
            wrapped_rows(text, width, style),
        ) == split_on(text, '\n'),
        forall|i: int, k: int|
            #![trigger wrapped_rows(text, width, style)[i][k]]
            0 <= i < wrapped_rows(text, width, style).len() && 0 <= k < wrapped_rows(text, width, style)[i].len()
                ==> wrapped_rows(text, width, style)[i][k].style == style,
{
    styled_texts(hard_wrapped(text, width), style);
    wrapping_keeps_the_text(text, width);
    if cells(" "@) == 1 && 1 <= width < usize::MAX && lines_fit(text, width) {
        fitting_texts_stay_whole(text, width);
    }
}

// ---- the answer as it streams ----

/// The lines of a text from the first up to `n`, glued, are what the streamed rows show.
proof fn streamed_ink(lines: Seq<Seq<char>>, n: int, width: int, motion: Motion, cooled: Seq<Color>)
    requires
        0 <= n <= lines.len(),
        forall|i: int| 0 <= i < lines.len() ==> !(#[trigger] lines[i]).contains('\n'),
    ensures
        ink_of(streamed_rows(lines, n, width, motion, cooled)) == unspaced(glued(lines.take(n))) + if n
            == lines.len() && n > 0 && motion != Motion::Reduced {
            "▌"@
        } else {
            Seq::empty()
        },
    decreases n,
{
    let shown = streamed_rows(lines, n, width, motion, cooled);
    if n == 0 {
        assert(row_texts(shown) =~= Seq::<Seq<char>>::empty());
        assert(lines.take(0) =~= Seq::<Seq<char>>::empty());
        assert(unspaced(glued(lines.take(0))) + Seq::<char>::empty() =~= unspaced(glued(lines.take(0))));
    } else {
        let i = n - 1;
        let line = lines[i];
        let before = streamed_rows(lines, i, width, motion, cooled);
        let own = shown.skip(before.len() as int);
        assert(shown =~= before + own);
        streamed_ink(lines, i, width, motion, cooled);
        ink_adds_up(before, own);
        assert(lines.take(n).drop_last() =~= lines.take(i));
        unspaced_adds_up(glued(lines.take(i)), line);
        wrapping_keeps_the_text(line, width);
        solid_of_a_line(line);
        let texts = hard_wrapped(line, width);
        wrapped_is_some(line, width);
        let caret = n == lines.len() && motion != Motion::Reduced;
        reveal_strlit("▌");
        if caret {
            let last = texts.last();
            assert(own.len() == texts.len());
            assert forall|k: int| 0 <= k < own.len() implies row_texts(own)[k] == if k < texts.len() - 1 {
                texts[k]
            } else {
                last + "▌"@
            } by {
                if k < texts.len() - 1 {
                    assert(own[k].drop_last() =~= Seq::<SpanView>::empty());
                    one_run(texts[k], own[k][0].style);
                    assert(own[k] =~= styled_row(texts[k], own[k][0].style));
                } else {
                    let row = own[k];
                    assert(row.drop_last() =~= styled_row(last, row[0].style));
                    one_run(last, row[0].style);
                }
            }
            assert(row_texts(own) =~= texts.drop_last().push(last + "▌"@));
            assert(texts.drop_last().push(last + "▌"@).drop_last() =~= texts.drop_last());
            assert(glued(row_texts(own)) =~= glued(texts) + "▌"@);
            unspaced_adds_up(glued(texts), "▌"@);
            assert("▌"@.drop_last() =~= Seq::<char>::empty());
            assert(unspaced("▌"@) =~= "▌"@) by {
                reveal_with_fuel(unspaced, 2);
            }
            assert(ink_of(own) == unspaced(line) + "▌"@);
            assert(ink_of(shown) =~= unspaced(glued(lines.take(n))) + "▌"@);
        } else {
            assert(own.len() == texts.len());
            assert forall|k: int| 0 <= k < own.len() implies row_texts(own)[k] == texts[k] by {
                one_run(texts[k], own[k][0].style);
                assert(own[k] =~= styled_row(texts[k], own[k][0].style));
            }
            assert(row_texts(own) =~= texts);
            assert(ink_of(shown) =~= unspaced(glued(lines.take(n))) + Seq::<char>::empty());
        }
    }
}

proof fn wrapped_is_some(text: Seq<char>, width: int)
    ensures
        hard_wrapped(text, width).len() > 0,
{
    split_on_nonempty(text, '\n');
    let lines = split_on(text, '\n');
    assert(wrapped_lines(lines, crate::infrastructure::render::cells::at_least_one(width)).len() > 0);
}

/// A streaming answer shows all of its text while it streams: every line that is complete and the one being written, in
/// order, with nothing dropped but blanks and line breaks, and behind it the caret unless motion is reduced.
pub proof fn streaming_shows_the_whole_answer(
    h: Highlighter,
    text: Seq<char>,
    width: int,
    expanded: bool,
    motion: Motion,
    cooled: Seq<Color>,
)
    ensures
        ({
            let rows = item_rows(h, ItemView::Assistant(text), width, expanded, true, motion, cooled);
            &&& rows.len() > 1
            &&& row_text(rows[0]) == "◆ kiri"@
            &&& ink_of(rows.skip(1)) == solid(text) + if motion == Motion::Reduced {
                Seq::empty()
            } else {
                "▌"@
            }
        }),
{
    let lines = split_on(text, '\n');
    split_on_nonempty(text, '\n');
    split_on_pieces_are_clean(text, '\n');
    let rows = item_rows(h, ItemView::Assistant(text), width, expanded, true, motion, cooled);
    let streamed = streamed_rows(lines, lines.len() as int, width, motion, cooled);
    assert(rows.skip(1) =~= streamed);
    one_run("◆ kiri"@, rows[0][0].style);
    assert(rows[0] =~= styled_row("◆ kiri"@, rows[0][0].style));
    streamed_ink(lines, lines.len() as int, width, motion, cooled);
    assert(lines.take(lines.len() as int) =~= lines);
    wrapped_is_some(lines.last(), width);
}

proof fn streamed_by_line(lines: Seq<Seq<char>>, n: int, width: int, motion: Motion, cooled: Seq<Color>)
    requires
        cells(" "@) == 1,
        1 <= width < usize::MAX,
        0 <= n <= lines.len(),
        forall|i: int|
            0 <= i < lines.len() ==> cells(#[trigger] lines[i]) <= width && !lines[i].contains('\n'),
    ensures
        streamed_rows(lines, n, width, motion, cooled).len() == n,
        forall|i: int|
            0 <= i < n ==> {
                let row = #[trigger] streamed_rows(lines, n, width, motion, cooled)[i];
                let last = i == lines.len() - 1;
                &&& row.len() == if last && motion != Motion::Reduced { 2int } else { 1 }
                &&& row[0].text == lines[i]
                &&& row.len() == 2 ==> row[1].text == "▌"@
                &&& motion == Motion::Reduced ==> row[0].style.fg == Some(Ink::Steel.rgb())
                &&& motion != Motion::Reduced && !last && i < cooled.len() ==> row[0].style.fg == Some(cooled[i])
                &&& motion != Motion::Reduced && last ==> row[0].style.fg == Some(COOLING_RAMP@[0].rgb())
            },
    decreases n,
{
    if n > 0 {
        let i = n - 1;
        streamed_by_line(lines, i, width, motion, cooled);
        split_of_clean(lines[i], '\n');
        assert(lines_fit(lines[i], width));
        fitting_texts_stay_whole(lines[i], width);
        let before = streamed_rows(lines, i, width, motion, cooled);
        let shown = streamed_rows(lines, n, width, motion, cooled);
        assert(shown.len() == n);
        assert forall|k: int| 0 <= k < i implies #[trigger] shown[k] == before[k] by {}
    }
}

/// Where every line of a streaming answer fits, there is one row per line in order, and the row is the line; the caret
/// stands behind the last. Reduced motion keeps every line in steel; otherwise a complete line has the colour that it
/// cooled to, and the one being written is at its warmest.
pub proof fn streaming_shows_line_by_line(
    h: Highlighter,
    text: Seq<char>,
    width: int,
    expanded: bool,
    motion: Motion,
    cooled: Seq<Color>,
    i: int,
)
    requires
        cells(" "@) == 1,
        1 <= width < usize::MAX,
        lines_fit(text, width),
        0 <= i < split_on(text, '\n').len(),
    ensures
        ({
            let lines = split_on(text, '\n');
            let rows = item_rows(h, ItemView::Assistant(text), width, expanded, true, motion, cooled);
            let last = i == lines.len() - 1;
            &&& rows.len() == lines.len() + 1
            &&& row_text(rows[i + 1]) == lines[i] + if last && motion != Motion::Reduced {
                "▌"@
            } else {
                Seq::empty()
            }
            &&& motion == Motion::Reduced ==> rows[i + 1][0].style.fg == Some(Ink::Steel.rgb())
            &&& motion != Motion::Reduced && !last && i < cooled.len() ==> rows[i + 1][0].style.fg == Some(cooled[i])
            &&& motion != Motion::Reduced && last ==> rows[i + 1][0].style.fg == Some(COOLING_RAMP@[0].rgb())
        }),
{
    let lines = split_on(text, '\n');
    split_on_pieces_are_clean(text, '\n');
    streamed_by_line(lines, lines.len() as int, width, motion, cooled);
    let rows = item_rows(h, ItemView::Assistant(text), width, expanded, true, motion, cooled);
    let row = streamed_rows(lines, lines.len() as int, width, motion, cooled)[i];
    assert(rows[i + 1] == row);
    reveal_with_fuel(row_text, 3);
    if row.len() == 1 {
        assert(row.drop_last() =~= Seq::<SpanView>::empty());
        assert(row_text(row) =~= lines[i] + Seq::<char>::empty());
    } else {
        assert(row.drop_last().drop_last() =~= Seq::<SpanView>::empty());
        assert(row.drop_last().last() == row[0]);
        assert(row_text(row) =~= lines[i] + "▌"@);
    }
}

/// A further line of a streaming answer leaves the text of the rows above it as it was.
pub proof fn streaming_grows_downwards(lines: Seq<Seq<char>>, more: Seq<char>, width: int, cooled: Seq<Color>)
    ensures
        ({
            let before = streamed_rows(lines, lines.len() as int, width, Motion::Reduced, cooled);
            let grown = lines.push(more);
            let after = streamed_rows(grown, grown.len() as int, width, Motion::Reduced, cooled);
            &&& before.len() <= after.len()
            &&& after.take(before.len() as int) == before
        }),
{
    let grown = lines.push(more);
    streamed_prefix(lines, more, lines.len() as int, width, cooled);
    let before = streamed_rows(lines, lines.len() as int, width, Motion::Reduced, cooled);
    let after = streamed_rows(grown, grown.len() as int, width, Motion::Reduced, cooled);
    assert(after.take(before.len() as int) =~= before);
}

proof fn streamed_prefix(lines: Seq<Seq<char>>, more: Seq<char>, n: int, width: int, cooled: Seq<Color>)
    requires
        0 <= n <= lines.len(),
    ensures
        streamed_rows(lines, n, width, Motion::Reduced, cooled) == streamed_rows(
            lines.push(more),
            n,
            width,
            Motion::Reduced,
            cooled,
        ),
    decreases n,
{
    if n > 0 {
        streamed_prefix(lines, more, n - 1, width, cooled);
    }
}

// ---- tool calls ----

proof fn diff_lines_by_line(lines: Seq<Seq<char>>, n: int, sign: Seq<char>, width: int, style: TextStyle)
    requires
        cells(" "@) == 1,
        1 <= width < usize::MAX,
        0 <= n <= lines.len(),
        forall|i: int|
            0 <= i < lines.len() ==> cells(sign + #[trigger] lines[i]) <= width && !(sign + lines[i]).contains('\n'),
    ensures
        diff_lines(lines, n, sign, width, style).len() == n,
        forall|i: int|
            0 <= i < n ==> #[trigger] diff_lines(lines, n, sign, width, style)[i] == styled_row(sign + lines[i], style),
    decreases n,
{
    if n > 0 {
        diff_lines_by_line(lines, n - 1, sign, width, style);
        let text = sign + lines[n - 1];
        split_of_clean(text, '\n');
        assert(lines_fit(text, width));
        fitting_texts_stay_whole(text, width);
    }
}

proof fn signed_is_clean(sign: Seq<char>, text: Seq<char>)
    requires
        !sign.contains('\n'),
    ensures
        forall|i: int| 0 <= i < split_on(text, '\n').len() ==> !(sign + #[trigger] split_on(text, '\n')[i]).contains('\n'),
{
    split_on_pieces_are_clean(text, '\n');
    let lines = split_on(text, '\n');
    assert forall|i: int| 0 <= i < lines.len() implies !(sign + #[trigger] lines[i]).contains('\n') by {
        let s = sign + lines[i];
        if s.contains('\n') {
            let k = choose|k: int| 0 <= k < s.len() && s[k] == '\n';
            if k < sign.len() {
                assert(sign[k] == '\n');
            } else {
                assert(lines[i][k - sign.len()] == '\n');
                assert(lines[i].contains('\n'));
            }
        }
    }
}

/// A side of an edit fits: each of its lines behind a sign of four cells, and all of them on display.
pub open spec fn side_fits(text: Seq<char>, sign: Seq<char>, width: int, expanded: bool) -> bool {
    let lines = split_on(text, '\n');
    &&& expanded || lines.len() <= 6
    &&& forall|i: int| 0 <= i < lines.len() ==> cells(sign + #[trigger] lines[i]) <= width
}

/// An edit shows what it took out and what it put in. Right below the command stands each line of the old text behind a
/// minus, in the error colour, and below that each line of the new text behind a plus, in the success colour.
pub proof fn an_edit_shows_both_its_texts(a: ActivityView, width: int, expanded: bool)
    requires
        cells(" "@) == 1,
        1 <= width < usize::MAX,
        a.diff is Some,
        side_fits((a.diff->0).0, "  - "@, width, expanded),
        side_fits((a.diff->0).1, "  + "@, width, expanded),
    ensures
        ({
            let taken = split_on((a.diff->0).0, '\n');
            let put = split_on((a.diff->0).1, '\n');
            let rows = tool_rows(a, width, expanded);
            &&& rows.len() > 1 + taken.len() + put.len()
            &&& forall|i: int|
                #![trigger taken[i]]
                0 <= i < taken.len() ==> row_text(rows[1 + i]) == "  - "@ + taken[i] && in_color(
                    rows[1 + i],
                    Ink::Error.rgb(),
                )
            &&& forall|i: int|
                #![trigger put[i]]
                0 <= i < put.len() ==> row_text(rows[1 + taken.len() + i]) == "  + "@ + put[i] && in_color(
                    rows[1 + taken.len() + i],
                    Ink::Success.rgb(),
                )
        }),
{
    let taken = split_on((a.diff->0).0, '\n');
    let put = split_on((a.diff->0).1, '\n');
    let rows = tool_rows(a, width, expanded);
    let red = crate::infrastructure::render::theme::inked(Ink::Error);
    let green = crate::infrastructure::render::theme::inked(Ink::Success);
    reveal_strlit("  - ");
    reveal_strlit("  + ");
    assert(!"  - "@.contains('\n'));
    assert(!"  + "@.contains('\n'));
    signed_is_clean("  - "@, (a.diff->0).0);
    signed_is_clean("  + "@, (a.diff->0).1);
    diff_lines_by_line(taken, taken.len() as int, "  - "@, width, red);
    diff_lines_by_line(put, put.len() as int, "  + "@, width, green);
    let minus = diff_lines(taken, taken.len() as int, "  - "@, width, red);
    let plus = diff_lines(put, put.len() as int, "  + "@, width, green);
    let diff = diff_rows(a.diff->0, width, expanded);
    assert(diff =~= minus + plus);
    assert forall|i: int|
        #![trigger taken[i]]
        0 <= i < taken.len() implies row_text(rows[1 + i]) == "  - "@ + taken[i] && in_color(
        rows[1 + i],
        Ink::Error.rgb(),
    ) by {
        assert(rows[1 + i] == minus[i]);
        one_run("  - "@ + taken[i], red);
    }
    assert forall|i: int|
        #![trigger put[i]]
        0 <= i < put.len() implies row_text(rows[1 + taken.len() + i]) == "  + "@ + put[i] && in_color(
        rows[1 + taken.len() + i],
        Ink::Success.rgb(),
    ) by {
        assert(rows[1 + taken.len() + i] == plus[i]);
        one_run("  + "@ + put[i], green);
    }
}

/// The lines of a list, each behind a sign, one behind the other.
pub open spec fn signed(lines: Seq<Seq<char>>, sign: Seq<char>) -> Seq<char>
    decreases lines.len(),
{
    if lines.len() == 0 {
        Seq::empty()
    } else {
        signed(lines.drop_last(), sign) + sign + lines.last()
    }
}

proof fn diff_ink(lines: Seq<Seq<char>>, n: int, sign: Seq<char>, width: int, style: TextStyle)
    requires
        0 <= n <= lines.len(),
        forall|i: int| 0 <= i < lines.len() ==> !(sign + #[trigger] lines[i]).contains('\n'),
    ensures
        ink_of(diff_lines(lines, n, sign, width, style)) == unspaced(signed(lines.take(n), sign)),
        forall|i: int, k: int|
            #![trigger diff_lines(lines, n, sign, width, style)[i][k]]
            0 <= i < diff_lines(lines, n, sign, width, style).len() && 0 <= k < diff_lines(
                lines,
                n,
                sign,
                width,
                style,
            )[i].len() ==> diff_lines(lines, n, sign, width, style)[i][k].style == style,
    decreases n,
{
    let shown = diff_lines(lines, n, sign, width, style);
    if n == 0 {
        assert(row_texts(shown) =~= Seq::<Seq<char>>::empty());
        assert(lines.take(0) =~= Seq::<Seq<char>>::empty());
    } else {
        let before = diff_lines(lines, n - 1, sign, width, style);
        let text = sign + lines[n - 1];
        let own = wrapped_rows(text, width, style);
        diff_ink(lines, n - 1, sign, width, style);
        assert(shown == before + own);
        ink_adds_up(before, own);
        wrapped_text_shows_in_full(text, width, style);
        solid_of_a_line(text);
        assert(lines.take(n).drop_last() =~= lines.take(n - 1));
        let left = signed(lines.take(n - 1), sign);
        unspaced_adds_up(left, text);
        assert(signed(lines.take(n), sign) =~= left + text);
        assert forall|i: int, k: int|
            #![trigger shown[i][k]]
            0 <= i < shown.len() && 0 <= k < shown[i].len() implies shown[i][k].style == style by {
            if i < before.len() {
                assert(shown[i][k] == before[i][k]);
            } else {
                assert(shown[i][k] == own[i - before.len()][k]);
            }
        }
    }
}

/// An expanded edit shows all of both its texts at every width, the old one first: each line behind its sign, nothing
/// dropped but blanks and line breaks.
pub proof fn an_expanded_edit_loses_nothing(diff: (Seq<char>, Seq<char>), width: int)
    ensures
        ink_of(diff_rows(diff, width, true)) == unspaced(
            signed(split_on(diff.0, '\n'), "  - "@) + signed(split_on(diff.1, '\n'), "  + "@),
        ),
{
    reveal_strlit("  - ");
    reveal_strlit("  + ");
    assert(!"  - "@.contains('\n'));
    assert(!"  + "@.contains('\n'));
    signed_is_clean("  - "@, diff.0);
    signed_is_clean("  + "@, diff.1);
    let taken = split_on(diff.0, '\n');
    let put = split_on(diff.1, '\n');
    let red = crate::infrastructure::render::theme::inked(Ink::Error);
    let green = crate::infrastructure::render::theme::inked(Ink::Success);
    diff_ink(taken, taken.len() as int, "  - "@, width, red);
    diff_ink(put, put.len() as int, "  + "@, width, green);
    assert(taken.take(taken.len() as int) =~= taken);
    assert(put.take(put.len() as int) =~= put);
    let minus = diff_lines(taken, taken.len() as int, "  - "@, width, red);
    let plus = diff_lines(put, put.len() as int, "  + "@, width, green);
    assert(diff_rows(diff, width, true) =~= minus + plus);
    ink_adds_up(minus, plus);
    unspaced_adds_up(signed(taken, "  - "@), signed(put, "  + "@));
}

/// A side of an edit that is longer than the bound shows as many of its first lines as the bound allows, and says how many
/// it holds back.
pub proof fn a_long_side_says_what_it_hides(text: Seq<char>, sign: Seq<char>, color: Ink, width: int)
    requires
        cells(" "@) == 1,
        1 <= width < usize::MAX,
        !sign.contains('\n'),
        split_on(text, '\n').len() > 6,
        forall|i: int| 0 <= i < split_on(text, '\n').len() ==> cells(sign + #[trigger] split_on(text, '\n')[i]) <= width,
    ensures
        ({
            let lines = split_on(text, '\n');
            let rows = diff_block(text, sign, color, width, false);
            &&& rows.len() == 7
            &&& forall|i: int| 0 <= i < 6 ==> row_text(#[trigger] rows[i]) == sign + lines[i]
            &&& row_text(rows[6]) == "  … (+"@ + decimal(lines.len() - 6) + ")"@
        }),
{
    let lines = split_on(text, '\n');
    let style = crate::infrastructure::render::theme::inked(color);
    signed_is_clean(sign, text);
    diff_lines_by_line(lines, 6, sign, width, style);
    let rows = diff_block(text, sign, color, width, false);
    assert forall|i: int| 0 <= i < 6 implies row_text(#[trigger] rows[i]) == sign + lines[i] by {
        one_run(sign + lines[i], style);
        assert(rows[i] == diff_lines(lines, 6, sign, width, style)[i]);
    }
    let label = "  … (+"@ + decimal(lines.len() - 6) + ")"@;
    one_run(label, rows[6][0].style);
    assert(rows[6] =~= styled_row(label, rows[6][0].style));
}

/// Every tool call shows its command first, and a call without a result shows that it is still running.
pub proof fn a_tool_call_leads_with_its_command(a: ActivityView, width: int, expanded: bool)
    ensures
        ({
            let rows = tool_rows(a, width, expanded);
            &&& rows.len() >= 2
            &&& row_text(rows[0]) == "⏺ "@ + a.command
            &&& a.result is None ==> row_text(rows.last()) == "  ⎿ ● …"@
        }),
{
    let rows = tool_rows(a, width, expanded);
    reveal_with_fuel(row_text, 4);
    let head = rows[0];
    assert(head.drop_last().drop_last() =~= Seq::<SpanView>::empty());
    assert(head.drop_last().last() == head[0]);
    assert(row_text(head) =~= "⏺ "@ + a.command);
    reveal_strlit("  ⎿ ");
    reveal_strlit("● ");
    reveal_strlit("…");
    reveal_strlit("  ⎿ ● …");
    if a.result is None {
        let row = rows.last();
        assert(row.drop_last().drop_last().drop_last() =~= Seq::<SpanView>::empty());
        assert(row.drop_last().drop_last().last() == row[0]);
        assert(row.drop_last().last() == row[1]);
        assert(row_text(row) =~= "  ⎿ ● …"@);
    }
}

/// The text of the row that opens a result: the marker, the first line, and the time it took.
proof fn result_head(status: ToolStatus, output: Seq<char>, elapsed: Duration, has_diff: bool, width: int, expanded: bool)
    ensures
        ({
            let rows = result_rows(status, output, elapsed, has_diff, width, expanded);
            let lines = crate::infrastructure::render::widgets::transcript_pane::output_lines(status, output);
            &&& rows.len() >= 1
            &&& row_text(rows[0]) == "  ⎿ ● "@ + lines[0] + " · "@ + duration_text(elapsed)
            &&& rows[0].len() == 3
        }),
{
    let rows = result_rows(status, output, elapsed, has_diff, width, expanded);
    let lines = crate::infrastructure::render::widgets::transcript_pane::output_lines(status, output);
    reveal_with_fuel(row_text, 4);
    reveal_strlit("  ⎿ ");
    reveal_strlit("● ");
    reveal_strlit("  ⎿ ● ");
    let row = rows[0];
    assert(row.drop_last().drop_last().drop_last() =~= Seq::<SpanView>::empty());
    assert(row.drop_last().drop_last().last() == row[0]);
    assert(row.drop_last().last() == row[1]);
    assert(row_text(row) =~= "  ⎿ ● "@ + lines[0] + " · "@ + duration_text(elapsed));
}

/// A result opens with the first line of what the tool printed and the time that it took. A declined call says so
/// whatever it printed, and a call that printed nothing says that. The marker is green, red or dim by how it went, and
/// an error is told in red.
pub proof fn a_result_opens_with_its_first_line(
    status: ToolStatus,
    output: Seq<char>,
    elapsed: Duration,
    has_diff: bool,
    width: int,
    expanded: bool,
)
    ensures
        ({
            let row = result_rows(status, output, elapsed, has_diff, width, expanded)[0];
            let printed = strip_tail(output, '\n');
            let first = if status == ToolStatus::Declined {
                "recusado pelo usuário"@
            } else if printed.len() == 0 {
                "(vazio)"@
            } else {
                split_on(printed, '\n')[0]
            };
            &&& row_text(row) == "  ⎿ ● "@ + first + " · "@ + duration_text(elapsed)
            &&& status == ToolStatus::Success ==> row[1].style.fg == Some(Ink::Success.rgb())
            &&& status == ToolStatus::Error ==> row[1].style.fg == Some(Ink::Error.rgb()) && row[2].style.fg == Some(
                Ink::Error.rgb(),
            )
            &&& status != ToolStatus::Error ==> row[2].style.fg == Some(Ink::Brand.rgb())
        }),
{
    result_head(status, output, elapsed, has_diff, width, expanded);
    reveal_strlit("recusado pelo usuário");
    let said = "recusado pelo usuário"@;
    assert(!said.contains('\n'));
    split_of_clean(said, '\n');
}

/// Short calls are timed in milliseconds, others in seconds.
pub proof fn a_short_call_counts_milliseconds(d: Duration)
    ensures
        d.nanos < 1_000_000_000 ==> duration_text(d) == decimal(d.nanos as int / 1_000_000) + "ms"@,
        d.nanos >= 1_000_000_000 ==> duration_text(d) == seconds_text(d.nanos) + "s"@,
{
}

proof fn previews_by_line(lines: Seq<Seq<char>>, n: int, width: int, style: TextStyle)
    requires
        cells(" "@) == 1,
        6 <= width < usize::MAX,
        0 <= n < lines.len(),
        forall|i: int|
            0 <= i < lines.len() ==> cells(#[trigger] lines[i]) <= width - 5 && !lines[i].contains('\n'),
    ensures
        preview_rows(lines, n, width, style).len() == n,
        forall|i: int|
            0 <= i < n ==> #[trigger] preview_rows(lines, n, width, style)[i] == styled_row(
                "     "@ + lines[i + 1],
                style,
            ),
    decreases n,
{
    if n > 0 {
        previews_by_line(lines, n - 1, width, style);
        split_of_clean(lines[n], '\n');
        assert(lines_fit(lines[n], width - 5));
        fitting_texts_stay_whole(lines[n], width - 5);
    }
}

/// What a tool printed is shown in full where it is expanded or short: below the first line stands each of the others,
/// indented. Otherwise as many as the preview allows are shown, and the last row says how many are not and how to see
/// them. An edit that shows its texts does not show its output again.
pub proof fn an_output_is_previewed_and_expands(
    status: ToolStatus,
    output: Seq<char>,
    elapsed: Duration,
    has_diff: bool,
    width: int,
    expanded: bool,
)
    requires
        cells(" "@) == 1,
        6 <= width < usize::MAX,
        status != ToolStatus::Declined,
        strip_tail(output, '\n').len() > 0,
        lines_fit(strip_tail(output, '\n'), width - 5),
    ensures
        ({
            let lines = split_on(strip_tail(output, '\n'), '\n');
            let rows = result_rows(status, output, elapsed, has_diff, width, expanded);
            let whole = expanded || lines.len() <= 7;
            &&& has_diff ==> rows.len() == 1
            &&& !has_diff && whole ==> rows.len() == lines.len()
            &&& !has_diff && !whole ==> rows.len() == 8 && row_text(rows[7]) == "     … (+"@ + decimal(
                lines.len() - 7,
            ) + ") · ^O para expandir"@
            &&& !has_diff ==> forall|i: int|
                #![trigger lines[i]]
                1 <= i < lines.len() && (whole || i <= 6) ==> row_text(rows[i]) == "     "@ + lines[i] && in_color(
                    rows[i],
                    if status == ToolStatus::Error {
                        Ink::Error.rgb()
                    } else {
                        Ink::Brand.rgb()
                    },
                )
        }),
{
    let lines = split_on(strip_tail(output, '\n'), '\n');
    let rows = result_rows(status, output, elapsed, has_diff, width, expanded);
    let style = crate::infrastructure::render::widgets::transcript_pane::output_style(status);
    split_on_nonempty(strip_tail(output, '\n'), '\n');
    split_on_pieces_are_clean(strip_tail(output, '\n'), '\n');
    if !has_diff && lines.len() > 1 {
        let shown = shown_count(lines.len() - 1, PREVIEW_LINES as int, expanded);
        previews_by_line(lines, shown, width, style);
        let previews = preview_rows(lines, shown, width, style);
        assert forall|i: int|
            #![trigger lines[i]]
            1 <= i <= shown implies row_text(rows[i]) == "     "@ + lines[i] && in_color(
            rows[i],
            if status == ToolStatus::Error {
                Ink::Error.rgb()
            } else {
                Ink::Brand.rgb()
            },
        ) by {
            assert(rows[i] == previews[i - 1]);
            one_run("     "@ + lines[i], style);
        }
        if !expanded && lines.len() > 7 {
            let label = "     … (+"@ + decimal(lines.len() - 7) + ") · ^O para expandir"@;
            one_run(label, rows[7][0].style);
            assert(rows[7] =~= styled_row(label, rows[7][0].style));
        }
    }
}

// ---- the other items ----

/// What the user said shows in full behind their name, in the accent; a notice shows in full in the colour of its level;
/// thoughts show in full while they stream, in italics under their label.
pub proof fn what_is_said_shows_in_full(
    h: Highlighter,
    text: Seq<char>,
    width: int,
    expanded: bool,
    active: bool,
    motion: Motion,
    cooled: Seq<Color>,
)
    ensures
        ink_of(item_rows(h, ItemView::User(text), width, expanded, active, motion, cooled)) == solid("você › "@ + text),
        forall|i: int|
            0 <= i < item_rows(h, ItemView::User(text), width, expanded, active, motion, cooled).len() ==> in_color(
                #[trigger] item_rows(h, ItemView::User(text), width, expanded, active, motion, cooled)[i],
                Ink::Highlight.rgb(),
            ),
        forall|level: NoticeLevel|
            ink_of(#[trigger] item_rows(h, ItemView::Notice(level, text), width, expanded, active, motion, cooled))
                == solid(text),
        forall|level: NoticeLevel, i: int|
            #![trigger item_rows(h, ItemView::Notice(level, text), width, expanded, active, motion, cooled)[i]]
            0 <= i < item_rows(h, ItemView::Notice(level, text), width, expanded, active, motion, cooled).len()
                ==> in_color(
                item_rows(h, ItemView::Notice(level, text), width, expanded, active, motion, cooled)[i],
                if level == NoticeLevel::Error {
                    Ink::Error.rgb()
                } else {
                    Ink::Warning.rgb()
                },
            ),
        ({
            let rows = item_rows(h, ItemView::Reasoning(text), width, expanded, true, motion, cooled);
            &&& rows.len() >= 1
            &&& row_text(rows[0]) == "⋮ pensando"@
            &&& ink_of(rows.skip(1)) == solid(text)
            &&& forall|i: int, k: int|
                #![trigger rows[i][k]]
                0 <= i < rows.len() && 0 <= k < rows[i].len() ==> rows[i][k].style.italic
        }),
{
    let bright = crate::infrastructure::render::theme::inked(Ink::Highlight);
    wrapped_text_shows_in_full("você › "@ + text, width, bright);
    let said = item_rows(h, ItemView::User(text), width, expanded, active, motion, cooled);
    assert forall|i: int| 0 <= i < said.len() implies in_color(#[trigger] said[i], Ink::Highlight.rgb()) by {
        assert forall|k: int| 0 <= k < said[i].len() implies (#[trigger] said[i][k]).style.fg == Some(
            Ink::Highlight.rgb(),
        ) by {
            assert(said[i][k] == wrapped_rows("você › "@ + text, width, bright)[i][k]);
        }
    }
    assert forall|level: NoticeLevel|
        ink_of(#[trigger] item_rows(h, ItemView::Notice(level, text), width, expanded, active, motion, cooled))
            == solid(text) by {
        let style = crate::infrastructure::render::theme::inked(
            if level == NoticeLevel::Error {
                Ink::Error
            } else {
                Ink::Warning
            },
        );
        wrapped_text_shows_in_full(text, width, style);
    }
    let slanted = TextStyle {
        italic: true,
        ..crate::infrastructure::render::theme::inked(Ink::Brand)
    };
    wrapped_text_shows_in_full(text, width, slanted);
    let rows = item_rows(h, ItemView::Reasoning(text), width, expanded, true, motion, cooled);
    assert(rows.skip(1) =~= wrapped_rows(text, width, slanted));
    one_run("⋮ pensando"@, slanted);
    assert forall|i: int, k: int|
        #![trigger rows[i][k]]
        0 <= i < rows.len() && 0 <= k < rows[i].len() implies rows[i][k].style.italic by {
        if i > 0 {
            assert(rows[i][k] == wrapped_rows(text, width, slanted)[i - 1][k]);
        }
    }
}

/// Once it is done, an answer, a thought or a plan is what its markdown renders to, under its label.
pub proof fn what_is_done_shows_formatted(
    h: Highlighter,
    text: Seq<char>,
    width: int,
    expanded: bool,
    motion: Motion,
    cooled: Seq<Color>,
)
    ensures
        ({
            let answer = item_rows(h, ItemView::Assistant(text), width, expanded, false, motion, cooled);
            let plan = item_rows(h, ItemView::PlanProposed(text), width, expanded, false, motion, cooled);
            let thought = item_rows(h, ItemView::Reasoning(text), width, expanded, false, motion, cooled);
            let steel = TextStyle::plain().with_fg(Ink::Steel.rgb());
            let slanted = TextStyle { italic: true, ..TextStyle::plain().with_fg(Ink::Brand.rgb()) };
            &&& answer == plan
            &&& answer.len() >= 1 && thought.len() >= 1
            &&& row_text(answer[0]) == "◆ kiri"@
            &&& row_text(thought[0]) == "⋮ pensando"@
            &&& answer.skip(1) == rendered(h, text, steel, width)
            &&& thought.skip(1) == rendered(h, text, slanted, width)
        }),
{
    let answer = item_rows(h, ItemView::Assistant(text), width, expanded, false, motion, cooled);
    let thought = item_rows(h, ItemView::Reasoning(text), width, expanded, false, motion, cooled);
    let steel = TextStyle::plain().with_fg(Ink::Steel.rgb());
    let slanted = TextStyle { italic: true, ..TextStyle::plain().with_fg(Ink::Brand.rgb()) };
    assert(answer.skip(1) =~= rendered(h, text, steel, width));
    assert(thought.skip(1) =~= rendered(h, text, slanted, width));
    one_run("◆ kiri"@, answer[0][0].style);
    assert(answer[0] =~= styled_row("◆ kiri"@, answer[0][0].style));
    one_run("⋮ pensando"@, thought[0][0].style);
    assert(thought[0] =~= styled_row("⋮ pensando"@, thought[0][0].style));
}

// ---- the column as a whole ----

/// The transcript shows its items in their order, each in full: behind the rows of the items before it come blank rows,
/// two before a prompt and one before anything else, and then the rows of the item. Only the last item can be live, and
/// a tool is expanded where all are or where it is marked.
pub proof fn items_stand_in_order(items: Seq<ItemView>, i: int, pane: PaneView)
    requires
        0 <= i < items.len(),
    ensures
        ({
            let above = transcript_rows(items, i, pane);
            let upto = transcript_rows(items, i + 1, pane);
            let own = item_rows(
                pane.highlighter,
                items[i],
                pane.width,
                pane.expand_all || pane.expanded.contains(i as usize),
                pane.streaming && i + 1 == items.len(),
                pane.motion,
                pane.cooled,
            );
            let gap = if above.len() == 0 {
                0int
            } else if items[i] is User {
                2
            } else {
                1
            };
            &&& upto.len() == above.len() + gap + own.len()
            &&& upto.take(above.len() as int) == above
            &&& upto.skip(above.len() + gap) == own
            &&& forall|k: int| above.len() <= k < above.len() + gap ==> (#[trigger] upto[k]).len() == 0
        }),
{
    let above = transcript_rows(items, i, pane);
    let upto = transcript_rows(items, i + 1, pane);
    let own = item_rows(
        pane.highlighter,
        items[i],
        pane.width,
        pane.expand_all || pane.expanded.contains(i as usize),
        pane.streaming && i + 1 == items.len(),
        pane.motion,
        pane.cooled,
    );
    let gap = upto.len() - above.len() - own.len();
    assert(upto.take(above.len() as int) =~= above);
    assert(upto.skip(above.len() + gap) =~= own);
}

/// What the column shows of earlier items stays where it is when more items follow.
pub proof fn earlier_items_stay_put(items: Seq<ItemView>, n: int, m: int, pane: PaneView)
    requires
        0 <= n <= m <= items.len(),
    ensures
        transcript_rows(items, n, pane).len() <= transcript_rows(items, m, pane).len(),
        transcript_rows(items, m, pane).take(transcript_rows(items, n, pane).len() as int) == transcript_rows(
            items,
            n,
            pane,
        ),
    decreases m - n,
{
    let first = transcript_rows(items, n, pane);
    if n < m {
        earlier_items_stay_put(items, n, m - 1, pane);
        items_stand_in_order(items, m - 1, pane);
        let most = transcript_rows(items, m - 1, pane);
        let all = transcript_rows(items, m, pane);
        assert forall|k: int| 0 <= k < first.len() implies all[k] == first[k] by {
            assert(all[k] == all.take(most.len() as int)[k]);
            assert(most[k] == most.take(first.len() as int)[k]);
        }
        assert(all.take(first.len() as int) =~= first);
    } else {
        assert(first.take(first.len() as int) =~= first);
    }
}

/// The column is the rows of all items. Behind a confirmation it shows the same text in the same places, all in one dim
/// colour.
pub proof fn the_column_shows_every_item(items: Seq<ItemView>, pane: PaneView)
    ensures
        pane_rows(items, pane, false) == transcript_rows(items, items.len() as int, pane),
        pane_rows(items, pane, true).len() == pane_rows(items, pane, false).len(),
        forall|i: int, k: int|
            #![trigger pane_rows(items, pane, true)[i][k]]
            0 <= i < pane_rows(items, pane, false).len() && 0 <= k < pane_rows(items, pane, false)[i].len() ==> {
                &&& pane_rows(items, pane, true)[i].len() == pane_rows(items, pane, false)[i].len()
                &&& pane_rows(items, pane, true)[i][k].text == pane_rows(items, pane, false)[i][k].text
                &&& pane_rows(items, pane, true)[i][k].style.fg == pane_rows(items, pane, true)[0][0].style.fg
                    || pane_rows(items, pane, true)[0].len() == 0
            },
{
}

} // verus!
