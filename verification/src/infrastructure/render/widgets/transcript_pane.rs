//! The conversation column.
use vstd::prelude::*;
use vstd::string::*;
use std::collections::HashSet;
use crate::clock::{Duration, Instant};
use crate::domain::model::{Model, Motion};
use crate::domain::transcript::{
    item_views, ActivityView, ItemView, NoticeLevel, ToolActivity, ToolDiff, ToolStatus, TranscriptItem,
};
use crate::infrastructure::render::cells::{hard_wrap, hard_wrapped};
use crate::infrastructure::render::layout::Rect;
use crate::infrastructure::render::line::{
    append_lines, line_views, push_line, push_span, span_views, styled_row, styled_run, Line, Span,
    SpanView,
};
use crate::infrastructure::render::markdown::cache::{rendered, Renderer};
use crate::infrastructure::render::markdown::render::Highlighter;
use crate::infrastructure::render::theme::{accent, dim, ink, inked, Ink, COOLING_RAMP, STEEL_RAMP};
use crate::style::{Color, TextStyle};
use crate::text::{cat2, cat3, decimal, decimal_of, split, split_on, strip_tail, trim_end_char, views};

verus! {

/// Max display width of the conversation column. Beyond this the body floats left against the void (rather than
/// stretching edge-to-edge on an ultrawide terminal), keeping comfortable line lengths.
pub const BODY_MAX_WIDTH: usize = 88;

/// Lines of tool output shown before eliding, unless expanded.
pub const PREVIEW_LINES: usize = 6;

/// Per side (old/new) diff lines shown before eliding, unless expanded.
pub const DIFF_LINES_PER_SIDE: usize = 6;

/// Columns each previewed body line is indented under its tool-call header.
pub const PREVIEW_INDENT_WIDTH: usize = 5;

/// The reveal of the active streaming answer: the motion preference, and the colour that each completed line has
/// cooled to at this frame.
pub struct Reveal {
    pub motion: Motion,
    pub cooled: Vec<Color>,
}

/// The ages of the landed lines at this frame; none before the first frame.
pub fn landing_ages(now: Option<Instant>, landings: &Vec<Instant>) -> (r: Vec<Duration>)
    ensures
        r@.len() == if now is Some {
            landings@.len()
        } else {
            0
        },
        forall|i: int|
            0 <= i < r@.len() ==> (#[trigger] r@[i]).nanos == (now->0).nanos_since(landings@[i]),
{
    let mut out: Vec<Duration> = Vec::new();
    if let Some(now) = now {
        let mut i: usize = 0;
        while i < landings.len()
            invariant
                i <= landings@.len(),
                out@.len() == i,
                forall|k: int| 0 <= k < i ==> (#[trigger] out@[k]).nanos == now.nanos_since(landings@[k]),
            decreases landings@.len() - i,
        {
            out.push(now.saturating_duration_since(landings[i]));
            i = i + 1;
        }
    }
    out
}

/// A duration in seconds with one decimal, as std's float formatting rounds it.
pub uninterp spec fn seconds_text(nanos: u64) -> Seq<char>;

/// `Duration::as_secs_f64` formatted with one decimal. How the fraction rounds is not spelled out: the text is
/// named.
#[verifier::external_body]
fn seconds_label(nanos: u64) -> (r: String)
    ensures
        r@ == seconds_text(nanos),
{
    format!("{:.1}", std::time::Duration::from_nanos(nanos).as_secs_f64())
}

/// A compact elapsed label for a single tool call: milliseconds under a second, else seconds.
pub open spec fn duration_text(d: Duration) -> Seq<char> {
    if d.millis() < 1000 {
        decimal(d.millis()) + "ms"@
    } else {
        seconds_text(d.nanos) + "s"@
    }
}

/// A compact elapsed label for a single tool call: milliseconds under a second, else seconds.
pub fn fmt_dur(elapsed: Duration) -> (r: String)
    ensures
        r@ == duration_text(elapsed),
{
    let ms: u64 = elapsed.as_millis();
    if ms < 1000 {
        cat2(decimal_of(ms).as_str(), "ms")
    } else {
        cat2(seconds_label(elapsed.nanos).as_str(), "s")
    }
}

/// The colour of a streamed line.
pub open spec fn streamed_color(index: int, in_flight: bool, motion: Motion, cooled: Seq<Color>) -> Color {
    if motion == Motion::Reduced {
        Ink::Steel.rgb()
    } else if in_flight {
        COOLING_RAMP@[0].rgb()
    } else if index < cooled.len() {
        cooled[index]
    } else {
        Ink::Steel.rgb()
    }
}

/// The foreground of one streamed line: steel when motion is reduced; forge-warm while the line is still being
/// written (in-flight); otherwise what it has cooled to. A completed line with no recorded landing is steel.
pub fn line_fg(index: usize, in_flight: bool, glow: &Reveal) -> (r: Color)
    ensures
        r == streamed_color(index as int, in_flight, glow.motion, glow.cooled@),
{
    if glow.motion.is_reduced() {
        return Ink::Steel.color();
    }
    if in_flight {
        return COOLING_RAMP[0].color();
    }
    if index < glow.cooled.len() {
        glow.cooled[index]
    } else {
        Ink::Steel.color()
    }
}

/// A row one ramp step back: every run in dim steel, its text unchanged.
pub open spec fn receded(row: Seq<SpanView>) -> Seq<SpanView> {
    Seq::new(
        row.len(),
        |i: int| SpanView { style: row[i].style.with_fg(STEEL_RAMP@[3].rgb()), ..row[i] },
    )
}

/// Recede a row one ramp step: every run drops to the dim steel step so the transcript sinks behind a
/// confirmation. A single restyle of the foreground, leaving glyphs and layout untouched.
pub fn recede(line: Line) -> (r: Line)
    ensures
        r@ == receded(line@),
{
    let mut spans: Vec<Span> = Vec::new();
    let mut i: usize = 0;
    let dim: Color = STEEL_RAMP[3].color();
    while i < line.spans.len()
        invariant
            i <= line.spans@.len(),
            dim == STEEL_RAMP@[3].rgb(),
            spans@.len() == i,
            forall|k: int| 0 <= k < i ==> (#[trigger] spans@[k])@ == receded(line@)[k],
        decreases line.spans@.len() - i,
    {
        let span: Span = Span {
            content: line.spans[i].content.clone(),
            style: line.spans[i].style.fg(dim),
        };
        assert(span@ == receded(line@)[i as int]);
        spans.push(span);
        i = i + 1;
    }
    let out: Line = Line { spans };
    assert(out@ =~= receded(line@));
    out
}

/// Rows of texts in one style.
pub open spec fn styled_rows(texts: Seq<Seq<char>>, style: TextStyle) -> Seq<Seq<SpanView>> {
    Seq::new(texts.len(), |i: int| styled_row(texts[i], style))
}

/// A text wrapped into rows of one style.
pub open spec fn wrapped_rows(text: Seq<char>, width: int, style: TextStyle) -> Seq<Seq<SpanView>> {
    styled_rows(hard_wrapped(text, width), style)
}

fn push_rows(rows: Vec<String>, style: TextStyle, out: &mut Vec<Line>)
    ensures
        line_views(final(out)@) == line_views(old(out)@) + styled_rows(views(rows@), style),
{
    let ghost before = line_views(out@);
    let ghost all = styled_rows(views(rows@), style);
    let mut i: usize = 0;
    assert(before + all.take(0) =~= before);
    while i < rows.len()
        invariant
            i <= rows@.len(),
            all == styled_rows(views(rows@), style),
            line_views(out@) == before + all.take(i as int),
        decreases rows@.len() - i,
    {
        push_line(out, Line::styled(rows[i].clone(), style));
        assert(line_views(out@) =~= before + all.take(i as int + 1));
        i = i + 1;
    }
    assert(all.take(all.len() as int) =~= all);
}

fn push_wrapped(text: &str, width: usize, style: TextStyle, out: &mut Vec<Line>)
    requires
        width < usize::MAX,
    ensures
        line_views(final(out)@) == line_views(old(out)@) + wrapped_rows(text@, width as int, style),
{
    push_rows(hard_wrap(text, width), style, out);
}

/// The rows of the answer's lines from the first up to `n`: each wrapped and in its colour, the last one with a caret
/// at its end unless motion is reduced.
pub open spec fn streamed_rows(
    lines: Seq<Seq<char>>,
    n: int,
    width: int,
    motion: Motion,
    cooled: Seq<Color>,
) -> Seq<Seq<SpanView>>
    decreases n,
{
    if n <= 0 {
        Seq::empty()
    } else {
        let i = n - 1;
        let in_flight = i == lines.len() - 1;
        let style = TextStyle::plain().with_fg(streamed_color(i, in_flight, motion, cooled));
        let rows = styled_rows(hard_wrapped(lines[i], width), style);
        streamed_rows(lines, i, width, motion, cooled) + if in_flight && motion != Motion::Reduced
            && rows.len() > 0 {
            rows.drop_last().push(rows.last().push(styled_run("▌"@, inked(Ink::Highlight))))
        } else {
            rows
        }
    }
}

/// Render the actively streaming answer with the cooling glow: each completed line in the colour it has cooled
/// to, the in-flight last line forge-warm, and the live writing edge marked with a `▌` caret. Reduced motion
/// freezes the whole answer to steel with no caret: the layout is unchanged, just steady.
fn render_streaming_answer(text: &str, width: usize, glow: &Reveal, out: &mut Vec<Line>)
    requires
        width < usize::MAX,
    ensures
        line_views(final(out)@) == line_views(old(out)@) + streamed_rows(
            split_on(text@, '\n'),
            split_on(text@, '\n').len() as int,
            width as int,
            glow.motion,
            glow.cooled@,
        ),
{
    let lines: Vec<String> = split(text, '\n');
    let ghost v = views(lines@);
    let ghost before = line_views(out@);
    let caret: bool = !glow.motion.is_reduced();
    let n: usize = lines.len();
    let mut i: usize = 0;
    assert(before + streamed_rows(v, 0, width as int, glow.motion, glow.cooled@) =~= before);
    while i < n
        invariant
            i <= n,
            n == lines@.len(),
            width < usize::MAX,
            v == views(lines@),
            caret == (glow.motion != Motion::Reduced),
            line_views(out@) == before + streamed_rows(
                v,
                i as int,
                width as int,
                glow.motion,
                glow.cooled@,
            ),
        decreases n - i,
    {
        let in_flight: bool = i == n - 1;
        let style: TextStyle = TextStyle::new().fg(line_fg(i, in_flight, glow));
        let mut rows: Vec<String> = hard_wrap(lines[i].as_str(), width);
        let ghost all = styled_rows(views(rows@), style);
        let ghost shown = line_views(out@);
        assert(v[i as int] == lines@[i as int]@);
        if in_flight && caret {
            let last: usize = rows.len() - 1;
            let tail: String = rows[last].clone();
            let ghost full = rows@;
            rows.truncate(last);
            assert(styled_rows(views(rows@), style) =~= all.drop_last()) by {
                assert forall|k: int| 0 <= k < last implies rows@[k] == full[k] by {}
            }
            push_rows(rows, style, out);
            let mut spans: Vec<Span> = Vec::new();
            assert(span_views(spans@) =~= Seq::<SpanView>::empty());
            push_span(&mut spans, Span::styled(tail, style));
            push_span(&mut spans, Span::styled("▌".to_owned(), accent()));
            let line: Line = Line::from_spans(spans);
            assert(line@ =~= all.last().push(styled_run("▌"@, inked(Ink::Highlight))));
            push_line(out, line);
            assert(line_views(out@) =~= shown + all.drop_last().push(
                all.last().push(styled_run("▌"@, inked(Ink::Highlight))),
            ));
        } else {
            push_rows(rows, style, out);
        }
        assert(line_views(out@) =~= before + streamed_rows(
            v,
            i as int + 1,
            width as int,
            glow.motion,
            glow.cooled@,
        ));
        i = i + 1;
    }
}

/// The number of lines shown of `len`: all of them when expanded, else at most `max`.
pub open spec fn shown_count(len: int, max: int, expanded: bool) -> int {
    if expanded || len <= max {
        len
    } else {
        max
    }
}

fn count_shown(len: usize, max: usize, expanded: bool) -> (r: usize)
    ensures
        r == shown_count(len as int, max as int, expanded),
        r <= len,
{
    if expanded || len <= max {
        len
    } else {
        max
    }
}

/// One side of a diff: its first `n` lines, each behind a sign.
pub open spec fn diff_lines(lines: Seq<Seq<char>>, n: int, sign: Seq<char>, width: int, style: TextStyle) -> Seq<
    Seq<SpanView>,
>
    decreases n,
{
    if n <= 0 {
        Seq::empty()
    } else {
        diff_lines(lines, n - 1, sign, width, style) + wrapped_rows(
            sign + lines[n - 1],
            width,
            style,
        )
    }
}

/// One side of a diff, bounded unless expanded.
pub open spec fn diff_block(text: Seq<char>, sign: Seq<char>, color: Ink, width: int, expanded: bool) -> Seq<
    Seq<SpanView>,
> {
    let lines = split_on(text, '\n');
    let shown = shown_count(lines.len() as int, DIFF_LINES_PER_SIDE as int, expanded);
    let rows = diff_lines(lines, shown, sign, width, inked(color));
    if lines.len() > shown {
        rows.push(
            styled_row("  … (+"@ + decimal(lines.len() - shown) + ")"@, inked(Ink::Brand)),
        )
    } else {
        rows
    }
}

fn emit_diff_block(
    text: &str,
    sign: &str,
    color: Ink,
    width: usize,
    expanded: bool,
    out: &mut Vec<Line>,
)
    requires
        width < usize::MAX,
    ensures
        line_views(final(out)@) == line_views(old(out)@) + diff_block(
            text@,
            sign@,
            color,
            width as int,
            expanded,
        ),
{
    let lines: Vec<String> = split(text, '\n');
    let ghost v = views(lines@);
    let shown: usize = count_shown(lines.len(), DIFF_LINES_PER_SIDE, expanded);
    let style: TextStyle = ink(color);
    let ghost before = line_views(out@);
    let mut i: usize = 0;
    assert(before + diff_lines(v, 0, sign@, width as int, style) =~= before);
    while i < shown
        invariant
            i <= shown <= lines@.len(),
            width < usize::MAX,
            v == views(lines@),
            line_views(out@) == before + diff_lines(v, i as int, sign@, width as int, style),
        decreases shown - i,
    {
        assert(v[i as int] == lines@[i as int]@);
        push_wrapped(cat2(sign, lines[i].as_str()).as_str(), width, style, out);
        assert(line_views(out@) =~= before + diff_lines(v, i as int + 1, sign@, width as int, style));
        i = i + 1;
    }
    if lines.len() > shown {
        let label: String = cat3("  … (+", decimal_of((lines.len() - shown) as u64).as_str(), ")");
        push_line(out, Line::styled(label, dim()));
    }
    assert(line_views(out@) =~= before + diff_block(text@, sign@, color, width as int, expanded));
}

/// The rows of an edit: the old text in red, the new one in green.
pub open spec fn diff_rows(diff: (Seq<char>, Seq<char>), width: int, expanded: bool) -> Seq<
    Seq<SpanView>,
> {
    diff_block(diff.0, "  - "@, Ink::Error, width, expanded) + diff_block(
        diff.1,
        "  + "@,
        Ink::Success,
        width,
        expanded,
    )
}

/// Render an `edit_file` change as red `-` / green `+` lines, wrapped, bounded per side unless expanded. This is a
/// literal old→new replacement block, not a line-level diff algorithm.
fn render_diff(diff: &ToolDiff, width: usize, expanded: bool, out: &mut Vec<Line>)
    requires
        width < usize::MAX,
    ensures
        line_views(final(out)@) == line_views(old(out)@) + diff_rows(
            (diff.old@, diff.new@),
            width as int,
            expanded,
        ),
{
    let ghost before = line_views(out@);
    emit_diff_block(diff.old.as_str(), "  - ", Ink::Error, width, expanded, out);
    emit_diff_block(diff.new.as_str(), "  + ", Ink::Success, width, expanded, out);
    assert(line_views(out@) =~= before + diff_rows((diff.old@, diff.new@), width as int, expanded));
}

/// The lines of a tool's output: a fixed text for a declined call and for an empty output.
pub open spec fn output_lines(status: ToolStatus, output: Seq<char>) -> Seq<Seq<char>> {
    let detail = if status == ToolStatus::Declined {
        "recusado pelo usuário"@
    } else {
        strip_tail(output, '\n')
    };
    if detail.len() == 0 {
        seq!["(vazio)"@]
    } else {
        split_on(detail, '\n')
    }
}

/// The colour of a status marker.
pub open spec fn marker_ink(status: ToolStatus) -> Ink {
    match status {
        ToolStatus::Success => Ink::Success,
        ToolStatus::Error => Ink::Error,
        ToolStatus::Declined => Ink::Brand,
    }
}

/// The style of a tool's output: errors red, the rest dim.
pub open spec fn output_style(status: ToolStatus) -> TextStyle {
    if status == ToolStatus::Error {
        inked(Ink::Error)
    } else {
        inked(Ink::Brand)
    }
}

/// The previewed lines of an output from its second up to the `n`th behind that, indented.
pub open spec fn preview_rows(lines: Seq<Seq<char>>, n: int, width: int, style: TextStyle) -> Seq<
    Seq<SpanView>,
>
    decreases n,
{
    if n <= 0 {
        Seq::empty()
    } else {
        let rows = hard_wrapped(lines[n], preview_width(width));
        preview_rows(lines, n - 1, width, style) + Seq::new(
            rows.len(),
            |i: int| styled_row("     "@ + rows[i], style),
        )
    }
}

/// The width left for previewed lines.
pub open spec fn preview_width(width: int) -> int {
    if width - PREVIEW_INDENT_WIDTH < 1 {
        1
    } else {
        width - PREVIEW_INDENT_WIDTH
    }
}

/// The rows of a tool's result: a marker row with the first output line and the elapsed time, then (unless a diff
/// already showed the change) a bounded preview of the remaining lines.
pub open spec fn result_rows(
    status: ToolStatus,
    output: Seq<char>,
    elapsed: Duration,
    has_diff: bool,
    width: int,
    expanded: bool,
) -> Seq<Seq<SpanView>> {
    let lines = output_lines(status, output);
    let style = output_style(status);
    let head = seq![
        seq![
            styled_run("  ⎿ "@, inked(Ink::Brand)),
            styled_run("● "@, inked(marker_ink(status))),
            styled_run(lines[0] + " · "@ + duration_text(elapsed), style),
        ],
    ];
    if has_diff || lines.len() <= 1 {
        head
    } else {
        let body = lines.len() - 1;
        let shown = shown_count(body, PREVIEW_LINES as int, expanded);
        let rows = head + preview_rows(lines, shown, width, style);
        if body > shown {
            rows.push(
                styled_row(
                    "     … (+"@ + decimal(body - shown) + ") · ^O para expandir"@,
                    inked(Ink::Brand),
                ),
            )
        } else {
            rows
        }
    }
}

fn lines_of_output(status: ToolStatus, output: &str) -> (r: Vec<String>)
    ensures
        views(r@) == output_lines(status, output@),
        r@.len() >= 1,
{
    let detail: String = match status {
        ToolStatus::Declined => "recusado pelo usuário".to_owned(),
        _ => trim_end_char(output, '\n'),
    };
    if detail.as_str().is_empty() {
        let mut v: Vec<String> = Vec::new();
        v.push("(vazio)".to_owned());
        assert(views(v@) =~= seq!["(vazio)"@]);
        v
    } else {
        split(detail.as_str(), '\n')
    }
}

fn head_row(status: ToolStatus, first: &str, elapsed: Duration, style: TextStyle) -> (r: Line)
    ensures
        r@ == seq![
            styled_run("  ⎿ "@, inked(Ink::Brand)),
            styled_run("● "@, inked(marker_ink(status))),
            styled_run(first@ + " · "@ + duration_text(elapsed), style),
        ],
{
    let marker: Ink = match status {
        ToolStatus::Success => Ink::Success,
        ToolStatus::Error => Ink::Error,
        ToolStatus::Declined => Ink::Brand,
    };
    let mut spans: Vec<Span> = Vec::new();
    spans.push(Span::styled("  ⎿ ".to_owned(), dim()));
    spans.push(Span::styled("● ".to_owned(), ink(marker)));
    spans.push(Span::styled(cat3(first, " · ", fmt_dur(elapsed).as_str()), style));
    let line: Line = Line { spans };
    assert(line@ =~= seq![
        styled_run("  ⎿ "@, inked(Ink::Brand)),
        styled_run("● "@, inked(marker_ink(status))),
        styled_run(first@ + " · "@ + duration_text(elapsed), style),
    ]);
    line
}

fn push_indented(line: &str, width: usize, style: TextStyle, out: &mut Vec<Line>)
    requires
        width < usize::MAX,
    ensures
        line_views(final(out)@) == line_views(old(out)@) + Seq::new(
            hard_wrapped(line@, width as int).len(),
            |i: int| styled_row("     "@ + hard_wrapped(line@, width as int)[i], style),
        ),
{
    let rows: Vec<String> = hard_wrap(line, width);
    let ghost before = line_views(out@);
    let ghost all = Seq::new(
        hard_wrapped(line@, width as int).len(),
        |i: int| styled_row("     "@ + hard_wrapped(line@, width as int)[i], style),
    );
    let mut i: usize = 0;
    assert(before + all.take(0) =~= before);
    while i < rows.len()
        invariant
            i <= rows@.len(),
            views(rows@) == hard_wrapped(line@, width as int),
            all == Seq::new(
                hard_wrapped(line@, width as int).len(),
                |i: int| styled_row("     "@ + hard_wrapped(line@, width as int)[i], style),
            ),
            line_views(out@) == before + all.take(i as int),
        decreases rows@.len() - i,
    {
        assert(views(rows@)[i as int] == rows@[i as int]@);
        push_line(out, Line::styled(cat2("     ", rows[i].as_str()), style));
        assert(line_views(out@) =~= before + all.take(i as int + 1));
        i = i + 1;
    }
    assert(all.take(all.len() as int) =~= all);
}

/// Render the `⎿` result block of a tool call.
fn render_result(
    status: ToolStatus,
    output: &str,
    elapsed: Duration,
    has_diff: bool,
    width: usize,
    expanded: bool,
    out: &mut Vec<Line>,
)
    requires
        width < usize::MAX,
    ensures
        line_views(final(out)@) == line_views(old(out)@) + result_rows(
            status,
            output@,
            elapsed,
            has_diff,
            width as int,
            expanded,
        ),
{
    let ghost before = line_views(out@);
    let lines: Vec<String> = lines_of_output(status, output);
    let ghost v = views(lines@);
    let style: TextStyle = match status {
        ToolStatus::Error => ink(Ink::Error),
        _ => dim(),
    };
    let head: Line = head_row(status, lines[0].as_str(), elapsed, style);
    let ghost head_view = head@;
    push_line(out, head);
    assert(v[0] == lines@[0]@);
    if has_diff || lines.len() <= 1 {
        assert(line_views(out@) =~= before + seq![head_view]);
        return ;
    }
    let body: usize = lines.len() - 1;
    let shown: usize = count_shown(body, PREVIEW_LINES, expanded);
    let inner: usize = if width <= PREVIEW_INDENT_WIDTH {
        1
    } else {
        width - PREVIEW_INDENT_WIDTH
    };
    let ghost headed = line_views(out@);
    let mut i: usize = 0;
    assert(headed + preview_rows(v, 0, width as int, style) =~= headed);
    while i < shown
        invariant
            i <= shown <= body,
            body == lines@.len() - 1,
            v == views(lines@),
            inner == preview_width(width as int),
            inner < usize::MAX,
            line_views(out@) == headed + preview_rows(v, i as int, width as int, style),
        decreases shown - i,
    {
        assert(v[i as int + 1] == lines@[i as int + 1]@);
        push_indented(lines[i + 1].as_str(), inner, style, out);
        assert(line_views(out@) =~= headed + preview_rows(v, i as int + 1, width as int, style));
        i = i + 1;
    }
    if body > shown {
        let label: String = cat3(
            "     … (+",
            decimal_of((body - shown) as u64).as_str(),
            ") · ^O para expandir",
        );
        push_line(out, Line::styled(label, dim()));
    }
    assert(line_views(out@) =~= before + result_rows(
        status,
        output@,
        elapsed,
        has_diff,
        width as int,
        expanded,
    ));
}

/// The rows of a tool call: its command, its diff, and its result, or a faint placeholder while it runs.
pub open spec fn tool_rows(a: ActivityView, width: int, expanded: bool) -> Seq<Seq<SpanView>> {
    let color = inked(
        if a.result is None {
            Ink::Highlight
        } else {
            Ink::Steel
        },
    );
    let head = seq![seq![styled_run("⏺ "@, color), styled_run(a.command, color)]];
    let diff = match a.diff {
        Some(d) => diff_rows(d, width, expanded),
        None => Seq::empty(),
    };
    let result = match a.result {
        None => seq![
            seq![
                styled_run("  ⎿ "@, inked(Ink::Brand)),
                styled_run("● "@, inked(Ink::Warning)),
                styled_run("…"@, inked(Ink::Brand)),
            ],
        ],
        Some(r) => result_rows(r.0, r.1, r.2, a.diff is Some, width, expanded),
    };
    head + diff + result
}

/// Render one tool call: a `⏺ command` row, an inline diff for edits, then the indented `⎿` result
/// (preview-bounded unless `expanded`).
fn render_tool(activity: &ToolActivity, width: usize, expanded: bool, out: &mut Vec<Line>)
    requires
        width < usize::MAX,
    ensures
        line_views(final(out)@) == line_views(old(out)@) + tool_rows(activity@, width as int, expanded),
{
    let ghost before = line_views(out@);
    let color: TextStyle = ink(
        if activity.result.is_none() {
            Ink::Highlight
        } else {
            Ink::Steel
        },
    );
    let mut spans: Vec<Span> = Vec::new();
    spans.push(Span::styled("⏺ ".to_owned(), color));
    spans.push(Span::styled(activity.command.clone(), color));
    let head: Line = Line { spans };
    assert(head@ =~= seq![styled_run("⏺ "@, color), styled_run(activity.command@, color)]);
    push_line(out, head);
    if let Some(diff) = &activity.diff {
        render_diff(diff, width, expanded, out);
    }
    match &activity.result {
        None => {
            let mut spans: Vec<Span> = Vec::new();
            spans.push(Span::styled("  ⎿ ".to_owned(), dim()));
            spans.push(Span::styled("● ".to_owned(), ink(Ink::Warning)));
            spans.push(Span::styled("…".to_owned(), dim()));
            let line: Line = Line { spans };
            assert(line@ =~= seq![
                styled_run("  ⎿ "@, inked(Ink::Brand)),
                styled_run("● "@, inked(Ink::Warning)),
                styled_run("…"@, inked(Ink::Brand)),
            ]);
            push_line(out, line);
        },
        Some(result) => render_result(
            result.0,
            result.1.as_str(),
            result.2,
            activity.diff.is_some(),
            width,
            expanded,
            out,
        ),
    }
    assert(line_views(out@) =~= before + tool_rows(activity@, width as int, expanded));
}

/// How an item renders: whether a tool is expanded, and whether the item is the one still streaming.
pub struct ItemMode {
    pub expanded: bool,
    pub active: bool,
}

/// The rows of an assistant or reasoning body: plain while it streams, formatted once it is done.
pub open spec fn body_rows(h: Highlighter, text: Seq<char>, style: TextStyle, width: int, active: bool) -> Seq<
    Seq<SpanView>,
> {
    if active {
        wrapped_rows(text, width, style)
    } else {
        rendered(h, text, style, width)
    }
}

/// The rows of an item.
pub open spec fn item_rows(
    h: Highlighter,
    item: ItemView,
    width: int,
    expanded: bool,
    active: bool,
    motion: Motion,
    cooled: Seq<Color>,
) -> Seq<Seq<SpanView>> {
    match item {
        ItemView::User(t) => wrapped_rows("você › "@ + t, width, inked(Ink::Highlight)),
        ItemView::Reasoning(t) => {
            let style = TextStyle { italic: true, ..inked(Ink::Brand) };
            seq![styled_row("⋮ pensando"@, style)] + body_rows(h, t, style, width, active)
        },
        ItemView::Assistant(t) => {
            seq![styled_row("◆ kiri"@, inked(Ink::Heading))] + if active {
                streamed_rows(
                    split_on(t, '\n'),
                    split_on(t, '\n').len() as int,
                    width,
                    motion,
                    cooled,
                )
            } else {
                rendered(h, t, inked(Ink::Steel), width)
            }
        },
        ItemView::PlanProposed(t) => {
            seq![styled_row("◆ kiri"@, inked(Ink::Heading))] + rendered(
                h,
                t,
                inked(Ink::Steel),
                width,
            )
        },
        ItemView::Tool(a) => tool_rows(a, width, expanded),
        ItemView::Notice(level, t) => wrapped_rows(
            t,
            width,
            inked(
                match level {
                    NoticeLevel::Info => Ink::Warning,
                    NoticeLevel::Error => Ink::Error,
                },
            ),
        ),
    }
}

fn render_item(
    renderer: &mut Renderer,
    item: &TranscriptItem,
    width: usize,
    mode: &ItemMode,
    glow: &Reveal,
    out: &mut Vec<Line>,
)
    requires
        old(renderer).wf(),
        width < usize::MAX,
    ensures
        final(renderer).wf(),
        final(renderer).highlighter() == old(renderer).highlighter(),
        line_views(final(out)@) == line_views(old(out)@) + item_rows(
            old(renderer).highlighter(),
            item@,
            width as int,
            mode.expanded,
            mode.active,
            glow.motion,
            glow.cooled@,
        ),
{
    let ghost before = line_views(out@);
    match item {
        TranscriptItem::User(text) => push_wrapped(
            cat2("você › ", text.as_str()).as_str(),
            width,
            ink(Ink::Highlight),
            out,
        ),
        TranscriptItem::Reasoning(text) => {
            // Thinking reads clearly apart from the answer: a label plus a dim, italic body.
            let style: TextStyle = dim().italic();
            push_line(out, Line::styled("⋮ pensando".to_owned(), style));
            if mode.active {
                push_wrapped(text.as_str(), width, style, out);
            } else {
                append_lines(out, renderer.render(text.as_str(), style, width));
            }
        },
        TranscriptItem::Assistant(text) => {
            push_line(out, Line::styled("◆ kiri".to_owned(), ink(Ink::Heading)));
            if mode.active {
                render_streaming_answer(text.as_str(), width, glow, out);
            } else {
                append_lines(out, renderer.render(text.as_str(), ink(Ink::Steel), width));
            }
        },
        TranscriptItem::PlanProposed(text) => {
            push_line(out, Line::styled("◆ kiri".to_owned(), ink(Ink::Heading)));
            append_lines(out, renderer.render(text.as_str(), ink(Ink::Steel), width));
        },
        TranscriptItem::Tool(activity) => render_tool(activity, width, mode.expanded, out),
        TranscriptItem::Notice(level, text) => {
            let color: Ink = match level {
                NoticeLevel::Info => Ink::Warning,
                NoticeLevel::Error => Ink::Error,
            };
            push_wrapped(text.as_str(), width, ink(color), out);
        },
    }
    assert(line_views(out@) =~= before + item_rows(
        renderer.highlighter(),
        item@,
        width as int,
        mode.expanded,
        mode.active,
        glow.motion,
        glow.cooled@,
    ));
}

/// What the transcript is rendered with: the highlighter, the width, which tools are expanded, whether the last
/// item is still streaming, and its glow.
pub struct PaneView {
    pub highlighter: Highlighter,
    pub width: int,
    pub expand_all: bool,
    pub expanded: Set<usize>,
    pub streaming: bool,
    pub motion: Motion,
    pub cooled: Seq<Color>,
}

/// The rows of the first `n` items. Two blank rows open a new turn (a user prompt); one separates items within a
/// turn.
pub open spec fn transcript_rows(items: Seq<ItemView>, n: int, pane: PaneView) -> Seq<Seq<SpanView>>
    decreases n,
{
    if n <= 0 {
        Seq::empty()
    } else {
        let i = n - 1;
        let before = transcript_rows(items, i, pane);
        let blank = Seq::<SpanView>::empty();
        let gap = if before.len() == 0 {
            Seq::empty()
        } else if items[i] is User {
            seq![blank, blank]
        } else {
            seq![blank]
        };
        before + gap + item_rows(
            pane.highlighter,
            items[i],
            pane.width,
            pane.expand_all || pane.expanded.contains(i as usize),
            pane.streaming && i == items.len() - 1,
            pane.motion,
            pane.cooled,
        )
    }
}

/// The rows of the pane: receded one ramp step while a confirmation is up.
pub open spec fn pane_rows(items: Seq<ItemView>, pane: PaneView, has_modal: bool) -> Seq<Seq<SpanView>> {
    let rows = transcript_rows(items, items.len() as int, pane);
    if has_modal {
        Seq::new(rows.len(), |i: int| receded(rows[i]))
    } else {
        rows
    }
}

fn recede_all(lines: Vec<Line>) -> (r: Vec<Line>)
    ensures
        line_views(r@) == Seq::new(lines@.len(), |i: int| receded(line_views(lines@)[i])),
{
    let ghost want = Seq::new(lines@.len(), |i: int| receded(line_views(lines@)[i]));
    let mut out: Vec<Line> = Vec::new();
    let mut rest: Vec<Line> = lines;
    let ghost all = rest@;
    let n: usize = rest.len();
    let mut i: usize = 0;
    while i < n
        invariant
            i <= n,
            n == all.len(),
            rest@ == all,
            want == Seq::new(all.len(), |i: int| receded(line_views(all)[i])),
            out@.len() == i,
            forall|k: int| 0 <= k < i ==> (#[trigger] out@[k])@ == want[k],
        decreases n - i,
    {
        let copy: Line = Line {
            spans: crate::infrastructure::render::line::clone_spans(&rest[i].spans),
        };
        out.push(recede(copy));
        i = i + 1;
    }
    assert(line_views(out@) =~= want);
    out
}

/// Build the wrapped, styled transcript rows for the pane. Pure in its inputs; the markdown body of a finalized item
/// is memoized, so a settled transcript pays only this loop and the row clones each frame.
pub fn build_transcript_lines(
    renderer: &mut Renderer,
    items: &Vec<TranscriptItem>,
    width: usize,
    expand_all: bool,
    expanded: &HashSet<usize>,
    streaming: bool,
    has_modal: bool,
    glow: &Reveal,
) -> (r: Vec<Line>)
    requires
        old(renderer).wf(),
        width < usize::MAX,
    ensures
        final(renderer).wf(),
        final(renderer).highlighter() == old(renderer).highlighter(),
        line_views(r@) == pane_rows(
            item_views(items@),
            PaneView {
                highlighter: old(renderer).highlighter(),
                width: width as int,
                expand_all,
                expanded: expanded@,
                streaming,
                motion: glow.motion,
                cooled: glow.cooled@,
            },
            has_modal,
        ),
{
    broadcast use vstd::std_specs::hash::group_hash_axioms;

    let ghost h = renderer.highlighter();
    let ghost v = item_views(items@);
    let ghost pane = PaneView {
        highlighter: h,
        width: width as int,
        expand_all,
        expanded: expanded@,
        streaming,
        motion: glow.motion,
        cooled: glow.cooled@,
    };
    let mut lines: Vec<Line> = Vec::new();
    assert(line_views(lines@) =~= Seq::<Seq<SpanView>>::empty());
    let n: usize = items.len();
    let mut i: usize = 0;
    while i < n
        invariant
            i <= n,
            n == items@.len(),
            width < usize::MAX,
            renderer.wf(),
            renderer.highlighter() == h,
            v == item_views(items@),
            pane == (PaneView {
                highlighter: h,
                width: width as int,
                expand_all,
                expanded: expanded@,
                streaming,
                motion: glow.motion,
                cooled: glow.cooled@,
            }),
            line_views(lines@) == transcript_rows(v, i as int, pane),
        decreases n - i,
    {
        let ghost before = line_views(lines@);
        if lines.len() > 0 {
            push_line(&mut lines, Line::blank());
            if matches!(items[i], TranscriptItem::User(_)) {
                push_line(&mut lines, Line::blank());
            }
        }
        let ghost gapped = line_views(lines@);
        // The still-streaming item renders as plain text, which skips the per-frame markdown parse; once the turn
        // finishes it re-renders formatted (and is then memoized).
        let mode: ItemMode = ItemMode {
            expanded: expand_all || expanded.contains(&i),
            active: streaming && i == n - 1,
        };
        render_item(renderer, &items[i], width, &mode, glow, &mut lines);
        proof {
            let blank = Seq::<SpanView>::empty();
            assert(v[i as int] == items@[i as int]@);
            if before.len() > 0 {
                if v[i as int] is User {
                    assert(gapped =~= before + seq![blank, blank]);
                } else {
                    assert(gapped =~= before + seq![blank]);
                }
            } else {
                assert(gapped =~= before + Seq::<Seq<SpanView>>::empty());
            }
            assert(line_views(lines@) =~= transcript_rows(v, i as int + 1, pane));
        }
        i = i + 1;
    }
    if has_modal {
        recede_all(lines)
    } else {
        lines
    }
}

/// The width of the conversation column in a pane.
pub open spec fn column_width(pane_width: int) -> int {
    if pane_width < 1 {
        1
    } else if pane_width > BODY_MAX_WIDTH {
        BODY_MAX_WIDTH as int
    } else {
        pane_width
    }
}

/// The rows scrolled past at the top: with nothing scrolled back, the newest rows are on display.
pub open spec fn top_row(total: int, height: int, scrollback: int) -> int {
    let hidden = if total > height {
        total - height
    } else {
        0
    };
    hidden - if scrollback < hidden {
        scrollback
    } else {
        hidden
    }
}

/// The scroll offset of the pane, in rows from the top: the newest content is pinned to the bottom unless the user
/// has scrolled up.
pub fn scroll_offset(total: usize, height: u16, scrollback: u16) -> (r: u16)
    ensures
        r == top_row(
            if total <= u16::MAX {
                total as int
            } else {
                u16::MAX as int
            },
            height as int,
            scrollback as int,
        ),
{
    let max: usize = 0xffff;
    let total: u16 = if total <= max {
        total as u16
    } else {
        u16::MAX
    };
    let max_offset: u16 = total.saturating_sub(height);
    let scrollback: u16 = if scrollback < max_offset {
        scrollback
    } else {
        max_offset
    };
    max_offset - scrollback
}

/// The rows of a model's transcript in a pane, and the scroll offset.
pub fn transcript_view(renderer: &mut Renderer, model: &Model, area: Rect, glow: &Reveal) -> (r: (
    Vec<Line>,
    u16,
))
    requires
        old(renderer).wf(),
    ensures
        final(renderer).wf(),
        final(renderer).highlighter() == old(renderer).highlighter(),
        line_views(r.0@) == pane_rows(
            model.transcript@,
            PaneView {
                highlighter: old(renderer).highlighter(),
                width: column_width(area.width as int),
                expand_all: model.expand_tools,
                expanded: model.expanded_tools_indices@,
                streaming: model.status.streaming,
                motion: glow.motion,
                cooled: glow.cooled@,
            },
            model.modal_open(),
        ),
        r.1 == top_row(
            if r.0@.len() <= u16::MAX {
                r.0@.len() as int
            } else {
                u16::MAX as int
            },
            area.height as int,
            model.scroll.scrollback as int,
        ),
{
    let pane: usize = area.width as usize;
    let width: usize = if pane < 1 {
        1
    } else if pane > BODY_MAX_WIDTH {
        BODY_MAX_WIDTH
    } else {
        pane
    };
    let lines: Vec<Line> = build_transcript_lines(
        renderer,
        model.transcript.items(),
        width,
        model.expand_tools,
        &model.expanded_tools_indices,
        model.status.streaming,
        model.has_modal(),
        glow,
    );
    let offset: u16 = scroll_offset(lines.len(), area.height, model.scroll.scrollback);
    (lines, offset)
}

/// Pinned to the bottom, the newest row is the last one on display; scrolled all the way up, the oldest is the
/// first; and no scroll position shows past either end.
pub proof fn scrolling_stays_in_range(total: int, height: int, scrollback: int)
    requires
        0 <= total,
        0 <= height,
        0 <= scrollback,
    ensures
        0 <= top_row(total, height, scrollback),
        total > height ==> top_row(total, height, scrollback) + height <= total,
        total <= height ==> top_row(total, height, scrollback) == 0,
        total > height ==> top_row(total, height, 0) + height == total,
        scrollback >= total ==> top_row(total, height, scrollback) == 0,
{
}

/// A receding transcript keeps every glyph where it was.
pub proof fn receding_keeps_the_text(row: Seq<SpanView>)
    ensures
        receded(row).len() == row.len(),
        forall|i: int| 0 <= i < row.len() ==> (#[trigger] receded(row)[i]).text == row[i].text,
        receded(receded(row)) == receded(row),
{
    assert(receded(receded(row)) =~= receded(row));
}

/// An output that fits the preview is shown whole, expanded or not.
pub proof fn short_outputs_show_whole(len: int, max: int)
    requires
        0 <= len <= max,
    ensures
        shown_count(len, max, false) == shown_count(len, max, true),
        shown_count(len, max, true) == len,
{
}

} // verus!
