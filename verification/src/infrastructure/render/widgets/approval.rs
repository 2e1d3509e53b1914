//! The borderless confirmation stanzas of approvals and plans.
use vstd::prelude::*;
use crate::domain::modal::{ApprovalOption, PendingApproval, PendingPlan, PlanOption};
use crate::infrastructure::render::layout::Rect;
use crate::infrastructure::render::line::{
    append_lines, line_views, push_line, styled_row, Line, Span, SpanView,
};
use crate::infrastructure::render::markdown::cache::{rendered, Renderer};
use crate::infrastructure::render::markdown::render::Highlighter;
use crate::infrastructure::render::theme::{base, dim, inked, strong, Ink};
use crate::infrastructure::render::widgets::{option_marker, option_row};
use crate::style::TextStyle;
use crate::text::{cat2, cat3, decimal, decimal_of, views};

verus! {

/// An etched hairline `width` cells wide.
pub open spec fn etched(width: nat) -> Seq<char> {
    Seq::new(
        width,
        |i: int|
            if i % 2 == 0 {
                '┄'
            } else {
                '┈'
            },
    )
}

/// An etched hairline (`┄┈` motif) `width` cells wide: low-contrast steel, reads as engraved metal rather than a
/// dead dash run.
pub fn hairline(width: usize) -> (r: String)
    ensures
        r@ == etched(width as nat),
{
    let mut out: String = String::new();
    let mut i: usize = 0;
    while i < width
        invariant
            i <= width,
            out@ =~= etched(i as nat),
        decreases width - i,
    {
        out.push(
            if i % 2 == 0 {
                '┄'
            } else {
                '┈'
            },
        );
        i = i + 1;
    }
    out
}

/// The action line shown above the plan options.
pub const PLAN_ACTION: &'static str = "Plano pronto. Escolha:";

/// The number of plan options.
pub fn plan_options_len() -> (r: usize)
    ensures
        r == 4,
{
    PlanOption::ALL.len()
}

/// The option rows of a stanza, numbered from one.
pub open spec fn option_rows(options: Seq<Seq<char>>, n: int, selected: int) -> Seq<Seq<SpanView>>
    decreases n,
{
    if n <= 0 {
        Seq::empty()
    } else {
        option_rows(options, n - 1, selected).push(
            option_row(decimal(n) + ". "@ + options[n - 1], n - 1 == selected),
        )
    }
}

/// The rows of a stanza: a hairline, the label, the action, a blank row, and the options.
pub open spec fn stanza_rows(
    h: Highlighter,
    label: Seq<char>,
    action: Seq<char>,
    options: Seq<Seq<char>>,
    selected: int,
    width: int,
) -> Seq<Seq<SpanView>> {
    seq![
        styled_row(
            etched(width as nat),
            inked(Ink::Guilloche).with_bg(Ink::Void.rgb()),
        ),
        styled_row(" "@ + label, inked(Ink::Brand)),
    ] + rendered(h, action, inked(Ink::Steel), width) + seq![Seq::<SpanView>::empty()] + option_rows(
        options,
        options.len() as int,
        selected,
    )
}

/// The borderless confirmation stanza. No box: an etched hairline sets it off from the transcript above. The action
/// reads as a calm question, and the options hang with the `❯` caret carrying the single accent.
fn render_stanza(
    renderer: &mut Renderer,
    label: &str,
    action: &str,
    options: &Vec<String>,
    selected: usize,
    width: usize,
) -> (r: Vec<Line>)
    requires
        old(renderer).wf(),
    ensures
        final(renderer).wf(),
        final(renderer).highlighter() == old(renderer).highlighter(),
        line_views(r@) == stanza_rows(
            old(renderer).highlighter(),
            label@,
            action@,
            views(options@),
            selected as int,
            width as int,
        ),
{
    let ghost labels = views(options@);
    let mut lines: Vec<Line> = Vec::new();
    assert(line_views(lines@) =~= Seq::<Seq<SpanView>>::empty());
    push_line(&mut lines, Line::styled(hairline(width), base().fg(Ink::Guilloche.color())));
    push_line(&mut lines, Line::styled(cat2(" ", label), dim()));
    let ghost head = line_views(lines@);
    append_lines(&mut lines, renderer.render(action, strong(), width));
    push_line(&mut lines, Line::blank());
    let ghost top = line_views(lines@);
    let mut i: usize = 0;
    assert(top + option_rows(labels, 0, selected as int) =~= top);
    while i < options.len()
        invariant
            i <= options@.len(),
            labels == views(options@),
            line_views(lines@) == top + option_rows(labels, i as int, selected as int),
        decreases options@.len() - i,
    {
        let (marker, style): (&'static str, TextStyle) = option_marker(i == selected);
        let mut spans: Vec<Span> = Vec::new();
        spans.push(Span::styled(marker.to_owned(), style));
        let number: String = decimal_of(i as u64 + 1);
        spans.push(Span::styled(cat3(number.as_str(), ". ", options[i].as_str()), style));
        let line: Line = Line { spans };
        assert(line@ =~= option_row(
            decimal(i as int + 1) + ". "@ + labels[i as int],
            i == selected,
        ));
        push_line(&mut lines, line);
        i = i + 1;
        assert(line_views(lines@) =~= top + option_rows(labels, i as int, selected as int));
    }
    assert(line_views(lines@) =~= stanza_rows(
        renderer.highlighter(),
        label@,
        action@,
        labels,
        selected as int,
        width as int,
    ));
    lines
}

/// The labels of the approval options.
pub open spec fn approval_labels() -> Seq<Seq<char>> {
    Seq::new(ApprovalOption::ALL@.len(), |i: int| ApprovalOption::ALL@[i].caption())
}

/// The labels of the plan options.
pub open spec fn plan_labels() -> Seq<Seq<char>> {
    Seq::new(PlanOption::ALL@.len(), |i: int| PlanOption::ALL@[i].caption())
}

/// The stanza's width on screen: at least one cell.
pub open spec fn stanza_width(area: Rect) -> int {
    if area.width < 1 {
        1
    } else {
        area.width as int
    }
}

fn inner_width(area: Rect) -> (r: usize)
    ensures
        r == stanza_width(area),
{
    if area.width < 1 {
        1
    } else {
        area.width as usize
    }
}

/// The tool-call confirmation: the proposed action plus its options.
pub fn approval_lines(renderer: &mut Renderer, pending: &PendingApproval, area: Rect) -> (r: Vec<Line>)
    requires
        old(renderer).wf(),
    ensures
        final(renderer).wf(),
        final(renderer).highlighter() == old(renderer).highlighter(),
        line_views(r@) == stanza_rows(
            old(renderer).highlighter(),
            "aprovação"@,
            PendingApproval::question(pending.prompt@),
            approval_labels(),
            pending.selected as int,
            stanza_width(area),
        ),
{
    let mut options: Vec<String> = Vec::new();
    let mut i: usize = 0;
    while i < ApprovalOption::ALL.len()
        invariant
            i <= ApprovalOption::ALL@.len(),
            options@.len() == i,
            forall|k: int| 0 <= k < i ==> (#[trigger] options@[k])@ == approval_labels()[k],
        decreases ApprovalOption::ALL@.len() - i,
    {
        options.push(ApprovalOption::ALL[i].label().to_owned());
        i = i + 1;
    }
    assert(views(options@) =~= approval_labels());
    render_stanza(
        renderer,
        "aprovação",
        pending.action().as_str(),
        &options,
        pending.selected,
        inner_width(area),
    )
}

/// The plan stanza, shown just above the input so that the plan text stays visible above it.
pub fn plan_lines(renderer: &mut Renderer, plan: &PendingPlan, area: Rect) -> (r: Vec<Line>)
    requires
        old(renderer).wf(),
    ensures
        final(renderer).wf(),
        final(renderer).highlighter() == old(renderer).highlighter(),
        line_views(r@) == stanza_rows(
            old(renderer).highlighter(),
            "plano"@,
            PLAN_ACTION@,
            plan_labels(),
            plan.selected as int,
            stanza_width(area),
        ),
{
    let mut options: Vec<String> = Vec::new();
    let mut i: usize = 0;
    while i < PlanOption::ALL.len()
        invariant
            i <= PlanOption::ALL@.len(),
            options@.len() == i,
            forall|k: int| 0 <= k < i ==> (#[trigger] options@[k])@ == plan_labels()[k],
        decreases PlanOption::ALL@.len() - i,
    {
        options.push(PlanOption::ALL[i].label().to_owned());
        i = i + 1;
    }
    assert(views(options@) =~= plan_labels());
    render_stanza(renderer, "plano", PLAN_ACTION, &options, plan.selected, inner_width(area))
}

/// The rows that a stanza asks for, at most the area's.
pub open spec fn stanza_height(action_rows: int, option_count: int, area: Rect) -> int {
    let wanted = 3 + action_rows + option_count;
    let most = if area.height < 1 {
        1
    } else {
        area.height as int
    };
    if wanted < most {
        wanted
    } else {
        most
    }
}

/// The width and height the stanza occupies in `area`: full width, and a height of one hairline row, the label, the
/// wrapped action, a blank, and one row per option. Used to reserve exactly the rows the stanza needs at the
/// bottom, so it never overlays the transcript or the plan text.
pub fn box_dims(renderer: &mut Renderer, area: Rect, action: &str, option_count: usize) -> (r: (u16, u16))
    requires
        old(renderer).wf(),
    ensures
        final(renderer).wf(),
        final(renderer).highlighter() == old(renderer).highlighter(),
        r.0 == area.width,
        r.1 == stanza_height(
            rendered(old(renderer).highlighter(), action@, inked(Ink::Steel), stanza_width(area)).len() as int,
            option_count as int,
            area,
        ),
{
    let rows: usize = renderer.render(action, strong(), inner_width(area)).len();
    let most: u16 = if area.height < 1 {
        1
    } else {
        area.height
    };
    let wanted: usize = rows.saturating_add(option_count).saturating_add(3);
    let height: u16 = if wanted < most as usize {
        wanted as u16
    } else {
        most
    };
    (area.width, height)
}

/// A stanza that is not squeezed has exactly as many rows as are reserved for it.
pub proof fn stanza_fills_its_region(
    h: Highlighter,
    label: Seq<char>,
    action: Seq<char>,
    options: Seq<Seq<char>>,
    selected: int,
    area: Rect,
)
    requires
        3 + rendered(h, action, inked(Ink::Steel), stanza_width(area)).len() + options.len()
            <= area.height,
    ensures
        stanza_rows(h, label, action, options, selected, stanza_width(area)).len() == stanza_height(
            rendered(h, action, inked(Ink::Steel), stanza_width(area)).len() as int,
            options.len() as int,
            area,
        ),
{
    option_row_count(options, options.len() as int, selected);
}

proof fn option_row_count(options: Seq<Seq<char>>, n: int, selected: int)
    requires
        n >= 0,
    ensures
        option_rows(options, n, selected).len() == n,
    decreases n,
{
    if n > 0 {
        option_row_count(options, n - 1, selected);
    }
}

} // verus!
