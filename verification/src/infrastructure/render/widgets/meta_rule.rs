//! The status spine above the input.
use vstd::prelude::*;
use crate::domain::model::{elapsed_text, Model};
use crate::infrastructure::render::cells::{
    cells, cells_bounds, cells_of_char, display_width, ellipsis_adds_one, tail_within, take_tail,
};
use crate::infrastructure::render::line::{push_span, span_views, styled_run, Line, Span, SpanView};
use crate::infrastructure::render::theme::{accent, base, dim, ink, inked, spinner_glyph, Ink, SPINNER};
use crate::kernel::ApprovalMode;
use crate::style::TextStyle;
use crate::text::{cat2, cat3, repeat_char, repeated};

verus! {

/// One empty cell kept at the line's end so a glyph a terminal renders wider than its measured width nudges into
/// the slack instead of pushing the closing cap off-screen.
pub const SAFETY: usize = 1;

/// The label of an approval mode.
pub open spec fn mode_label(mode: ApprovalMode) -> Seq<char> {
    match mode {
        ApprovalMode::Default => "DEFAULT"@,
        ApprovalMode::Auto => "AUTO"@,
        ApprovalMode::Plan => "PLAN"@,
    }
}

/// The style of an approval mode: default is dim, auto warns, plan accents.
pub open spec fn mode_style(mode: ApprovalMode) -> TextStyle {
    match mode {
        ApprovalMode::Default => inked(Ink::Brand),
        ApprovalMode::Auto => inked(Ink::Warning).with_bg(Ink::Void.rgb()),
        ApprovalMode::Plan => inked(Ink::Highlight).with_bg(Ink::Void.rgb()),
    }
}

/// The approval-mode badge: label and style.
pub fn mode_badge(mode: ApprovalMode) -> (r: (&'static str, TextStyle))
    ensures
        r.0@ == mode_label(mode),
        r.1 == mode_style(mode),
{
    match mode {
        ApprovalMode::Default => ("DEFAULT", dim()),
        ApprovalMode::Auto => ("AUTO", base().fg(Ink::Warning.color())),
        ApprovalMode::Plan => ("PLAN", base().fg(Ink::Highlight.color())),
    }
}

/// The cells left for the context: the width less the least fill, the right cluster, the mode label, the anchor and
/// the safety margin.
pub open spec fn context_budget(width: int, right_len: int, mode_label: Seq<char>) -> int {
    let right = if right_len > 0 {
        right_len + 1
    } else {
        0
    };
    let left = width - (1 + right + cells(mode_label) + 2 + SAFETY);
    if left < 0 {
        0
    } else {
        left
    }
}

/// The context that fits: the whole of it, the workspace alone, the workspace's tail behind an ellipsis, or nothing.
pub open spec fn fitted_context(full: Seq<char>, workspace: Seq<char>, budget: int) -> Seq<char> {
    if cells(full) <= budget {
        full
    } else if cells(workspace) <= budget {
        workspace
    } else if budget <= 1 {
        Seq::empty()
    } else {
        "…"@ + tail_within(workspace, budget - 1)
    }
}

/// Pick the context string that fits the available width. Falls back to the workspace alone, then to its tail (the
/// actual folder, prefixed with `…`), and finally to an empty string: the mode anchor always survives.
pub fn fit_context(full: &str, workspace: &str, width: usize, right_len: usize, mode_label: &str) -> (r: String)
    ensures
        r@ == fitted_context(
            full@,
            workspace@,
            context_budget(width as int, right_len as int, mode_label@),
        ),
        cells(r@) <= context_budget(width as int, right_len as int, mode_label@),
{
    let right: usize = if right_len > 0 {
        right_len.saturating_add(1)
    } else {
        0
    };
    proof {
        cells_bounds(mode_label@);
    }
    let overhead: usize = right.saturating_add(display_width(mode_label)).saturating_add(3 + SAFETY);
    let budget: usize = width.saturating_sub(overhead);
    assert(budget == context_budget(width as int, right_len as int, mode_label@));
    if display_width(full) <= budget {
        return full.to_owned();
    }
    if display_width(workspace) <= budget {
        return workspace.to_owned();
    }
    if budget <= 1 {
        let none: String = String::new();
        assert(none@ =~= Seq::<char>::empty());
        assert(cells(none@) == 0);
        return none;
    }
    // Keep the tail of the workspace: the working directory's name is more useful than its drive prefix. One cell is
    // reserved for the leading ellipsis.
    let dots: usize = cells_of_char('…');
    let tail: String = take_tail(workspace, budget - dots);
    proof {
        cells_bounds(full@);
        ellipsis_adds_one(tail@);
    }
    cat2("…", tail.as_str())
}

/// What the right cluster says: the spinner and elapsed time while a turn runs, a lasting error badge once one
/// failed, nothing otherwise.
pub open spec fn activity_text(m: Model) -> Seq<char> {
    if m.busy {
        seq![SPINNER@[m.status.spinner_frame as int % 10]] + " "@ + elapsed_text(
            m.status.elapsed_secs as int,
        )
    } else if m.status.turn_failed {
        "✗ erro"@
    } else {
        Seq::empty()
    }
}

/// The style of the right cluster.
pub open spec fn activity_style(m: Model) -> TextStyle {
    if m.busy {
        inked(Ink::Highlight)
    } else if m.status.turn_failed {
        inked(Ink::Error)
    } else {
        TextStyle::plain()
    }
}

/// The context of a model at a width.
pub open spec fn model_context(m: Model, width: int) -> Seq<char> {
    fitted_context(
        m.status.model@ + " · "@ + m.status.workspace@,
        m.status.workspace@,
        context_budget(width, cells(activity_text(m)), mode_label(m.approval_mode)),
    )
}

/// The cells between the context and the right cluster.
pub open spec fn fill_cells(context: Seq<char>, right: Seq<char>, label: Seq<char>, width: int) -> int {
    let left = width - cells(context) - cells(right) - cells(label) - cells(" ◈"@) - SAFETY;
    if left < 1 {
        1
    } else {
        left
    }
}

/// The status spine: the context, the void, the right cluster, and the mode behind its anchor.
pub open spec fn spine(m: Model, width: int) -> Seq<SpanView> {
    let context = model_context(m, width);
    let activity = activity_text(m);
    let right = if activity.len() == 0 {
        activity
    } else {
        activity + " "@
    };
    let label = mode_label(m.approval_mode);
    let head = seq![
        styled_run(context, inked(Ink::Brand)),
        styled_run(
            repeated(' ', fill_cells(context, right, label, width) as nat),
            inked(Ink::Steel).with_bg(Ink::Void.rgb()),
        ),
    ];
    (if right.len() == 0 {
        head
    } else {
        head.push(styled_run(right, activity_style(m)))
    }) + seq![
        styled_run(label, mode_style(m.approval_mode)),
        styled_run(" ◈"@, inked(Ink::Brand)),
    ]
}

fn activity(model: &Model) -> (r: (String, TextStyle))
    ensures
        r.0@ == activity_text(*model),
        r.1 == activity_style(*model),
{
    if model.busy {
        let mut glyph: String = String::new();
        glyph.push(spinner_glyph(model.status.spinner_frame));
        assert(glyph@ =~= seq![SPINNER@[model.status.spinner_frame as int % 10]]);
        (cat3(glyph.as_str(), " ", model.status.elapsed_label().as_str()), accent())
    } else if model.status.turn_failed {
        ("✗ erro".to_owned(), ink(Ink::Error))
    } else {
        let none: String = String::new();
        assert(none@ =~= Seq::<char>::empty());
        (none, TextStyle::new())
    }
}

/// The quiet status spine directly above the input: the context (`model · workspace`) sits dim at the left, the
/// approval mode is ghosted right behind a single `◈` anchor, and only void breathes between them. While a turn runs
/// the spinner and elapsed seconds take the one accent just left of the mode; once a turn ends in error, the same
/// slot holds a persistent badge until the next turn begins. As width shrinks the workspace is abbreviated then
/// dropped, but the mode anchor always survives.
pub fn meta_line(model: &Model, width: usize) -> (r: Line)
    ensures
        r@ == spine(*model, width as int),
{
    let (label, label_style): (&'static str, TextStyle) = mode_badge(model.approval_mode);
    let (content, content_style): (String, TextStyle) = activity(model);
    let full: String = cat3(model.status.model.as_str(), " · ", model.status.workspace.as_str());
    let context: String = fit_context(
        full.as_str(),
        model.status.workspace.as_str(),
        width,
        display_width(content.as_str()),
        label,
    );
    let right: String = if content.as_str().is_empty() {
        content
    } else {
        cat2(content.as_str(), " ")
    };
    proof {
        cells_bounds(context@);
        cells_bounds(right@);
        cells_bounds(label@);
        cells_bounds(" ◈"@);
    }
    let taken: usize = display_width(context.as_str()).saturating_add(
        display_width(right.as_str()),
    ).saturating_add(display_width(label)).saturating_add(display_width(" ◈")).saturating_add(SAFETY);
    let left: usize = width.saturating_sub(taken);
    let fill: usize = if left < 1 {
        1
    } else {
        left
    };
    let mut spans: Vec<Span> = Vec::new();
    assert(span_views(spans@) =~= Seq::<SpanView>::empty());
    push_span(&mut spans, Span::styled(context, dim()));
    push_span(&mut spans, Span::styled(repeat_char(' ', fill), base()));
    if !right.as_str().is_empty() {
        push_span(&mut spans, Span::styled(right, content_style));
    }
    push_span(&mut spans, Span::styled(label.to_owned(), label_style));
    push_span(&mut spans, Span::styled(" ◈".to_owned(), dim()));
    let line: Line = Line { spans };
    assert(line@ =~= spine(*model, width as int));
    line
}

/// However narrow the line, the approval mode and its anchor close it.
pub proof fn mode_always_survives(m: Model, width: int)
    ensures
        spine(m, width).len() >= 4,
        spine(m, width)[spine(m, width).len() - 2].text == mode_label(m.approval_mode),
        spine(m, width).last().text == " ◈"@,
{
}

/// A context that fits its budget is never cut, and one that does not is never shown whole.
pub proof fn context_fits_or_shrinks(full: Seq<char>, workspace: Seq<char>, budget: int)
    requires
        budget >= 0,
    ensures
        cells(full) <= budget ==> fitted_context(full, workspace, budget) == full,
        cells(full) > budget && cells(workspace) <= budget ==> fitted_context(full, workspace, budget)
            == workspace,
        cells(full) > budget && cells(workspace) > budget && budget <= 1 ==> fitted_context(
            full,
            workspace,
            budget,
        ).len() == 0,
{
}

} // verus!
