//! What each part of the screen shows, as styled rows and rectangles.
use vstd::prelude::*;
use crate::infrastructure::render::line::{styled_run, SpanView};
use crate::infrastructure::render::theme::{accent, dim, inked, Ink};
use crate::style::TextStyle;

pub mod approval;
pub mod command_menu;
pub mod editor;
pub mod header;
pub mod meta_rule;
pub mod picker;
pub mod plan_pane;
pub mod search_bar;
pub mod sidebar;
pub mod splash;
pub mod transcript_laws;
pub mod transcript_pane;
pub mod widget_laws;
pub mod wizard;

verus! {

/// The marker of a row of a single-choice list.
pub open spec fn marker_text(selected: bool) -> Seq<char> {
    if selected {
        "❯ "@
    } else {
        "  "@
    }
}

/// The style of a row of a single-choice list.
pub open spec fn marker_style(selected: bool) -> TextStyle {
    if selected {
        inked(Ink::Highlight)
    } else {
        inked(Ink::Brand)
    }
}

/// The selected-row marker idiom shared by every single-choice list (approval, plan, picker, command menu, wizard):
/// the highlighted row carries the `❯` caret in the lone accent colour; the rest get a blank gutter in dim. One
/// source so the lists read identically.
pub fn option_marker(selected: bool) -> (r: (&'static str, TextStyle))
    ensures
        r.0@ == marker_text(selected),
        r.1 == marker_style(selected),
{
    if selected {
        ("❯ ", accent())
    } else {
        ("  ", dim())
    }
}

/// A row of a single-choice list.
pub open spec fn option_row(text: Seq<char>, selected: bool) -> Seq<SpanView> {
    seq![
        styled_run(marker_text(selected), marker_style(selected)),
        styled_run(text, marker_style(selected)),
    ]
}

} // verus!
