//! The slash-command dropdown.
use vstd::prelude::*;
use vstd::string::*;
use crate::domain::command_menu::{CommandMenu, EntryView, MenuEntry};
use crate::infrastructure::render::cells::{
    cells, cells_bounds, cells_of_char, display_width, ellipsis_adds_one, head_within, take_head,
};
use crate::infrastructure::render::layout::Rect;
use crate::infrastructure::render::line::{line_views, styled_run, Line, Span, SpanView};
use crate::infrastructure::render::theme::{dim, inked, Ink};
use crate::infrastructure::render::widgets::{marker_style, marker_text, option_marker};
use crate::style::TextStyle;
use crate::text::{cat2, cat3, join_by, join_text, views};

verus! {

/// The title of the list.
pub const TITLE: &'static str = " comandos ";

/// The list's height: its rows and two borders, at most what is above the anchor (but no less than two).
pub open spec fn list_height(anchor: Rect, rows: int) -> int {
    let most = if anchor.y < 2 {
        2
    } else {
        anchor.y as int
    };
    if rows + 2 < most {
        rows + 2
    } else {
        most
    }
}

/// Anchor the list to the top edge of `anchor` (the input region), so it floats just above the editor. Height is
/// the smaller of the desired rows and the vertical space; width the smaller of the anchor's and 64, left-aligned
/// with the editor column.
pub fn box_rect(anchor: Rect, row_count: usize) -> (r: Rect)
    ensures
        r.x == anchor.x,
        r.width == if anchor.width < 64 {
            anchor.width
        } else {
            64
        },
        r.height == list_height(anchor, row_count as int),
        r.y == if anchor.y < r.height {
            0
        } else {
            anchor.y - r.height
        },
{
    let most: u16 = if anchor.y < 2 {
        2
    } else {
        anchor.y
    };
    let wanted: usize = row_count.saturating_add(2);
    let height: u16 = if wanted < most as usize {
        wanted as u16
    } else {
        most
    };
    Rect {
        x: anchor.x,
        y: anchor.y.saturating_sub(height),
        width: if anchor.width < 64 {
            anchor.width
        } else {
            64
        },
        height,
    }
}

/// A blurb cut to a number of cells, an ellipsis in the place of what does not fit.
pub open spec fn clipped_blurb(blurb: Seq<char>, budget: int) -> Seq<char> {
    if budget <= 0 {
        Seq::empty()
    } else if cells(blurb) <= budget {
        blurb
    } else if budget == 1 {
        "…"@
    } else {
        head_within(blurb, budget - 1) + "…"@
    }
}

/// Truncate `blurb` to `budget` display columns, appending an ellipsis when it does not fit. A zero or tiny budget
/// yields an empty string rather than overflow.
pub fn truncate_blurb(blurb: &str, budget: usize) -> (r: String)
    ensures
        r@ == clipped_blurb(blurb@, budget as int),
        cells(r@) <= budget,
{
    if budget == 0 {
        let none: String = String::new();
        assert(none@ =~= Seq::<char>::empty());
        return none;
    }
    if display_width(blurb) <= budget {
        return blurb.to_owned();
    }
    let dots: usize = cells_of_char('…');
    if budget == 1 {
        proof {
            assert(Seq::<char>::empty() + "…"@ =~= "…"@);
            ellipsis_adds_one(Seq::empty());
        }
        return "…".to_owned();
    }
    let head: String = take_head(blurb, budget - dots);
    proof {
        cells_bounds(blurb@);
        ellipsis_adds_one(head@);
    }
    cat2(head.as_str(), "…")
}

/// The synonyms of a command in parentheses; nothing where there are none.
pub open spec fn alias_text(aliases: Seq<Seq<char>>) -> Seq<char> {
    if aliases.len() == 0 {
        Seq::empty()
    } else {
        " ("@ + join_by(aliases, ", "@) + ")"@
    }
}

/// The cells left for a blurb: the row less the marker, the name, the synonyms and a gap.
pub open spec fn blurb_budget(entry: EntryView, width: int) -> int {
    let left = width - 2 - cells(entry.name) - cells(alias_text(entry.aliases)) - 2;
    if left < 0 {
        0
    } else {
        left
    }
}

/// A row of the list.
pub open spec fn menu_row(entry: EntryView, selected: bool, width: int) -> Seq<SpanView> {
    let style = marker_style(selected);
    seq![
        styled_run(marker_text(selected), style),
        styled_run(entry.name, style),
        styled_run(alias_text(entry.aliases), inked(Ink::Brand)),
        styled_run("  "@, style),
        styled_run(clipped_blurb(entry.blurb, blurb_budget(entry, width)), style),
    ]
}

/// The rows of the list.
pub open spec fn menu_rows(rows: Seq<EntryView>, selected: int, width: int) -> Seq<Seq<SpanView>> {
    Seq::new(rows.len(), |i: int| menu_row(rows[i], i == selected, width))
}

fn alias_label(entry: &MenuEntry<'_>) -> (r: String)
    ensures
        r@ == alias_text(entry.shown().aliases),
{
    let aliases: Vec<&'static str> = entry.aliases();
    if aliases.len() == 0 {
        let none: String = String::new();
        assert(none@ =~= Seq::<char>::empty());
        return none;
    }
    let ghost names = entry.shown().aliases;
    let mut list: Vec<String> = Vec::new();
    let mut i: usize = 0;
    while i < aliases.len()
        invariant
            i <= aliases@.len(),
            aliases@.map_values(|a: &'static str| a@) == names,
            list@.len() == i,
            forall|k: int| 0 <= k < i ==> (#[trigger] list@[k])@ == names[k],
        decreases aliases@.len() - i,
    {
        assert(names[i as int] == aliases@[i as int]@);
        list.push(aliases[i].to_owned());
        i = i + 1;
    }
    assert(views(list@) =~= names);
    cat3(" (", join_text(&list, ", ").as_str(), ")")
}

/// The rows of the slash-command preview. The selected row carries the single accent through its `❯` caret in the
/// gutter; the rest stay dim. A command's synonyms follow its name, so that a user typing one sees it is recognized.
pub fn menu_lines(menu: &CommandMenu, width: usize) -> (r: Vec<Line>)
    requires
        menu.wf(),
    ensures
        line_views(r@) == menu_rows(menu@.rows, menu@.selected, width as int),
{
    let ghost want = menu_rows(menu@.rows, menu@.selected, width as int);
    let mut lines: Vec<Line> = Vec::new();
    let n: usize = menu.len();
    let mut i: usize = 0;
    while i < n
        invariant
            i <= n,
            n == menu@.rows.len(),
            menu.wf(),
            want == menu_rows(menu@.rows, menu@.selected, width as int),
            lines@.len() == i,
            forall|k: int| 0 <= k < i ==> (#[trigger] lines@[k])@ == want[k],
        decreases n - i,
    {
        if let Some(entry) = menu.row(i) {
            let (marker, style): (&'static str, TextStyle) = option_marker(i == menu.selected());
            let aliases: String = alias_label(&entry);
            let taken: usize = display_width(entry.name()).saturating_add(
                display_width(aliases.as_str()),
            ).saturating_add(4);
            proof {
                cells_bounds(entry.shown().name);
                cells_bounds(aliases@);
            }
            let budget: usize = width.saturating_sub(taken);
            assert(budget == blurb_budget(entry.shown(), width as int));
            let mut spans: Vec<Span> = Vec::new();
            spans.push(Span::styled(marker.to_owned(), style));
            spans.push(Span::styled(entry.name().to_owned(), style));
            spans.push(Span::styled(aliases, dim()));
            spans.push(Span::styled("  ".to_owned(), style));
            spans.push(Span::styled(truncate_blurb(entry.blurb(), budget), style));
            let line: Line = Line { spans };
            assert(line@ =~= want[i as int]);
            lines.push(line);
        }
        i = i + 1;
    }
    assert(line_views(lines@) =~= want);
    lines
}

/// The dropdown as it is drawn: its box, borders and all, and its rows. A menu without rows draws nothing.
pub fn dropdown(menu: &CommandMenu, anchor: Rect) -> (r: Option<(Rect, Vec<Line>)>)
    requires
        menu.wf(),
    ensures
        r is None <==> menu@.rows.len() == 0,
        r matches Some(d) ==> {
            &&& d.0.x == anchor.x
            &&& d.0.width == if anchor.width < 64 {
                anchor.width
            } else {
                64
            }
            &&& d.0.height as int == list_height(anchor, menu@.rows.len() as int)
            &&& d.0.y == if d.0.height < anchor.y {
                anchor.y - d.0.height
            } else {
                0
            }
            &&& line_views(d.1@) == menu_rows(
                menu@.rows,
                menu@.selected,
                if d.0.width < 2 {
                    0
                } else {
                    d.0.width - 2
                },
            )
        },
{
    if menu.is_empty() {
        return None;
    }
    let region: Rect = box_rect(anchor, menu.len());
    let lines: Vec<Line> = menu_lines(menu, region.width.saturating_sub(2) as usize);
    Some((region, lines))
}

/// The list floats above the editor and never reaches below the anchor's top, where there are at least two rows.
pub proof fn list_stays_above(anchor: Rect, rows: int)
    requires
        rows >= 0,
        anchor.y >= 2,
    ensures
        list_height(anchor, rows) <= anchor.y,
        list_height(anchor, rows) >= 2,
{
}

} // verus!
