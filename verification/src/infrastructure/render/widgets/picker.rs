//! The picker's centered search-modal.
use vstd::prelude::*;
use crate::domain::picker::{Picker, PickerView};
use crate::infrastructure::render::layout::{
    asked_upto, fits, fitted_above, fixed_total, least_upto, sized, split_columns, split_rows, stacked, PartSize, Rect,
};
use crate::infrastructure::render::line::{
    line_views, push_line, styled_row, Line, Span, SpanView,
};
use crate::infrastructure::render::theme::{dim, inked, Ink};
use crate::infrastructure::render::widgets::{option_marker, option_row};
use crate::style::TextStyle;
use crate::text::cat3;

verus! {

/// A number kept between two bounds, the lower one winning.
pub open spec fn bounded(n: int, low: int, high: int) -> int {
    let capped = if n < high {
        n
    } else {
        high
    };
    if capped < low {
        low
    } else {
        capped
    }
}

/// A rectangle of the given size in the middle of an area, cut to it.
pub open spec fn middle(width: int, height: int, area: Rect) -> Rect {
    Rect {
        x: (area.x + if area.width > width {
            (area.width - width) / 2
        } else {
            0
        }) as u16,
        y: (area.y + if area.height > height {
            (area.height - height) / 2
        } else {
            0
        }) as u16,
        width: if width < area.width {
            width as u16
        } else {
            area.width
        },
        height: if height < area.height {
            height as u16
        } else {
            area.height
        },
    }
}

/// A rectangle of the given size in the middle of an area, cut to it.
pub fn centered_rect(width: u16, height: u16, area: Rect) -> (r: Rect)
    requires
        area.wf(),
    ensures
        r == middle(width as int, height as int, area),
        r.within(area),
{
    Rect {
        x: area.x + area.width.saturating_sub(width) / 2,
        y: area.y + area.height.saturating_sub(height) / 2,
        width: if width < area.width {
            width
        } else {
            area.width
        },
        height: if height < area.height {
            height
        } else {
            area.height
        },
    }
}

/// The size of the modal: 64 by 15 cells, less on a small screen, but no less than 20 by 8.
pub open spec fn modal_size(area: Rect) -> (int, int) {
    (
        bounded(
            64,
            20,
            if area.width < 4 {
                0
            } else {
                area.width - 4
            },
        ),
        bounded(
            15,
            8,
            if area.height < 2 {
                0
            } else {
                area.height - 2
            },
        ),
    )
}

fn bound(n: u16, low: u16, high: u16) -> (r: u16)
    ensures
        r == bounded(n as int, low as int, high as int),
{
    let capped: u16 = if n < high {
        n
    } else {
        high
    };
    if capped < low {
        low
    } else {
        capped
    }
}

/// Where the picker's modal stands: centered on the screen.
pub fn modal_rect(area: Rect) -> (r: Rect)
    requires
        area.wf(),
    ensures
        r == middle(modal_size(area).0, modal_size(area).1, area),
        r.within(area),
{
    let width: u16 = bound(64, 20, area.width.saturating_sub(4));
    let height: u16 = bound(15, 8, area.height.saturating_sub(2));
    centered_rect(width, height, area)
}

/// The rows of the modal: the search field, a separator, the options, and the footer.
pub open spec fn modal_parts() -> Seq<PartSize> {
    seq![PartSize::Length(1), PartSize::Length(1), PartSize::AtLeast(1), PartSize::Length(1)]
}

/// The areas of the modal's rows: search field, separator, options, footer.
pub fn modal_rows(inner: Rect) -> (r: Vec<Rect>)
    requires
        inner.wf(),
    ensures
        stacked(inner, modal_parts(), r@),
        r@.len() == 4,
        forall|i: int| 0 <= i < 4 ==> (#[trigger] r@[i]).within(inner),
        inner.height >= 4 ==> {
            &&& r@[0].y == inner.y && r@[0].height == 1
            &&& r@[1].y == inner.y + 1 && r@[1].height == 1
            &&& r@[2].y == inner.y + 2 && r@[2].height == inner.height - 3
            &&& r@[3].y == inner.y + inner.height - 1 && r@[3].height == 1
        },
{
    let parts: Vec<PartSize> = vec![
        PartSize::Length(1),
        PartSize::Length(1),
        PartSize::AtLeast(1),
        PartSize::Length(1),
    ];
    assert(parts@ =~= modal_parts());
    let split: Vec<Rect> = split_rows(inner, &parts);
    proof {
        reveal_with_fuel(fixed_total, 5);
        reveal_with_fuel(fitted_above, 5);
        let p = parts@;
        assert(p.drop_last() =~= seq![p[0], p[1], p[2]]);
        assert(p.drop_last().drop_last() =~= seq![p[0], p[1]]);
        assert(p.drop_last().drop_last().drop_last() =~= seq![p[0]]);
        if inner.height >= 4 {
            assert(fits(p, 2, inner.height as int));
            assert forall|i: int| 0 <= i < 4 implies (#[trigger] split@[i]).y == inner.y + fitted_above(
                p,
                i,
                inner.height as int,
            ) by {}
            assert(split@[0].y == inner.y && split@[1].y == inner.y + 1);
            assert(split@[2].y == inner.y + 2 && split@[3].y == inner.y + inner.height - 1);
        }
    }
    split
}

/// The columns that a labelled field takes: so many for the label, and the rest.
pub const LABEL_COLS: u16 = 11;

/// A row parted in two: so many columns on the left, and what is left of it on the right. The right keeps a column
/// where there is one.
pub open spec fn parted(row: Rect, left: u16, r: (Rect, Rect)) -> bool {
    let cols = if row.width > left {
        left as int
    } else if row.width > 0 {
        row.width - 1
    } else {
        0
    };
    &&& r.0 == (Rect { width: cols as u16, ..row })
    &&& r.1 == (Rect { x: (row.x + cols) as u16, width: (row.width - cols) as u16, ..row })
}

/// Part a row in two: so many columns on the left, and the rest.
pub fn part_row(row: Rect, left: u16) -> (r: (Rect, Rect))
    requires
        row.wf(),
    ensures
        parted(row, left, r),
{
    let columns: Vec<PartSize> = vec![PartSize::Length(left), PartSize::AtLeast(1)];
    let split: Vec<Rect> = split_columns(row, &columns);
    proof {
        reveal_with_fuel(fixed_total, 3);
        reveal_with_fuel(least_upto, 3);
        reveal_with_fuel(asked_upto, 3);
        let c = columns@;
        assert(c.drop_last() =~= seq![c[0]]);
        assert(c[1] is AtLeast);
        assert(sized(c, row.width as int, 0, split@[0].width as int));
        assert(sized(c, row.width as int, 1, split@[1].width as int));
        assert(split@[1].x == split@[0].x + split@[0].width);
        assert(split@.last() == split@[1]);
    }
    (split[0], split[1])
}

/// The search row of the modal: the label, and the field behind it.
pub fn query_columns(row: Rect) -> (r: (Rect, Rect))
    requires
        row.wf(),
    ensures
        parted(row, LABEL_COLS, r),
{
    part_row(row, LABEL_COLS)
}

/// The first row on display: as far down as the highlight needs.
pub open spec fn window_start(selected: int, height: int) -> int {
    if selected >= height {
        selected - height + 1
    } else {
        0
    }
}

/// The row behind the last one on display.
pub open spec fn window_end(selected: int, height: int, len: int) -> int {
    if window_start(selected, height) + height < len {
        window_start(selected, height) + height
    } else {
        len
    }
}

/// The rows of the filtered list that a window of `height` rows shows: the list scrolls so that the highlight stays
/// in sight.
pub fn window(selected: usize, height: usize, len: usize) -> (r: (usize, usize))
    requires
        height > 0 || selected < usize::MAX,
    ensures
        r.0 == window_start(selected as int, height as int),
        r.1 == window_end(selected as int, height as int, len as int),
{
    let start: usize = if selected >= height {
        selected - height + 1
    } else {
        0
    };
    let end: usize = if start < len && height < len - start {
        start + height
    } else {
        len
    };
    (start, end)
}

/// The option rows on display; a note where nothing matches.
pub open spec fn option_list(p: PickerView, height: int) -> Seq<Seq<SpanView>> {
    let rows = p.rows();
    if rows.len() == 0 {
        seq![styled_row("  (nenhum resultado encontrado)"@, inked(Ink::Brand))]
    } else {
        let start = window_start(p.selected, height);
        let end = window_end(p.selected, height, rows.len() as int);
        Seq::new(
            if start < end {
                (end - start) as nat
            } else {
                0
            },
            |i: int| option_row(p.options[rows[start + i]], start + i == p.selected),
        )
    }
}

/// The option rows on display in a list of `height` rows.
pub fn option_lines(picker: &Picker, height: usize) -> (r: Vec<Line>)
    requires
        height > 0 || picker.selected < usize::MAX,
    ensures
        line_views(r@) == option_list(picker@, height as int),
{
    let filtered: Vec<(usize, &str)> = picker.filtered_options();
    let mut lines: Vec<Line> = Vec::new();
    assert(line_views(lines@) =~= Seq::<Seq<SpanView>>::empty());
    if filtered.len() == 0 {
        push_line(&mut lines, Line::styled("  (nenhum resultado encontrado)".to_owned(), dim()));
        assert(line_views(lines@) =~= option_list(picker@, height as int));
        return lines;
    }
    let (start, end): (usize, usize) = window(picker.selected, height, filtered.len());
    let ghost want = option_list(picker@, height as int);
    let mut i: usize = start;
    while i < end
        invariant
            start <= i,
            start < end ==> i <= end,
            start >= end ==> i == start,
            end <= filtered@.len(),
            start == window_start(picker.selected as int, height as int),
            end == window_end(picker.selected as int, height as int, filtered@.len() as int),
            filtered@.len() == picker@.rows().len(),
            filtered@.len() > 0,
            forall|k: int|
                0 <= k < filtered@.len() ==> (#[trigger] filtered@[k]).0 == picker@.rows()[k]
                    && filtered@[k].0 < picker.options@.len() && filtered@[k].1@
                    == picker.options@[filtered@[k].0 as int]@,
            want == option_list(picker@, height as int),
            lines@.len() == i - start,
            forall|k: int| 0 <= k < lines@.len() ==> (#[trigger] lines@[k])@ == want[k],
        decreases end - i,
    {
        let (marker, style): (&'static str, TextStyle) = option_marker(i == picker.selected);
        let mut spans: Vec<Span> = Vec::new();
        spans.push(Span::styled(marker.to_owned(), style));
        spans.push(Span::styled(filtered[i].1.to_owned(), style));
        let line: Line = Line { spans };
        assert(line@ =~= option_row(picker@.options[picker@.rows()[i as int]], i == picker.selected));
        assert(line@ == want[i - start]);
        lines.push(line);
        i = i + 1;
    }
    assert(line_views(lines@) =~= want);
    lines
}

/// The title of the modal.
pub fn title(picker: &Picker) -> (r: String)
    ensures
        r@ == " Escolha "@ + picker.label@ + " "@,
{
    cat3(" Escolha ", picker.label.as_str(), " ")
}

/// The highlighted row is always in sight, in any list of at least one row.
pub proof fn highlight_stays_in_sight(selected: int, height: int, len: int)
    requires
        height >= 1,
        0 <= selected < len,
    ensures
        window_start(selected, height) <= selected < window_end(selected, height, len),
        window_end(selected, height, len) - window_start(selected, height) <= height,
{
}

} // verus!
