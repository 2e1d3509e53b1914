//! The stacked regions of a frame.
use vstd::prelude::*;

verus! {

/// A rectangle of terminal cells.
#[derive(Debug, Clone, Copy, PartialEq, Eq, Structural)]
pub struct Rect {
    pub x: u16,
    pub y: u16,
    pub width: u16,
    pub height: u16,
}

impl Rect {
    /// A rectangle from its corner and size.
    pub fn new(x: u16, y: u16, width: u16, height: u16) -> (r: Rect)
        ensures
            r == (Rect { x, y, width, height }),
    {
        Rect { x, y, width, height }
    }

    /// The rectangle's far edges can be addressed.
    pub open spec fn wf(self) -> bool {
        self.x + self.width <= u16::MAX && self.y + self.height <= u16::MAX
    }

    /// Every cell of this rectangle is a cell of `outer`.
    pub open spec fn within(self, outer: Rect) -> bool {
        &&& outer.x <= self.x && self.x + self.width <= outer.x + outer.width
        &&& outer.y <= self.y && self.y + self.height <= outer.y + outer.height
    }
}

/// How long a part of a split is: exactly so many cells, at least so many and whatever is left over, or a share
/// of the whole in percent.
#[derive(Debug, Clone, Copy, PartialEq, Eq, Structural)]
pub enum PartSize {
    Length(u16),
    AtLeast(u16),
    Percent(u16),
}

/// The cells that the fixed rows of a stack take.
pub open spec fn fixed_total(rows: Seq<PartSize>) -> int
    decreases rows.len(),
{
    if rows.len() == 0 {
        0
    } else {
        fixed_total(rows.drop_last()) + match rows.last() {
            PartSize::Length(n) => n as int,
            PartSize::AtLeast(_) | PartSize::Percent(_) => 0,
        }
    }
}

/// The height of a row in a stack of `height` cells in which everything fits.
pub open spec fn fitted_height(rows: Seq<PartSize>, i: int, height: int) -> int {
    match rows[i] {
        PartSize::Length(n) => n as int,
        PartSize::AtLeast(_) => height - fixed_total(rows),
        PartSize::Percent(_) => 0,
    }
}

/// The cells above a row in a stack of `height` cells in which everything fits.
pub open spec fn fitted_above(rows: Seq<PartSize>, i: int, height: int) -> int
    decreases i,
{
    if i <= 0 {
        0
    } else {
        fitted_above(rows, i - 1, height) + fitted_height(rows, i - 1, height)
    }
}

/// Row `grow` is the only one that takes what is left over, and its least height is left over.
pub open spec fn fits(rows: Seq<PartSize>, grow: int, height: int) -> bool {
    &&& 0 <= grow < rows.len()
    &&& rows[grow] matches PartSize::AtLeast(n) && fixed_total(rows) + n <= height
    &&& forall|i: int| 0 <= i < rows.len() && i != grow ==> #[trigger] rows[i] is Length
}

/// No row takes what is left over, and all have room.
pub open spec fn all_fit(rows: Seq<PartSize>, height: int) -> bool {
    &&& fixed_total(rows) <= height
    &&& forall|i: int| 0 <= i < rows.len() ==> #[trigger] rows[i] is Length
}

/// What the solver takes: it holds a least size in a signed 16-bit number, and it works in hundredths of a cell, where
/// fewer than eight parts have no edge that could round two ways.
pub open spec fn sizes_ok(parts: Seq<PartSize>) -> bool {
    &&& parts.len() < 8
    &&& forall|i: int|
        0 <= i < parts.len() ==> (#[trigger] parts[i] matches PartSize::AtLeast(n) ==> n <= i16::MAX)
}

/// The cells that the least sizes of the first `n` parts take.
pub open spec fn least_upto(parts: Seq<PartSize>, n: int) -> int
    decreases n,
{
    if n <= 0 {
        0
    } else {
        least_upto(parts, n - 1) + match parts[n - 1] {
            PartSize::AtLeast(k) => k as int,
            PartSize::Length(_) | PartSize::Percent(_) => 0,
        }
    }
}

/// The cells that the least sizes take.
pub open spec fn least_total(parts: Seq<PartSize>) -> int {
    least_upto(parts, parts.len() as int)
}

/// What the first `n` parts of `whole` cells ask for, in hundredths of a cell.
pub open spec fn asked_upto(parts: Seq<PartSize>, whole: int, n: int) -> int
    decreases n,
{
    if n <= 0 {
        0
    } else {
        asked_upto(parts, whole, n - 1) + match parts[n - 1] {
            PartSize::AtLeast(k) => 100 * k,
            PartSize::Length(k) => 100 * k,
            PartSize::Percent(p) => p * whole,
        }
    }
}

/// What the parts ask for over and above `whole` cells, in hundredths of a cell; negative where cells are left over.
pub open spec fn excess(parts: Seq<PartSize>, whole: int) -> int {
    asked_upto(parts, whole, parts.len() as int) - 100 * whole
}

/// What holds of the size of a part in every split of `whole` cells. Least sizes are served first, then lengths, then
/// shares, and only a part with a least size takes more than it asks for, where cells are left over. Which of several
/// parts of one kind gives way is left open, and so is the cell that a share is rounded by.
pub open spec fn sized(parts: Seq<PartSize>, whole: int, i: int, size: int) -> bool {
    let least = least_total(parts);
    let firm = least + fixed_total(parts);
    match parts[i] {
        PartSize::AtLeast(n) => {
            &&& least <= whole ==> size >= n
            &&& excess(parts, whole) >= 0 ==> size <= n
        },
        PartSize::Length(n) => {
            &&& size <= n
            &&& firm <= whole ==> size == n
            &&& least >= whole ==> size == 0
        },
        PartSize::Percent(p) => {
            &&& size * 100 <= p * whole + 100
            &&& firm <= whole ==> size * 100 + 100 + (if excess(parts, whole) > 0 {
                excess(parts, whole)
            } else {
                0
            }) >= p * whole
            &&& firm >= whole ==> size == 0
        },
    }
}

/// The parts leave no cell over: one of them takes what is left, or together they ask for all there is.
pub open spec fn filled(parts: Seq<PartSize>, whole: int) -> bool {
    excess(parts, whole) >= 0 || exists|i: int| 0 <= i < parts.len() && #[trigger] parts[i] is AtLeast
}

/// What holds of every way to stack rows in an area: one rectangle per row, each as wide as the area and inside it.
/// They stand one right under the other from the top, each sized as `sized` says, down to the bottom where they leave
/// no cell over. Where all rows fit, fixed rows have their height and the growing one takes the rest.
pub open spec fn stacked(area: Rect, rows: Seq<PartSize>, r: Seq<Rect>) -> bool {
    &&& r.len() == rows.len()
    &&& forall|i: int|
        0 <= i < r.len() ==> (#[trigger] r[i]).x == area.x && r[i].width == area.width && r[i].within(area)
            && sized(rows, area.height as int, i, r[i].height as int)
    &&& r.len() > 0 ==> r[0].y == area.y
    &&& forall|i: int, j: int|
        #![trigger r[i], r[j]]
        0 <= i < j < r.len() ==> r[i].y + r[i].height <= r[j].y && (j == i + 1 ==> r[j].y == r[i].y + r[i].height)
    &&& r.len() > 0 && filled(rows, area.height as int) ==> r.last().y + r.last().height == area.y + area.height
    &&& forall|grow: int, i: int|
        #[trigger] fits(rows, grow, area.height as int) && 0 <= i < r.len() ==> (#[trigger] r[i]).y == area.y
            + fitted_above(rows, i, area.height as int) && r[i].height == fitted_height(
            rows,
            i,
            area.height as int,
        )
    &&& all_fit(rows, area.height as int) ==> forall|i: int|
        0 <= i < r.len() ==> (#[trigger] r[i]).y == area.y + fitted_above(rows, i, area.height as int)
            && r[i].height == fitted_height(rows, i, area.height as int)
}

/// What holds of every way to set columns side by side in an area: one rectangle per column, each as tall as the area
/// and inside it. They stand right beside each other from the left, each sized as `sized` says, up to the right end
/// where they leave no cell over. Where all columns fit, fixed columns have their width and the growing one takes the
/// rest.
pub open spec fn lined_up(area: Rect, columns: Seq<PartSize>, r: Seq<Rect>) -> bool {
    &&& r.len() == columns.len()
    &&& forall|i: int|
        0 <= i < r.len() ==> (#[trigger] r[i]).y == area.y && r[i].height == area.height && r[i].within(area)
            && sized(columns, area.width as int, i, r[i].width as int)
    &&& r.len() > 0 ==> r[0].x == area.x
    &&& forall|i: int, j: int|
        #![trigger r[i], r[j]]
        0 <= i < j < r.len() ==> r[i].x + r[i].width <= r[j].x && (j == i + 1 ==> r[j].x == r[i].x + r[i].width)
    &&& r.len() > 0 && filled(columns, area.width as int) ==> r.last().x + r.last().width == area.x + area.width
    &&& forall|grow: int, i: int|
        #[trigger] fits(columns, grow, area.width as int) && 0 <= i < r.len() ==> (#[trigger] r[i]).x == area.x
            + fitted_above(columns, i, area.width as int) && r[i].width == fitted_height(
            columns,
            i,
            area.width as int,
        )
}

/// `ratatui::layout::Layout::vertical` and `split`. Bounds and order are required of the solver, spacers are empty, and
/// its strengths rank least sizes over lengths over shares. Which of several rows of one kind is squeezed is not
/// determined, and left unsaid.
#[verifier::external_body]
pub(crate) fn split_rows(area: Rect, rows: &Vec<PartSize>) -> (r: Vec<Rect>)
    requires
        area.wf(),
        sizes_ok(rows@),
    ensures
        stacked(area, rows@, r@),
{
    let constraint = |row: &PartSize| match row {
        PartSize::Length(n) => ratatui::layout::Constraint::Length(*n),
        PartSize::AtLeast(n) => ratatui::layout::Constraint::Min(*n),
        PartSize::Percent(n) => ratatui::layout::Constraint::Percentage(*n),
    };
    let native = ratatui::layout::Rect::new(area.x, area.y, area.width, area.height);
    let split = ratatui::layout::Layout::vertical(rows.iter().map(constraint)).split(native);
    split.iter().map(|a| Rect { x: a.x, y: a.y, width: a.width, height: a.height }).collect()
}

/// `ratatui::layout::Layout::horizontal` and `split`, solved as the rows are. Which of several columns of one kind is
/// squeezed is not determined, and left unsaid.
#[verifier::external_body]
pub(crate) fn split_columns(area: Rect, columns: &Vec<PartSize>) -> (r: Vec<Rect>)
    requires
        area.wf(),
        sizes_ok(columns@),
    ensures
        lined_up(area, columns@, r@),
{
    let constraint = |column: &PartSize| match column {
        PartSize::Length(n) => ratatui::layout::Constraint::Length(*n),
        PartSize::AtLeast(n) => ratatui::layout::Constraint::Min(*n),
        PartSize::Percent(n) => ratatui::layout::Constraint::Percentage(*n),
    };
    let native = ratatui::layout::Rect::new(area.x, area.y, area.width, area.height);
    let split = ratatui::layout::Layout::horizontal(columns.iter().map(constraint)).split(native);
    split.iter().map(|a| Rect { x: a.x, y: a.y, width: a.width, height: a.height }).collect()
}

/// Columns of left and right side gutters reserved on a roomy terminal: a small left gutter and a minimal right
/// one, so the transcript and composer cover the full horizontal width.
pub const LEFT_GUTTER: u16 = 2;

pub const RIGHT_GUTTER: u16 = 1;

/// Minimum width/height for the terminal to be considered "roomy" enough for decorative padding.
pub const MIN_ROOMY_WIDTH: u16 = 60;

pub const MIN_ROOMY_HEIGHT: u16 = 12;

/// Bounds for the borderless input editor height: at least one row, capped so it never eats the frame.
pub const MIN_INPUT_HEIGHT: u16 = 1;

pub const MAX_INPUT_HEIGHT: u16 = 6;

/// Below this height the terminal is "short": the hint collapses so the transcript keeps a row.
pub const SHORT_TERMINAL_HEIGHT: u16 = 8;

/// The stacked regions of the core. The model/workspace context sits on the `meta` rule directly above the
/// input, so identity and context cluster around where the user actually types. `prompt_box` is the dedicated
/// slot, directly above the input, for a pending plan or tool-call confirmation, so the box is always anchored
/// to the bottom, never lost in the scrolling transcript.
#[derive(Debug, Clone, Copy, PartialEq, Eq, Structural)]
pub struct Regions {
    pub header: Rect,
    pub transcript: Rect,
    pub meta: Rect,
    pub prompt_box: Rect,
    pub input: Rect,
    pub hint: Rect,
}

pub open spec fn is_roomy(area: Rect) -> bool {
    area.width >= MIN_ROOMY_WIDTH && area.height >= MIN_ROOMY_HEIGHT
}

/// Horizontal padding (total columns) reserved around the whole UI so content never touches the terminal edges.
/// Generous when the terminal is roomy, zero on small ones so nothing is squeezed.
pub fn h_pad_total(area: Rect) -> (r: u16)
    ensures
        r == if is_roomy(area) {
            LEFT_GUTTER + RIGHT_GUTTER
        } else {
            0
        },
{
    if roomy(area) {
        LEFT_GUTTER + RIGHT_GUTTER
    } else {
        0
    }
}

/// Whether the terminal has room to spare for decorative padding (side gutters, top margin, the gap above the
/// input cluster). Below this the UI runs edge-to-edge to keep every row usable.
fn roomy(area: Rect) -> (r: bool)
    ensures
        r == is_roomy(area),
{
    area.width >= MIN_ROOMY_WIDTH && area.height >= MIN_ROOMY_HEIGHT
}

/// The area that the regions are stacked in: inset by the side gutters on a roomy terminal, and by a row above
/// and below unless a box is up, which those rows yield to.
pub open spec fn inner_area(area: Rect, box_h: int) -> Rect {
    if !is_roomy(area) {
        area
    } else if box_h > 0 {
        Rect {
            x: (area.x + LEFT_GUTTER) as u16,
            width: (area.width - LEFT_GUTTER - RIGHT_GUTTER) as u16,
            ..area
        }
    } else {
        Rect {
            x: (area.x + LEFT_GUTTER) as u16,
            y: (area.y + 1) as u16,
            width: (area.width - LEFT_GUTTER - RIGHT_GUTTER) as u16,
            height: (area.height - 2) as u16,
        }
    }
}

/// The height of the input editor.
pub open spec fn input_height(input_lines: int) -> int {
    if input_lines < MIN_INPUT_HEIGHT {
        MIN_INPUT_HEIGHT as int
    } else if input_lines > MAX_INPUT_HEIGHT {
        MAX_INPUT_HEIGHT as int
    } else {
        input_lines
    }
}

/// The gap between the transcript and the input cluster.
pub open spec fn gap_height(area: Rect, box_h: int) -> int {
    if is_roomy(area) && box_h <= 0 {
        2
    } else {
        0
    }
}

/// The height of the hint line.
pub open spec fn hint_height(inner: Rect) -> int {
    if inner.height < SHORT_TERMINAL_HEIGHT {
        0
    } else {
        1
    }
}

/// The rows that the box leaves to the fixed chrome: gap, meta rule, input and hint.
pub open spec fn chrome_height(area: Rect, input_lines: int, box_h: int) -> int {
    gap_height(area, box_h) + 1 + input_height(input_lines) + hint_height(inner_area(area, box_h))
}

/// The height of the box: as tall as asked for, up to what the chrome leaves.
pub open spec fn box_height(area: Rect, input_lines: int, box_h: int) -> int {
    let left = inner_area(area, box_h).height - chrome_height(area, input_lines, box_h);
    if left < 0 {
        0
    } else if box_h < left {
        box_h
    } else {
        left
    }
}

/// The rows of a frame.
pub open spec fn frame_rows(area: Rect, input_lines: int, box_h: int) -> Seq<PartSize> {
    let boxed = box_height(area, input_lines, box_h);
    seq![
        PartSize::Length(0),
        PartSize::AtLeast(
            if boxed > 0 {
                0
            } else {
                1
            },
        ),
        PartSize::Length(gap_height(area, box_h) as u16),
        PartSize::Length(1),
        PartSize::Length(boxed as u16),
        PartSize::Length(input_height(input_lines) as u16),
        PartSize::Length(hint_height(inner_area(area, box_h)) as u16),
    ]
}

/// The terminal is tall enough for the chrome and, with no box, for one transcript row.
pub open spec fn frame_fits(area: Rect, input_lines: int, box_h: int) -> bool {
    inner_area(area, box_h).height >= chrome_height(area, input_lines, box_h) + if box_height(
        area,
        input_lines,
        box_h,
    ) > 0 {
        0int
    } else {
        1int
    }
}

/// The regions of a frame whose rows fit: stacked from top to bottom in the inner area.
pub open spec fn fitted_regions(area: Rect, input_lines: int, box_h: int, r: Regions) -> bool {
    let inner = inner_area(area, box_h);
    let boxed = box_height(area, input_lines, box_h);
    &&& r.header.y == inner.y && r.header.height == 0
    &&& r.transcript.y == inner.y
    &&& r.transcript.height == inner.height - chrome_height(area, input_lines, box_h) - boxed
    &&& r.meta.y == r.transcript.y + r.transcript.height + gap_height(area, box_h)
    &&& r.meta.height == 1
    &&& r.prompt_box.y == r.meta.y + 1 && r.prompt_box.height == boxed
    &&& r.input.y == r.prompt_box.y + boxed && r.input.height == input_height(input_lines)
    &&& r.hint.y == r.input.y + r.input.height && r.hint.height == hint_height(inner)
    &&& r.hint.y + r.hint.height == inner.y + inner.height
}

/// Every region is as wide as the inner area and inside it.
pub open spec fn regions_within(inner: Rect, r: Regions) -> bool {
    &&& r.header.within(inner) && r.transcript.within(inner) && r.meta.within(inner)
    &&& r.prompt_box.within(inner) && r.input.within(inner) && r.hint.within(inner)
    &&& r.header.width == inner.width && r.transcript.width == inner.width && r.meta.width == inner.width
    &&& r.prompt_box.width == inner.width && r.input.width == inner.width && r.hint.width == inner.width
}

/// The regions are the rows of the frame; the third row is the gap.
pub open spec fn regions_of(rows: Seq<Rect>, r: Regions) -> bool {
    &&& r.header == rows[0] && r.transcript == rows[1] && r.meta == rows[3]
    &&& r.prompt_box == rows[4] && r.input == rows[5] && r.hint == rows[6]
}

/// The regions of a frame from its rows.
pub fn regions_from(rows: &Vec<Rect>) -> (r: Regions)
    requires
        rows@.len() == 7,
    ensures
        regions_of(rows@, r),
{
    Regions {
        header: rows[0],
        transcript: rows[1],
        meta: rows[3],
        prompt_box: rows[4],
        input: rows[5],
        hint: rows[6],
    }
}

/// The regions of a frame are rows that `frame_rows` asks for, stacked in the inner area.
pub open spec fn framed(area: Rect, input_lines: int, box_h: int, r: Regions) -> bool {
    exists|rows: Seq<Rect>| #[trigger]
        stacked(inner_area(area, box_h), frame_rows(area, input_lines, box_h), rows) && regions_of(rows, r)
}

/// The regions stand one under the other, from the top of the inner area down to its bottom.
pub open spec fn regions_in_order(inner: Rect, r: Regions) -> bool {
    &&& r.header.y == inner.y && r.header.height == 0
    &&& r.transcript.y == r.header.y
    &&& r.transcript.y + r.transcript.height <= r.meta.y
    &&& r.prompt_box.y == r.meta.y + r.meta.height
    &&& r.input.y == r.prompt_box.y + r.prompt_box.height
    &&& r.hint.y == r.input.y + r.input.height
    &&& r.hint.y + r.hint.height == inner.y + inner.height
}

/// The rows that a frame asks for.
pub fn frame_parts(area: Rect, input_lines: u16, box_h: u16) -> (r: Vec<PartSize>)
    requires
        area.wf(),
    ensures
        r@ == frame_rows(area, input_lines as int, box_h as int),
{
    // A pending plan/approval box must render in full, so when one is up the gap yields its rows to it.
    let gap_h: u16 = if roomy(area) && box_h == 0 {
        2
    } else {
        0
    };
    let inner: Rect = inset(area, box_h);
    let input_h: u16 = if input_lines < MIN_INPUT_HEIGHT {
        MIN_INPUT_HEIGHT
    } else if input_lines > MAX_INPUT_HEIGHT {
        MAX_INPUT_HEIGHT
    } else {
        input_lines
    };
    let hint_h: u16 = if inner.height < SHORT_TERMINAL_HEIGHT {
        0
    } else {
        1
    };
    // The confirmation box must render in full (the user reads its options to answer), so it takes priority over
    // the transcript: it is capped to the rows left by the fixed chrome, and the transcript yields to zero.
    let chrome: u16 = gap_h + 1 + input_h + hint_h;
    let left: u16 = inner.height.saturating_sub(chrome);
    let boxed: u16 = if box_h < left {
        box_h
    } else {
        left
    };
    let transcript_min: u16 = if boxed > 0 {
        0
    } else {
        1
    };
    let rows: Vec<PartSize> = vec![
        PartSize::Length(0),
        PartSize::AtLeast(transcript_min),
        PartSize::Length(gap_h),
        PartSize::Length(1),
        PartSize::Length(boxed),
        PartSize::Length(input_h),
        PartSize::Length(hint_h),
    ];
    assert(rows@ =~= frame_rows(area, input_lines as int, box_h as int));
    rows
}

/// The area that the regions are stacked in. The side gutters cost no rows and always stay on a roomy terminal; the
/// rows above and below yield to a box.
fn inset(area: Rect, box_h: u16) -> (r: Rect)
    requires
        area.wf(),
    ensures
        r == inner_area(area, box_h as int),
        r.wf(),
{
    if !roomy(area) {
        return area;
    }
    let airy: bool = box_h == 0;
    Rect {
        x: area.x + LEFT_GUTTER,
        y: if airy {
            area.y + 1
        } else {
            area.y
        },
        width: area.width - LEFT_GUTTER - RIGHT_GUTTER,
        height: if airy {
            area.height - 2
        } else {
            area.height
        },
    }
}

proof fn frame_totals(area: Rect, input_lines: int, box_h: int)
    requires
        box_h >= 0,
        input_lines >= 0,
    ensures
        ({
            let rows = frame_rows(area, input_lines, box_h);
            let h = inner_area(area, box_h).height as int;
            let boxed = box_height(area, input_lines, box_h);
            let rest = h - chrome_height(area, input_lines, box_h) - boxed;
            &&& fixed_total(rows) == chrome_height(area, input_lines, box_h) + boxed
            &&& least_total(rows) == if boxed > 0 {
                0int
            } else {
                1int
            }
            &&& frame_fits(area, input_lines, box_h) ==> fits(rows, 1, h)
            &&& fitted_above(rows, 0, h) == 0
            &&& fitted_above(rows, 1, h) == 0
            &&& fitted_above(rows, 2, h) == rest
            &&& fitted_above(rows, 3, h) == rest + gap_height(area, box_h)
            &&& fitted_above(rows, 4, h) == rest + gap_height(area, box_h) + 1
            &&& fitted_above(rows, 5, h) == rest + gap_height(area, box_h) + 1 + boxed
            &&& fitted_above(rows, 6, h) == rest + gap_height(area, box_h) + 1 + boxed + input_height(
                input_lines,
            )
        }),
{
    let rows = frame_rows(area, input_lines, box_h);
    let h = inner_area(area, box_h).height as int;
    reveal_with_fuel(fixed_total, 8);
    reveal_with_fuel(fitted_above, 8);
    reveal_with_fuel(least_upto, 8);
    assert(rows.drop_last() =~= seq![rows[0], rows[1], rows[2], rows[3], rows[4], rows[5]]);
    assert(rows.drop_last().drop_last() =~= seq![rows[0], rows[1], rows[2], rows[3], rows[4]]);
    assert(rows.drop_last().drop_last().drop_last() =~= seq![rows[0], rows[1], rows[2], rows[3]]);
    assert(rows.drop_last().drop_last().drop_last().drop_last() =~= seq![rows[0], rows[1], rows[2]]);
    assert(rows.drop_last().drop_last().drop_last().drop_last().drop_last() =~= seq![
        rows[0],
        rows[1],
    ]);
    assert(rows.drop_last().drop_last().drop_last().drop_last().drop_last().drop_last() =~= seq![
        rows[0],
    ]);
}

/// Split the frame into the (empty) header, the transcript, the meta rule, the optional confirmation box, the
/// borderless input editor (height grows with the buffer, capped), and the hint line. The hint collapses to zero
/// height on very short terminals so the transcript always keeps at least one row; `box_h` is the height the
/// caller computed for a pending plan/approval box (0 when none). On a roomy terminal the whole stack is inset by
/// a gutter (sides + top/bottom) and a gap separates the scrolling transcript from the input cluster; both
/// collapse to zero on small terminals.
pub fn frame_layout(area: Rect, input_lines: u16, box_h: u16) -> (r: Regions)
    requires
        area.wf(),
    ensures
        framed(area, input_lines as int, box_h as int, r),
        regions_within(inner_area(area, box_h as int), r),
        regions_in_order(inner_area(area, box_h as int), r),
        box_height(area, input_lines as int, box_h as int) == 0 && inner_area(area, box_h as int).height >= 1
            ==> r.transcript.height >= 1,
        frame_fits(area, input_lines as int, box_h as int) ==> fitted_regions(
            area,
            input_lines as int,
            box_h as int,
            r,
        ),
{
    let inner: Rect = inset(area, box_h);
    let rows: Vec<PartSize> = frame_parts(area, input_lines, box_h);
    let split: Vec<Rect> = split_rows(inner, &rows);
    proof {
        let s = split@;
        frame_totals(area, input_lines as int, box_h as int);
        assert(rows@[1] is AtLeast);
        assert(s[0].height == 0 && s[1].y == s[0].y);
        assert(s[1].y + s[1].height <= s[3].y);
        assert(s[4].y == s[3].y + s[3].height && s[5].y == s[4].y + s[4].height);
        assert(s[6].y == s[5].y + s[5].height);
        assert(s.last() == s[6]);
        assert(sized(rows@, inner.height as int, 1, s[1].height as int));
        if frame_fits(area, input_lines as int, box_h as int) {
            assert(fits(rows@, 1, inner.height as int));
            assert(s[3].y == inner.y + fitted_above(rows@, 3, inner.height as int));
        }
    }
    regions_from(&split)
}

/// The transcript keeps a row, however short the terminal is and however long the input, as long as no box is up.
pub proof fn the_transcript_keeps_a_row(area: Rect, input_lines: int, r: Regions)
    requires
        input_lines >= 0,
        framed(area, input_lines, 0, r),
        inner_area(area, 0).height >= 1,
    ensures
        r.transcript.height >= 1,
{
    frame_totals(area, input_lines, 0);
    let rows = frame_rows(area, input_lines, 0);
    let s = choose|s: Seq<Rect>| #[trigger] stacked(inner_area(area, 0), rows, s) && regions_of(s, r);
    assert(s[1] == r.transcript);
    assert(rows[1] is AtLeast);
}

/// A confirmation box gets all the rows it asks for, unless the chrome alone leaves fewer; the transcript keeps
/// a row whenever no box is up.
pub proof fn box_takes_priority(area: Rect, input_lines: int, box_h: int, r: Regions)
    requires
        fitted_regions(area, input_lines, box_h, r),
        frame_fits(area, input_lines, box_h),
        box_h >= 0,
    ensures
        box_h + chrome_height(area, input_lines, box_h) <= inner_area(area, box_h).height
            ==> r.prompt_box.height == box_h,
        box_h == 0 ==> r.transcript.height >= 1,
{
}

/// Without a box, every terminal of at least fourteen rows has room for the whole frame.
pub proof fn tall_terminals_fit(area: Rect, input_lines: int)
    requires
        area.height >= 14,
        input_lines >= 0,
    ensures
        frame_fits(area, input_lines, 0),
{
}

/// The regions do not overlap, whether they fit or not: they follow one another from top to bottom.
pub proof fn regions_are_stacked(area: Rect, input_lines: int, box_h: int, r: Regions)
    requires
        framed(area, input_lines, box_h, r),
    ensures
        r.header.y + r.header.height <= r.transcript.y,
        r.transcript.y + r.transcript.height <= r.meta.y,
        r.meta.y + r.meta.height <= r.prompt_box.y,
        r.prompt_box.y + r.prompt_box.height <= r.input.y,
        r.input.y + r.input.height <= r.hint.y,
{
    let rows = frame_rows(area, input_lines, box_h);
    let s = choose|s: Seq<Rect>|
        #[trigger] stacked(inner_area(area, box_h), rows, s) && regions_of(s, r);
    assert(s[0] == r.header && s[1] == r.transcript && s[3] == r.meta);
    assert(s[4] == r.prompt_box && s[5] == r.input && s[6] == r.hint);
}

/// The editor is as tall as its text, from one row up to six, the meta rule has one row, and the hint has one but on short
/// terminals.
pub proof fn the_editor_grows_to_six_rows(area: Rect, input_lines: int, box_h: int, r: Regions)
    requires
        fitted_regions(area, input_lines, box_h, r),
        input_lines >= 0,
    ensures
        r.input.height == if input_lines < 1 {
            1
        } else if input_lines > 6 {
            6
        } else {
            input_lines
        },
        r.meta.height == 1,
        r.hint.height == if inner_area(area, box_h).height < 8 { 0int } else { 1 },
        box_h == 0 ==> r.prompt_box.height == 0,
{
}

/// A roomy terminal keeps two columns free on the left and one on the right, and a row above and below unless a box needs
/// them; a small one is used to the edges.
pub proof fn a_roomy_terminal_is_padded(area: Rect, box_h: int)
    requires
        area.wf(),
        box_h >= 0,
    ensures
        area.width >= 60 && area.height >= 12 ==> {
            let inner = inner_area(area, box_h);
            &&& inner.x == area.x + 2 && inner.width == area.width - 3
            &&& box_h == 0 ==> inner.y == area.y + 1 && inner.height == area.height - 2
            &&& box_h > 0 ==> inner.y == area.y && inner.height == area.height
        },
        area.width < 60 || area.height < 12 ==> inner_area(area, box_h) == area,
{
}

} // verus!
