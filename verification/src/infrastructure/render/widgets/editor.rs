//! The composer: where its text stands, and which character a click points at.
use vstd::prelude::*;
use crate::domain::input_buffer::{EditorView, InputBuffer};
use crate::infrastructure::render::cells::{cells, cells_grow, cells_of_char, display_width};
use crate::infrastructure::render::layout::Rect;
use crate::infrastructure::render::view::PROMPT_COLS;
use crate::text::{chars_of, contains, occurs, views};

verus! {

/// The composer's region less the prompt gutter.
pub open spec fn text_area(input: Rect) -> Rect {
    let gutter = if input.width < PROMPT_COLS {
        input.width
    } else {
        PROMPT_COLS
    };
    Rect { x: (input.x + gutter) as u16, width: (input.width - gutter) as u16, ..input }
}

/// Where the composer's text stands: its region less the prompt gutter.
pub fn content_rect(input: Rect) -> (r: Rect)
    requires
        input.wf(),
    ensures
        r == text_area(input),
        r.within(input),
{
    let gutter: u16 = if input.width < PROMPT_COLS {
        input.width
    } else {
        PROMPT_COLS
    };
    Rect { x: input.x + gutter, width: input.width - gutter, ..input }
}

/// Every character stands where its line and its column say: no line wraps or holds a tab, and none is scrolled
/// out.
pub open spec fn laid_out_plainly(buf: EditorView, area: Rect) -> bool {
    &&& buf.lines.len() <= area.height
    &&& forall|i: int|
        0 <= i < buf.lines.len() ==> cells(#[trigger] buf.lines[i]) <= area.width && !occurs(
            buf.lines[i],
            "\t"@,
        )
}

/// The click lies on a row of the text.
pub open spec fn on_the_text(buf: EditorView, area: Rect, col: u16, row: u16) -> bool {
    &&& area.x <= col < area.x + area.width
    &&& area.y <= row < area.y + area.height
    &&& row - area.y < buf.lines.len()
}

/// The cell `offset` of a line belongs to its character `k`; a cell past the end belongs to the end.
pub open spec fn at_cell(line: Seq<char>, offset: int, k: int) -> bool {
    &&& 0 <= k <= line.len()
    &&& cells(line.take(k)) <= offset
    &&& k < line.len() ==> cells(line.take(k + 1)) > offset
}

fn find_at_cell(line: &str, offset: usize) -> (r: usize)
    requires
        offset < usize::MAX,
    ensures
        at_cell(line@, offset as int, r as int),
{
    let chars: Vec<char> = chars_of(line);
    let mut at: usize = 0;
    let mut used: usize = 0;
    assert(cells(line@.take(0)) == 0);
    while at < chars.len()
        invariant
            chars@ == line@,
            at <= line@.len(),
            used == cells(line@.take(at as int)),
            used <= offset,
            offset < usize::MAX,
        decreases line@.len() - at,
    {
        let ghost next = line@.take(at + 1);
        assert(next.drop_last() =~= line@.take(at as int));
        let width: usize = cells_of_char(chars[at]);
        if width > offset - used {
            return at;
        }
        used = used + width;
        at = at + 1;
    }
    at
}

/// Resolve a composer click to a logical cursor position. A click off the text, or a layout in which a cell says
/// nothing sure about the character (wrapped, scrolled or tabbed), resolves to nothing, so that the cursor is
/// never misplaced.
pub fn click_to_cursor(buf: &InputBuffer, area: Rect, col: u16, row: u16) -> (r: Option<(usize, usize)>)
    requires
        buf@.wf(),
        area.wf(),
    ensures
        match r {
            Some(at) => {
                &&& laid_out_plainly(buf@, area)
                &&& on_the_text(buf@, area, col, row)
                &&& at.0 == row - area.y
                &&& at_cell(buf@.lines[at.0 as int], col - area.x, at.1 as int)
            },
            None => !laid_out_plainly(buf@, area) || !on_the_text(buf@, area, col, row),
        },
{
    if col < area.x || col - area.x >= area.width || row < area.y || row - area.y >= area.height {
        return None;
    }
    let lines: Vec<String> = buf.lines();
    assert(lines@.len() == buf@.lines.len());
    if lines.len() > area.height as usize {
        return None;
    }
    for i in 0..lines.len()
        invariant
            views(lines@) == buf@.lines,
            forall|j: int|
                0 <= j < i ==> cells(#[trigger] buf@.lines[j]) <= area.width && !occurs(
                    buf@.lines[j],
                    "\t"@,
                ),
    {
        assert(lines@[i as int]@ == buf@.lines[i as int]);
        if display_width(lines[i].as_str()) > area.width as usize || contains(lines[i].as_str(), "\t") {
            return None;
        }
    }
    let at: usize = (row - area.y) as usize;
    if at >= lines.len() {
        return None;
    }
    assert(lines@[at as int]@ == buf@.lines[at as int]);
    Some((at, find_at_cell(lines[at].as_str(), (col - area.x) as usize)))
}

/// A click points at one character alone.
pub proof fn a_cell_has_one_character(line: Seq<char>, offset: int, j: int, k: int)
    requires
        at_cell(line, offset, j),
        at_cell(line, offset, k),
    ensures
        j == k,
{
    if j < k {
        cells_grow(line.take(k), j + 1);
        assert(line.take(k).take(j + 1) =~= line.take(j + 1));
    } else if k < j {
        cells_grow(line.take(j), k + 1);
        assert(line.take(j).take(k + 1) =~= line.take(k + 1));
    }
}

} // verus!
