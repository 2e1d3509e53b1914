//! Mouse text selection over the rendered screen.
use vstd::prelude::*;

verus! {

/// How a screen selection grows from a click: a plain drag selects by character; a double/triple click
/// selects the word/line under the cursor. The character ranges for `Word`/`Line` are derived from the
/// rendered buffer, so only the intent is kept here.
#[derive(Debug, Clone, Copy, PartialEq, Eq, Structural)]
pub enum Granularity {
    Char,
    Word,
    Line,
}

impl Default for Granularity {
    fn default() -> (r: Granularity)
        ensures
            r == Granularity::Char,
    {
        Granularity::Char
    }
}

/// What the selection is waiting for on the next draw: `CopyAndKeep` (mouse release, the highlight stays
/// up) or `CopyAndClear` (Ctrl+C, dropped after the copy so that the next Ctrl+C can cancel or quit).
#[derive(Debug, Clone, Copy, PartialEq, Eq, Structural)]
pub enum SelectionState {
    Idle,
    CopyAndKeep,
    CopyAndClear,
}

impl Default for SelectionState {
    fn default() -> (r: SelectionState)
        ensures
            r == SelectionState::Idle,
    {
        SelectionState::Idle
    }
}

/// A text selection over the rendered screen, in absolute `(column, row)` terminal cells.
#[derive(Debug, Clone, Copy, PartialEq, Eq)]
pub struct ScreenSelection {
    /// Where the gesture began (fixed end).
    pub anchor: (u16, u16),
    /// The moving end (follows the drag / last click).
    pub head: (u16, u16),
    pub granularity: Granularity,
    pub state: SelectionState,
}

/// Reading order of two cells: by row, then by column.
pub open spec fn reads_before(a: (u16, u16), b: (u16, u16)) -> bool {
    a.1 < b.1 || (a.1 == b.1 && a.0 <= b.0)
}

impl ScreenSelection {
    /// A fresh selection whose two ends are the clicked cell.
    pub open spec fn at(col: u16, row: u16, granularity: Granularity) -> ScreenSelection {
        ScreenSelection {
            anchor: (col, row),
            head: (col, row),
            granularity,
            state: SelectionState::Idle,
        }
    }

    pub fn new(col: u16, row: u16, granularity: Granularity) -> (r: ScreenSelection)
        ensures
            r == ScreenSelection::at(col, row, granularity),
    {
        ScreenSelection {
            anchor: (col, row),
            head: (col, row),
            granularity,
            state: SelectionState::Idle,
        }
    }

    /// Move the head; the anchor stays put.
    pub fn extend(&mut self, col: u16, row: u16)
        ensures
            *final(self) == (ScreenSelection { head: (col, row), ..*old(self) }),
    {
        self.head = (col, row);
    }

    pub open spec fn spans_nothing(self) -> bool {
        self.granularity == Granularity::Char && self.anchor == self.head
    }

    /// A character selection collapses to nothing when both ends meet (a bare click). A word or line
    /// selection is never empty: even a single click expands to what is under it.
    pub fn is_empty(&self) -> (r: bool)
        ensures
            r == self.spans_nothing(),
    {
        self.granularity == Granularity::Char && self.anchor.0 == self.head.0 && self.anchor.1
            == self.head.1
    }

    /// The two ends in reading order, so the overlay never special-cases drag direction.
    pub fn ordered(&self) -> (r: ((u16, u16), (u16, u16)))
        ensures
            reads_before(r.0, r.1),
            r == (self.anchor, self.head) || r == (self.head, self.anchor),
    {
        if self.anchor.1 < self.head.1 || (self.anchor.1 == self.head.1 && self.anchor.0
            <= self.head.0) {
            (self.anchor, self.head)
        } else {
            (self.head, self.anchor)
        }
    }
}

} // verus!
