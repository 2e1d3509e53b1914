//! Submitted-prompt history with shell-style recall.
use vstd::prelude::*;
use crate::text::{same, trim, trimmed, views};

verus! {

/// Submitted-prompt history with shell-style up/down recall. The in-progress line is saved as a draft when
/// navigation starts and restored when navigating past the newest entry.
#[derive(Debug, Clone)]
pub struct History {
    entries: Vec<String>,
    cursor: Option<usize>,
    draft: String,
}

/// The submitted lines, the entry being recalled if any, and the saved draft.
pub struct HistoryView {
    pub entries: Seq<Seq<char>>,
    pub cursor: Option<int>,
    pub draft: Seq<char>,
}

impl View for History {
    type V = HistoryView;

    closed spec fn view(&self) -> HistoryView {
        HistoryView {
            entries: views(self.entries@),
            cursor: match self.cursor {
                Some(i) => Some(i as int),
                None => None,
            },
            draft: self.draft@,
        }
    }
}

impl HistoryView {
    pub open spec fn empty() -> HistoryView {
        HistoryView { entries: Seq::empty(), cursor: None, draft: Seq::empty() }
    }

    /// The recalled entry exists.
    pub open spec fn wf(self) -> bool {
        match self.cursor {
            Some(i) => 0 <= i < self.entries.len(),
            None => true,
        }
    }

    /// The history once `line` is submitted: trimmed, dropped when blank or equal to the last entry, and
    /// with navigation over.
    pub open spec fn recorded(self, line: Seq<char>) -> HistoryView {
        let t = trim(line);
        HistoryView {
            entries: if t.len() == 0 || (self.entries.len() > 0 && self.entries.last() == t) {
                self.entries
            } else {
                self.entries.push(t)
            },
            cursor: None,
            draft: Seq::empty(),
        }
    }

    /// The history one step further back, `current` being the line in progress.
    pub open spec fn stepped_back(self, current: Seq<char>) -> HistoryView {
        if self.entries.len() == 0 {
            self
        } else {
            match self.cursor {
                None => HistoryView {
                    cursor: Some(self.entries.len() - 1),
                    draft: current,
                    ..self
                },
                Some(i) => HistoryView {
                    cursor: Some(
                        if i > 0 {
                            i - 1
                        } else {
                            0
                        },
                    ),
                    ..self
                },
            }
        }
    }

    /// The history one step forward.
    pub open spec fn stepped_forward(self) -> HistoryView {
        match self.cursor {
            None => self,
            Some(i) => if i + 1 < self.entries.len() {
                HistoryView { cursor: Some(i + 1), ..self }
            } else {
                HistoryView { cursor: None, draft: Seq::empty(), ..self }
            },
        }
    }

    /// What a step forward puts in the line.
    pub open spec fn forward_text(self) -> Option<Seq<char>> {
        match self.cursor {
            None => None,
            Some(i) => Some(
                if i + 1 < self.entries.len() {
                    self.entries[i + 1]
                } else {
                    self.draft
                },
            ),
        }
    }
}

impl Default for History {
    fn default() -> (r: History)
        ensures
            r@ == HistoryView::empty(),
    {
        let r = History { entries: Vec::new(), cursor: None, draft: String::new() };
        assert(views(r.entries@) =~= Seq::<Seq<char>>::empty());
        r
    }
}

impl History {
    /// Record a submitted line (trimmed, non-empty, de-duplicated against the last) and reset navigation.
    pub fn record(&mut self, line: &str)
        ensures
            final(self)@ == old(self)@.recorded(line@),
            final(self)@.wf(),
    {
        self.cursor = None;
        self.draft = String::new();
        let line: String = trimmed(line);
        if line.as_str().is_empty() {
            return ;
        }
        let n: usize = self.entries.len();
        if n > 0 && same(self.entries[n - 1].as_str(), line.as_str()) {
            assert(views(self.entries@).last() == self.entries@[n - 1]@);
            return ;
        }
        proof {
            if n > 0 {
                assert(views(self.entries@).last() == self.entries@[n - 1]@);
            }
        }
        let ghost before = self.entries@;
        self.entries.push(line);
        assert(views(self.entries@) =~= views(before).push(line@));
    }

    /// Step to an older entry, saving `current` as the draft on the first step.
    pub fn older(&mut self, current: &str) -> (r: Option<String>)
        requires
            old(self)@.wf(),
        ensures
            final(self)@ == old(self)@.stepped_back(current@),
            final(self)@.wf(),
            match r {
                Some(t) => final(self)@.cursor matches Some(i) && t@ == final(self)@.entries[i],
                None => old(self)@.entries.len() == 0,
            },
    {
        if self.entries.len() == 0 {
            return None;
        }
        let at: usize = match self.cursor {
            None => {
                self.draft = current.to_owned();
                self.entries.len() - 1
            },
            Some(i) => if i > 0 {
                i - 1
            } else {
                0
            },
        };
        self.cursor = Some(at);
        Some(self.entries[at].clone())
    }

    /// Step to a newer entry; past the newest, return the saved draft.
    pub fn newer(&mut self) -> (r: Option<String>)
        requires
            old(self)@.wf(),
        ensures
            final(self)@ == old(self)@.stepped_forward(),
            final(self)@.wf(),
            match r {
                Some(t) => old(self)@.forward_text() == Some(t@),
                None => old(self)@.forward_text() is None,
            },
    {
        match self.cursor {
            None => None,
            Some(i) => {
                let n: usize = self.entries.len();
                if i < n - 1 {
                    self.cursor = Some(i + 1);
                    Some(self.entries[i + 1].clone())
                } else {
                    self.cursor = None;
                    let draft: String = self.draft.clone();
                    self.draft = String::new();
                    Some(draft)
                }
            },
        }
    }
}

/// Walking back any number of entries and forward again past the newest restores the line in progress.
pub proof fn draft_comes_back(h: HistoryView, current: Seq<char>)
    requires
        h.wf(),
        h.cursor is None,
        h.entries.len() > 0,
    ensures
        h.stepped_back(current).forward_text() == Some(current),
        h.stepped_back(current).stepped_forward().cursor is None,
        h.stepped_back(current).stepped_forward().entries == h.entries,
{
}

/// Stepping back and then forward returns to the entry that was shown.
pub proof fn back_then_forward(h: HistoryView, current: Seq<char>)
    requires
        h.wf(),
        h.cursor matches Some(i) && i > 0,
    ensures
        h.stepped_back(current).stepped_forward() == h,
        h.stepped_back(current).forward_text() == Some(h.entries[h.cursor->0]),
{
}

/// Submitting the same line twice in a row records it once, and a blank line never.
pub proof fn recording_dedupes(h: HistoryView, line: Seq<char>)
    ensures
        h.recorded(line).recorded(line).entries == h.recorded(line).entries,
        trim(line).len() == 0 ==> h.recorded(line).entries == h.entries,
{
}

/// A submitted line is remembered behind the others, without the white space round it, unless it is blank or the same as
/// the last; no line is forgotten, and navigation starts anew.
pub proof fn submitted_lines_are_remembered(h: HistoryView, line: Seq<char>)
    ensures
        trim(line).len() > 0 ==> h.recorded(line).entries.len() > 0 && h.recorded(line).entries.last() == trim(line),
        trim(line).len() > 0 && (h.entries.len() == 0 || h.entries.last() != trim(line)) ==> h.recorded(line).entries
            == h.entries.push(trim(line)),
        h.entries.len() <= h.recorded(line).entries.len(),
        h.recorded(line).entries.take(h.entries.len() as int) == h.entries,
        h.recorded(line).cursor is None,
{
    assert(h.recorded(line).entries.take(h.entries.len() as int) =~= h.entries);
}

/// Going back shows the newest line first, then each older one, and stays at the oldest.
pub proof fn going_back_shows_older_lines(h: HistoryView, current: Seq<char>)
    requires
        h.wf(),
        h.entries.len() > 0,
    ensures
        ({
            let b = h.stepped_back(current);
            &&& b.entries == h.entries
            &&& h.cursor is None ==> b.cursor == Some(h.entries.len() - 1) && b.draft == current
            &&& h.cursor matches Some(i) ==> b.cursor == Some(if i == 0 { 0 } else { i - 1 }) && b.draft == h.draft
        }),
{
}

} // verus!
