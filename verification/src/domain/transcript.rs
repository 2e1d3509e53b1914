//! The conversation as rendered items.
use vstd::prelude::*;
use vstd::string::*;
use crate::clock::Duration;

verus! {

/// A rendered item in the conversation transcript. This is a render-only projection of the engine's
/// conversation, which remains the single source of truth. Streaming reasoning/content are coalesced in
/// place so a turn does not produce one item per delta.
#[derive(Debug, Clone, PartialEq, Eq)]
pub enum TranscriptItem {
    User(String),
    Reasoning(String),
    Assistant(String),
    PlanProposed(String),
    /// A tool call the agent made: its command, an optional edit diff, and (once it finishes) the outcome.
    /// Surfaced in every approval mode so the user sees each action even under auto.
    Tool(ToolActivity),
    Notice(NoticeLevel, String),
}

/// The severity of an out-of-band notice line.
#[derive(Debug, Clone, Copy, PartialEq, Eq, Structural)]
pub enum NoticeLevel {
    Info,
    Error,
}

/// The terminal state of a tool call, for transcript coloring.
#[derive(Debug, Clone, Copy, PartialEq, Eq, Structural)]
pub enum ToolStatus {
    Success,
    Error,
    Declined,
}

/// The before/after text of an `edit_file` call, for an inline red/green diff.
#[derive(Debug, Clone, PartialEq, Eq)]
pub struct ToolDiff {
    pub old: String,
    pub new: String,
}

/// One tool call rendered in the transcript: the command, an optional edit diff, and the result once it
/// completes. `result` is `None` while the call is running.
#[derive(Debug, Clone, PartialEq, Eq)]
pub struct ToolActivity {
    pub command: String,
    pub diff: Option<ToolDiff>,
    /// `(status, output, elapsed)` once finished; `None` while running. `output` is the full (capped) tool
    /// output the renderer previews or expands.
    pub result: Option<(ToolStatus, String, Duration)>,
}

/// The ordered list of transcript items rendered in the main pane.
#[derive(Debug, Clone, PartialEq, Eq)]
pub struct Transcript {
    items: Vec<TranscriptItem>,
}

/// The contents of a tool call item; a diff is its old and new text.
pub struct ActivityView {
    pub command: Seq<char>,
    pub diff: Option<(Seq<char>, Seq<char>)>,
    pub result: Option<(ToolStatus, Seq<char>, Duration)>,
}

/// The contents of a transcript item.
pub enum ItemView {
    User(Seq<char>),
    Reasoning(Seq<char>),
    Assistant(Seq<char>),
    PlanProposed(Seq<char>),
    Tool(ActivityView),
    Notice(NoticeLevel, Seq<char>),
}

/// The two texts of an optional diff.
pub open spec fn diff_view(d: Option<ToolDiff>) -> Option<(Seq<char>, Seq<char>)> {
    match d {
        Some(d) => Some((d.old@, d.new@)),
        None => None,
    }
}

impl View for ToolActivity {
    type V = ActivityView;

    open spec fn view(&self) -> ActivityView {
        ActivityView {
            command: self.command@,
            diff: diff_view(self.diff),
            result: match self.result {
                Some(r) => Some((r.0, r.1@, r.2)),
                None => None,
            },
        }
    }
}

impl View for TranscriptItem {
    type V = ItemView;

    open spec fn view(&self) -> ItemView {
        match *self {
            TranscriptItem::User(t) => ItemView::User(t@),
            TranscriptItem::Reasoning(t) => ItemView::Reasoning(t@),
            TranscriptItem::Assistant(t) => ItemView::Assistant(t@),
            TranscriptItem::PlanProposed(t) => ItemView::PlanProposed(t@),
            TranscriptItem::Tool(a) => ItemView::Tool(a@),
            TranscriptItem::Notice(l, t) => ItemView::Notice(l, t@),
        }
    }
}

/// The contents of each item of a list.
pub open spec fn item_views(v: Seq<TranscriptItem>) -> Seq<ItemView> {
    Seq::new(v.len(), |i: int| v[i]@)
}

impl View for Transcript {
    type V = Seq<ItemView>;

    closed spec fn view(&self) -> Seq<ItemView> {
        item_views(self.items@)
    }
}

/// A running tool call.
pub open spec fn running(command: Seq<char>, diff: Option<(Seq<char>, Seq<char>)>) -> ItemView {
    ItemView::Tool(ActivityView { command, diff, result: None })
}

/// A transcript once a streamed answer delta is appended, coalescing into a trailing answer.
pub open spec fn with_content(t: Seq<ItemView>, delta: Seq<char>) -> Seq<ItemView> {
    if t.len() > 0 && t.last() is Assistant {
        t.drop_last().push(ItemView::Assistant(t.last()->Assistant_0 + delta))
    } else {
        t.push(ItemView::Assistant(delta))
    }
}

/// A transcript once a streamed reasoning delta is appended, coalescing into trailing reasoning.
pub open spec fn with_reasoning(t: Seq<ItemView>, delta: Seq<char>) -> Seq<ItemView> {
    if t.len() > 0 && t.last() is Reasoning {
        t.drop_last().push(ItemView::Reasoning(t.last()->Reasoning_0 + delta))
    } else {
        t.push(ItemView::Reasoning(delta))
    }
}

/// A transcript once the trailing running tool call has its outcome; unchanged when there is none.
pub open spec fn with_outcome(
    t: Seq<ItemView>,
    status: ToolStatus,
    output: Seq<char>,
    elapsed: Duration,
) -> Seq<ItemView> {
    if t.len() > 0 && t.last() is Tool && (t.last()->Tool_0).result is None {
        t.drop_last().push(
            ItemView::Tool(
                ActivityView { result: Some((status, output, elapsed)), ..t.last()->Tool_0 },
            ),
        )
    } else {
        t
    }
}

impl Default for Transcript {
    fn default() -> (r: Transcript)
        ensures
            r@ == Seq::<ItemView>::empty(),
    {
        let r = Transcript { items: Vec::new() };
        assert(r@ =~= Seq::<ItemView>::empty());
        r
    }
}

impl Transcript {
    pub fn items(&self) -> (r: &Vec<TranscriptItem>)
        ensures
            item_views(r@) == self@,
            r@.len() == self@.len(),
            forall|i: int| 0 <= i < r@.len() ==> (#[trigger] r@[i])@ == self@[i],
    {
        &self.items
    }

    pub fn is_empty(&self) -> (r: bool)
        ensures
            r == (self@.len() == 0),
    {
        self.items.len() == 0
    }

    /// Whether the trailing item is an assistant answer, i.e. a content delta would coalesce into it rather
    /// than start a fresh one.
    pub fn last_is_assistant(&self) -> (r: bool)
        ensures
            r == (self@.len() > 0 && self@.last() is Assistant),
    {
        let n: usize = self.items.len();
        n > 0 && matches!(self.items[n - 1], TranscriptItem::Assistant(_))
    }

    pub fn push(&mut self, item: TranscriptItem)
        ensures
            final(self)@ == old(self)@.push(item@),
    {
        let ghost before = self.items@;
        self.items.push(item);
        assert(item_views(self.items@) =~= item_views(before).push(item@));
    }

    /// Append a streamed content delta, coalescing into a trailing assistant item.
    pub fn push_content_delta(&mut self, delta: &str)
        ensures
            final(self)@ == with_content(old(self)@, delta@),
    {
        let ghost before = self@;
        let last: Option<TranscriptItem> = self.items.pop();
        match last {
            Some(TranscriptItem::Assistant(mut text)) => {
                text.append(delta);
                self.push(TranscriptItem::Assistant(text));
            },
            Some(item) => {
                self.push(item);
                self.push(TranscriptItem::Assistant(delta.to_owned()));
            },
            None => {
                self.push(TranscriptItem::Assistant(delta.to_owned()));
            },
        }
        assert(self@ =~= with_content(before, delta@));
    }

    /// Append a streamed reasoning delta, coalescing into a trailing reasoning item.
    pub fn push_reasoning_delta(&mut self, delta: &str)
        ensures
            final(self)@ == with_reasoning(old(self)@, delta@),
    {
        let ghost before = self@;
        let last: Option<TranscriptItem> = self.items.pop();
        match last {
            Some(TranscriptItem::Reasoning(mut text)) => {
                text.append(delta);
                self.push(TranscriptItem::Reasoning(text));
            },
            Some(item) => {
                self.push(item);
                self.push(TranscriptItem::Reasoning(delta.to_owned()));
            },
            None => {
                self.push(TranscriptItem::Reasoning(delta.to_owned()));
            },
        }
        assert(self@ =~= with_reasoning(before, delta@));
    }

    /// Push a running tool item (command + optional edit diff, no result yet). The engine runs one call at a
    /// time, so the running tool is always the trailing item and needs no correlation id.
    pub fn push_tool_start(&mut self, command: String, diff: Option<ToolDiff>)
        ensures
            final(self)@ == old(self)@.push(running(command@, diff_view(diff))),
    {
        self.push(TranscriptItem::Tool(ToolActivity { command, diff, result: None }));
    }

    /// Fill the trailing running tool item with its outcome. A no-op if the trailing item is not a running
    /// tool (an aborted turn left nothing to finish).
    pub fn finish_last_tool(&mut self, status: ToolStatus, output: String, elapsed: Duration)
        ensures
            final(self)@ == with_outcome(old(self)@, status, output@, elapsed),
    {
        let ghost before = self@;
        let last: Option<TranscriptItem> = self.items.pop();
        match last {
            Some(TranscriptItem::Tool(mut activity)) => {
                if activity.result.is_none() {
                    activity.result = Some((status, output, elapsed));
                }
                self.push(TranscriptItem::Tool(activity));
            },
            Some(item) => {
                self.push(item);
            },
            None => {},
        }
        assert(self@ =~= with_outcome(before, status, output@, elapsed));
    }
}

/// Streaming an answer in two deltas or in one gives the same transcript.
pub proof fn content_deltas_coalesce(t: Seq<ItemView>, a: Seq<char>, b: Seq<char>)
    ensures
        with_content(with_content(t, a), b) == with_content(t, a + b),
        with_content(t, a).last() is Assistant,
{
    let once = with_content(t, a);
    assert(once.drop_last() =~= if t.len() > 0 && t.last() is Assistant {
        t.drop_last()
    } else {
        t
    });
    if t.len() > 0 && t.last() is Assistant {
        assert(t.last()->Assistant_0 + a + b =~= t.last()->Assistant_0 + (a + b));
    }
    assert(with_content(once, b) =~= with_content(t, a + b));
}

/// Streaming reasoning in two deltas or in one gives the same transcript.
pub proof fn reasoning_deltas_coalesce(t: Seq<ItemView>, a: Seq<char>, b: Seq<char>)
    ensures
        with_reasoning(with_reasoning(t, a), b) == with_reasoning(t, a + b),
{
    let once = with_reasoning(t, a);
    assert(once.drop_last() =~= if t.len() > 0 && t.last() is Reasoning {
        t.drop_last()
    } else {
        t
    });
    if t.len() > 0 && t.last() is Reasoning {
        assert(t.last()->Reasoning_0 + a + b =~= t.last()->Reasoning_0 + (a + b));
    }
    assert(with_reasoning(once, b) =~= with_reasoning(t, a + b));
}

/// An outcome lands on the tool call that was started last, and a second outcome changes nothing.
pub proof fn outcome_lands_once(
    t: Seq<ItemView>,
    command: Seq<char>,
    diff: Option<(Seq<char>, Seq<char>)>,
    first: (ToolStatus, Seq<char>, Duration),
    second: (ToolStatus, Seq<char>, Duration),
)
    ensures
        ({
            let done = with_outcome(t.push(running(command, diff)), first.0, first.1, first.2);
            &&& done == t.push(
                ItemView::Tool(ActivityView { command, diff, result: Some(first) }),
            )
            &&& with_outcome(done, second.0, second.1, second.2) == done
        }),
{
    assert(t.push(running(command, diff)).drop_last() =~= t);
}

} // verus!
