//! Everything that can change the model.
use vstd::prelude::*;
use crate::clock::Duration;
use crate::domain::input::{KeyPress, MouseKind};
use crate::domain::input_buffer::ImageAttachment;
use crate::domain::modal::PendingApproval;
use crate::domain::transcript::{ToolDiff, ToolStatus};

verus! {

/// Which stream a delta belongs to.
#[derive(Debug, Clone, Copy, PartialEq, Eq, Structural)]
pub enum StreamKind {
    Reasoning,
    Content,
}

/// Everything that can change the model: terminal events, engine events, and the per-frame tick.
#[derive(Debug, Clone, PartialEq, Eq)]
pub enum Msg {
    Key(KeyPress),
    /// A left mouse-button gesture at a terminal cell: drives in-app screen text selection.
    Mouse { kind: MouseKind, col: u16, row: u16 },
    Paste(String),
    /// An image read from the OS clipboard, staged as an attachment for the next prompt.
    ImageAttached(ImageAttachment),
    Resize,
    Tick,
    TurnBegan,
    StreamDelta(StreamKind, String),
    TurnFinished,
    /// A tool call started running, with its display command, an optional edit diff, and whether it was
    /// `run_command`.
    ToolStarted { command: String, diff: Option<ToolDiff>, is_run_command: bool },
    /// A tool call finished: its outcome status, full (capped) output, and duration.
    ToolFinished { status: ToolStatus, output: String, elapsed: Duration },
    ApprovalRequested(PendingApproval),
    /// The user scrolled the mouse wheel up by one notch.
    ScrollUp,
    /// The user scrolled the mouse wheel down by one notch.
    ScrollDown,
    /// The turn resolved; reset per-turn UI state.
    TurnEnded,
}

} // verus!
