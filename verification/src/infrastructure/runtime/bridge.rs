//! What the engine tells the front-end.
use vstd::prelude::*;
use crate::application::msg::{Msg, StreamKind};
use crate::clock::Duration;
use crate::conversation::ToolCall;
use crate::domain::modal::PendingApproval;
use crate::domain::transcript::{ToolDiff, ToolStatus};
use crate::text::{cat3, decimal, decimal_of, same};

verus! {

/// What the engine ports emit to the event loop. The engine confirms tool calls one at a time, so there is never
/// more than one pending approval and no correlation id is needed.
#[derive(Debug, Clone, PartialEq, Eq)]
pub enum EngineMsg {
    Began,
    Reasoning(String),
    Content(String),
    ToolStarted { command: String, diff: Option<ToolDiff>, is_run_command: bool },
    ToolFinished { status: ToolStatus, output: String, elapsed: Duration },
    Finished,
    Approval(PendingApproval),
}

/// A cooperative cancellation flag, checked on each stream delta: when set, the delta is refused, which unwinds
/// the running completion through its normal error path. A token is one flag and has no copies: whoever shares it
/// between the event loop and the engine holds it where both reach it.
#[derive(Debug, PartialEq, Eq, Structural)]
pub struct CancelToken {
    pub cancelled: bool,
}

impl Default for CancelToken {
    fn default() -> (r: CancelToken)
        ensures
            !r.cancelled,
    {
        CancelToken { cancelled: false }
    }
}

impl CancelToken {
    pub fn new() -> (r: CancelToken)
        ensures
            !r.cancelled,
    {
        CancelToken { cancelled: false }
    }

    pub fn cancel(&mut self)
        ensures
            final(self).cancelled,
    {
        self.cancelled = true;
    }

    pub fn reset(&mut self)
        ensures
            !final(self).cancelled,
    {
        self.cancelled = false;
    }

    pub fn is_cancelled(&self) -> (r: bool)
        ensures
            r == self.cancelled,
    {
        self.cancelled
    }
}

/// A piece of a streamed completion.
#[derive(Debug, Clone, PartialEq, Eq)]
pub enum StreamEvent {
    Reasoning(String),
    Content(String),
}

/// What a stream event becomes; nothing once the turn is cancelled.
pub fn on_event(cancel: &CancelToken, event: StreamEvent) -> (r: Option<EngineMsg>)
    ensures
        r == if cancel.cancelled {
            None
        } else {
            Some(
                match event {
                    StreamEvent::Reasoning(t) => EngineMsg::Reasoning(t),
                    StreamEvent::Content(t) => EngineMsg::Content(t),
                },
            )
        },
{
    if cancel.is_cancelled() {
        return None;
    }
    match event {
        StreamEvent::Reasoning(text) => Some(EngineMsg::Reasoning(text)),
        StreamEvent::Content(text) => Some(EngineMsg::Content(text)),
    }
}

/// What a tool call ended with.
#[derive(Debug, Clone, PartialEq, Eq)]
pub enum ToolOutcome {
    Success(String),
    Error(String),
    Declined,
}

/// Map a tool outcome to its display status and text. The model still receives the original outcome via the
/// conversation; this projection only feeds the transcript.
pub fn display_outcome(outcome: &ToolOutcome) -> (r: (ToolStatus, String))
    ensures
        match *outcome {
            ToolOutcome::Success(t) => r.0 == ToolStatus::Success && r.1@ == t@,
            ToolOutcome::Error(e) => r.0 == ToolStatus::Error && r.1@ == e@,
            ToolOutcome::Declined => r.0 == ToolStatus::Declined && r.1@.len() == 0,
        },
{
    match outcome {
        ToolOutcome::Success(text) => (ToolStatus::Success, text.clone()),
        ToolOutcome::Error(error) => (ToolStatus::Error, error.clone()),
        ToolOutcome::Declined => (ToolStatus::Declined, String::new()),
    }
}

/// The string under a key of a JSON object; none where the text is no JSON object, lacks the key, or holds
/// another kind of value there.
pub uninterp spec fn json_string(json: Seq<char>, key: Seq<char>) -> Option<Seq<char>>;

/// `serde_json::from_str` into a `Value`, then `Value::get` and `Value::as_str`. What the JSON text holds is not
/// spelled out: it is named.
#[verifier::external_body]
fn string_field(json: &str, key: &str) -> (r: Option<String>)
    ensures
        match r {
            Some(t) => json_string(json@, key@) == Some(t@),
            None => json_string(json@, key@) is None,
        },
{
    let value: serde_json::Value = serde_json::from_str(json).ok()?;
    Some(value.get(key)?.as_str()?.to_string())
}

/// The diff of two texts where both are there.
pub fn diff_of(old: Option<String>, new: Option<String>) -> (r: Option<ToolDiff>)
    ensures
        match (old, new) {
            (Some(o), Some(n)) => r == Some(ToolDiff { old: o, new: n }),
            _ => r is None,
        },
{
    match (old, new) {
        (Some(old), Some(new)) => Some(ToolDiff { old, new }),
        _ => None,
    }
}

/// The two texts of an `edit_file` call.
pub open spec fn edit_texts(call: ToolCall) -> Option<(Seq<char>, Seq<char>)> {
    if call.name@ == "edit_file"@ {
        match (
            json_string(call.arguments@, "old_string"@),
            json_string(call.arguments@, "new_string"@),
        ) {
            (Some(o), Some(n)) => Some((o, n)),
            _ => None,
        }
    } else {
        None
    }
}

/// Extract an `edit_file` call's old/new text for an inline diff, straight from the call arguments: the tool is
/// not involved.
pub fn edit_diff(call: &ToolCall) -> (r: Option<ToolDiff>)
    ensures
        crate::domain::transcript::diff_view(r) == edit_texts(*call),
{
    if !same(call.name.as_str(), "edit_file") {
        return None;
    }
    let old: Option<String> = string_field(call.arguments.as_str(), "old_string");
    let new: Option<String> = string_field(call.arguments.as_str(), "new_string");
    diff_of(old, new)
}

/// A tool call started: its display command, its diff where it is an edit, and whether it runs a command.
pub fn tool_started(call: &ToolCall, command: &str) -> (r: EngineMsg)
    ensures
        r matches EngineMsg::ToolStarted { command: c, diff, is_run_command } && c@ == command@
            && crate::domain::transcript::diff_view(diff) == edit_texts(*call) && is_run_command == (
        call.name@ == "run_command"@),
{
    EngineMsg::ToolStarted {
        command: command.to_owned(),
        diff: edit_diff(call),
        is_run_command: same(call.name.as_str(), "run_command"),
    }
}

/// A tool call finished.
pub fn tool_finished(outcome: &ToolOutcome, elapsed: Duration) -> (r: EngineMsg)
    ensures
        r matches EngineMsg::ToolFinished { status, output, elapsed: e } && e == elapsed && match *outcome {
            ToolOutcome::Success(t) => status == ToolStatus::Success && output@ == t@,
            ToolOutcome::Error(t) => status == ToolStatus::Error && output@ == t@,
            ToolOutcome::Declined => status == ToolStatus::Declined && output@.len() == 0,
        },
{
    let (status, output): (ToolStatus, String) = display_outcome(outcome);
    EngineMsg::ToolFinished { status, output, elapsed }
}

/// Why a long turn asks whether to go on.
#[derive(Debug, Clone, Copy, PartialEq, Eq, Structural)]
pub enum CheckpointReason {
    Elapsed { minutes: u64 },
    CallCount { calls: u64 },
}

/// The question of a checkpoint.
pub open spec fn checkpoint_question(reason: CheckpointReason) -> Seq<char> {
    match reason {
        CheckpointReason::Elapsed { minutes } => "Execução já dura ~"@ + decimal(minutes as int)
            + "min. Continuar?"@,
        CheckpointReason::CallCount { calls } => "Já são "@ + decimal(calls as int)
            + " chamadas de ferramenta neste turno. Continuar?"@,
    }
}

/// The confirmation that a checkpoint asks for; going on is the default.
pub fn confirm_continue(reason: CheckpointReason) -> (r: PendingApproval)
    ensures
        r.prompt@ == checkpoint_question(reason),
        r.default_accept,
        r.selected == 0,
{
    let prompt: String = match reason {
        CheckpointReason::Elapsed { minutes } => cat3(
            "Execução já dura ~",
            decimal_of(minutes).as_str(),
            "min. Continuar?",
        ),
        CheckpointReason::CallCount { calls } => cat3(
            "Já são ",
            decimal_of(calls).as_str(),
            " chamadas de ferramenta neste turno. Continuar?",
        ),
    };
    PendingApproval::new(prompt, true)
}

/// The message of the reducer that an engine message is.
pub open spec fn ui_msg(msg: EngineMsg) -> Msg {
    match msg {
        EngineMsg::Began => Msg::TurnBegan,
        EngineMsg::Reasoning(t) => Msg::StreamDelta(StreamKind::Reasoning, t),
        EngineMsg::Content(t) => Msg::StreamDelta(StreamKind::Content, t),
        EngineMsg::ToolStarted { command, diff, is_run_command } => Msg::ToolStarted {
            command,
            diff,
            is_run_command,
        },
        EngineMsg::ToolFinished { status, output, elapsed } => Msg::ToolFinished {
            status,
            output,
            elapsed,
        },
        EngineMsg::Finished => Msg::TurnFinished,
        EngineMsg::Approval(pending) => Msg::ApprovalRequested(pending),
    }
}

/// Translate an engine message into a message of the reducer.
pub fn engine_msg(msg: EngineMsg) -> (r: Msg)
    ensures
        r == ui_msg(msg),
{
    match msg {
        EngineMsg::Began => Msg::TurnBegan,
        EngineMsg::Reasoning(text) => Msg::StreamDelta(StreamKind::Reasoning, text),
        EngineMsg::Content(text) => Msg::StreamDelta(StreamKind::Content, text),
        EngineMsg::ToolStarted { command, diff, is_run_command } => Msg::ToolStarted {
            command,
            diff,
            is_run_command,
        },
        EngineMsg::ToolFinished { status, output, elapsed } => Msg::ToolFinished {
            status,
            output,
            elapsed,
        },
        EngineMsg::Finished => Msg::TurnFinished,
        EngineMsg::Approval(pending) => Msg::ApprovalRequested(pending),
    }
}

} // verus!
