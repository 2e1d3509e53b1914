//! End-of-session distillation: whether a session is worth it, and how the front-end goes along. Best effort: a
//! skip or a failure is announced and never holds up whoever waits.
use vstd::prelude::*;
use crate::clock::{Duration, Instant};
use crate::conversation::{message_views, Conversation, Message, MessageView, Role};
use crate::domain::model::{Model, Status};
use crate::domain::transcript::NoticeLevel;
use crate::infrastructure::input::{TerminalEvent, TerminalKey};
use crate::infrastructure::runtime::turn::{info, spinner_at, spinner_frame, stamped};
use crate::text::{cat2, cat3, decimal, decimal_of};

verus! {

/// The session holds a user message and an assistant reply that says something.
pub open spec fn worth_distilling(conversation: Seq<MessageView>) -> bool {
    &&& exists|i: int| 0 <= i < conversation.len() && (#[trigger] conversation[i]).role == Role::User
    &&& exists|i: int|
        0 <= i < conversation.len() && (#[trigger] conversation[i]).role == Role::Assistant
            && conversation[i].speaks()
}

/// Whether a session is worth distilling: an empty or aborted one never spends a completion on noise.
pub fn should_distill(conversation: &Conversation) -> (r: bool)
    ensures
        r == worth_distilling(conversation@),
{
    let messages: &Vec<Message> = conversation.messages();
    let ghost all = message_views(messages@);
    let mut has_user: bool = false;
    let mut has_assistant: bool = false;
    for i in 0..messages.len()
        invariant
            all == message_views(messages@),
            has_user == exists|j: int| 0 <= j < i && (#[trigger] all[j]).role == Role::User,
            has_assistant == exists|j: int|
                0 <= j < i && (#[trigger] all[j]).role == Role::Assistant && all[j].speaks(),
    {
        assert(all[i as int] == messages@[i as int]@);
        match messages[i].role {
            Role::User => {
                has_user = true;
            },
            Role::Assistant => {
                if messages[i].speaks() {
                    has_assistant = true;
                }
            },
            _ => {},
        }
    }
    has_user && has_assistant
}

/// Whether a terminal event is Ctrl+C: the skip key during distillation.
pub fn is_ctrl_c(event: &TerminalEvent) -> (r: bool)
    ensures
        r == (*event matches TerminalEvent::Key { code, ctrl, .. } && code == TerminalKey::Char('c') && ctrl),
{
    match event {
        TerminalEvent::Key { code, ctrl, .. } => *ctrl && *code == TerminalKey::Char('c'),
        _ => false,
    }
}

/// One thing that the distillation loop waited for. A finished distillation tells how much was learnt.
#[derive(Debug, PartialEq, Eq)]
pub enum DistillStep {
    Done(Result<u64, String>),
    Skip,
    Tick,
}

/// How a distillation ended: with a result, or skipped.
#[derive(Debug, PartialEq, Eq)]
pub enum Distilled {
    Finished(Result<u64, String>),
    Skipped,
}

/// What terminal input means to a distillation: Ctrl+C skips it, anything else is ignored.
pub fn distill_input(event: Option<TerminalEvent>) -> (r: DistillStep)
    ensures
        r == (match event {
            Some(TerminalEvent::Key { code, ctrl, .. }) if code == TerminalKey::Char('c') && ctrl => DistillStep::Skip,
            _ => DistillStep::Tick,
        }),
{
    match event {
        Some(event) => {
            if is_ctrl_c(&event) {
                DistillStep::Skip
            } else {
                DistillStep::Tick
            }
        },
        None => DistillStep::Tick,
    }
}

/// Announce a distillation, where the session is worth one and some memory is there to write to. Says whether it
/// is to run.
pub fn begin_distillation(
    model: &mut Model,
    conversation: &Conversation,
    project_memory: bool,
    shared_memory: bool,
    now: Instant,
) -> (r: bool)
    requires
        old(model).wf(),
    ensures
        r == (worth_distilling(conversation@) && (project_memory || shared_memory)),
        !r ==> *final(model) == *old(model),
        r ==> {
            &&& *final(model) == (Model {
                busy: true,
                transcript: final(model).transcript,
                ..stamped(*old(model), now)
            })
            &&& final(model).transcript@ == old(model).transcript@.push(
                info("destilando memórias da sessão… (^C pula)"@),
            )
        },
        final(model).wf(),
{
    if !should_distill(conversation) {
        return false;
    }
    if !project_memory && !shared_memory {
        return false;
    }
    model.notify_info("destilando memórias da sessão… (^C pula)".to_owned());
    model.busy = true;
    model.timeline.render_at = Some(now);
    true
}

/// Take one step of a distillation: the spinner follows the clock until it is done or skipped.
pub fn distill_step(model: &mut Model, step: DistillStep, started: Instant, now: Instant) -> (r: Option<Distilled>)
    requires
        old(model).wf(),
    ensures
        match step {
            DistillStep::Done(result) => r == Some(Distilled::Finished(result)) && *final(model) == *old(
                model,
            ),
            DistillStep::Skip => r == Some(Distilled::Skipped) && *final(model) == *old(model),
            DistillStep::Tick => r is None && *final(model) == (Model {
                status: Status {
                    spinner_frame: spinner_at(
                        Duration { nanos: now.nanos_since(started) as u64 },
                    ) as usize,
                    ..old(model).status
                },
                ..stamped(*old(model), now)
            }),
        },
        final(model).wf(),
{
    match step {
        DistillStep::Done(result) => Some(Distilled::Finished(result)),
        DistillStep::Skip => Some(Distilled::Skipped),
        DistillStep::Tick => {
            model.status.spinner_frame = spinner_frame(now.saturating_duration_since(started));
            model.timeline.render_at = Some(now);
            None
        },
    }
}

/// What is said of a distillation; nothing where nothing was worth keeping, rather than noise on every `/new`.
pub open spec fn distill_notice(outcome: Distilled) -> Option<Seq<char>> {
    match outcome {
        Distilled::Skipped => Some("destilação pulada"@),
        Distilled::Finished(Ok(written)) => if written > 0 {
            Some("memória atualizada: "@ + decimal(written as int) + " aprendizado(s)"@)
        } else {
            None
        },
        Distilled::Finished(Err(e)) => Some("destilação não concluída: "@ + e@),
    }
}

/// Finish a distillation.
pub fn end_distillation(model: &mut Model, outcome: Distilled)
    requires
        old(model).wf(),
    ensures
        match distill_notice(outcome) {
            Some(text) => (Model { busy: false, ..*old(model) }).posted(
                *final(model),
                NoticeLevel::Info,
                text,
            ),
            None => *final(model) == (Model { busy: false, ..*old(model) }),
        },
        final(model).wf(),
{
    model.busy = false;
    match outcome {
        Distilled::Skipped => {
            model.notify_info("destilação pulada".to_owned());
        },
        Distilled::Finished(Ok(written)) => {
            if written > 0 {
                model.notify_info(
                    cat3("memória atualizada: ", decimal_of(written).as_str(), " aprendizado(s)"),
                );
            }
        },
        Distilled::Finished(Err(failure)) => {
            model.notify_info(cat2("destilação não concluída: ", failure.as_str()));
        },
    }
}

} // verus!
