//! Driving one agent turn while the front-end stays live.
use vstd::prelude::*;
use crate::application::effect::{effect_views, no_effects, nothing, Effect, EffectView};
use crate::application::msg::Msg;
use crate::application::update::{update, updated};
use crate::clock::{Duration, Instant};
use crate::conversation::{Conversation, Message, MessageView, Role};
use crate::domain::modal::PendingPlan;
use crate::domain::model::{Model, Status, Timeline};
use crate::domain::transcript::{ItemView, NoticeLevel, TranscriptItem};
use crate::infrastructure::render::widgets::meta_rule::activity_text;
use crate::infrastructure::runtime::bridge::{engine_msg, ui_msg, CancelToken, EngineMsg};
use crate::kernel::{Approval, ApprovalMode};
use crate::text::{cat2, views};

verus! {

/// The frame cadence in milliseconds: an idle front-end ticks at this rate, and the spinner advances one step
/// per interval.
pub const FRAME_INTERVAL: u64 = 120;

/// The minimum spacing in milliseconds between redraws while a turn streams, so that streamed text flows instead
/// of appearing in coarse blocks. It only paces draws that incoming deltas already drive.
pub const STREAM_FRAME: u64 = 33;

/// How a turn ended.
#[derive(Debug, Clone, PartialEq, Eq)]
pub enum TurnOutcome {
    Completed,
    /// The model presented a finished plan.
    PlanProposed(String),
    Aborted,
}

/// Why a turn failed: the error's text, and whether the provider refused the request itself.
#[derive(Debug, Clone, PartialEq, Eq)]
pub struct TurnError {
    pub message: String,
    pub rejected: bool,
}

/// What a turn's end takes back from the conversation.
#[derive(Debug, Clone, Copy, PartialEq, Eq, Structural)]
pub enum Rollback {
    Keep,
    /// The user message that got no answer.
    DanglingUser,
    /// The user message that got no answer, and then the last assistant turn.
    LastTurn,
}

/// One thing that the turn loop waited for.
#[derive(Debug, PartialEq, Eq)]
pub enum Step {
    Done(Result<TurnOutcome, TurnError>),
    Apply(Msg),
    Idle,
}

/// Outside work that an effect asks for in the middle of a turn.
#[derive(Debug, Clone, PartialEq, Eq)]
pub enum TurnAction {
    /// Answer the engine's pending approval.
    Reply(Approval),
    Copy(String),
    Paste,
    PlaceCursor { col: u16, row: u16 },
}

/// Whether applying `msg` redraws at once. Stream deltas and ticks are throttled, so that a burst of tokens
/// coalesces into one redraw; every structural change draws at once for responsiveness.
pub fn forces_draw(msg: &Msg) -> (r: bool)
    ensures
        r == !(*msg is StreamDelta || *msg is Tick),
{
    !matches!(msg, Msg::StreamDelta(..) | Msg::Tick)
}

/// The spinner frame for an elapsed time: one step per interval, counted in the machine's word.
pub open spec fn spinner_at(elapsed: Duration) -> int {
    (elapsed.millis() / FRAME_INTERVAL as int) % (usize::MAX + 1)
}

/// The spinner frame for an elapsed time: one step per [`FRAME_INTERVAL`]. Wrapping into the glyph table is the
/// renderer's job. The animation follows the clock, not the arrival of messages.
pub fn spinner_frame(elapsed: Duration) -> (r: usize)
    ensures
        r == spinner_at(elapsed),
{
    let steps: u64 = elapsed.as_millis() / FRAME_INTERVAL;
    if steps <= usize::MAX as u64 {
        assert(steps as int % (usize::MAX + 1) == steps as int) by (nonlinear_arith)
            requires
                0 <= steps as int <= usize::MAX,
        ;
        steps as usize
    } else {
        (steps % (usize::MAX as u64 + 1)) as usize
    }
}

/// The turn ended with an empty assistant reply and no tool activity.
pub open spec fn said_nothing(conversation: Seq<MessageView>) -> bool {
    conversation.len() > 0 && {
        let last = conversation.last();
        last.role == Role::Assistant && last.tool_calls.len() == 0 && !last.speaks()
    }
}

/// True when the turn ended with an empty assistant reply and no tool activity: the provider answered with
/// nothing usable. The engine appends the final assistant text even when it is blank, so the trailing message is
/// the signal. A turn that ran tools or produced real text is not "nothing".
pub fn turn_produced_nothing(conversation: &Conversation) -> (r: bool)
    ensures
        r == said_nothing(conversation@),
{
    let messages: &Vec<Message> = conversation.messages();
    if messages.len() == 0 {
        return false;
    }
    let last: &Message = &messages[messages.len() - 1];
    assert(last@ == conversation@.last());
    last.role == Role::Assistant && last.tool_calls.len() == 0 && !last.speaks()
}

/// What a turn's end does: what the transcript gains, the plan put before the user, whether the session is over,
/// and what the conversation loses.
pub struct Ending {
    pub said: Seq<ItemView>,
    pub plan: Option<Seq<char>>,
    pub quits: bool,
    /// The turn ended in error, and the badge says so until the next one begins.
    pub failed: bool,
    pub rollback: Rollback,
}

pub open spec fn info(text: Seq<char>) -> ItemView {
    ItemView::Notice(NoticeLevel::Info, text)
}

pub open spec fn error(text: Seq<char>) -> ItemView {
    ItemView::Notice(NoticeLevel::Error, text)
}

/// What a turn's end does. `empty` says that the turn produced nothing.
pub open spec fn ending(result: Result<TurnOutcome, TurnError>, cancelled: bool, empty: bool) -> Ending {
    let quiet = Ending { said: Seq::empty(), plan: None, quits: false, failed: false, rollback: Rollback::Keep };
    match result {
        Ok(TurnOutcome::Completed) => if empty {
            Ending {
                said: seq![error("o provedor não retornou conteúdo — verifique o modelo/endpoint"@)],
                failed: true,
                ..quiet
            }
        } else {
            quiet
        },
        Ok(TurnOutcome::PlanProposed(plan)) => if cancelled {
            quiet
        } else {
            Ending { said: seq![ItemView::Assistant(plan@)], plan: Some(plan@), ..quiet }
        },
        Ok(TurnOutcome::Aborted) => if cancelled {
            Ending { said: seq![info("⨯ cancelado"@)], rollback: Rollback::DanglingUser, ..quiet }
        } else {
            Ending { quits: true, ..quiet }
        },
        Err(e) => if cancelled {
            Ending { said: seq![info("⨯ cancelado"@)], rollback: Rollback::DanglingUser, ..quiet }
        } else if e.rejected {
            Ending {
                said: seq![
                    error("erro: "@ + e.message@),
                    info("turno anterior descartado (request rejeitado pelo provedor)"@),
                ],
                failed: true,
                rollback: Rollback::LastTurn,
                ..quiet
            }
        } else {
            Ending {
                said: seq![error("erro: "@ + e.message@)],
                failed: true,
                rollback: Rollback::DanglingUser,
                ..quiet
            }
        },
    }
}

/// The model after a turn came to such an end: nothing of the turn is left armed.
pub open spec fn ended(old: Model, v: Ending, new: Model) -> bool {
    &&& new == (Model {
        transcript: new.transcript,
        pending_plan: new.pending_plan,
        should_quit: old.should_quit || v.quits,
        busy: false,
        status: Status {
            streaming: false,
            turn_failed: old.status.turn_failed || v.failed,
            ..old.status
        },
        pending_approval: None,
        timeline: Timeline {
            stream_landings: new.timeline.stream_landings,
            turn_settled_at: old.timeline.render_at,
            ..old.timeline
        },
        ..old
    })
    &&& new.timeline.stream_landings@.len() == 0
    &&& new.transcript@ == old.transcript@ + v.said
    &&& match v.plan {
        Some(plan) => new.pending_plan matches Some(p) && p.plan@ == plan && p.selected == 0 && p.scroll
            == 0,
        None => new.pending_plan == old.pending_plan,
    }
}

/// The model after the end of a turn was announced.
spec fn announced(old: Model, v: Ending, new: Model) -> bool {
    &&& new == (Model {
        transcript: new.transcript,
        pending_plan: new.pending_plan,
        should_quit: old.should_quit || v.quits,
        status: Status { turn_failed: old.status.turn_failed || v.failed, ..old.status },
        ..old
    })
    &&& new.transcript@ == old.transcript@ + v.said
    &&& match v.plan {
        Some(plan) => new.pending_plan matches Some(p) && p.plan@ == plan && p.selected == 0 && p.scroll
            == 0,
        None => new.pending_plan == old.pending_plan,
    }
}

/// Announce a failed turn.
fn fail(failure: TurnError, cancelled: bool, model: &mut Model) -> (r: Rollback)
    ensures
        announced(*old(model), ending(Err(failure), cancelled, false), *final(model)),
        r == ending(Err(failure), cancelled, false).rollback,
{
    let ghost before = model.transcript@;
    let ghost v = ending(Err(failure), cancelled, false);
    if cancelled {
        model.notify_info("⨯ cancelado".to_owned());
        assert(model.transcript@ =~= before + v.said);
        return Rollback::DanglingUser;
    }
    model.notify_error(cat2("erro: ", failure.message.as_str()));
    model.status.turn_failed = true;
    if failure.rejected {
        model.notify_info("turno anterior descartado (request rejeitado pelo provedor)".to_owned());
        assert(model.transcript@ =~= before + v.said);
        return Rollback::LastTurn;
    }
    assert(model.transcript@ =~= before + v.said);
    Rollback::DanglingUser
}

/// Announce how a turn ended.
fn announce(
    result: Result<TurnOutcome, TurnError>,
    cancelled: bool,
    model: &mut Model,
    empty: bool,
) -> (r: Rollback)
    ensures
        announced(*old(model), ending(result, cancelled, empty), *final(model)),
        r == ending(result, cancelled, empty).rollback,
{
    let ghost before = model.transcript@;
    let ghost v = ending(result, cancelled, empty);
    match result {
        Ok(TurnOutcome::Completed) => {
            if empty {
                model.notify_error(
                    "o provedor não retornou conteúdo — verifique o modelo/endpoint".to_owned(),
                );
                model.status.turn_failed = true;
            }
            assert(model.transcript@ =~= before + v.said);
            Rollback::Keep
        },
        Ok(TurnOutcome::PlanProposed(plan)) => {
            if !cancelled {
                model.transcript.push(TranscriptItem::Assistant(plan.clone()));
                model.pending_plan = Some(PendingPlan { plan, selected: 0, scroll: 0 });
            }
            assert(model.transcript@ =~= before + v.said);
            Rollback::Keep
        },
        Ok(TurnOutcome::Aborted) => {
            if cancelled {
                model.notify_info("⨯ cancelado".to_owned());
                assert(model.transcript@ =~= before + v.said);
                return Rollback::DanglingUser;
            }
            model.should_quit = true;
            assert(model.transcript@ =~= before + v.said);
            Rollback::Keep
        },
        Err(failure) => fail(failure, cancelled, model),
    }
}

/// Apply the turn's outcome: surface errors, say what the conversation loses, and reset the per-turn state. A
/// user's cancel is reported as such, not as an error, and keeps the session alive: only a genuine end of input
/// quits. The plan box opens for a presented plan alone, never on a plain text turn.
pub fn on_turn_end(
    result: Result<TurnOutcome, TurnError>,
    cancelled: bool,
    model: &mut Model,
    conversation: &Conversation,
) -> (r: Rollback)
    requires
        old(model).wf(),
    ensures
        ended(*old(model), ending(result, cancelled, said_nothing(conversation@)), *final(model)),
        r == ending(result, cancelled, said_nothing(conversation@)).rollback,
        final(model).wf(),
{
    let empty: bool = turn_produced_nothing(conversation);
    let rollback: Rollback = announce(result, cancelled, model, empty);
    update(model, Msg::TurnEnded);
    rollback
}

/// A turn being driven.
#[derive(Debug, PartialEq, Eq)]
pub struct Turn {
    pub started: Instant,
    pub last_draw: Instant,
    pub cancel: CancelToken,
    /// The engine waits for the answer to an approval.
    pub awaiting_reply: bool,
    /// The current step redraws at once.
    pub force: bool,
    /// Set once the turn is over.
    pub outcome: Option<Result<TurnOutcome, TurnError>>,
}

/// The engine messages of a queue applied to the model in order.
pub open spec fn absorbed(old: Model, queue: Seq<EngineMsg>, new: Model) -> bool
    decreases queue.len(),
{
    if queue.len() == 0 {
        new == old
    } else {
        exists|mid: Model|
            absorbed(old, queue.drop_last(), mid) && #[trigger] updated(
                mid,
                ui_msg(queue.last()),
                new,
                nothing(),
            )
    }
}

/// One of the messages asks for an approval.
pub open spec fn asks(queue: Seq<EngineMsg>) -> bool {
    exists|i: int| 0 <= i < queue.len() && #[trigger] queue[i] is Approval
}

/// One of the messages redraws at once.
pub open spec fn structural(queue: Seq<EngineMsg>) -> bool {
    exists|i: int|
        0 <= i < queue.len() && !(#[trigger] queue[i] is Reasoning || queue[i] is Content)
}

/// The model with the frame's instant stamped.
pub open spec fn stamped(m: Model, now: Instant) -> Model {
    Model { timeline: Timeline { render_at: Some(now), ..m.timeline }, ..m }
}

/// The model with the turn's elapsed time shown.
pub open spec fn timed(m: Model, elapsed: Duration) -> Model {
    Model {
        status: Status {
            elapsed_secs: elapsed.secs() as u64,
            spinner_frame: spinner_at(elapsed) as usize,
            ..m.status
        },
        ..m
    }
}

/// What an effect does in the middle of a turn: a cancel or a quit ends the turn, an answer goes to the engine
/// where it waits for one, the clipboard and the cursor stay live, and anything else waits for the turn to end.
pub open spec fn turn_effect(t: Turn, effect: Effect, r: Option<TurnAction>, u: Turn) -> bool {
    match effect {
        Effect::AnswerApproval(decision) => if t.awaiting_reply {
            r == Some(TurnAction::Reply(decision)) && u == (Turn { awaiting_reply: false, ..t })
        } else {
            r is None && u == t
        },
        Effect::CancelTurn | Effect::Quit => r is None && u == (Turn {
            cancel: CancelToken { cancelled: true },
            force: true,
            outcome: Some(Ok(TurnOutcome::Aborted)),
            ..t
        }),
        Effect::CopyToClipboard(text) => r == Some(TurnAction::Copy(text)) && u == t,
        Effect::PasteClipboard => r == Some(TurnAction::Paste) && u == t,
        Effect::PlaceCursor { col, row } => r == Some(TurnAction::PlaceCursor { col, row }) && u == t,
        _ => r is None && u == t,
    }
}

impl Turn {
    /// Arm a turn.
    pub fn new(now: Instant) -> (r: Turn)
        ensures
            r == (Turn {
                started: now,
                last_draw: now,
                cancel: CancelToken { cancelled: false },
                awaiting_reply: false,
                force: false,
                outcome: None,
            }),
    {
        Turn {
            started: now,
            last_draw: now,
            cancel: CancelToken::new(),
            awaiting_reply: false,
            force: false,
            outcome: None,
        }
    }

    /// Take one step: stamp the frame first, so that line landings and the draw that shows them share one
    /// instant, then apply what came. Returns the effects asked for, and whether the engine's queue is to be
    /// drained before the draw.
    pub fn step(&mut self, model: &mut Model, step: Step, now: Instant) -> (r: (Vec<Effect>, bool))
        requires
            old(model).wf(),
        ensures
            match step {
                Step::Done(outcome) => {
                    &&& *final(self) == (Turn { force: true, outcome: Some(outcome), ..*old(self) })
                    &&& *final(model) == stamped(*old(model), now)
                    &&& effect_views(r.0@) == nothing()
                },
                Step::Apply(msg) => {
                    &&& *final(self) == (Turn {
                        force: !(msg is StreamDelta || msg is Tick),
                        outcome: None,
                        ..*old(self)
                    })
                    &&& updated(stamped(*old(model), now), msg, *final(model), effect_views(r.0@))
                },
                Step::Idle => {
                    &&& *final(self) == (Turn { force: false, outcome: None, ..*old(self) })
                    &&& *final(model) == stamped(*old(model), now)
                    &&& effect_views(r.0@) == nothing()
                },
            },
            r.1 == (step is Apply),
            final(model).wf(),
    {
        model.timeline.render_at = Some(now);
        self.force = false;
        self.outcome = None;
        match step {
            Step::Done(outcome) => {
                self.outcome = Some(outcome);
                self.force = true;
                (no_effects(), false)
            },
            Step::Idle => (no_effects(), false),
            Step::Apply(msg) => {
                self.force = forces_draw(&msg);
                let effects: Vec<Effect> = update(model, msg);
                (effects, true)
            },
        }
    }

    /// Route one effect of the step.
    pub fn on_effect(&mut self, model: &mut Model, effect: Effect) -> (r: Option<TurnAction>)
        ensures
            turn_effect(*old(self), effect, r, *final(self)),
            *final(model) == (Model {
                should_quit: old(model).should_quit || effect is Quit,
                ..*old(model)
            }),
    {
        match effect {
            Effect::AnswerApproval(decision) => {
                if !self.awaiting_reply {
                    return None;
                }
                self.awaiting_reply = false;
                Some(TurnAction::Reply(decision))
            },
            Effect::CancelTurn => {
                self.abort();
                None
            },
            Effect::Quit => {
                model.should_quit = true;
                self.abort();
                None
            },
            Effect::CopyToClipboard(text) => Some(TurnAction::Copy(text)),
            Effect::PasteClipboard => Some(TurnAction::Paste),
            Effect::PlaceCursor { col, row } => Some(TurnAction::PlaceCursor { col, row }),
            _ => None,
        }
    }

    /// Cancel and end the turn: whatever the engine still runs is dropped.
    fn abort(&mut self)
        ensures
            *final(self) == (Turn {
                cancel: CancelToken { cancelled: true },
                force: true,
                outcome: Some(Ok(TurnOutcome::Aborted)),
                ..*old(self)
            }),
    {
        self.cancel.cancel();
        self.outcome = Some(Ok(TurnOutcome::Aborted));
        self.force = true;
    }

    /// Apply every engine message already queued, so that tokens that arrived together become one redraw. A
    /// structural one among them still redraws at once.
    pub fn absorb(&mut self, model: &mut Model, queue: Vec<EngineMsg>)
        requires
            old(model).wf(),
        ensures
            absorbed(*old(model), queue@, *final(model)),
            *final(self) == (Turn {
                force: old(self).force || structural(queue@),
                awaiting_reply: old(self).awaiting_reply || asks(queue@),
                ..*old(self)
            }),
            final(model).wf(),
    {
        let ghost start = *self;
        assert(queue@.take(0).len() == 0);
        for received in it: queue
            invariant
                it.seq() == queue@,
                model.wf(),
                absorbed(*old(model), queue@.take(it.index() as int), *model),
                *self == (Turn {
                    force: start.force || structural(queue@.take(it.index() as int)),
                    awaiting_reply: start.awaiting_reply || asks(queue@.take(it.index() as int)),
                    ..start
                }),
        {
            let ghost done = queue@.take(it.index() as int);
            let ghost next = queue@.take(it.index() as int + 1);
            proof {
                assert(next.drop_last() =~= done);
                assert(next.last() == received);
                assert forall|i: int| 0 <= i < done.len() implies done[i] == next[i] by {}
                assert(asks(next) == (asks(done) || received is Approval)) by {
                    if asks(done) {
                        let i = choose|i: int| 0 <= i < done.len() && #[trigger] done[i] is Approval;
                        assert(next[i] is Approval);
                    }
                    if received is Approval {
                        assert(next[next.len() - 1] is Approval);
                    }
                }
                assert(structural(next) == (structural(done) || !(received is Reasoning || received is Content)))
                    by {
                    if structural(done) {
                        let i = choose|i: int|
                            0 <= i < done.len() && !(#[trigger] done[i] is Reasoning || done[i] is Content);
                        assert(!(next[i] is Reasoning || next[i] is Content));
                    }
                    if !(received is Reasoning || received is Content) {
                        let last = next[next.len() - 1];
                        assert(!(last is Reasoning || last is Content));
                    }
                }
            }
            if matches!(&received, EngineMsg::Approval(_)) {
                self.awaiting_reply = true;
            }
            let queued: Msg = engine_msg(received);
            if forces_draw(&queued) {
                self.force = true;
            }
            let ghost mid = *model;
            update(model, queued);
            assert(absorbed(*old(model), next.drop_last(), mid) && updated(
                mid,
                ui_msg(next.last()),
                *model,
                nothing(),
            ));
        }
        assert(queue@.take(queue@.len() as int) =~= queue@);
    }

    /// Close a step: show the elapsed time, and say whether to draw now. A forced step draws at once, any other
    /// once the frame budget is spent.
    pub fn due(&self, model: &mut Model, now: Instant) -> (r: bool)
        requires
            old(model).wf(),
        ensures
            *final(model) == timed(*old(model), Duration { nanos: now.nanos_since(self.started) as u64 }),
            r == (self.force || now.nanos_since(self.last_draw) >= STREAM_FRAME * 1_000_000),
            final(model).wf(),
    {
        let elapsed: Duration = now.saturating_duration_since(self.started);
        model.status.elapsed_secs = elapsed.as_secs();
        model.status.spinner_frame = spinner_frame(elapsed);
        self.force || now.saturating_duration_since(self.last_draw).nanos >= STREAM_FRAME * 1_000_000
    }

    /// Take note of a draw. One that failed ends the turn with its error: it must not escape the loop, which
    /// would skip the turn's end and leave the front-end busy for good.
    pub fn drawn(&mut self, failure: Option<String>, now: Instant)
        ensures
            *final(self) == match failure {
                None => Turn { last_draw: now, ..*old(self) },
                Some(message) => Turn {
                    outcome: Some(Err(TurnError { message, rejected: false })),
                    ..*old(self)
                },
            },
    {
        match failure {
            None => {
                self.last_draw = now;
            },
            Some(message) => {
                self.outcome = Some(Err(TurnError { message, rejected: false }));
            },
        }
    }

    /// Finish the turn once it is over: apply what the engine still had queued, so that nothing is lost, then the
    /// outcome. Says what the conversation loses.
    pub fn finish(self, model: &mut Model, conversation: &Conversation, rest: Vec<EngineMsg>) -> (r: Rollback)
        requires
            old(model).wf(),
            self.outcome is Some,
        ensures
            exists|mid: Model| #[trigger]
                absorbed(*old(model), rest@, mid) && ended(
                    mid,
                    ending(self.outcome->0, self.cancel.cancelled, said_nothing(conversation@)),
                    *final(model),
                ),
            r == ending(self.outcome->0, self.cancel.cancelled, said_nothing(conversation@)).rollback,
            final(model).wf(),
    {
        let mut turn: Turn = self;
        turn.absorb(model, rest);
        let cancelled: bool = turn.cancel.is_cancelled();
        match turn.outcome {
            Some(result) => on_turn_end(result, cancelled, model, conversation),
            None => Rollback::Keep,
        }
    }
}

/// The message that a prompt becomes: its images ride along where there are any.
pub fn submit_prompt(text: String, images: Vec<String>, conversation: &mut Conversation)
    ensures
        final(conversation)@ == old(conversation)@.push(
            MessageView { images: views(images@), ..MessageView::plain(Role::User, text@) },
        ),
        final(conversation)@.last().role == Role::User,
        final(conversation)@.last().content == Some(text@),
        final(conversation)@.last().images == views(images@),
        final(conversation)@.drop_last() == old(conversation)@,
{
    assert(images@.len() == 0 ==> views(images@) =~= Seq::<Seq<char>>::empty());
    let message: Message = if images.len() == 0 {
        Message::user(text)
    } else {
        Message::user_multimodal(text, images)
    };
    conversation.push(message);
    assert(conversation@.drop_last() =~= old(conversation)@);
}

/// Approve the proposed plan: adopt the chosen mode, announce it, and push the go-ahead message of the executing
/// turn.
pub fn approve_plan(mode: ApprovalMode, model: &mut Model, conversation: &mut Conversation)
    requires
        old(model).wf(),
    ensures
        *final(model) == (Model {
            approval_mode: mode,
            busy: true,
            transcript: final(model).transcript,
            ..*old(model)
        }),
        final(model).transcript@ == old(model).transcript@.push(
            info(
                if mode == ApprovalMode::Auto {
                    "▶ executando o plano (auto)"@
                } else {
                    "▶ executando o plano"@
                },
            ),
        ),
        final(conversation)@ == old(conversation)@.push(
            MessageView::plain(Role::User, "Plano aprovado. Prossiga com a execução."@),
        ),
        // The go-ahead is the user's, and the turn that it starts runs in the mode that was chosen.
        final(conversation)@.last().role == Role::User && final(conversation)@.last().speaks(),
        final(model).approval_mode == mode && final(model).busy,
        final(model).wf(),
{
    model.approval_mode = mode;
    let notice: &str = if mode == ApprovalMode::Auto {
        "▶ executando o plano (auto)"
    } else {
        "▶ executando o plano"
    };
    model.notify_info(notice.to_owned());
    model.busy = true;
    conversation.push(Message::user("Plano aprovado. Prossiga com a execução.".to_owned()));
    proof {
        let said = "Plano aprovado. Prossiga com a execução."@;
        reveal_strlit("Plano aprovado. Prossiga com a execução.");
        crate::text::trimmed_is_bare(said);
        assert(!crate::text::is_white(said[0]));
    }
}

/// However a turn ends, nothing of it is left armed: the front-end takes the next prompt.
pub proof fn every_end_frees_the_front_end(
    old: Model,
    result: Result<TurnOutcome, TurnError>,
    cancelled: bool,
    empty: bool,
    new: Model,
)
    requires
        ended(old, ending(result, cancelled, empty), new),
    ensures
        !new.busy,
        !new.status.streaming,
        new.pending_approval is None,
        new.input == old.input,
{
}

/// A cancelled turn never ends the session, whatever the engine made of the cancel.
pub proof fn cancelling_keeps_the_session(
    old: Model,
    result: Result<TurnOutcome, TurnError>,
    empty: bool,
    new: Model,
)
    requires
        ended(old, ending(result, true, empty), new),
    ensures
        new.should_quit == old.should_quit,
        new.pending_plan == old.pending_plan,
{
}

/// The session ends only on a genuine abort.
pub proof fn only_a_genuine_abort_quits(result: Result<TurnOutcome, TurnError>, cancelled: bool, empty: bool)
    ensures
        ending(result, cancelled, empty).quits <==> !cancelled && result == Ok::<TurnOutcome, TurnError>(
            TurnOutcome::Aborted,
        ),
{
}

/// The plan box opens for a presented plan alone.
pub proof fn only_a_presented_plan_opens_the_box(
    old: Model,
    result: Result<TurnOutcome, TurnError>,
    cancelled: bool,
    empty: bool,
    new: Model,
)
    requires
        ended(old, ending(result, cancelled, empty), new),
        old.pending_plan is None,
    ensures
        new.pending_plan is Some <==> !cancelled && result is Ok && result->Ok_0 is PlanProposed,
{
}

/// A failure, an empty reply and a cancel by the user are all seen in the transcript: none is silent.
pub proof fn failures_are_announced(
    old: Model,
    result: Result<TurnOutcome, TurnError>,
    cancelled: bool,
    empty: bool,
    new: Model,
)
    requires
        ended(old, ending(result, cancelled, empty), new),
        result is Err || (result->Ok_0 is Completed && empty) || (result->Ok_0 is Aborted && cancelled),
    ensures
        new.transcript@.len() > old.transcript@.len(),
        new.transcript@[old.transcript@.len() as int] is Notice,
{
}

/// A turn that ended in error shows the badge, and the next turn that begins takes it down.
pub proof fn a_failure_is_badged_until_the_next_turn(
    old: Model,
    result: Result<TurnOutcome, TurnError>,
    cancelled: bool,
    empty: bool,
    mid: Model,
    new: Model,
    effects: Seq<EffectView>,
)
    requires
        ended(old, ending(result, cancelled, empty), mid),
        updated(mid, Msg::TurnBegan, new, effects),
    ensures
        result is Err && !cancelled ==> mid.status.turn_failed && activity_text(mid) == "✗ erro"@,
        result == Ok::<TurnOutcome, TurnError>(TurnOutcome::Completed) && empty ==> activity_text(mid)
            == "✗ erro"@,
        !new.status.turn_failed,
{
}

/// What the engine says never touches what the user is doing: the composer, the selection, the scroll position,
/// an open picker or wizard.
pub proof fn engine_leaves_the_user_alone(old: Model, queue: Seq<EngineMsg>, new: Model)
    requires
        absorbed(old, queue, new),
    ensures
        new.input == old.input,
        new.selection == old.selection,
        new.scroll == old.scroll,
        new.picker == old.picker,
        new.wizard == old.wizard,
        new.pending_plan == old.pending_plan,
        new.busy == old.busy,
        new.should_quit == old.should_quit,
    decreases queue.len(),
{
    if queue.len() > 0 {
        let mid = choose|mid: Model|
            absorbed(old, queue.drop_last(), mid) && #[trigger] updated(
                mid,
                ui_msg(queue.last()),
                new,
                nothing(),
            );
        engine_leaves_the_user_alone(old, queue.drop_last(), mid);
    }
}

/// The engine's question is answered once: a second answer goes nowhere.
pub proof fn an_approval_is_answered_once(
    t: Turn,
    first: Approval,
    u: Turn,
    second: Approval,
    v: Turn,
    r: Option<TurnAction>,
    s: Option<TurnAction>,
)
    requires
        turn_effect(t, Effect::AnswerApproval(first), r, u),
        turn_effect(u, Effect::AnswerApproval(second), s, v),
    ensures
        r == if t.awaiting_reply {
            Some(TurnAction::Reply(first))
        } else {
            None::<TurnAction>
        },
        s is None,
        v == u,
{
}

} // verus!
