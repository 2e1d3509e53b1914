//! The reducer.
use vstd::prelude::*;
use crate::application::effect::{effect_views, no_effects, nothing, Effect, EffectView};
use crate::application::keymap::editor_input::{keyed, moused, on_key, on_mouse, unselected};
use crate::application::keymap::menu::{menu_follows, sync_menu};
use crate::application::keymap::wizard::wizard_is;
use crate::application::keymap::WHEEL_STEP;
use crate::application::msg::{Msg, StreamKind};
use crate::clock::{Duration, Instant};
use crate::domain::input_buffer::inserts;
use crate::domain::model::{Model, Status, Timeline};
use crate::domain::picker::PickerView;
use crate::domain::transcript::{
    diff_view, running, with_content, with_outcome, with_reasoning, ItemView, NoticeLevel,
};
use crate::domain::wizard::{printable, printable_of};
use crate::text::{cat5, decimal, decimal_of};

verus! {

/// Backdating the open instant by more than the splash settle window freezes the breath-in at once.
/// In nanoseconds.
pub const SPLASH_FAST_FORWARD: u64 = 700_000_000;

/// The model with the splash fast-forwarded: the shell counts as open since well before this frame.
pub open spec fn splash_skipped(m: Model) -> Model {
    match m.timeline.render_at {
        Some(now) => Model {
            timeline: Timeline {
                opened_at: Some(
                    if now.nanos >= SPLASH_FAST_FORWARD {
                        Instant { nanos: (now.nanos - SPLASH_FAST_FORWARD) as u64 }
                    } else {
                        now
                    },
                ),
                ..m.timeline
            },
            ..m
        },
        None => m,
    }
}

/// The number of line breaks in a text.
pub open spec fn breaks(s: Seq<char>) -> nat
    decreases s.len(),
{
    if s.len() == 0 {
        0
    } else if s.last() == '\n' {
        breaks(s.drop_last()) + 1
    } else {
        breaks(s.drop_last())
    }
}

/// The landings of the streaming answer once `text` streamed in: a fresh answer starts without any, and each
/// line break lands at this frame.
pub open spec fn landed(m: Model, text: Seq<char>) -> Seq<Instant> {
    let before = if m.transcript@.len() > 0 && m.transcript@.last() is Assistant {
        m.timeline.stream_landings@
    } else {
        Seq::empty()
    };
    match m.timeline.render_at {
        Some(now) => before + Seq::new(breaks(text), |i: int| now),
        None => before,
    }
}

/// What a paste does: it goes to the open wizard's field, is held back by an approval or a plan, goes to the
/// open picker's search, or else to the composer.
pub open spec fn pasted(old: Model, text: Seq<char>, new: Model) -> bool {
    match old.wizard {
        Some(w) => wizard_is(
            old,
            new,
            w@.appended(printable(text)),
        ),
        None => if old.pending_approval is Some || old.pending_plan is Some {
            new == old
        } else {
            match old.picker {
                Some(p) => {
                    &&& new == (Model { picker: new.picker, ..old })
                    &&& new.picker matches Some(q) && q@ == (PickerView {
                        query: p@.query.with_text(printable(text)),
                        selected: 0,
                        ..p@
                    }) && (inserts(printable(text)) ==> q.query.edited_from(p.query))
                },
                None => {
                    &&& new == (Model { input: new.input, command_menu: new.command_menu, ..old })
                    &&& new.input@ == old.input@.with_text(text)
                    &&& inserts(text) ==> new.input.edited_from(old.input)
                    &&& menu_follows(old.command_menu, new)
                },
            }
        },
    }
}

/// The notice of an attached image.
pub open spec fn attached_notice(width: int, height: int) -> Seq<char> {
    "🖼 imagem anexada ("@ + decimal(width) + "×"@ + decimal(height)
        + ") — vai junto no próximo envio"@
}

/// What a message does to the model, and the effects it asks for.
pub open spec fn updated(old: Model, msg: Msg, new: Model, effects: Seq<EffectView>) -> bool {
    match msg {
        Msg::Key(key) => keyed(splash_skipped(old), key, new, effects),
        Msg::Mouse { kind, col, row } => moused(old, kind, col, row, new, effects),
        Msg::Paste(text) => effects == nothing() && pasted(old, text@, new),
        Msg::ImageAttached(image) => {
            &&& effects == nothing()
            &&& new == (Model { attachments: new.attachments, transcript: new.transcript, ..old })
            &&& new.attachments@ == old.attachments@.push(image)
            &&& new.transcript@ == old.transcript@.push(
                ItemView::Notice(
                    NoticeLevel::Info,
                    attached_notice(image.width as int, image.height as int),
                ),
            )
        },
        Msg::Resize => new == unselected(old) && effects == nothing(),
        Msg::Tick => new == old && effects == nothing(),
        Msg::TurnBegan => {
            &&& effects == nothing()
            &&& new == (Model {
                status: Status { streaming: true, turn_failed: false, ..old.status },
                timeline: Timeline {
                    stream_landings: new.timeline.stream_landings,
                    turn_settled_at: None,
                    ..old.timeline
                },
                ..old
            })
            &&& new.timeline.stream_landings@.len() == 0
        },
        Msg::StreamDelta(StreamKind::Reasoning, text) => {
            &&& effects == nothing()
            &&& new == (Model { transcript: new.transcript, ..old })
            &&& new.transcript@ == with_reasoning(old.transcript@, text@)
        },
        Msg::StreamDelta(StreamKind::Content, text) => {
            &&& effects == nothing()
            &&& new == (Model {
                transcript: new.transcript,
                timeline: Timeline {
                    stream_landings: new.timeline.stream_landings,
                    ..old.timeline
                },
                ..old
            })
            &&& new.transcript@ == with_content(old.transcript@, text@)
            &&& new.timeline.stream_landings@ == landed(old, text@)
        },
        Msg::TurnFinished => {
            &&& effects == nothing()
            &&& new == (Model { status: Status { streaming: false, ..old.status }, ..old })
        },
        Msg::ToolStarted { command, diff, is_run_command } => {
            &&& effects == nothing()
            &&& new == (Model { transcript: new.transcript, ..old })
            &&& new.transcript@ == old.transcript@.push(running(command@, diff_view(diff)))
        },
        Msg::ToolFinished { status, output, elapsed } => {
            &&& effects == nothing()
            &&& new == (Model { transcript: new.transcript, ..old })
            &&& new.transcript@ == with_outcome(old.transcript@, status, output@, elapsed)
        },
        Msg::ApprovalRequested(pending) => {
            new == (Model { pending_approval: Some(pending), ..old }) && effects == nothing()
        },
        Msg::ScrollUp => {
            &&& effects == nothing()
            &&& new == (Model { scroll: old.scroll.raised(WHEEL_STEP), ..unselected(old) })
        },
        Msg::ScrollDown => {
            &&& effects == nothing()
            &&& new == (Model { scroll: old.scroll.lowered(WHEEL_STEP), ..unselected(old) })
        },
        Msg::TurnEnded => {
            &&& effects == nothing()
            &&& new == (Model {
                busy: false,
                status: Status { streaming: false, ..old.status },
                pending_approval: None,
                timeline: Timeline {
                    stream_landings: new.timeline.stream_landings,
                    turn_settled_at: old.timeline.render_at,
                    ..old.timeline
                },
                ..old
            })
            &&& new.timeline.stream_landings@.len() == 0
        },
    }
}

/// Any keypress fast-forwards the splash breath-in, so that a frequent user never waits on it.
fn skip_splash(model: &mut Model)
    requires
        old(model).wf(),
    ensures
        *final(model) == splash_skipped(*old(model)),
        final(model).wf(),
{
    if let Some(now) = model.timeline.render_at {
        let opened: Instant = match now.checked_sub(Duration { nanos: SPLASH_FAST_FORWARD }) {
            Some(t) => t,
            None => now,
        };
        model.timeline.opened_at = Some(opened);
    }
}

/// Route a paste. Into an open wizard it must never fall through to the plaintext composer, where a pasted API
/// key would be unmasked, survive the modal, and could be sent to the provider as a prompt.
fn paste(model: &mut Model, text: String)
    requires
        old(model).wf(),
    ensures
        pasted(*old(model), text@, *final(model)),
        final(model).wf(),
{
    if let Some(mut wizard) = model.wizard.take() {
        wizard.push_str(text.as_str());
        model.wizard = Some(wizard);
        return ;
    }
    if model.pending_approval.is_some() || model.pending_plan.is_some() {
        return ;
    }
    if let Some(mut picker) = model.picker.take() {
        let kept: String = printable_of(text.as_str());
        picker.query.insert(kept.as_str());
        picker.selected = 0;
        model.picker = Some(picker);
        return ;
    }
    model.input.insert(text.as_str());
    sync_menu(model);
}

/// Stream a piece of the answer. The landings stay aligned with the current answer: a piece that starts a fresh
/// answer (e.g. after a tool ran) resets them.
fn stream_content(model: &mut Model, text: String)
    requires
        old(model).wf(),
    ensures
        updated(*old(model), Msg::StreamDelta(StreamKind::Content, text), *final(model), nothing()),
        final(model).wf(),
{
    if !model.transcript.last_is_assistant() {
        model.timeline.reset_stream();
    }
    let ghost before = model.timeline.stream_landings@;
    assert(old(model).transcript@.len() == 0 || !(old(model).transcript@.last() is Assistant)
        ==> before =~= Seq::<Instant>::empty());
    if let Some(now) = model.timeline.render_at {
        let ghost start = *model;
        assert(text@.take(0) =~= Seq::<char>::empty());
        assert(before + Seq::new(0, |i: int| now) =~= before);
        for c in it: text.as_str().chars()
            invariant
                it.seq() == text@,
                *model == (Model {
                    timeline: Timeline {
                        stream_landings: model.timeline.stream_landings,
                        ..start.timeline
                    },
                    ..start
                }),
                model.timeline.stream_landings@ == before + Seq::new(
                    breaks(text@.take(it.index() as int)),
                    |i: int| now,
                ),
        {
            let ghost next = text@.take(it.index() as int + 1);
            assert(next.drop_last() =~= text@.take(it.index() as int));
            if c == '\n' {
                model.timeline.push_stream_landing(now);
                assert(model.timeline.stream_landings@ =~= before + Seq::new(
                    breaks(next),
                    |i: int| now,
                ));
            }
        }
        assert(text@.take(text@.len() as int) =~= text@);
    }
    model.transcript.push_content_delta(text.as_str());
}

/// The pure reducer: apply one message to the model and return the effects that must be performed. No I/O, no
/// engine handles.
pub fn update(model: &mut Model, msg: Msg) -> (r: Vec<Effect>)
    requires
        old(model).wf(),
    ensures
        updated(*old(model), msg, *final(model), effect_views(r@)),
        final(model).wf(),
{
    match msg {
        Msg::Key(key) => {
            skip_splash(model);
            return on_key(model, key);
        },
        Msg::Mouse { kind, col, row } => {
            return on_mouse(model, kind, col, row);
        },
        Msg::Paste(text) => {
            paste(model, text);
        },
        Msg::ImageAttached(attachment) => {
            let label: String = cat5(
                "🖼 imagem anexada (",
                decimal_of(attachment.width as u64).as_str(),
                "×",
                decimal_of(attachment.height as u64).as_str(),
                ") — vai junto no próximo envio",
            );
            model.attachments.push(attachment);
            model.notify_info(label);
        },
        // A reflow makes the selection's cells meaningless.
        Msg::Resize => {
            model.clear_screen_selection();
        },
        // A tick just keeps the loop redrawing on schedule.
        Msg::Tick => {},
        Msg::TurnBegan => {
            model.status.streaming = true;
            model.status.turn_failed = false;
            model.timeline.begin_turn();
        },
        Msg::StreamDelta(StreamKind::Reasoning, text) => {
            model.transcript.push_reasoning_delta(text.as_str());
        },
        Msg::StreamDelta(StreamKind::Content, text) => {
            stream_content(model, text);
        },
        Msg::TurnFinished => {
            model.status.streaming = false;
        },
        Msg::ToolStarted { command, diff, is_run_command: _ } => {
            model.transcript.push_tool_start(command, diff);
        },
        Msg::ToolFinished { status, output, elapsed } => {
            model.transcript.finish_last_tool(status, output, elapsed);
        },
        Msg::ApprovalRequested(pending) => {
            model.pending_approval = Some(pending);
        },
        Msg::ScrollUp => {
            model.clear_screen_selection();
            model.scroll.up(WHEEL_STEP);
        },
        Msg::ScrollDown => {
            model.clear_screen_selection();
            model.scroll.down(WHEEL_STEP);
        },
        Msg::TurnEnded => {
            model.busy = false;
            model.status.streaming = false;
            model.pending_approval = None;
            model.timeline.settle_turn();
        },
    }
    no_effects()
}

/// A paste while the wizard is open never reaches the composer, whatever step the wizard is on.
pub proof fn wizard_paste_stays_out_of_the_composer(old: Model, text: String, new: Model, effects: Seq<EffectView>)
    requires
        updated(old, Msg::Paste(text), new, effects),
        old.wizard is Some,
    ensures
        new.input == old.input,
        new.transcript == old.transcript,
        effects == nothing(),
{
}

/// A paste is dropped while an approval or a plan awaits an answer.
pub proof fn boxes_hold_back_pastes(old: Model, text: String, new: Model, effects: Seq<EffectView>)
    requires
        updated(old, Msg::Paste(text), new, effects),
        old.wizard is None,
        old.pending_approval is Some || old.pending_plan is Some,
    ensures
        new == old,
{
}

/// Streaming, ticks and tool activity leave the user's screen selection and composer alone.
pub proof fn streaming_keeps_the_selection(old: Model, msg: Msg, new: Model, effects: Seq<EffectView>)
    requires
        updated(old, msg, new, effects),
        msg is StreamDelta || msg is Tick || msg is ToolStarted || msg is ToolFinished || msg is TurnFinished
            || msg is TurnBegan,
    ensures
        new.selection == old.selection,
        new.input == old.input,
        new.scroll == old.scroll,
        effects == nothing(),
{
}

/// After a turn ended nothing of it is left armed: no turn runs, nothing streams, and no approval waits.
pub proof fn turn_end_resets(old: Model, new: Model, effects: Seq<EffectView>)
    requires
        updated(old, Msg::TurnEnded, new, effects),
    ensures
        !new.busy,
        !new.status.streaming,
        new.pending_approval is None,
        new.timeline.stream_landings@.len() == 0,
        new.timeline.turn_settled_at == old.timeline.render_at,
        new.transcript == old.transcript,
{
}

/// Only keys and mouse releases ask for effects: an engine event never does.
pub proof fn engine_events_ask_for_nothing(old: Model, msg: Msg, new: Model, effects: Seq<EffectView>)
    requires
        updated(old, msg, new, effects),
        !(msg is Key) && !(msg is Mouse),
    ensures
        effects == nothing(),
{
}

} // verus!
