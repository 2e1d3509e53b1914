//! What the messages do to what is on display.
use vstd::prelude::*;
use crate::application::effect::{nothing, EffectView};
use crate::application::keymap::editor_input::moused;
use crate::application::msg::{Msg, StreamKind};
use crate::application::update::{breaks, landed, splash_skipped, updated};
use crate::clock::{Duration, Instant};
use crate::domain::input::MouseKind;
use crate::domain::input_buffer::ImageAttachment;
use crate::domain::model::Model;
use crate::domain::modal::PendingApproval;
use crate::domain::selection::{Granularity, SelectionState};
use crate::domain::transcript::{ItemView, NoticeLevel, ToolDiff, ToolStatus};
use crate::text::decimal;

verus! {

/// A streamed piece of an answer is shown at its end: it continues the answer that is last, or begins a new one, and leaves
/// everything above as it was.
pub proof fn streamed_text_lands_at_the_end(old: Model, text: String, new: Model, effects: Seq<EffectView>)
    requires
        updated(old, Msg::StreamDelta(StreamKind::Content, text), new, effects),
    ensures
        ({
            let was = old.transcript@;
            let is = new.transcript@;
            &&& is.len() > 0 && is.last() is Assistant
            &&& was.len() > 0 && was.last() is Assistant ==> is.len() == was.len() && is.drop_last() == was.drop_last()
                && is.last()->Assistant_0 == was.last()->Assistant_0 + text@
            &&& !(was.len() > 0 && was.last() is Assistant) ==> is.drop_last() == was && is.last()->Assistant_0 == text@
        }),
{
    assert(new.transcript@.drop_last() =~= if old.transcript@.len() > 0 && old.transcript@.last() is Assistant {
        old.transcript@.drop_last()
    } else {
        old.transcript@
    });
}

/// A streamed piece of a thought is shown likewise, apart from the answer.
pub proof fn streamed_thoughts_land_at_the_end(old: Model, text: String, new: Model, effects: Seq<EffectView>)
    requires
        updated(old, Msg::StreamDelta(StreamKind::Reasoning, text), new, effects),
    ensures
        ({
            let was = old.transcript@;
            let is = new.transcript@;
            &&& is.len() > 0 && is.last() is Reasoning
            &&& was.len() > 0 && was.last() is Reasoning ==> is.len() == was.len() && is.drop_last() == was.drop_last()
                && is.last()->Reasoning_0 == was.last()->Reasoning_0 + text@
            &&& !(was.len() > 0 && was.last() is Reasoning) ==> is.drop_last() == was && is.last()->Reasoning_0 == text@
        }),
{
    assert(new.transcript@.drop_last() =~= if old.transcript@.len() > 0 && old.transcript@.last() is Reasoning {
        old.transcript@.drop_last()
    } else {
        old.transcript@
    });
}

/// A tool that starts is shown with its command and its edit; when it ends, that same call gets its outcome, and keeps its
/// command and edit.
pub proof fn a_tool_call_gets_its_outcome(
    a: Model,
    command: String,
    diff: Option<ToolDiff>,
    runs: bool,
    b: Model,
    status: ToolStatus,
    output: String,
    elapsed: Duration,
    c: Model,
    first: Seq<EffectView>,
    second: Seq<EffectView>,
)
    requires
        updated(a, Msg::ToolStarted { command, diff, is_run_command: runs }, b, first),
        updated(b, Msg::ToolFinished { status, output, elapsed }, c, second),
    ensures
        b.transcript@.len() == a.transcript@.len() + 1,
        b.transcript@.drop_last() == a.transcript@,
        b.transcript@.last() matches ItemView::Tool(t) && t.command == command@ && t.result is None && (diff matches Some(
            d,
        ) ==> t.diff == Some((d.old@, d.new@))) && (diff is None ==> t.diff is None),
        c.transcript@.len() == b.transcript@.len(),
        c.transcript@.drop_last() == a.transcript@,
        c.transcript@.last() matches ItemView::Tool(t) && t.command == command@ && t.result == Some(
            (status, output@, elapsed),
        ) && (diff matches Some(d) ==> t.diff == Some((d.old@, d.new@))),
{
    assert(b.transcript@.drop_last() =~= a.transcript@);
    assert(c.transcript@.drop_last() =~= a.transcript@);
}

/// An approval that is asked for is put to the user as it is, and nothing else changes.
pub proof fn an_approval_is_put_to_the_user(old: Model, pending: PendingApproval, new: Model, effects: Seq<EffectView>)
    requires
        updated(old, Msg::ApprovalRequested(pending), new, effects),
    ensures
        new.pending_approval == Some(pending),
        new.transcript == old.transcript,
        new.input == old.input,
        new.busy == old.busy,
{
}

/// A turn that begins streams and clears the badge of the one before; one that is finished no longer streams.
pub proof fn a_turn_streams_from_its_begin(old: Model, new: Model, effects: Seq<EffectView>)
    ensures
        updated(old, Msg::TurnBegan, new, effects) ==> new.status.streaming && !new.status.turn_failed
            && new.timeline.turn_settled_at is None && new.transcript == old.transcript && new.busy == old.busy,
        updated(old, Msg::TurnFinished, new, effects) ==> !new.status.streaming && new.busy == old.busy && new.transcript
            == old.transcript,
{
}

/// An attached image is staged behind the others and announced with its size.
pub proof fn an_image_is_staged(old: Model, image: ImageAttachment, new: Model, effects: Seq<EffectView>)
    requires
        updated(old, Msg::ImageAttached(image), new, effects),
    ensures
        new.attachments@ == old.attachments@.push(image),
        new.transcript@.len() == old.transcript@.len() + 1,
        new.transcript@.last() == ItemView::Notice(
            NoticeLevel::Info,
            "🖼 imagem anexada ("@ + decimal(image.width as int) + "×"@ + decimal(image.height as int)
                + ") — vai junto no próximo envio"@,
        ),
        new.input == old.input,
{
}

/// A paste goes to what is open: the wizard's field, the picker's search, or the composer; control characters are dropped
/// but in the composer, and the text replaces what is selected.
pub proof fn a_paste_goes_to_what_is_open(old: Model, text: String, new: Model, effects: Seq<EffectView>)
    requires
        updated(old, Msg::Paste(text), new, effects),
    ensures
        old.wizard is None && old.picker is None && old.pending_approval is None && old.pending_plan is None
            ==> new.input@ == old.input@.with_text(text@) && new.transcript == old.transcript,
        old.wizard is None && old.pending_approval is None && old.pending_plan is None && old.picker is Some
            ==> new.input == old.input && new.picker is Some && (new.picker->0)@.query == (
        old.picker->0)@.query.with_text(crate::domain::wizard::printable(text@)) && (new.picker->0)@.options == (
        old.picker->0)@.options,
{
}

/// The wheel scrolls by three rows, up to the farthest and down to the newest.
pub proof fn the_wheel_scrolls_by_three(old: Model, new: Model, effects: Seq<EffectView>)
    ensures
        updated(old, Msg::ScrollUp, new, effects) ==> new.scroll.scrollback == if old.scroll.scrollback > u16::MAX - 3 {
            u16::MAX as int
        } else {
            old.scroll.scrollback + 3
        },
        updated(old, Msg::ScrollDown, new, effects) ==> new.scroll.scrollback == if old.scroll.scrollback < 3 {
            0
        } else {
            old.scroll.scrollback - 3
        },
{
}

/// Each line break that streams in lands at the frame on display; the landings before it stay while the answer goes on, and
/// a new answer starts without any.
pub proof fn line_breaks_land_at_the_frame(m: Model, text: Seq<char>, now: Instant)
    requires
        m.timeline.render_at == Some(now),
    ensures
        ({
            let goes_on = m.transcript@.len() > 0 && m.transcript@.last() is Assistant;
            let was = if goes_on {
                m.timeline.stream_landings@
            } else {
                Seq::empty()
            };
            let is = landed(m, text);
            &&& is.len() == was.len() + breaks(text)
            &&& is.take(was.len() as int) == was
            &&& forall|i: int| was.len() <= i < is.len() ==> #[trigger] is[i] == now
        }),
        breaks(text.push('\n')) == breaks(text) + 1,
        forall|c: char| c != '\n' ==> breaks(#[trigger] text.push(c)) == breaks(text),
{
    let goes_on = m.transcript@.len() > 0 && m.transcript@.last() is Assistant;
    let was = if goes_on {
        m.timeline.stream_landings@
    } else {
        Seq::empty()
    };
    assert(landed(m, text).take(was.len() as int) =~= was);
    assert(text.push('\n').drop_last() =~= text);
    assert forall|c: char| c != '\n' implies breaks(#[trigger] text.push(c)) == breaks(text) by {
        assert(text.push(c).drop_last() =~= text);
    }
}

/// A drag selects from where the button was pressed to where it was released, and the text under it is to be copied and stay
/// selected.
pub proof fn a_drag_selects_what_it_spans(
    a: Model,
    b: Model,
    c: Model,
    d: Model,
    from: (u16, u16),
    to: (u16, u16),
    first: Seq<EffectView>,
    second: Seq<EffectView>,
    third: Seq<EffectView>,
)
    requires
        moused(a, MouseKind::Down, from.0, from.1, b, first),
        moused(b, MouseKind::Drag, to.0, to.1, c, second),
        moused(c, MouseKind::Up, to.0, to.1, d, third),
        from != to,
    ensures
        d.selection.active is Some,
        (d.selection.active->0).anchor == from,
        (d.selection.active->0).head == to,
        (d.selection.active->0).granularity == Granularity::Char,
        (d.selection.active->0).state == SelectionState::CopyAndKeep,
        third == nothing(),
        d.input == a.input && d.transcript == a.transcript,
{
}

/// Any key ends the opening animation: the shell counts as open for longer than it lasts.
pub proof fn a_key_ends_the_opening(m: Model, now: Instant)
    requires
        m.timeline.render_at == Some(now),
        now.nanos >= 700_000_000,
    ensures
        splash_skipped(m).timeline.opened_at matches Some(t) && now.nanos - t.nanos == 700_000_000,
        splash_skipped(m).transcript == m.transcript && splash_skipped(m).input == m.input,
{
}

} // verus!
