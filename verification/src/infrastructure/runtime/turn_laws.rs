//! What a turn brings and how it ends.
use vstd::prelude::*;
use vstd::string::*;
use crate::application::effect::{nothing, Effect};
use crate::application::msg::{Msg, StreamKind};
use crate::application::update::updated;
use crate::clock::Duration;
use crate::conversation::{MessageView, Role, ToolCall};
use crate::domain::model::Model;
use crate::domain::transcript::{with_content, ItemView, NoticeLevel, ToolDiff};
use crate::infrastructure::runtime::bridge::{
    checkpoint_question, edit_texts, json_string, ui_msg, CheckpointReason, EngineMsg,
};
use crate::infrastructure::runtime::turn::{
    absorbed, asks, ended, ending, said_nothing, structural, timed, turn_effect, Rollback, Turn, TurnAction, TurnError,
    TurnOutcome,
};
use crate::text::{decimal, trim};

verus! {

// ---- how a turn ends ----

/// A turn that completes with something said leaves the transcript as it is and the conversation whole, and shows no badge.
pub proof fn a_completed_turn_adds_nothing(old: Model, cancelled: bool, new: Model)
    requires
        ended(old, ending(Ok(TurnOutcome::Completed), cancelled, false), new),
    ensures
        new.transcript@ == old.transcript@,
        new.status.turn_failed == old.status.turn_failed,
        new.should_quit == old.should_quit,
        new.pending_plan == old.pending_plan,
        ending(Ok(TurnOutcome::Completed), cancelled, false).rollback == Rollback::Keep,
{
    assert(old.transcript@ + Seq::<ItemView>::empty() =~= old.transcript@);
}

/// A turn that completes with nothing said is reported as an error of the provider.
pub proof fn an_empty_turn_is_reported(old: Model, cancelled: bool, new: Model)
    requires
        ended(old, ending(Ok(TurnOutcome::Completed), cancelled, true), new),
    ensures
        new.transcript@ == old.transcript@.push(
            ItemView::Notice(
                NoticeLevel::Error,
                "o provedor não retornou conteúdo — verifique o modelo/endpoint"@,
            ),
        ),
        new.status.turn_failed,
        !new.should_quit || old.should_quit,
{
    assert(new.transcript@ =~= old.transcript@.push(
        ItemView::Notice(NoticeLevel::Error, "o provedor não retornou conteúdo — verifique o modelo/endpoint"@),
    ));
}

/// A proposed plan is shown in full and put before the user, from its first line and on its first option; a cancelled one is
/// neither.
pub proof fn a_proposed_plan_is_put_before_the_user(old: Model, plan: String, new: Model, dropped: Model)
    requires
        ended(old, ending(Ok(TurnOutcome::PlanProposed(plan)), false, false), new),
        ended(old, ending(Ok(TurnOutcome::PlanProposed(plan)), true, false), dropped),
    ensures
        new.transcript@ == old.transcript@.push(ItemView::Assistant(plan@)),
        new.pending_plan matches Some(p) && p.plan@ == plan@ && p.selected == 0 && p.scroll == 0,
        dropped.transcript@ == old.transcript@,
        dropped.pending_plan == old.pending_plan,
{
    assert(new.transcript@ =~= old.transcript@.push(ItemView::Assistant(plan@)));
    assert(dropped.transcript@ =~= old.transcript@);
}

/// A turn that the user cancelled says so, quits nothing, and takes back the message that got no answer; an abort that the
/// user did not ask for ends the session and says nothing.
pub proof fn a_cancelled_turn_says_so(old: Model, new: Model, gone: Model)
    requires
        ended(old, ending(Ok(TurnOutcome::Aborted), true, false), new),
        ended(old, ending(Ok(TurnOutcome::Aborted), false, false), gone),
    ensures
        new.transcript@ == old.transcript@.push(ItemView::Notice(NoticeLevel::Info, "⨯ cancelado"@)),
        new.should_quit == old.should_quit,
        ending(Ok(TurnOutcome::Aborted), true, false).rollback == Rollback::DanglingUser,
        gone.should_quit,
        gone.transcript@ == old.transcript@,
{
    assert(new.transcript@ =~= old.transcript@.push(ItemView::Notice(NoticeLevel::Info, "⨯ cancelado"@)));
    assert(gone.transcript@ =~= old.transcript@);
}

/// A failed turn tells its error in red and takes back the message that got no answer. Where the provider refused the
/// request, it takes back the turn before too and says so. One that the user cancelled tells that instead.
pub proof fn a_failed_turn_tells_its_error(old: Model, failure: TurnError, new: Model, cancelled: Model)
    requires
        ended(old, ending(Err(failure), false, false), new),
        ended(old, ending(Err(failure), true, false), cancelled),
    ensures
        new.transcript@.len() >= old.transcript@.len() + 1,
        new.transcript@[old.transcript@.len() as int] == ItemView::Notice(
            NoticeLevel::Error,
            "erro: "@ + failure.message@,
        ),
        new.transcript@.take(old.transcript@.len() as int) == old.transcript@,
        new.status.turn_failed,
        new.should_quit == old.should_quit,
        !failure.rejected ==> new.transcript@.len() == old.transcript@.len() + 1 && ending(Err(failure), false, false).rollback
            == Rollback::DanglingUser,
        failure.rejected ==> new.transcript@.len() == old.transcript@.len() + 2 && new.transcript@.last()
            == ItemView::Notice(
            NoticeLevel::Info,
            "turno anterior descartado (request rejeitado pelo provedor)"@,
        ) && ending(Err(failure), false, false).rollback == Rollback::LastTurn,
        cancelled.transcript@ == old.transcript@.push(ItemView::Notice(NoticeLevel::Info, "⨯ cancelado"@)),
        cancelled.status.turn_failed == old.status.turn_failed,
        ending(Err(failure), true, false).rollback == Rollback::DanglingUser,
{
    assert(new.transcript@.take(old.transcript@.len() as int) =~= old.transcript@);
    assert(cancelled.transcript@ =~= old.transcript@.push(ItemView::Notice(NoticeLevel::Info, "⨯ cancelado"@)));
}

/// A turn said nothing only where its last message is the assistant's, holds nothing but white space and called no tool.
pub proof fn a_turn_that_did_something_is_not_empty(conversation: Seq<MessageView>)
    requires
        conversation.len() > 0,
    ensures
        said_nothing(conversation) <==> (conversation.last().role == Role::Assistant
            && conversation.last().tool_calls.len() == 0 && (conversation.last().content matches Some(t) ==> trim(t).len()
            == 0)),
{
}

// ---- what happens in between ----

/// In the middle of a turn a cancel ends it and asks the engine to stop; quitting does the same; the clipboard and the cursor
/// stay live, and whatever would start something else waits.
pub proof fn effects_in_the_middle_of_a_turn(t: Turn, text: String, col: u16, row: u16, r: Option<TurnAction>, u: Turn)
    ensures
        turn_effect(t, Effect::CancelTurn, r, u) ==> u.cancel.cancelled && u.outcome == Some(
            Ok::<TurnOutcome, TurnError>(TurnOutcome::Aborted),
        ) && r is None,
        turn_effect(t, Effect::Quit, r, u) ==> u.cancel.cancelled && u.outcome is Some && r is None,
        turn_effect(t, Effect::CopyToClipboard(text), r, u) ==> r == Some(TurnAction::Copy(text)) && u == t,
        turn_effect(t, Effect::PasteClipboard, r, u) ==> r == Some(TurnAction::Paste) && u == t,
        turn_effect(t, Effect::PlaceCursor { col, row }, r, u) ==> r == Some(TurnAction::PlaceCursor { col, row }) && u == t,
        turn_effect(t, Effect::NewSession, r, u) || turn_effect(t, Effect::ListSessions, r, u) || turn_effect(
            t,
            Effect::SyncPush,
            r,
            u,
        ) ==> r is None && u == t,
{
}

/// The engine's messages reach the reducer for what they are, with all that they carry.
pub proof fn engine_messages_keep_their_meaning(text: String, diff: Option<ToolDiff>, runs: bool)
    ensures
        ui_msg(EngineMsg::Content(text)) == Msg::StreamDelta(StreamKind::Content, text),
        ui_msg(EngineMsg::Reasoning(text)) == Msg::StreamDelta(StreamKind::Reasoning, text),
        ui_msg(EngineMsg::ToolStarted { command: text, diff, is_run_command: runs }) == (Msg::ToolStarted {
            command: text,
            diff,
            is_run_command: runs,
        }),
        ui_msg(EngineMsg::Began) == Msg::TurnBegan,
        ui_msg(EngineMsg::Finished) == Msg::TurnFinished,
{
}

/// The texts of the streamed pieces of an answer, one behind the other.
pub open spec fn streamed(queue: Seq<EngineMsg>) -> Seq<char>
    decreases queue.len(),
{
    if queue.len() == 0 {
        Seq::empty()
    } else {
        streamed(queue.drop_last()) + match queue.last() {
            EngineMsg::Content(t) => t@,
            _ => Seq::empty(),
        }
    }
}

/// However the pieces of an answer arrive, all of them are shown, in order: absorbing a queue of them appends them all to
/// the answer that is last, or begins one with them.
pub proof fn every_streamed_piece_is_shown(old: Model, queue: Seq<EngineMsg>, new: Model)
    requires
        absorbed(old, queue, new),
        queue.len() > 0,
        forall|i: int| 0 <= i < queue.len() ==> #[trigger] queue[i] is Content,
    ensures
        new.transcript@.len() > 0,
        new.transcript@.last() is Assistant,
        old.transcript@.len() > 0 && old.transcript@.last() is Assistant ==> new.transcript@.drop_last()
            == old.transcript@.drop_last() && new.transcript@.last()->Assistant_0 == old.transcript@.last()->Assistant_0
            + streamed(queue),
        !(old.transcript@.len() > 0 && old.transcript@.last() is Assistant) ==> new.transcript@.drop_last()
            == old.transcript@ && new.transcript@.last()->Assistant_0 == streamed(queue),
    decreases queue.len(),
{
    let mid = choose|mid: Model|
        absorbed(old, queue.drop_last(), mid) && #[trigger] updated(mid, ui_msg(queue.last()), new, nothing());
    assert(queue[queue.len() - 1] is Content);
    let text = queue.last()->Content_0;
    let was = mid.transcript@;
    let is = new.transcript@;
    assert(is == with_content(was, text@));
    assert(is.drop_last() =~= if was.len() > 0 && was.last() is Assistant {
        was.drop_last()
    } else {
        was
    });
    if queue.len() == 1 {
        assert(queue.drop_last().len() == 0);
        assert(mid == old);
        assert(streamed(queue.drop_last()) =~= Seq::<char>::empty());
        assert(streamed(queue) =~= text@);
    } else {
        assert forall|i: int| 0 <= i < queue.drop_last().len() implies #[trigger] queue.drop_last()[i] is Content by {
            assert(queue.drop_last()[i] == queue[i]);
        }
        every_streamed_piece_is_shown(old, queue.drop_last(), mid);
        if old.transcript@.len() > 0 && old.transcript@.last() is Assistant {
            let first = old.transcript@.last()->Assistant_0;
            assert(first + streamed(queue.drop_last()) + text@ =~= first + streamed(queue));
        }
    }
}

/// The time on display is that since the turn started, and the spinner advances with it.
pub proof fn the_clock_of_a_turn(m: Model, elapsed: Duration)
    ensures
        timed(m, elapsed).status.elapsed_secs == elapsed.nanos / 1_000_000_000,
        timed(m, elapsed).transcript == m.transcript,
        timed(m, elapsed).input == m.input,
{
}

// ---- tools ----

/// An edit is shown with the text that it takes out and the one that it puts in, as its arguments give them; other tools have
/// no texts to show.
pub proof fn an_edit_gives_its_texts(call: ToolCall)
    ensures
        call.name@ == "edit_file"@ ==> (json_string(call.arguments@, "old_string"@) matches Some(o) ==> (json_string(
            call.arguments@,
            "new_string"@,
        ) matches Some(n) ==> edit_texts(call) == Some((o, n)))),
        call.name@ != "edit_file"@ ==> edit_texts(call) is None,
        json_string(call.arguments@, "old_string"@) is None ==> edit_texts(call) is None,
        json_string(call.arguments@, "new_string"@) is None ==> edit_texts(call) is None,
{
}

/// A long turn asks whether to go on, and says why: how long it has run, or how many calls it has made.
pub proof fn a_checkpoint_says_why(n: u64)
    ensures
        checkpoint_question(CheckpointReason::Elapsed { minutes: n }) == "Execução já dura ~"@ + decimal(n as int)
            + "min. Continuar?"@,
        checkpoint_question(CheckpointReason::CallCount { calls: n }) == "Já são "@ + decimal(n as int)
            + " chamadas de ferramenta neste turno. Continuar?"@,
{
}

// ---- what is queued ----

/// Whatever is queued beyond streamed text redraws at once, as it does when it comes alone; a question among it waits for its
/// answer. Text alone waits for the frame.
pub proof fn more_than_text_redraws_at_once(queue: Seq<EngineMsg>, i: int)
    requires
        0 <= i < queue.len(),
    ensures
        !(ui_msg(queue[i]) is StreamDelta) ==> structural(queue),
        queue[i] is Approval ==> asks(queue) && structural(queue),
        structural(queue) ==> exists|k: int| 0 <= k < queue.len() && !(#[trigger] ui_msg(queue[k]) is StreamDelta),
        !structural(queue) ==> !asks(queue),
{
    if structural(queue) {
        let k = choose|k: int| 0 <= k < queue.len() && !(#[trigger] queue[k] is Reasoning || queue[k] is Content);
        assert(!(ui_msg(queue[k]) is StreamDelta));
    }
    if asks(queue) {
        let k = choose|k: int| 0 <= k < queue.len() && #[trigger] queue[k] is Approval;
        assert(!(queue[k] is Reasoning || queue[k] is Content));
    }
    assert(queue[i] is Approval ==> !(queue[i] is Reasoning || queue[i] is Content));
}

} // verus!
