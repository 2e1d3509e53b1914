//! The modal key handlers: tool approvals, finished plans, and pickers.
use vstd::prelude::*;
use crate::application::effect::{effect_views, no_effects, nothing, one_effect, Effect, EffectView};
use crate::domain::input::{Key, KeyPress};
use crate::domain::modal::{ApprovalOption, PendingApproval, PendingPlan, PlanOption};
use crate::domain::model::Model;
use crate::domain::nav::{wrapped, wrapping_step};
use crate::domain::transcript::{ItemView, NoticeLevel};
use crate::kernel::{Approval, ApprovalMode};
use crate::text::cat2;

verus! {

/// A resolved approval choice from a key press while a confirmation is pending.
#[derive(Debug, Clone, Copy, PartialEq, Eq, Structural)]
pub enum Choice {
    /// Pick a named option.
    Option(ApprovalOption),
    /// Decline just this call (Esc / 'n').
    Decline,
    /// End the whole session (Ctrl+C).
    Abort,
}

/// The row that a typed digit names: '1' is the first. Nothing for another character, for 0, and past the
/// last of `rows` rows.
pub open spec fn digit_row(c: char, rows: int) -> Option<int> {
    if '1' <= c <= '9' && (c as int) - 49 < rows {
        Some((c as int) - 49)
    } else {
        None
    }
}

pub(crate) fn row_for_digit(c: char, rows: usize) -> (r: Option<usize>)
    ensures
        match r {
            Some(k) => digit_row(c, rows as int) == Some(k as int),
            None => digit_row(c, rows as int) is None,
        },
{
    if '1' <= c && c <= '9' {
        let row: usize = (c as u32 - 49) as usize;
        if row < rows {
            return Some(row);
        }
    }
    None
}

/// The option at an approval row.
pub open spec fn option_choice(row: Option<int>) -> Option<Choice> {
    match row {
        Some(i) => match ApprovalOption::at(i) {
            Some(o) => Some(Choice::Option(o)),
            None => None,
        },
        None => None,
    }
}

/// What a key answers to a confirmation whose row `selected` is highlighted; nothing for keys without a
/// meaning there.
pub open spec fn approval_choice(selected: int, key: KeyPress) -> Option<Choice> {
    match key.code {
        Key::Char(c) => if c == 'c' && key.ctrl {
            Some(Choice::Abort)
        } else if '0' <= c <= '9' {
            option_choice(digit_row(c, 3))
        } else if c == 's' || c == 'S' || c == 'y' || c == 'Y' {
            Some(Choice::Option(ApprovalOption::Approve))
        } else if c == 'n' || c == 'N' {
            Some(Choice::Decline)
        } else {
            None
        },
        Key::Esc => Some(Choice::Decline),
        Key::Enter => option_choice(Some(selected)),
        _ => None,
    }
}

/// The engine's form of a choice.
pub open spec fn decision(choice: Choice) -> Approval {
    match choice {
        Choice::Abort => Approval::Aborted,
        Choice::Decline | Choice::Option(ApprovalOption::Decline) => Approval::Declined,
        Choice::Option(ApprovalOption::Approve) => Approval::Approved,
        Choice::Option(ApprovalOption::ApproveAuto) => Approval::ApprovedAuto,
    }
}

/// The notices that an answer leaves in the transcript.
pub open spec fn answer_notices(answer: Approval, question: Seq<char>) -> Seq<ItemView> {
    match answer {
        Approval::Approved => seq![ItemView::Notice(NoticeLevel::Info, "✓ "@ + question)],
        Approval::ApprovedAuto => seq![
            ItemView::Notice(NoticeLevel::Info, "✓ "@ + question),
            ItemView::Notice(NoticeLevel::Info, "✓ modo auto ativo"@),
        ],
        Approval::Declined => seq![
            ItemView::Notice(NoticeLevel::Error, "✗ recusado: "@ + question),
        ],
        Approval::Aborted => seq![ItemView::Notice(NoticeLevel::Error, "✗ sessão encerrada"@)],
    }
}

/// What a key does to a model with a pending confirmation.
pub open spec fn approval_keyed(old: Model, key: KeyPress, new: Model, effects: Seq<EffectView>) -> bool {
    match old.pending_approval {
        None => new == old && effects == nothing(),
        Some(p) => if key.code == Key::Up || key.code == Key::Down {
            &&& effects == nothing()
            &&& new == (Model {
                pending_approval: Some(
                    PendingApproval {
                        selected: wrapped(
                            p.selected as int,
                            if key.code == Key::Up {
                                -1
                            } else {
                                1
                            },
                            3,
                        ) as usize,
                        ..p
                    },
                ),
                ..old
            })
        } else {
            match approval_choice(p.selected as int, key) {
                None => new == old && effects == nothing(),
                Some(choice) => {
                    let answer = decision(choice);
                    &&& effects == seq![EffectView::AnswerApproval(answer)]
                    &&& new == (Model {
                        pending_approval: None,
                        approval_mode: if answer == Approval::ApprovedAuto {
                            ApprovalMode::Auto
                        } else {
                            old.approval_mode
                        },
                        transcript: new.transcript,
                        ..old
                    })
                    &&& new.transcript@ == old.transcript@ + answer_notices(
                        answer,
                        PendingApproval::question(p.prompt@),
                    )
                },
            }
        },
    }
}

fn choose_option(row: Option<usize>) -> (r: Option<Choice>)
    ensures
        r == option_choice(
            match row {
                Some(k) => Some(k as int),
                None => None,
            },
        ),
{
    match row {
        Some(k) => match ApprovalOption::from_index(k) {
            Some(o) => Some(Choice::Option(o)),
            None => None,
        },
        None => None,
    }
}

fn resolve_choice(selected: usize, key: KeyPress) -> (r: Option<Choice>)
    ensures
        r == approval_choice(selected as int, key),
{
    match key.code {
        Key::Char(c) => {
            // Ctrl+C answers the reply channel with Aborted: the engine is blocked waiting on it, so a bare
            // quit would strand it.
            if c == 'c' && key.ctrl {
                Some(Choice::Abort)
            } else if '0' <= c && c <= '9' {
                choose_option(row_for_digit(c, ApprovalOption::ALL.len()))
            } else if c == 's' || c == 'S' || c == 'y' || c == 'Y' {
                Some(Choice::Option(ApprovalOption::Approve))
            } else if c == 'n' || c == 'N' {
                Some(Choice::Decline)
            } else {
                None
            }
        },
        Key::Esc => Some(Choice::Decline),
        Key::Enter => choose_option(Some(selected)),
        _ => None,
    }
}

/// Answer the pending confirmation: arrows move the highlight (wrapping, like every modal), Enter takes the
/// highlighted option, digits/letters jump straight to one, Esc declines this call, and Ctrl+C aborts the
/// session. `ApproveAuto` ("Sim, e não perguntar de novo") also switches the session to auto mode.
pub fn on_approval_key(model: &mut Model, key: KeyPress) -> (r: Vec<Effect>)
    requires
        old(model).wf(),
    ensures
        approval_keyed(*old(model), key, *final(model), effect_views(r@)),
        final(model).wf(),
{
    let pending: PendingApproval = match model.pending_approval.take() {
        Some(p) => p,
        None => {
            return no_effects();
        },
    };
    let rows: usize = ApprovalOption::ALL.len();
    match key.code {
        Key::Up => {
            let selected: usize = wrapping_step(pending.selected, -1, rows);
            model.pending_approval = Some(PendingApproval { selected, ..pending });
            return no_effects();
        },
        Key::Down => {
            let selected: usize = wrapping_step(pending.selected, 1, rows);
            model.pending_approval = Some(PendingApproval { selected, ..pending });
            return no_effects();
        },
        _ => {},
    }
    let choice: Choice = match resolve_choice(pending.selected, key) {
        Some(c) => c,
        None => {
            model.pending_approval = Some(pending);
            return no_effects();
        },
    };
    let answer: Approval = match choice {
        Choice::Abort => Approval::Aborted,
        Choice::Decline => Approval::Declined,
        Choice::Option(ApprovalOption::Approve) => Approval::Approved,
        Choice::Option(ApprovalOption::ApproveAuto) => Approval::ApprovedAuto,
        Choice::Option(ApprovalOption::Decline) => Approval::Declined,
    };
    let question: String = pending.action();
    match answer {
        Approval::Approved | Approval::ApprovedAuto => {
            model.notify_info(cat2("✓ ", question.as_str()));
        },
        Approval::Declined => {
            model.notify_error(cat2("✗ recusado: ", question.as_str()));
        },
        Approval::Aborted => {
            model.notify_error("✗ sessão encerrada".to_owned());
        },
    }
    // The rest of this turn already runs unattended; auto also becomes the standing mode, so that later turns
    // no longer prompt either.
    if answer == Approval::ApprovedAuto {
        model.approval_mode = ApprovalMode::Auto;
        model.notify_info("✓ modo auto ativo".to_owned());
    }
    assert(model.transcript@ =~= old(model).transcript@ + answer_notices(answer, question@));
    one_effect(Effect::AnswerApproval(answer))
}

/// A number moved by `delta`, kept within the machine's range.
pub open spec fn nudged(n: usize, delta: int) -> usize {
    if n + delta < 0 {
        0
    } else if n + delta > usize::MAX {
        usize::MAX
    } else {
        (n + delta) as usize
    }
}

/// The plan option that a key picks with the row `selected` highlighted.
pub open spec fn plan_choice(selected: int, key: KeyPress) -> Option<PlanOption> {
    match key.code {
        Key::Enter => PlanOption::at(selected),
        Key::Char(c) => match digit_row(c, 4) {
            Some(i) => PlanOption::at(i),
            None => None,
        },
        Key::Esc => Some(PlanOption::Cancel),
        _ => None,
    }
}

/// The plan box after a navigation key; nothing for the other keys.
pub open spec fn plan_moved(p: PendingPlan, key: KeyPress) -> Option<PendingPlan> {
    match key.code {
        Key::Up => Some(
            if key.shift {
                PendingPlan { scroll: nudged(p.scroll, -1), ..p }
            } else {
                PendingPlan { selected: wrapped(p.selected as int, -1, 4) as usize, ..p }
            },
        ),
        Key::Down => Some(
            if key.shift {
                PendingPlan { scroll: nudged(p.scroll, 1), ..p }
            } else {
                PendingPlan { selected: wrapped(p.selected as int, 1, 4) as usize, ..p }
            },
        ),
        Key::PageUp => Some(PendingPlan { scroll: nudged(p.scroll, -10), ..p }),
        Key::PageDown => Some(PendingPlan { scroll: nudged(p.scroll, 10), ..p }),
        _ => None,
    }
}

/// What a key does to a model with a plan awaiting a decision.
pub open spec fn plan_keyed(old: Model, key: KeyPress, new: Model, effects: Seq<EffectView>) -> bool {
    match old.pending_plan {
        None => new == old && effects == nothing(),
        Some(p) => match plan_moved(p, key) {
            Some(q) => new == (Model { pending_plan: Some(q), ..old }) && effects == nothing(),
            None => if key.ctrl && key.code == Key::Char('c') {
                &&& new == (Model { pending_plan: None, should_quit: true, ..old })
                &&& effects == seq![EffectView::Quit]
            } else {
                match plan_choice(p.selected as int, key) {
                    None => new == old && effects == nothing(),
                    Some(PlanOption::Execute) => {
                        &&& new == (Model { pending_plan: None, ..old })
                        &&& effects == seq![EffectView::ApprovePlan(ApprovalMode::Default)]
                    },
                    Some(PlanOption::ExecuteAuto) => {
                        &&& new == (Model { pending_plan: None, ..old })
                        &&& effects == seq![EffectView::ApprovePlan(ApprovalMode::Auto)]
                    },
                    Some(PlanOption::KeepPlanning) => {
                        &&& new == (Model { pending_plan: None, ..old })
                        &&& effects == nothing()
                    },
                    Some(PlanOption::Cancel) => {
                        &&& effects == nothing()
                        &&& (Model {
                            pending_plan: None,
                            approval_mode: ApprovalMode::Default,
                            ..old
                        }).posted(new, NoticeLevel::Info, "modo plan cancelado"@)
                    },
                }
            },
        },
    }
}

/// Drive the plan box shown after a plan-mode turn: arrows move the highlight, Shift+arrows and the page keys
/// scroll, Enter/digits pick an option, Esc cancels, Ctrl+C quits. "Executar" emits `ApprovePlan` (in default
/// or auto mode); "Continuar" just closes the box (staying in plan mode); "Cancelar" closes it and returns to
/// default.
pub fn on_plan_key(model: &mut Model, key: KeyPress) -> (r: Vec<Effect>)
    requires
        old(model).wf(),
    ensures
        plan_keyed(*old(model), key, *final(model), effect_views(r@)),
        final(model).wf(),
{
    let plan: PendingPlan = match model.pending_plan.take() {
        Some(p) => p,
        None => {
            return no_effects();
        },
    };
    let rows: usize = PlanOption::ALL.len();
    let moved: Option<(usize, usize)> = match key.code {
        Key::Up => if key.shift {
            Some((plan.selected, plan.scroll.saturating_sub(1)))
        } else {
            Some((wrapping_step(plan.selected, -1, rows), plan.scroll))
        },
        Key::Down => if key.shift {
            Some((plan.selected, plan.scroll.saturating_add(1)))
        } else {
            Some((wrapping_step(plan.selected, 1, rows), plan.scroll))
        },
        Key::PageUp => Some((plan.selected, plan.scroll.saturating_sub(10))),
        Key::PageDown => Some((plan.selected, plan.scroll.saturating_add(10))),
        _ => None,
    };
    if let Some((selected, scroll)) = moved {
        model.pending_plan = Some(PendingPlan { selected, scroll, ..plan });
        return no_effects();
    }
    if key.ctrl && key.code == Key::Char('c') {
        model.should_quit = true;
        return one_effect(Effect::Quit);
    }
    let option: Option<PlanOption> = match key.code {
        Key::Enter => PlanOption::from_index(plan.selected),
        Key::Char(c) => match row_for_digit(c, rows) {
            Some(row) => PlanOption::from_index(row),
            None => None,
        },
        Key::Esc => Some(PlanOption::Cancel),
        _ => None,
    };
    match option {
        None => {
            model.pending_plan = Some(plan);
            no_effects()
        },
        Some(PlanOption::Execute) => one_effect(Effect::ApprovePlan(ApprovalMode::Default)),
        Some(PlanOption::ExecuteAuto) => one_effect(Effect::ApprovePlan(ApprovalMode::Auto)),
        Some(PlanOption::KeepPlanning) => no_effects(),
        Some(PlanOption::Cancel) => {
            model.approval_mode = ApprovalMode::Default;
            model.notify_info("modo plan cancelado".to_owned());
            no_effects()
        },
    }
}

/// An answered confirmation is gone, and the answer goes out exactly once.
pub proof fn approval_answers_once(old: Model, key: KeyPress, new: Model, effects: Seq<EffectView>)
    requires
        approval_keyed(old, key, new, effects),
        old.pending_approval is Some,
    ensures
        new.pending_approval is None <==> effects.len() == 1,
        new.pending_approval is Some ==> effects.len() == 0 && new.approval_mode
            == old.approval_mode && new.transcript == old.transcript,
        forall|i: int| 0 <= i < effects.len() ==> #[trigger] effects[i] is AnswerApproval,
{
}

/// Only an explicit "do not ask again" turns the session to auto mode.
pub proof fn only_approve_auto_switches_mode(
    old: Model,
    key: KeyPress,
    new: Model,
    effects: Seq<EffectView>,
)
    requires
        approval_keyed(old, key, new, effects),
        new.approval_mode != old.approval_mode,
    ensures
        effects == seq![EffectView::AnswerApproval(Approval::ApprovedAuto)],
        new.approval_mode == ApprovalMode::Auto,
{
}

/// The digit shortcuts name the rows in their display order.
pub proof fn digits_follow_the_rows(selected: int, key: KeyPress)
    requires
        key.code is Char,
    ensures
        key.code == Key::Char('1') ==> approval_choice(selected, key) == Some(
            Choice::Option(ApprovalOption::Approve),
        ),
        key.code == Key::Char('2') ==> approval_choice(selected, key) == Some(
            Choice::Option(ApprovalOption::ApproveAuto),
        ),
        key.code == Key::Char('3') ==> approval_choice(selected, key) == Some(
            Choice::Option(ApprovalOption::Decline),
        ),
        key.code == Key::Char('1') ==> plan_choice(selected, key) == Some(PlanOption::Execute),
        key.code == Key::Char('4') ==> plan_choice(selected, key) == Some(PlanOption::Cancel),
{
}

} // verus!
