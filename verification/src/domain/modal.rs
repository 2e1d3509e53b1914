//! The confirmation boxes: tool approvals and finished plans.
use vstd::prelude::*;
use crate::text::{trim_end, trim_end_matches, trimmed_end, without_suffixes};

verus! {

/// The options shown for a tool-call confirmation, in display order. The named variants are the single
/// source for both the labels and the index→decision mapping, so reordering them can never desync the
/// digit-key shortcuts from their meaning.
#[derive(Debug, Clone, Copy, PartialEq, Eq, Structural)]
pub enum ApprovalOption {
    /// Approve just this call.
    Approve,
    /// Approve this call and switch the session to auto mode (stop prompting).
    ApproveAuto,
    /// Decline this call.
    Decline,
}

impl ApprovalOption {
    /// The options in display order; an index into this list is what `PendingApproval.selected` holds.
    pub const ALL: [ApprovalOption; 3] = [
        ApprovalOption::Approve,
        ApprovalOption::ApproveAuto,
        ApprovalOption::Decline,
    ];

    pub open spec fn caption(self) -> Seq<char> {
        match self {
            ApprovalOption::Approve => "Sim"@,
            ApprovalOption::ApproveAuto => "Sim, e não perguntar de novo (modo auto)"@,
            ApprovalOption::Decline => "Não"@,
        }
    }

    /// The pt-BR label rendered for this option in the confirmation box.
    pub fn label(self) -> (r: &'static str)
        ensures
            r@ == self.caption(),
    {
        match self {
            ApprovalOption::Approve => "Sim",
            ApprovalOption::ApproveAuto => "Sim, e não perguntar de novo (modo auto)",
            ApprovalOption::Decline => "Não",
        }
    }

    pub open spec fn at(index: int) -> Option<ApprovalOption> {
        if index == 0 {
            Some(ApprovalOption::Approve)
        } else if index == 1 {
            Some(ApprovalOption::ApproveAuto)
        } else if index == 2 {
            Some(ApprovalOption::Decline)
        } else {
            None
        }
    }

    /// Resolve a highlighted index back to its named option, if in range.
    pub fn from_index(index: usize) -> (r: Option<ApprovalOption>)
        ensures
            r == ApprovalOption::at(index as int),
    {
        if index < ApprovalOption::ALL.len() {
            Some(ApprovalOption::ALL[index])
        } else {
            None
        }
    }
}

/// A tool-call (or runaway-checkpoint) confirmation awaiting the user's answer. Pure data: the reply channel
/// lives outside, since the engine handles approvals one at a time.
#[derive(Debug, Clone, PartialEq, Eq)]
pub struct PendingApproval {
    pub prompt: String,
    pub default_accept: bool,
    /// The highlighted option index into [`ApprovalOption::ALL`].
    pub selected: usize,
}

impl PendingApproval {
    /// The highlighted row that matches the default answer.
    pub open spec fn default_row(default_accept: bool) -> int {
        if default_accept {
            0
        } else {
            2
        }
    }

    /// A new pending approval, highlighting the option matching the default (accept → "Sim", decline →
    /// "Não").
    pub fn new(prompt: String, default_accept: bool) -> (r: PendingApproval)
        ensures
            r.prompt == prompt,
            r.default_accept == default_accept,
            r.selected == PendingApproval::default_row(default_accept),
            ApprovalOption::at(r.selected as int) == Some(
                if default_accept {
                    ApprovalOption::Approve
                } else {
                    ApprovalOption::Decline
                },
            ),
    {
        let selected: usize = if default_accept {
            0
        } else {
            ApprovalOption::ALL.len() - 1
        };
        PendingApproval { prompt, default_accept, selected }
    }

    /// The question of a prompt: its text without a trailing `[S/n]`/`[s/N]` hint.
    pub open spec fn question(prompt: Seq<char>) -> Seq<char> {
        trim_end(without_suffixes(without_suffixes(trim_end(prompt), "[S/n]"@), "[s/N]"@))
    }

    /// The confirmation question without the trailing `[S/n]`/`[s/N]` hint: the rich box shows the
    /// selectable options instead of the inline default.
    pub fn action(&self) -> (r: String)
        ensures
            r@ == PendingApproval::question(self.prompt@),
    {
        let cut: String = trimmed_end(self.prompt.as_str());
        let cut: String = trim_end_matches(cut.as_str(), "[S/n]");
        let cut: String = trim_end_matches(cut.as_str(), "[s/N]");
        trimmed_end(cut.as_str())
    }
}

/// The options shown when a plan-mode turn finishes: run the plan (confirming each step or fully unattended
/// in auto), keep refining it, or leave plan mode.
#[derive(Debug, Clone, Copy, PartialEq, Eq, Structural)]
pub enum PlanOption {
    /// Execute the plan confirming each step (leave plan mode for default mode).
    Execute,
    /// Execute the plan unattended (leave plan mode for auto mode).
    ExecuteAuto,
    /// Close the box and stay in plan mode for more input.
    KeepPlanning,
    /// Leave plan mode without executing.
    Cancel,
}

impl PlanOption {
    /// The options in display order; an index into this list is what `PendingPlan.selected` holds.
    pub const ALL: [PlanOption; 4] = [
        PlanOption::Execute,
        PlanOption::ExecuteAuto,
        PlanOption::KeepPlanning,
        PlanOption::Cancel,
    ];

    pub open spec fn caption(self) -> Seq<char> {
        match self {
            PlanOption::Execute => "Executar o plano"@,
            PlanOption::ExecuteAuto => "Executar o plano em modo auto"@,
            PlanOption::KeepPlanning => "Continuar planejando"@,
            PlanOption::Cancel => "Cancelar (sair do modo plan)"@,
        }
    }

    /// The pt-BR label rendered for this option in the plan box.
    pub fn label(self) -> (r: &'static str)
        ensures
            r@ == self.caption(),
    {
        match self {
            PlanOption::Execute => "Executar o plano",
            PlanOption::ExecuteAuto => "Executar o plano em modo auto",
            PlanOption::KeepPlanning => "Continuar planejando",
            PlanOption::Cancel => "Cancelar (sair do modo plan)",
        }
    }

    pub open spec fn at(index: int) -> Option<PlanOption> {
        if index == 0 {
            Some(PlanOption::Execute)
        } else if index == 1 {
            Some(PlanOption::ExecuteAuto)
        } else if index == 2 {
            Some(PlanOption::KeepPlanning)
        } else if index == 3 {
            Some(PlanOption::Cancel)
        } else {
            None
        }
    }

    /// Resolve a highlighted index back to its named option, if in range.
    pub fn from_index(index: usize) -> (r: Option<PlanOption>)
        ensures
            r == PlanOption::at(index as int),
    {
        if index < PlanOption::ALL.len() {
            Some(PlanOption::ALL[index])
        } else {
            None
        }
    }
}

/// A finished plan-mode turn awaiting the user's decision.
#[derive(Debug, Clone, PartialEq, Eq)]
pub struct PendingPlan {
    /// The proposed plan text.
    pub plan: String,
    /// The highlighted option index into [`PlanOption::ALL`].
    pub selected: usize,
    /// The current scroll offset in lines.
    pub scroll: usize,
}

impl Default for PendingPlan {
    fn default() -> (r: PendingPlan)
        ensures
            r.plan@.len() == 0,
            r.selected == 0,
            r.scroll == 0,
    {
        PendingPlan { plan: String::new(), selected: 0, scroll: 0 }
    }
}

} // verus!
