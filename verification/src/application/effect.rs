//! The side effects that the reducer asks for.
use vstd::prelude::*;
use crate::kernel::{Approval, ApprovalMode, AuthMethod, Effort, ProviderKind};
use crate::text::views;

verus! {

/// A side effect the pure reducer requests of the event loop, which owns the engine handles. The reducer
/// itself performs no I/O.
#[derive(Debug, Clone, PartialEq, Eq)]
pub enum Effect {
    /// Push the prompt (text plus any pasted image data URLs) as a user message and arm a new turn.
    SubmitPrompt { text: String, images: Vec<String> },
    /// Copy the given text to the OS clipboard.
    CopyToClipboard(String),
    /// Read the OS clipboard (image preferred, else text) and route it back into the buffer.
    PasteClipboard,
    /// Answer the pending approval through its reply channel.
    AnswerApproval(Approval),
    /// Cooperatively cancel the running turn.
    CancelTurn,
    /// Tear down the front-end and end the session.
    Quit,
    /// Discard the conversation and start a fresh session.
    NewSession,
    /// Reopen the most recent session of this workspace.
    ResumeLast,
    /// List the recent sessions in a picker.
    ListSessions,
    /// Reopen the session with the given id.
    OpenSession(String),
    /// Push the portable profile to the configured private repo.
    SyncPush,
    /// Move the active workspace (sandbox root) to the given `/cd` path argument.
    ChangeWorkspace(String),
    /// Approve the proposed plan: leave plan mode and run a turn that executes it under the given mode
    /// (`Default` confirms each step, `Auto` runs the whole plan unattended).
    ApprovePlan(ApprovalMode),
    /// Switch the active model (from the `/models` picker).
    SetModel(String),
    /// Switch the reasoning effort (from the `/effort` picker).
    SetEffort(Effort),
    /// Switch the active provider (from the `/provider` picker).
    SetProvider(String),
    /// Save a provider from the wizard and make it active. Carries only non-secret fields: the typed API key
    /// is staged separately in `Model::pending_credential`, so it never rides in a printable effect.
    SaveProvider {
        id: String,
        kind: ProviderKind,
        base_url: String,
        model: String,
        models: Vec<String>,
        auth: AuthMethod,
        thinking: Option<bool>,
        keep_existing_key: bool,
    },
    /// Remove a configured provider.
    DeleteProvider(String),
    /// Approve a pending project-layer hook.
    ApproveHook(String),
    /// Approve a pending project-layer MCP server.
    ApproveMcp(String),
    /// Open a file of the workspace in the user's editor.
    OpenFile(String),
    /// Place the edit cursor at the composer click (absolute screen cell). It is resolved against the
    /// rendered editor geometry, which the reducer does not have.
    PlaceCursor { col: u16, row: u16 },
}

/// The contents of an effect.
pub enum EffectView {
    SubmitPrompt { text: Seq<char>, images: Seq<Seq<char>> },
    CopyToClipboard(Seq<char>),
    PasteClipboard,
    AnswerApproval(Approval),
    CancelTurn,
    Quit,
    NewSession,
    ResumeLast,
    ListSessions,
    OpenSession(Seq<char>),
    SyncPush,
    ChangeWorkspace(Seq<char>),
    ApprovePlan(ApprovalMode),
    SetModel(Seq<char>),
    SetEffort(Effort),
    SetProvider(Seq<char>),
    SaveProvider {
        id: Seq<char>,
        kind: ProviderKind,
        base_url: Seq<char>,
        model: Seq<char>,
        models: Seq<Seq<char>>,
        auth: AuthMethod,
        thinking: Option<bool>,
        keep_existing_key: bool,
    },
    DeleteProvider(Seq<char>),
    ApproveHook(Seq<char>),
    ApproveMcp(Seq<char>),
    OpenFile(Seq<char>),
    PlaceCursor { col: u16, row: u16 },
}

impl View for Effect {
    type V = EffectView;

    open spec fn view(&self) -> EffectView {
        match *self {
            Effect::SubmitPrompt { text, images } => EffectView::SubmitPrompt {
                text: text@,
                images: views(images@),
            },
            Effect::CopyToClipboard(t) => EffectView::CopyToClipboard(t@),
            Effect::PasteClipboard => EffectView::PasteClipboard,
            Effect::AnswerApproval(a) => EffectView::AnswerApproval(a),
            Effect::CancelTurn => EffectView::CancelTurn,
            Effect::Quit => EffectView::Quit,
            Effect::NewSession => EffectView::NewSession,
            Effect::ResumeLast => EffectView::ResumeLast,
            Effect::ListSessions => EffectView::ListSessions,
            Effect::OpenSession(id) => EffectView::OpenSession(id@),
            Effect::SyncPush => EffectView::SyncPush,
            Effect::ChangeWorkspace(p) => EffectView::ChangeWorkspace(p@),
            Effect::ApprovePlan(m) => EffectView::ApprovePlan(m),
            Effect::SetModel(m) => EffectView::SetModel(m@),
            Effect::SetEffort(e) => EffectView::SetEffort(e),
            Effect::SetProvider(id) => EffectView::SetProvider(id@),
            Effect::SaveProvider {
                id,
                kind,
                base_url,
                model,
                models,
                auth,
                thinking,
                keep_existing_key,
            } => EffectView::SaveProvider {
                id: id@,
                kind,
                base_url: base_url@,
                model: model@,
                models: views(models@),
                auth,
                thinking,
                keep_existing_key,
            },
            Effect::DeleteProvider(id) => EffectView::DeleteProvider(id@),
            Effect::ApproveHook(id) => EffectView::ApproveHook(id@),
            Effect::ApproveMcp(id) => EffectView::ApproveMcp(id@),
            Effect::OpenFile(p) => EffectView::OpenFile(p@),
            Effect::PlaceCursor { col, row } => EffectView::PlaceCursor { col, row },
        }
    }
}

/// The contents of each effect of a list.
pub open spec fn effect_views(v: Seq<Effect>) -> Seq<EffectView> {
    Seq::new(v.len(), |i: int| v[i]@)
}

/// No effect.
pub open spec fn nothing() -> Seq<EffectView> {
    Seq::empty()
}

/// No effect.
pub fn no_effects() -> (r: Vec<Effect>)
    ensures
        effect_views(r@) == nothing(),
{
    let r: Vec<Effect> = Vec::new();
    assert(effect_views(r@) =~= nothing());
    r
}

/// Just one effect.
pub fn one_effect(e: Effect) -> (r: Vec<Effect>)
    ensures
        effect_views(r@) == seq![e@],
{
    let mut r: Vec<Effect> = Vec::new();
    r.push(e);
    assert(effect_views(r@) =~= seq![e@]);
    r
}

} // verus!
