//! The whole front-end state.
use vstd::prelude::*;
use std::collections::HashSet;
use crate::clock::Instant;
use crate::domain::command_menu::{CommandMenu, CustomCommandEntry};
use crate::domain::history::History;
use crate::domain::input_buffer::{EditorView, ImageAttachment, InputBuffer};
use crate::domain::modal::{PendingApproval, PendingPlan};
use crate::domain::picker::Picker;
use crate::domain::scroll::Scroll;
use crate::domain::selection::ScreenSelection;
use crate::domain::transcript::{ItemView, NoticeLevel, Transcript, TranscriptItem};
use crate::domain::wizard::{ProviderWizard, WizardView};
use crate::kernel::{ApprovalMode, Effort, ProviderKind, ProviderProfile, Secret};
use crate::text::{cat2, cat4, decimal, decimal_of, same};

verus! {

/// Whether motion is fully expressed or frozen to its final frame. The session preference is resolved once
/// outside; the view additionally folds in per-frame geometry (a short/narrow terminal degrades to
/// `Reduced`).
#[derive(Debug, Clone, Copy, PartialEq, Eq, Structural)]
pub enum Motion {
    Full,
    Reduced,
}

impl Default for Motion {
    fn default() -> (r: Motion)
        ensures
            r == Motion::Full,
    {
        Motion::Full
    }
}

impl Motion {
    /// Fold in a per-frame reason to reduce (e.g. a cramped terminal): once reduced, always reduced.
    pub fn and_reduce_if(self, reduce: bool) -> (r: Motion)
        ensures
            r == if reduce {
                Motion::Reduced
            } else {
                self
            },
    {
        if reduce || self == Motion::Reduced {
            Motion::Reduced
        } else {
            Motion::Full
        }
    }

    pub fn is_reduced(self) -> (r: bool)
        ensures
            r == (self == Motion::Reduced),
    {
        self == Motion::Reduced
    }
}

/// The status line's data: the model id, the active workspace, the reasoning effort, and the live turn
/// indicators.
#[derive(Debug)]
pub struct Status {
    pub model: String,
    pub workspace: String,
    /// The active provider id; updated by a live `/provider` swap.
    pub provider: String,
    /// The active reasoning effort; updated by a live `/effort` swap.
    pub effort: Effort,
    pub streaming: bool,
    /// The last turn ended with an error.
    pub turn_failed: bool,
    pub elapsed_secs: u64,
    pub spinner_frame: usize,
}

impl Default for Status {
    fn default() -> (r: Status)
        ensures
            r.model@.len() == 0,
            r.workspace@.len() == 0,
            r.provider@.len() == 0,
            r.effort == Effort::Medium,
            !r.streaming,
            !r.turn_failed,
            r.elapsed_secs == 0,
            r.spinner_frame == 0,
    {
        Status {
            model: String::new(),
            workspace: String::new(),
            provider: String::new(),
            effort: Effort::Medium,
            streaming: false,
            turn_failed: false,
            elapsed_secs: 0,
            spinner_frame: 0,
        }
    }
}

/// A number of seconds as a compact label.
pub open spec fn elapsed_text(secs: int) -> Seq<char> {
    if secs < 60 {
        decimal(secs) + "s"@
    } else {
        decimal(secs / 60) + "m "@ + decimal(secs % 60) + "s"@
    }
}

impl Status {
    /// Elapsed time as a compact label: seconds under a minute, `Mm Ss` once it reaches one. The raw seconds
    /// field stays the single source of truth; this is a render-only projection.
    pub fn elapsed_label(&self) -> (r: String)
        ensures
            r@ == elapsed_text(self.elapsed_secs as int),
    {
        if self.elapsed_secs < 60 {
            cat2(decimal_of(self.elapsed_secs).as_str(), "s")
        } else {
            cat4(
                decimal_of(self.elapsed_secs / 60).as_str(),
                "m ",
                decimal_of(self.elapsed_secs % 60).as_str(),
                "s",
            )
        }
    }
}

/// The animation/timing cluster: the motion preference plus every instant the rendering reads, grouped so a
/// lifecycle transition resets them together instead of stranding one stale instant.
#[derive(Debug)]
pub struct Timeline {
    /// Whether motion is expressed or frozen; resolved once at startup.
    pub motion: Motion,
    /// The instant of the current frame. All time-derived rendering reads this rather than a clock, so a
    /// frame is a deterministic function of the model.
    pub render_at: Option<Instant>,
    /// Landing instants of the completed lines of the active streaming answer (one per `\n`), stamped with
    /// `render_at`. Drives the cooling reveal; cleared at each turn and answer boundary.
    pub stream_landings: Vec<Instant>,
    /// When the last turn settled, stamped with `render_at`. Drives the one-shot quench on the idle gate;
    /// cleared when a new turn begins.
    pub turn_settled_at: Option<Instant>,
    /// When the shell opened. Drives the splash breath-in; a keypress backdates it to fast-forward the
    /// splash for frequent users.
    pub opened_at: Option<Instant>,
    /// The instant of the last Ctrl+C press, for double-tap-to-quit detection.
    pub last_ctrl_c: Option<Instant>,
    /// The instant of the last Esc press, for double-tap-to-cancel detection while busy.
    pub last_esc: Option<Instant>,
    /// The instant the current input event arrived: the clock for multi-click and double-tap detection.
    pub last_event_at: Option<Instant>,
}

impl Default for Timeline {
    fn default() -> (r: Timeline)
        ensures
            r.motion == Motion::Full,
            r.render_at is None,
            r.stream_landings@.len() == 0,
            r.turn_settled_at is None,
            r.opened_at is None,
            r.last_ctrl_c is None,
            r.last_esc is None,
            r.last_event_at is None,
    {
        Timeline {
            motion: Motion::Full,
            render_at: None,
            stream_landings: Vec::new(),
            turn_settled_at: None,
            opened_at: None,
            last_ctrl_c: None,
            last_esc: None,
            last_event_at: None,
        }
    }
}

impl Timeline {
    /// The clock of the current input event; an unstamped event counts as the clock's origin.
    pub open spec fn event_clock(self) -> Instant {
        match self.last_event_at {
            Some(t) => t,
            None => Instant { nanos: 0 },
        }
    }

    /// The clock of the current input event.
    pub fn event_time(&self) -> (r: Instant)
        ensures
            r == self.event_clock(),
    {
        match self.last_event_at {
            Some(t) => t,
            None => Instant { nanos: 0 },
        }
    }

    /// A turn began: clear the streaming-reveal landings and the settled marker so no instant from the
    /// previous turn leaks into the new one.
    pub fn begin_turn(&mut self)
        ensures
            final(self).stream_landings@.len() == 0,
            *final(self) == (Timeline {
                stream_landings: final(self).stream_landings,
                turn_settled_at: None,
                ..*old(self)
            }),
    {
        self.stream_landings = Vec::new();
        self.turn_settled_at = None;
    }

    /// A turn settled: the streaming reveal is done, and the idle gate quenches from the current frame.
    pub fn settle_turn(&mut self)
        ensures
            final(self).stream_landings@.len() == 0,
            *final(self) == (Timeline {
                stream_landings: final(self).stream_landings,
                turn_settled_at: old(self).render_at,
                ..*old(self)
            }),
    {
        self.stream_landings = Vec::new();
        self.turn_settled_at = self.render_at;
    }

    /// Drop the streaming-reveal landings at an answer boundary (a fresh assistant item), keeping the
    /// lifecycle instants intact.
    pub fn reset_stream(&mut self)
        ensures
            final(self).stream_landings@.len() == 0,
            *final(self) == (Timeline { stream_landings: final(self).stream_landings, ..*old(self) }),
    {
        self.stream_landings = Vec::new();
    }

    /// Note that a line of the streaming answer landed.
    pub fn push_stream_landing(&mut self, at: Instant)
        ensures
            final(self).stream_landings@ == old(self).stream_landings@.push(at),
            *final(self) == (Timeline { stream_landings: final(self).stream_landings, ..*old(self) }),
    {
        self.stream_landings.push(at);
    }
}

/// The mouse text-selection cluster: the active screen selection plus the last mouse-down used for
/// multi-click detection.
#[derive(Debug)]
pub struct Selection {
    /// The active screen text selection (mouse drag / multi-click), or `None`.
    pub active: Option<ScreenSelection>,
    /// Instant + cell of the last mouse-down and its running multiplicity (1=char, 2=word, 3+=line).
    pub last_click: Option<(Instant, (u16, u16), u8)>,
}

impl Default for Selection {
    fn default() -> (r: Selection)
        ensures
            r.active is None,
            r.last_click is None,
    {
        Selection { active: None, last_click: None }
    }
}

/// An extension command token (canonical name or alias) and its expanded prompt body.
#[derive(Debug, Clone, PartialEq, Eq)]
pub struct CommandBody {
    pub token: String,
    pub body: String,
}

/// The body of a token: that of the first entry that carries it.
pub open spec fn body_of(bodies: Seq<CommandBody>, token: Seq<char>) -> Option<Seq<char>>
    decreases bodies.len(),
{
    if bodies.len() == 0 {
        None
    } else if bodies[0].token@ == token {
        Some(bodies[0].body@)
    } else {
        body_of(bodies.skip(1), token)
    }
}

/// A model of a provider kind that can switch thinking on or off.
#[derive(Debug, Clone, PartialEq, Eq)]
pub struct ThinkingModel {
    pub kind: ProviderKind,
    pub model: String,
}

/// The catalog offers a thinking switch for this model of this kind.
pub open spec fn can_think(catalog: Seq<ThinkingModel>, kind: ProviderKind, model: Seq<char>) -> bool {
    exists|i: int|
        0 <= i < catalog.len() && (#[trigger] catalog[i]).kind == kind && catalog[i].model@ == model
}

/// Which pane has keyboard input focus.
#[derive(Debug, Clone, Copy, PartialEq, Eq, Structural)]
pub enum PaneFocus {
    Input,
    Transcript,
}

impl Default for PaneFocus {
    fn default() -> (r: PaneFocus)
        ensures
            r == PaneFocus::Input,
    {
        PaneFocus::Input
    }
}

/// The whole front-end state: a pure value mutated only by `update`. It never holds engine handles.
pub struct Model {
    pub transcript: Transcript,
    pub input: InputBuffer,
    pub history: History,
    pub scroll: Scroll,
    pub status: Status,
    /// A confirmation awaiting an answer; while set, keys answer it instead of editing.
    pub pending_approval: Option<PendingApproval>,
    /// A finished plan awaiting the user's decision; while set, keys drive the plan box.
    pub pending_plan: Option<PendingPlan>,
    /// An open single-choice picker; while set, keys drive it.
    pub picker: Option<Picker>,
    /// The active provider's model catalog, offered by the `/models` picker.
    pub models: Vec<String>,
    /// The configured provider ids, offered by the `/provider` picker.
    pub providers: Vec<String>,
    /// Full profiles of the providers; used by the action sub-menu to display details and pre-populate the
    /// edit wizard.
    pub provider_profiles: Vec<ProviderProfile>,
    /// The models that can switch thinking on or off; the wizard asks about thinking for these only.
    pub thinking_models: Vec<ThinkingModel>,
    /// The ids of the workspace's recent sessions, parallel to the `/sessions` picker rows.
    pub session_ids: Vec<String>,
    /// The open add-provider wizard, or `None`. While set, keys drive its steps.
    pub wizard: Option<ProviderWizard>,
    /// The API key typed in the wizard, staged for the credential store and taken when the provider is saved,
    /// so the key never rides in an effect or the transcript.
    pub pending_credential: Option<Secret>,
    /// The live slash-command preview, open while the input starts with `/` and has no white space yet.
    pub command_menu: Option<CommandMenu>,
    /// Extension-provided custom commands, shown in the live preview alongside the built-ins.
    pub custom_commands: Vec<CustomCommandEntry>,
    /// Every extension command token (canonical name + aliases) with its expanded prompt body.
    pub custom_command_bodies: Vec<CommandBody>,
    /// The formatted `/rules` display text. `None` when none were found.
    pub rules_display: Option<String>,
    /// The formatted `/commands` display text. `None` when none were found.
    pub commands_display: Option<String>,
    /// The formatted `/agents` display text. `None` when none were found.
    pub agents_display: Option<String>,
    /// The formatted `/skills` display text. `None` when none were found.
    pub skills_display: Option<String>,
    /// The formatted `/hooks` display text. `None` when none were found.
    pub hooks_display: Option<String>,
    /// The formatted `/mcp` display text. `None` when none were found.
    pub mcp_display: Option<String>,
    /// Images pasted from the clipboard, staged for the next prompt and drained on submit.
    pub attachments: Vec<ImageAttachment>,
    /// When set, tool outputs and edit diffs render in full instead of a bounded preview.
    pub expand_tools: bool,
    /// The pre-formatted `/instructions` display text. `None` when no instructions file was found.
    pub instructions_display: Option<String>,
    /// A turn is running.
    pub busy: bool,
    pub should_quit: bool,
    /// How tool calls are gated; cycled with Shift+Tab, read at the start of each turn.
    pub approval_mode: ApprovalMode,
    pub timeline: Timeline,
    pub selection: Selection,
    /// True until a usable provider credential exists. Gates prompt submission and re-opens onboarding
    /// instead of stranding the user without a provider.
    pub unconfigured: bool,
    /// Which pane currently has keyboard focus.
    pub focused_pane: PaneFocus,
    /// The index of the selected transcript item when in transcript focus mode.
    pub selected_item: Option<usize>,
    /// Individual tool indices that are manually expanded.
    pub expanded_tools_indices: HashSet<usize>,
    /// Active search query in the transcript history.
    pub search_query: Option<String>,
    /// Transcript item indices that match the active search query.
    pub search_results: Vec<usize>,
    /// The current highlighted search result index in `search_results`.
    pub active_search_match: usize,
}

/// The single modal currently awaiting the user, in precedence order, borrowed from the model.
pub enum ActiveModal<'a> {
    Plan(&'a PendingPlan),
    Approval(&'a PendingApproval),
    Picker(&'a Picker),
    Wizard(&'a ProviderWizard),
}

/// The welcome line shown when the harness boots with no provider configured.
pub const ONBOARDING_WELCOME: &'static str = "Bem-vindo ao Kiri. Escolha um provider e informe sua API key para começar — nenhuma variável de ambiente é necessária.";

impl Default for Model {
    fn default() -> (r: Model)
        ensures
            r.is_blank(),
            r.wf(),
    {
        broadcast use vstd::std_specs::hash::group_hash_axioms;

        Model {
            transcript: Transcript::default(),
            input: InputBuffer::default(),
            history: History::default(),
            scroll: Scroll::default(),
            status: Status::default(),
            pending_approval: None,
            pending_plan: None,
            picker: None,
            models: Vec::new(),
            providers: Vec::new(),
            provider_profiles: Vec::new(),
            thinking_models: Vec::new(),
            session_ids: Vec::new(),
            wizard: None,
            pending_credential: None,
            command_menu: None,
            custom_commands: Vec::new(),
            custom_command_bodies: Vec::new(),
            rules_display: None,
            commands_display: None,
            agents_display: None,
            skills_display: None,
            hooks_display: None,
            mcp_display: None,
            attachments: Vec::new(),
            expand_tools: false,
            instructions_display: None,
            busy: false,
            should_quit: false,
            approval_mode: ApprovalMode::Default,
            timeline: Timeline::default(),
            selection: Selection::default(),
            unconfigured: false,
            focused_pane: PaneFocus::Input,
            selected_item: None,
            expanded_tools_indices: HashSet::new(),
            search_query: None,
            search_results: Vec::new(),
            active_search_match: 0,
        }
    }
}

impl Model {
    /// The state the front-end starts from.
    pub open spec fn is_blank(self) -> bool {
        &&& self.transcript@.len() == 0
        &&& self.input@ == EditorView::blank()
        &&& self.history@ == crate::domain::history::HistoryView::empty()
        &&& self.scroll.scrollback == 0
        &&& self.status.model@.len() == 0 && self.status.workspace@.len() == 0
        &&& self.status.provider@.len() == 0 && self.status.effort == Effort::Medium
        &&& !self.status.streaming && !self.status.turn_failed
        &&& self.status.elapsed_secs == 0 && self.status.spinner_frame == 0
        &&& self.pending_approval is None && self.pending_plan is None
        &&& self.picker is None && self.wizard is None
        &&& self.models@.len() == 0 && self.providers@.len() == 0
        &&& self.provider_profiles@.len() == 0 && self.thinking_models@.len() == 0
        &&& self.session_ids@.len() == 0
        &&& self.pending_credential is None && self.command_menu is None
        &&& self.custom_commands@.len() == 0 && self.custom_command_bodies@.len() == 0
        &&& self.rules_display is None && self.commands_display is None
        &&& self.agents_display is None && self.skills_display is None
        &&& self.hooks_display is None && self.mcp_display is None
        &&& self.instructions_display is None
        &&& self.attachments@.len() == 0
        &&& !self.expand_tools && !self.busy && !self.should_quit && !self.unconfigured
        &&& self.approval_mode == ApprovalMode::Default
        &&& self.timeline.motion == Motion::Full && self.timeline.stream_landings@.len() == 0
        &&& self.timeline.render_at is None && self.timeline.turn_settled_at is None
        &&& self.timeline.opened_at is None && self.timeline.last_ctrl_c is None
        &&& self.timeline.last_esc is None && self.timeline.last_event_at is None
        &&& self.selection.active is None && self.selection.last_click is None
        &&& self.focused_pane == PaneFocus::Input && self.selected_item is None
        &&& self.expanded_tools_indices@ == Set::<usize>::empty()
        &&& self.search_query is None && self.search_results@.len() == 0
        &&& self.active_search_match == 0
    }

    /// Every editor, the history, the menu and the search highlight are consistent. Each operation of the
    /// front-end keeps this.
    pub open spec fn wf(self) -> bool {
        &&& self.input@.wf()
        &&& self.history@.wf()
        &&& (self.picker matches Some(p) ==> p@.wf())
        &&& (self.wizard matches Some(w) ==> w@.wf())
        &&& (self.command_menu matches Some(m) ==> m.wf())
        &&& (self.search_results@.len() > 0 ==> self.active_search_match < self.search_results@.len())
    }

    /// A plan, an approval, a picker or the wizard awaits the user.
    pub open spec fn modal_open(self) -> bool {
        self.pending_plan is Some || self.pending_approval is Some || self.picker is Some
            || self.wizard is Some
    }

    /// `new` is this model with `level: text` posted in the transcript.
    pub open spec fn posted(self, new: Model, level: NoticeLevel, text: Seq<char>) -> bool {
        &&& new == (Model { transcript: new.transcript, ..self })
        &&& new.transcript@ == self.transcript@.push(ItemView::Notice(level, text))
    }

    /// The modal awaiting the user, in precedence order: a finished plan, then a tool approval, then an open
    /// picker, then the add-provider wizard. The single source both the render dispatch and the region sizing
    /// read, so they can never disagree on which modal is showing.
    pub fn active_modal(&self) -> (r: Option<ActiveModal<'_>>)
        ensures
            match r {
                Some(ActiveModal::Plan(p)) => self.pending_plan == Some(*p),
                Some(ActiveModal::Approval(a)) => self.pending_plan is None && self.pending_approval
                    == Some(*a),
                Some(ActiveModal::Picker(p)) => self.pending_plan is None && self.pending_approval is None
                    && self.picker == Some(*p),
                Some(ActiveModal::Wizard(w)) => self.pending_plan is None && self.pending_approval is None
                    && self.picker is None && self.wizard == Some(*w),
                None => !self.modal_open(),
            },
    {
        if let Some(plan) = &self.pending_plan {
            Some(ActiveModal::Plan(plan))
        } else if let Some(approval) = &self.pending_approval {
            Some(ActiveModal::Approval(approval))
        } else if let Some(picker) = &self.picker {
            Some(ActiveModal::Picker(picker))
        } else if let Some(wizard) = &self.wizard {
            Some(ActiveModal::Wizard(wizard))
        } else {
            None
        }
    }

    /// Whether a modal (a tool approval, a finished plan, or an open picker/wizard) is awaiting the user.
    /// While true the transcript and header recede so the decision pulls focus by depth.
    pub fn has_modal(&self) -> (r: bool)
        ensures
            r == self.modal_open(),
    {
        self.active_modal().is_some()
    }

    pub fn new(model: String, workspace: String) -> (r: Model)
        ensures
            r.status.model == model,
            r.status.workspace == workspace,
            exists|blank: Model| #[trigger]
                blank.is_blank() && r == (Model {
                    status: Status { model, workspace, ..blank.status },
                    ..blank
                }),
            r.wf(),
    {
        let blank: Model = Model::default();
        Model { status: Status { model, workspace, ..blank.status }, ..blank }
    }

    /// Seed the provider-swap surface: the active provider's model catalog (offered by `/models`) and the
    /// current reasoning effort (the `/effort` picker's starting point + the status display).
    pub fn with_provider_catalog(self, models: Vec<String>, effort: Effort) -> (r: Model)
        ensures
            r == (Model { models, status: Status { effort, ..self.status }, ..self }),
    {
        let mut seeded: Model = self;
        seeded.models = models;
        seeded.status.effort = effort;
        seeded
    }

    /// Seed the `/provider` picker: the active provider id (status display), the configured id catalog, and
    /// the full profiles (for the action sub-menu and edit wizard).
    pub fn with_providers(
        self,
        active: String,
        providers: Vec<String>,
        profiles: Vec<ProviderProfile>,
    ) -> (r: Model)
        ensures
            r == (Model {
                status: Status { provider: active, ..self.status },
                providers,
                provider_profiles: profiles,
                ..self
            }),
    {
        let mut seeded: Model = self;
        seeded.status.provider = active;
        seeded.providers = providers;
        seeded.provider_profiles = profiles;
        seeded
    }

    /// Seed the instructions display text for the `/instructions` command.
    pub fn with_instructions(self, display: Option<String>) -> (r: Model)
        ensures
            r == (Model { instructions_display: display, ..self }),
    {
        let mut seeded: Model = self;
        seeded.instructions_display = display;
        seeded
    }

    /// Seed the extension-provided custom commands: the preview entries, the token→body lookup used at submit
    /// time, and the `/commands` display text.
    pub fn with_custom_commands(
        self,
        entries: Vec<CustomCommandEntry>,
        bodies: Vec<CommandBody>,
        display: Option<String>,
    ) -> (r: Model)
        ensures
            r == (Model {
                custom_commands: entries,
                custom_command_bodies: bodies,
                commands_display: display,
                ..self
            }),
    {
        let mut seeded: Model = self;
        seeded.custom_commands = entries;
        seeded.custom_command_bodies = bodies;
        seeded.commands_display = display;
        seeded
    }

    /// Seed the rules display text for the `/rules` command.
    pub fn with_rules(self, display: Option<String>) -> (r: Model)
        ensures
            r == (Model { rules_display: display, ..self }),
    {
        let mut seeded: Model = self;
        seeded.rules_display = display;
        seeded
    }

    /// Seed the agents display text for the `/agents` command.
    pub fn with_agents(self, display: Option<String>) -> (r: Model)
        ensures
            r == (Model { agents_display: display, ..self }),
    {
        let mut seeded: Model = self;
        seeded.agents_display = display;
        seeded
    }

    /// Seed the skills display text for the `/skills` command.
    pub fn with_skills(self, display: Option<String>) -> (r: Model)
        ensures
            r == (Model { skills_display: display, ..self }),
    {
        let mut seeded: Model = self;
        seeded.skills_display = display;
        seeded
    }

    /// The body of an extension command token, if there is one.
    pub fn custom_body(&self, token: &str) -> (r: Option<String>)
        ensures
            match r {
                Some(b) => body_of(self.custom_command_bodies@, token@) == Some(b@),
                None => body_of(self.custom_command_bodies@, token@) is None,
            },
    {
        let mut i: usize = 0;
        assert(self.custom_command_bodies@.skip(0) =~= self.custom_command_bodies@);
        while i < self.custom_command_bodies.len()
            invariant
                i <= self.custom_command_bodies@.len(),
                body_of(self.custom_command_bodies@.skip(i as int), token@) == body_of(self.custom_command_bodies@, token@),
            decreases self.custom_command_bodies@.len() - i,
        {
            if same(self.custom_command_bodies[i].token.as_str(), token) {
                return Some(self.custom_command_bodies[i].body.clone());
            }
            assert(self.custom_command_bodies@.skip(i as int).skip(1) =~= self.custom_command_bodies@.skip(i as int + 1));
            i = i + 1;
        }
        None
    }

    /// Whether thinking can be switched for a model of a provider kind.
    pub fn thinking_supported(&self, kind: ProviderKind, model: &str) -> (r: bool)
        ensures
            r == can_think(self.thinking_models@, kind, model@),
    {
        let mut i: usize = 0;
        while i < self.thinking_models.len()
            invariant
                i <= self.thinking_models@.len(),
                forall|k: int|
                    0 <= k < i ==> !((#[trigger] self.thinking_models@[k]).kind == kind
                        && self.thinking_models@[k].model@ == model@),
            decreases self.thinking_models@.len() - i,
        {
            let entry = &self.thinking_models[i];
            if entry.kind == kind && same(entry.model.as_str(), model) {
                return true;
            }
            i = i + 1;
        }
        false
    }

    /// Drop any active screen selection: the user navigated away (typed, scrolled, resized, or started a new
    /// session). Cheap and idempotent.
    pub fn clear_screen_selection(&mut self)
        ensures
            *final(self) == (Model {
                selection: Selection { active: None, ..old(self).selection },
                ..*old(self)
            }),
    {
        self.selection.active = None;
    }

    /// Push an out-of-band notice at `level`: the single constructor for transcript notices.
    pub fn notify(&mut self, level: NoticeLevel, message: String)
        ensures
            old(self).posted(*final(self), level, message@),
    {
        self.transcript.push(TranscriptItem::Notice(level, message));
    }

    /// Push an info-level notice.
    pub fn notify_info(&mut self, message: String)
        ensures
            old(self).posted(*final(self), NoticeLevel::Info, message@),
    {
        self.notify(NoticeLevel::Info, message);
    }

    /// Push an error-level notice.
    pub fn notify_error(&mut self, message: String)
        ensures
            old(self).posted(*final(self), NoticeLevel::Error, message@),
    {
        self.notify(NoticeLevel::Error, message);
    }

    /// Enter first-run onboarding: raise the submit gate, open the welcome wizard (NVIDIA preselected), and
    /// post the welcome notice.
    pub fn enter_onboarding(&mut self)
        ensures
            *final(self) == (Model {
                unconfigured: true,
                wizard: final(self).wizard,
                transcript: final(self).transcript,
                ..*old(self)
            }),
            final(self).wizard matches Some(w) && w@ == (WizardView {
                onboarding: true,
                ..WizardView::fresh()
            }),
            final(self).transcript@ == old(self).transcript@.push(
                ItemView::Notice(NoticeLevel::Info, ONBOARDING_WELCOME@),
            ),
            old(self).wf() ==> final(self).wf(),
    {
        self.unconfigured = true;
        self.wizard = Some(ProviderWizard::onboarding());
        self.notify_info(ONBOARDING_WELCOME.to_owned());
    }
}

} // verus!
