//! The front-end's event loop: how it comes up, what the first prompt does, what input becomes, and who performs an
//! effect.
use vstd::prelude::*;
use crate::application::command::{parse, parsed, Command, CommandView};
use crate::application::effect::Effect;
use crate::application::msg::Msg;
use crate::clock::Instant;
use crate::conversation::{Conversation, Message, MessageView, Role};
use crate::domain::model::{Model, Motion, Status, Timeline, ONBOARDING_WELCOME};
use crate::domain::transcript::{ItemView, NoticeLevel, TranscriptItem};
use crate::domain::input_buffer::{native, AreaLook};
use crate::domain::wizard::WizardView;
use crate::infrastructure::input::{msg_of, to_msg, TerminalEvent};
use crate::infrastructure::render::theme::{base, ink, inked, selection, Ink};
use crate::infrastructure::runtime::provider_swap::{ids_of, models_of, ProviderSwap, SwapView};
use crate::infrastructure::runtime::turn::{info, Step};
use crate::kernel::{profile_views, ApprovalMode, Effort, ProviderProfile};
use crate::text::{clone_strings, trim, trimmed, views};

verus! {

/// A non-fatal degradation observed while the harness was put together (memory, sessions, provider unavailable),
/// shown in the transcript at boot, since the full-screen front-end hides anything printed.
#[derive(Debug, Clone, PartialEq, Eq)]
pub struct BootNotice {
    message: String,
}

impl View for BootNotice {
    type V = Seq<char>;

    closed spec fn view(&self) -> Seq<char> {
        self.message@
    }
}

impl BootNotice {
    pub fn new(message: String) -> (r: BootNotice)
        ensures
            r@ == message@,
    {
        BootNotice { message }
    }
}

/// The items of boot notices. They are informational: a degradation is non-fatal, so it must not read as a hard
/// failure.
pub open spec fn boot_items(notices: Seq<BootNotice>) -> Seq<ItemView> {
    Seq::new(notices.len(), |i: int| info(notices[i]@))
}

/// Show the boot notices in the transcript.
pub fn surface_boot_notices(model: &mut Model, notices: &Vec<BootNotice>)
    requires
        old(model).wf(),
    ensures
        *final(model) == (Model { transcript: final(model).transcript, ..*old(model) }),
        final(model).transcript@ == old(model).transcript@ + boot_items(notices@),
        final(model).wf(),
{
    let ghost start = *model;
    assert(start.transcript@ + boot_items(notices@).take(0) =~= start.transcript@);
    for i in 0..notices.len()
        invariant
            model.wf(),
            *model == (Model { transcript: model.transcript, ..start }),
            model.transcript@ == start.transcript@ + boot_items(notices@).take(i as int),
    {
        model.notify_info(notices[i].message.clone());
        assert(model.transcript@ =~= start.transcript@ + boot_items(notices@).take(i + 1));
    }
    assert(boot_items(notices@).take(notices@.len() as int) =~= boot_items(notices@));
}

/// The front-end as it comes up: the active provider's model and catalog, the boot notices, and the onboarding
/// where no usable credential is there. Nothing else is set.
pub open spec fn booted(
    workspace: Seq<char>,
    swap: SwapView,
    notices: Seq<BootNotice>,
    needs_onboarding: bool,
    m: Model,
) -> bool {
    &&& exists|blank: Model| #[trigger]
        blank.is_blank() && m == (Model {
            status: Status {
                model: m.status.model,
                workspace: m.status.workspace,
                provider: m.status.provider,
                effort: swap.effort,
                ..blank.status
            },
            models: m.models,
            providers: m.providers,
            provider_profiles: m.provider_profiles,
            unconfigured: needs_onboarding,
            wizard: m.wizard,
            transcript: m.transcript,
            ..blank
        })
    &&& m.status.model@ == match swap.active_profile() {
        Some(p) => p.model,
        None => Seq::empty(),
    }
    &&& m.status.workspace@ == workspace
    &&& m.status.provider@ == swap.active
    &&& views(m.models@) == models_of(swap.active_profile())
    &&& views(m.providers@) == ids_of(swap.providers)
    &&& profile_views(m.provider_profiles@) == swap.providers
    &&& m.transcript@ == boot_items(notices) + (if needs_onboarding {
        seq![info(ONBOARDING_WELCOME@)]
    } else {
        Seq::empty()
    })
    &&& if needs_onboarding {
        m.wizard matches Some(w) && w@ == (WizardView { onboarding: true, ..WizardView::fresh() })
    } else {
        m.wizard is None
    }
}

/// Bring up the front-end. The boot notices come first, so that the onboarding welcome (the call to action) lands
/// last when both are present.
pub fn boot(workspace: String, swap: &ProviderSwap, notices: &Vec<BootNotice>, needs_onboarding: bool) -> (r: Model)
    ensures
        booted(workspace@, swap@, notices@, needs_onboarding, r),
        r.wf(),
{
    let (model_id, models): (String, Vec<String>) = match swap.active_profile() {
        Some(profile) => (profile.model.clone(), clone_strings(&profile.models)),
        None => (String::new(), Vec::new()),
    };
    assert(views(models@) =~= models_of(swap@.active_profile()));
    let mut profiles: Vec<ProviderProfile> = Vec::new();
    for i in 0..swap.providers.len()
        invariant
            profiles@.len() == i,
            forall|j: int| 0 <= j < i ==> #[trigger] profiles@[j]@ == swap.providers@[j]@,
    {
        profiles.push(swap.providers[i].duplicate());
    }
    assert(profile_views(profiles@) =~= swap@.providers);
    let ghost named = model_id@;
    let fresh: Model = Model::new(model_id, workspace);
    let ghost blank = choose|blank: Model| #[trigger]
        blank.is_blank() && fresh == (Model {
            status: Status { model: model_id, workspace, ..blank.status },
            ..blank
        });
    let mut model: Model = fresh.with_provider_catalog(models, swap.effort).with_providers(
        swap.active.clone(),
        swap.provider_ids(),
        profiles,
    );
    surface_boot_notices(&mut model, notices);
    assert(model.transcript@ =~= boot_items(notices@));
    if needs_onboarding {
        model.enter_onboarding();
    }
    assert(model.transcript@ =~= boot_items(notices@) + (if needs_onboarding {
        seq![info(ONBOARDING_WELCOME@)]
    } else {
        Seq::empty()
    }));
    assert(blank.is_blank() && model == (Model {
        status: Status {
            model: model.status.model,
            workspace: model.status.workspace,
            provider: model.status.provider,
            effort: swap@.effort,
            ..blank.status
        },
        models: model.models,
        providers: model.providers,
        provider_profiles: model.provider_profiles,
        unconfigured: needs_onboarding,
        wizard: model.wizard,
        transcript: model.transcript,
        ..blank
    }));
    model
}

/// Open the shell: paint the editor with the theme, fix the motion preference, and stamp the open instant for the
/// splash.
pub fn open_shell(model: &mut Model, motion: Motion, now: Instant)
    requires
        old(model).wf(),
    ensures
        *final(model) == (Model {
            input: final(model).input,
            timeline: Timeline { motion, opened_at: Some(now), ..old(model).timeline },
            ..*old(model)
        }),
        final(model).input@ == old(model).input@,
        final(model).input == old(model).input.dressed(
            inked(Ink::Steel).with_bg(Ink::Void.rgb()),
            inked(Ink::Void).with_bg(Ink::Highlight.rgb()),
            inked(Ink::Void).with_bg(Ink::Brand.rgb()),
        ),
        final(model).input.look() == (AreaLook {
            text: native(inked(Ink::Steel).with_bg(Ink::Void.rgb())),
            cursor_line: native(inked(Ink::Steel).with_bg(Ink::Void.rgb())),
            cursor: native(inked(Ink::Void).with_bg(Ink::Highlight.rgb())),
            selection: native(inked(Ink::Void).with_bg(Ink::Brand.rgb())),
            ..old(model).input.look()
        }),
        final(model).wf(),
{
    model.input.set_styles(base(), ink(Ink::Void).bg(Ink::Highlight.color()), selection());
    model.timeline.motion = motion;
    model.timeline.opened_at = Some(now);
}

/// The prompt given on the command line, without the white space round it; none where it is blank.
pub open spec fn seed_line(seed: Option<String>) -> Option<Seq<char>> {
    match seed {
        Some(s) if trim(s@).len() > 0 => Some(trim(s@)),
        _ => None,
    }
}

/// What the prompt given on the command line does: it runs as the first turn. `/quit` quits, any other command is
/// ignored, and without a usable provider it cannot run.
pub open spec fn seeded(
    old: Model,
    conversation: Seq<MessageView>,
    seed: Option<String>,
    runs: bool,
    new: Model,
    said: Seq<MessageView>,
) -> bool {
    match seed_line(seed) {
        None => !runs && new == old && said == conversation,
        Some(line) => match parsed(line) {
            Some(CommandView::Quit) => !runs && new == (Model { should_quit: true, ..old }) && said
                == conversation,
            Some(_) => !runs && new == old && said == conversation,
            None => if old.unconfigured {
                &&& !runs
                &&& old.posted(
                    new,
                    NoticeLevel::Info,
                    "configure um provider antes de enviar — a mensagem inicial foi ignorada"@,
                )
                &&& said == conversation
            } else {
                &&& runs
                &&& new == (Model {
                    history: new.history,
                    transcript: new.transcript,
                    busy: true,
                    ..old
                })
                &&& new.history@ == old.history@.recorded(line)
                &&& new.transcript@ == old.transcript@.push(ItemView::User(line))
                &&& said == conversation.push(MessageView::plain(Role::User, line))
            },
        },
    }
}

/// Take the prompt given on the command line. Says whether a turn is to run.
pub fn seed_turn(model: &mut Model, conversation: &mut Conversation, seed: Option<String>) -> (r: bool)
    requires
        old(model).wf(),
    ensures
        seeded(*old(model), old(conversation)@, seed, r, *final(model), final(conversation)@),
        final(model).wf(),
{
    let line: String = match seed {
        Some(text) => trimmed(text.as_str()),
        None => {
            return false;
        },
    };
    if line.as_str().is_empty() {
        return false;
    }
    match parse(line.as_str()) {
        Some(Command::Quit) => {
            model.should_quit = true;
            false
        },
        Some(_) => false,
        None => {
            if model.unconfigured {
                model.notify_info(
                    "configure um provider antes de enviar — a mensagem inicial foi ignorada".to_owned(),
                );
                return false;
            }
            model.history.record(line.as_str());
            model.transcript.push(TranscriptItem::User(line.clone()));
            model.busy = true;
            conversation.push(Message::user(line));
            true
        },
    }
}

/// One thing that the event loop waited for.
#[derive(Debug, Clone, PartialEq, Eq)]
pub enum Incoming {
    Event(TerminalEvent),
    /// The terminal reported an error.
    Fault,
    /// The input is over.
    Closed,
    Tick,
}

/// The model with the arrival of an input event stamped, for multi-click and double-tap detection.
pub open spec fn arrived(m: Model, now: Instant) -> Model {
    Model { timeline: Timeline { last_event_at: Some(now), ..m.timeline }, ..m }
}

/// Resolve one input of the idle loop into a message. The end of the input quits.
pub fn idle_input(model: &mut Model, incoming: Incoming, now: Instant) -> (r: Option<Msg>)
    requires
        old(model).wf(),
    ensures
        match incoming {
            Incoming::Event(event) => *final(model) == arrived(*old(model), now) && r == msg_of(event),
            Incoming::Closed => *final(model) == (Model { should_quit: true, ..*old(model) }) && r is None,
            Incoming::Fault | Incoming::Tick => *final(model) == *old(model) && r is None,
        },
        final(model).wf(),
{
    match incoming {
        Incoming::Event(event) => {
            model.timeline.last_event_at = Some(now);
            to_msg(event)
        },
        Incoming::Fault => None,
        Incoming::Closed => {
            model.should_quit = true;
            None
        },
        Incoming::Tick => None,
    }
}

/// Resolve one input of the turn loop into a step. The end of the input does not end a running turn.
pub fn turn_input(model: &mut Model, incoming: Incoming, now: Instant) -> (r: Step)
    requires
        old(model).wf(),
    ensures
        match incoming {
            Incoming::Event(event) => {
                &&& *final(model) == arrived(*old(model), now)
                &&& match r {
                    Step::Apply(msg) => msg_of(event) == Some(msg),
                    Step::Idle => msg_of(event) is None,
                    Step::Done(_) => false,
                }
            },
            Incoming::Tick => *final(model) == *old(model) && r == Step::Apply(Msg::Tick),
            Incoming::Fault | Incoming::Closed => *final(model) == *old(model) && r == Step::Idle,
        },
        final(model).wf(),
{
    match incoming {
        Incoming::Event(event) => {
            model.timeline.last_event_at = Some(now);
            match to_msg(event) {
                Some(msg) => Step::Apply(msg),
                None => Step::Idle,
            }
        },
        Incoming::Fault => Step::Idle,
        Incoming::Closed => Step::Idle,
        Incoming::Tick => Step::Apply(Msg::Tick),
    }
}

/// Outside work that an effect asks for between turns.
#[derive(Debug, Clone, PartialEq, Eq)]
pub enum Job {
    Prompt { text: String, images: Vec<String> },
    Copy(String),
    Paste,
    PlaceCursor { col: u16, row: u16 },
    NewSession,
    ListSessions,
    SyncPush,
    ResumeLast,
    OpenSession(String),
    ChangeWorkspace(String),
    ApprovePlan(ApprovalMode),
    SetModel(String),
    SetEffort(Effort),
    SetProvider(String),
    SaveProvider { profile: ProviderProfile, keep_existing_key: bool },
    DeleteProvider(String),
    ApproveHook(String),
    ApproveMcp(String),
    OpenFile(String),
}

/// The work that an effect asks for between turns. No approval waits then and no turn runs, so an answer or a
/// cancel asks for nothing.
pub open spec fn job_of(effect: Effect) -> Option<Job> {
    match effect {
        Effect::SubmitPrompt { text, images } => Some(Job::Prompt { text, images }),
        Effect::CopyToClipboard(text) => Some(Job::Copy(text)),
        Effect::PasteClipboard => Some(Job::Paste),
        Effect::PlaceCursor { col, row } => Some(Job::PlaceCursor { col, row }),
        Effect::Quit | Effect::AnswerApproval(_) | Effect::CancelTurn => None,
        Effect::NewSession => Some(Job::NewSession),
        Effect::ListSessions => Some(Job::ListSessions),
        Effect::SyncPush => Some(Job::SyncPush),
        Effect::ResumeLast => Some(Job::ResumeLast),
        Effect::OpenSession(id) => Some(Job::OpenSession(id)),
        Effect::ChangeWorkspace(path) => Some(Job::ChangeWorkspace(path)),
        Effect::ApprovePlan(mode) => Some(Job::ApprovePlan(mode)),
        Effect::SetModel(id) => Some(Job::SetModel(id)),
        Effect::SetEffort(effort) => Some(Job::SetEffort(effort)),
        Effect::SetProvider(id) => Some(Job::SetProvider(id)),
        Effect::SaveProvider { id, kind, base_url, model, models, auth, thinking, keep_existing_key } => Some(
            Job::SaveProvider {
                profile: ProviderProfile { id, kind, base_url, model, models, auth, thinking },
                keep_existing_key,
            },
        ),
        Effect::DeleteProvider(id) => Some(Job::DeleteProvider(id)),
        Effect::ApproveHook(id) => Some(Job::ApproveHook(id)),
        Effect::ApproveMcp(id) => Some(Job::ApproveMcp(id)),
        Effect::OpenFile(path) => Some(Job::OpenFile(path)),
    }
}

/// Dispatch one effect that the reducer requested between turns. Leaving the loop is governed by `should_quit`
/// alone.
pub fn apply_effect(model: &mut Model, effect: Effect) -> (r: Option<Job>)
    requires
        old(model).wf(),
    ensures
        r == job_of(effect),
        *final(model) == (Model { should_quit: old(model).should_quit || effect is Quit, ..*old(model) }),
        final(model).wf(),
{
    match effect {
        Effect::SubmitPrompt { text, images } => Some(Job::Prompt { text, images }),
        Effect::CopyToClipboard(text) => Some(Job::Copy(text)),
        Effect::PasteClipboard => Some(Job::Paste),
        Effect::PlaceCursor { col, row } => Some(Job::PlaceCursor { col, row }),
        Effect::Quit => {
            model.should_quit = true;
            None
        },
        Effect::AnswerApproval(_) => None,
        Effect::CancelTurn => None,
        Effect::NewSession => Some(Job::NewSession),
        Effect::ListSessions => Some(Job::ListSessions),
        Effect::SyncPush => Some(Job::SyncPush),
        Effect::ResumeLast => Some(Job::ResumeLast),
        Effect::OpenSession(id) => Some(Job::OpenSession(id)),
        Effect::ChangeWorkspace(path) => Some(Job::ChangeWorkspace(path)),
        Effect::ApprovePlan(mode) => Some(Job::ApprovePlan(mode)),
        Effect::SetModel(id) => Some(Job::SetModel(id)),
        Effect::SetEffort(effort) => Some(Job::SetEffort(effort)),
        Effect::SetProvider(id) => Some(Job::SetProvider(id)),
        Effect::SaveProvider { id, kind, base_url, model: model_id, models, auth, thinking, keep_existing_key } => {
            Some(
                Job::SaveProvider {
                    profile: ProviderProfile {
                        id,
                        kind,
                        base_url,
                        model: model_id,
                        models,
                        auth,
                        thinking,
                    },
                    keep_existing_key,
                },
            )
        },
        Effect::DeleteProvider(id) => Some(Job::DeleteProvider(id)),
        Effect::ApproveHook(id) => Some(Job::ApproveHook(id)),
        Effect::ApproveMcp(id) => Some(Job::ApproveMcp(id)),
        Effect::OpenFile(path) => Some(Job::OpenFile(path)),
    }
}

/// Boot notices never read as errors, and the onboarding welcome is the last word where there is one.
pub proof fn boot_ends_with_the_call_to_action(
    workspace: Seq<char>,
    swap: SwapView,
    notices: Seq<BootNotice>,
    needs_onboarding: bool,
    m: Model,
)
    requires
        booted(workspace, swap, notices, needs_onboarding, m),
    ensures
        forall|i: int|
            0 <= i < m.transcript@.len() ==> (#[trigger] m.transcript@[i] matches ItemView::Notice(
                level,
                t,
            ) && level == NoticeLevel::Info),
        needs_onboarding ==> m.transcript@.last() == info(ONBOARDING_WELCOME@) && m.unconfigured,
{
}

/// A prompt given on the command line never runs without a usable provider, nor does a command.
pub proof fn a_seed_runs_only_as_a_prompt(
    old: Model,
    conversation: Seq<MessageView>,
    seed: Option<String>,
    runs: bool,
    new: Model,
    said: Seq<MessageView>,
)
    requires
        seeded(old, conversation, seed, runs, new, said),
    ensures
        runs <==> !old.unconfigured && seed_line(seed) is Some && parsed(seed_line(seed)->0) is None,
        runs <==> said.len() > conversation.len(),
        runs ==> new.busy,
{
}

} // verus!
