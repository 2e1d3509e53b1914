//! What the event loop does between the turns, and what reaches it.
use vstd::prelude::*;
use vstd::string::*;
use crate::application::effect::Effect;
use crate::application::msg::Msg;
use crate::conversation::{MessageView, Role};
use crate::domain::input::{Key, KeyPress, MouseKind};
use crate::domain::input_buffer::EditorView;
use crate::domain::model::Model;
use crate::domain::selection::{ScreenSelection, SelectionState};
use crate::domain::transcript::{ItemView, NoticeLevel};
use crate::domain::wizard::WizardStep;
use crate::infrastructure::input::{key_of, msg_of, TerminalEvent, TerminalKey, TerminalMouse};
use crate::infrastructure::render::cells::cells;
use crate::infrastructure::render::layout::Regions;
use crate::infrastructure::render::widgets::editor::{laid_out_plainly, text_area};
use crate::infrastructure::runtime::clipboard::{
    base64_text, content_of, image_file, png_file, ClipboardContent, ClipboardImage,
};
use crate::infrastructure::runtime::distill::{distill_notice, worth_distilling, Distilled};
use crate::infrastructure::runtime::hook_dispatch::hook_notice;
use crate::infrastructure::runtime::provider_swap::SwapView;
use crate::infrastructure::runtime::render::{clicked, clipboard_pasted, settled, waiting};
use crate::infrastructure::runtime::tui::{booted, job_of, seeded, BootNotice, Job};
use crate::kernel::{profile_views, ApprovalMode, AuthMethod, Effort, ProviderKind};
use crate::text::{decimal, trim, trimmed_is_bare, views};

verus! {

// ---- coming up ----

/// The front-end comes up on the active provider: its model is in the status, its models are on offer, and so are all
/// configured providers. What went wrong on the way is told first. Where no provider is usable, the wizard opens and prompts
/// are held back.
pub proof fn the_front_end_comes_up_on_its_provider(
    workspace: Seq<char>,
    swap: SwapView,
    notices: Seq<BootNotice>,
    needs_onboarding: bool,
    m: Model,
)
    requires
        booted(workspace, swap, notices, needs_onboarding, m),
    ensures
        m.status.workspace@ == workspace,
        m.status.provider@ == swap.active,
        m.status.effort == swap.effort,
        swap.active_profile() matches Some(p) ==> m.status.model@ == p.model && views(m.models@) == p.models,
        m.providers@.len() == swap.providers.len(),
        forall|i: int| 0 <= i < swap.providers.len() ==> (#[trigger] views(m.providers@)[i]) == swap.providers[i].id,
        profile_views(m.provider_profiles@) == swap.providers,
        m.unconfigured == needs_onboarding,
        needs_onboarding ==> m.wizard is Some && (m.wizard->0)@.onboarding && (m.wizard->0)@.step == WizardStep::Kind,
        !needs_onboarding ==> m.wizard is None && m.transcript@.len() == notices.len(),
        forall|i: int|
            0 <= i < notices.len() ==> #[trigger] m.transcript@[i] == ItemView::Notice(NoticeLevel::Info, notices[i]@),
        !m.busy && !m.should_quit,
        m.input@.text().len() == 0,
{
    assert(views(m.providers@).len() == m.providers@.len());
    reveal_with_fuel(crate::text::join_with, 2);
}

/// The prompt given at the start runs as the first turn, without the white space round it: it is shown, remembered, and said
/// to the model.
pub proof fn the_first_prompt_is_said(
    old: Model,
    conversation: Seq<MessageView>,
    seed: String,
    runs: bool,
    new: Model,
    said: Seq<MessageView>,
)
    requires
        seeded(old, conversation, Some(seed), runs, new, said),
        trim(seed@).len() > 0,
        trim(seed@)[0] != '/',
        !old.unconfigured,
    ensures
        runs,
        new.busy,
        said == conversation.push(MessageView::plain(Role::User, trim(seed@))),
        new.transcript@ == old.transcript@.push(ItemView::User(trim(seed@))),
{
    trimmed_is_bare(seed@);
}

// ---- what is asked of the host ----

/// Between turns each effect asks the host for exactly what it names, with all that it carries; an answer or a cancel has
/// nothing to reach, and quitting is no work.
pub proof fn effects_become_their_work(
    text: String,
    images: Vec<String>,
    col: u16,
    row: u16,
    mode: ApprovalMode,
    effort: Effort,
)
    ensures
        job_of(Effect::SubmitPrompt { text, images }) == Some(Job::Prompt { text, images }),
        job_of(Effect::CopyToClipboard(text)) == Some(Job::Copy(text)),
        job_of(Effect::PasteClipboard) == Some(Job::Paste),
        job_of(Effect::PlaceCursor { col, row }) == Some(Job::PlaceCursor { col, row }),
        job_of(Effect::NewSession) == Some(Job::NewSession),
        job_of(Effect::ListSessions) == Some(Job::ListSessions),
        job_of(Effect::ResumeLast) == Some(Job::ResumeLast),
        job_of(Effect::OpenSession(text)) == Some(Job::OpenSession(text)),
        job_of(Effect::SyncPush) == Some(Job::SyncPush),
        job_of(Effect::ChangeWorkspace(text)) == Some(Job::ChangeWorkspace(text)),
        job_of(Effect::ApprovePlan(mode)) == Some(Job::ApprovePlan(mode)),
        job_of(Effect::SetModel(text)) == Some(Job::SetModel(text)),
        job_of(Effect::SetEffort(effort)) == Some(Job::SetEffort(effort)),
        job_of(Effect::SetProvider(text)) == Some(Job::SetProvider(text)),
        job_of(Effect::DeleteProvider(text)) == Some(Job::DeleteProvider(text)),
        job_of(Effect::ApproveHook(text)) == Some(Job::ApproveHook(text)),
        job_of(Effect::ApproveMcp(text)) == Some(Job::ApproveMcp(text)),
        job_of(Effect::OpenFile(text)) == Some(Job::OpenFile(text)),
        job_of(Effect::Quit) is None,
        job_of(Effect::CancelTurn) is None,
{
}

/// A provider to be saved reaches the host as it was entered.
pub proof fn a_save_carries_the_profile(
    id: String,
    kind: ProviderKind,
    base_url: String,
    model: String,
    models: Vec<String>,
    auth: AuthMethod,
    thinking: Option<bool>,
    keep_existing_key: bool,
)
    ensures
        job_of(Effect::SaveProvider { id, kind, base_url, model, models, auth, thinking, keep_existing_key }) matches Some(
            Job::SaveProvider { profile, keep_existing_key: keeps },
        ) && profile.id == id && profile.kind == kind && profile.base_url == base_url && profile.model == model
            && profile.models == models && profile.auth == auth && profile.thinking == thinking && keeps
            == keep_existing_key,
{
}

// ---- what the terminal sends ----

/// A pressed key reaches the reducer as that key, with the modifiers it was pressed with; a released one does not. The mouse
/// button and the wheel reach it at the cell they point at.
pub proof fn input_arrives_as_it_was_made(c: char, ctrl: bool, alt: bool, shift: bool, col: u16, row: u16, text: String)
    ensures
        !(ctrl && alt) ==> msg_of(
            TerminalEvent::Key { code: TerminalKey::Char(c), ctrl, alt, shift, pressed: true },
        ) == Some(Msg::Key(KeyPress { code: Key::Char(c), ctrl, alt, shift })),
        msg_of(TerminalEvent::Key { code: TerminalKey::Char(c), ctrl, alt, shift, pressed: false }) is None,
        msg_of(TerminalEvent::Key { code: TerminalKey::Enter, ctrl, alt, shift, pressed: true }) == Some(
            Msg::Key(KeyPress { code: Key::Enter, ctrl, alt, shift }),
        ),
        msg_of(TerminalEvent::Key { code: TerminalKey::Esc, ctrl, alt, shift, pressed: true }) == Some(
            Msg::Key(KeyPress { code: Key::Esc, ctrl, alt, shift }),
        ),
        msg_of(TerminalEvent::Paste(text)) == Some(Msg::Paste(text)),
        msg_of(TerminalEvent::Resize) == Some(Msg::Resize),
        msg_of(TerminalEvent::Mouse { kind: TerminalMouse::LeftDown, col, row }) == Some(
            Msg::Mouse { kind: MouseKind::Down, col, row },
        ),
        msg_of(TerminalEvent::Mouse { kind: TerminalMouse::LeftDrag, col, row }) == Some(
            Msg::Mouse { kind: MouseKind::Drag, col, row },
        ),
        msg_of(TerminalEvent::Mouse { kind: TerminalMouse::LeftUp, col, row }) == Some(
            Msg::Mouse { kind: MouseKind::Up, col, row },
        ),
        msg_of(TerminalEvent::Mouse { kind: TerminalMouse::ScrollUp, col, row }) == Some(Msg::ScrollUp),
        msg_of(TerminalEvent::Mouse { kind: TerminalMouse::ScrollDown, col, row }) == Some(Msg::ScrollDown),
{
}

/// The named keys keep their names, and no two of them are taken for one another.
pub proof fn keys_keep_their_names(a: TerminalKey, b: TerminalKey)
    ensures
        key_of(a) == key_of(b) && key_of(a) is Some ==> a == b,
        key_of(TerminalKey::Up) == Some(Key::Up) && key_of(TerminalKey::Down) == Some(Key::Down),
        key_of(TerminalKey::Left) == Some(Key::Left) && key_of(TerminalKey::Right) == Some(Key::Right),
        key_of(TerminalKey::Home) == Some(Key::Home) && key_of(TerminalKey::End) == Some(Key::End),
        key_of(TerminalKey::PageUp) == Some(Key::PageUp) && key_of(TerminalKey::PageDown) == Some(Key::PageDown),
        key_of(TerminalKey::Tab) == Some(Key::Tab) && key_of(TerminalKey::BackTab) == Some(Key::BackTab),
        key_of(TerminalKey::Backspace) == Some(Key::Backspace) && key_of(TerminalKey::Delete) == Some(Key::Delete),
{
}

// ---- the clipboard and the cursor ----

/// A clipboard image becomes an attachment of its size, whose URL is its PNG file in base64; one without pixels, or whose
/// bytes are not four to the pixel, is unreadable.
pub proof fn an_image_becomes_an_attachment(image: ClipboardImage, c: ClipboardContent)
    requires
        content_of(image.width, image.height, image_file(image), c),
    ensures
        image.width == 0 || image.height == 0 ==> c == ClipboardContent::Unreadable,
        image.bytes@.len() != image.width * image.height * 4 ==> c == ClipboardContent::Unreadable,
        0 < image.width <= u32::MAX && 0 < image.height <= u32::MAX && image.bytes@.len() == image.width * image.height * 4
            ==> (png_file(image.width as u32, image.height as u32, image.bytes@) matches Some(file) ==> (
        c matches ClipboardContent::Image(a) && a.width == image.width && a.height == image.height && a.data_url@
            == "data:image/png;base64,"@ + base64_text(file))),
{
}

/// Pasting stages an image, inserts a text where the cursor is, tells of an image that cannot be read, and does nothing with
/// an empty clipboard.
pub proof fn pasting_by_kind(old: Model, content: ClipboardContent, new: Model)
    requires
        clipboard_pasted(old, content, new),
    ensures
        content matches ClipboardContent::Image(image) ==> new.attachments@ == old.attachments@.push(image),
        content matches ClipboardContent::Text(text) ==> (!old.modal_open() ==> new.input@ == old.input@.with_text(text@)),
        content == ClipboardContent::Unreadable ==> new.transcript@ == old.transcript@.push(
            ItemView::Notice(NoticeLevel::Error, "não consegui ler a imagem da área de transferência"@),
        ),
        content == ClipboardContent::Empty ==> new == old,
{
}

/// A finished copy by the mouse keeps what is selected, and one by the keyboard lets it go.
pub proof fn a_copy_keeps_or_drops_the_selection(m: Model, s: ScreenSelection)
    requires
        m.selection.active == Some(s),
    ensures
        s.state == SelectionState::CopyAndKeep ==> settled(m, s).selection.active == Some(
            ScreenSelection { state: SelectionState::Idle, ..s },
        ),
        s.state == SelectionState::CopyAndClear ==> settled(m, s).selection.active is None,
        s.state == SelectionState::Idle ==> waiting(m) is None,
        s.state != SelectionState::Idle ==> waiting(m) == Some(s),
        settled(m, s).input == m.input,
{
}

/// A click on the composer's text puts the cursor before the character under it: the text up to the cursor ends left of the
/// clicked cell, and with the next character it reaches past it. Behind the end of a line it goes to that end. The text
/// stays.
pub proof fn a_click_points_at_its_character(old: EditorView, regions: Regions, col: u16, row: u16, new: EditorView)
    requires
        clicked(old, regions, col, row, new),
        old.wf(),
        laid_out_plainly(old, text_area(regions.input)),
        text_area(regions.input).x <= col < text_area(regions.input).x + text_area(regions.input).width,
        text_area(regions.input).y <= row < text_area(regions.input).y + text_area(regions.input).height,
        row - text_area(regions.input).y < old.lines.len(),
        old.lines[row - text_area(regions.input).y].len() <= u16::MAX,
    ensures
        new.lines == old.lines,
        new.row == row - text_area(regions.input).y,
        ({
            let line = old.lines[new.row];
            let cell = col - text_area(regions.input).x;
            &&& 0 <= new.col <= line.len()
            &&& cells(line.take(new.col)) <= cell
            &&& new.col < line.len() ==> cells(line.take(new.col + 1)) > cell
        }),
{
}

/// The composer's text begins behind the prompt's two cells.
pub proof fn the_text_stands_behind_the_prompt(input: crate::infrastructure::render::layout::Rect)
    requires
        input.wf(),
        input.width >= 2,
    ensures
        text_area(input).x == input.x + 2,
        text_area(input).width == input.width - 2,
        text_area(input).y == input.y && text_area(input).height == input.height,
{
}

// ---- distilling and hooks ----

/// A session is distilled only where the user said something and the assistant answered with more than white space.
pub proof fn only_a_talk_is_distilled(conversation: Seq<MessageView>)
    ensures
        (forall|i: int| 0 <= i < conversation.len() ==> (#[trigger] conversation[i]).role != Role::User)
            ==> !worth_distilling(conversation),
        (forall|i: int|
            0 <= i < conversation.len() && (#[trigger] conversation[i]).role == Role::Assistant ==> (
            conversation[i].content matches Some(t) ==> trim(t).len() == 0)) ==> !worth_distilling(conversation),
        forall|i: int, j: int|
            #![trigger conversation[i], conversation[j]]
            0 <= i < conversation.len() && 0 <= j < conversation.len() && conversation[i].role == Role::User
                && conversation[j].role == Role::Assistant && (conversation[j].content matches Some(t) && trim(t).len() > 0)
                ==> worth_distilling(conversation),
{
}

/// A distillation tells how much it learnt, that it was skipped, or why it failed; one that learnt nothing is silent.
pub proof fn a_distillation_tells_what_it_learnt(n: u64, e: String)
    ensures
        n > 0 ==> distill_notice(Distilled::Finished(Ok(n))) == Some(
            "memória atualizada: "@ + decimal(n as int) + " aprendizado(s)"@,
        ),
        distill_notice(Distilled::Finished(Ok(0))) is None,
        distill_notice(Distilled::Skipped) == Some("destilação pulada"@),
        distill_notice(Distilled::Finished(Err(e))) == Some("destilação não concluída: "@ + e@),
{
}

/// A hook's notice names it, says whether it went well, and gives its summary.
pub proof fn a_hook_tells_how_it_went(id: Seq<char>, summary: Seq<char>)
    ensures
        hook_notice(true, id, summary) == "hook ✓ "@ + id + ": "@ + summary,
        hook_notice(false, id, summary) == "hook ✗ "@ + id + ": "@ + summary,
{
    reveal_strlit("hook ");
    reveal_strlit("✓");
    reveal_strlit("✗");
    reveal_strlit(" ");
    reveal_strlit("hook ✓ ");
    reveal_strlit("hook ✗ ");
    assert("hook "@ + "✓"@ + " "@ =~= "hook ✓ "@);
    assert("hook "@ + "✗"@ + " "@ =~= "hook ✗ "@);
}

} // verus!
