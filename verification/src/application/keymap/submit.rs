//! Submitting the editor: prompts, slash commands, and the pickers they open.
use vstd::prelude::*;
use vstd::string::*;
use crate::application::command::{help_screen, help_text, parse, parsed, Command, CommandView};
use crate::application::effect::{effect_views, no_effects, nothing, one_effect, Effect, EffectView};
use crate::application::keymap::pickers::{find_profile, picker_opened, profile_of};
use crate::domain::input_buffer::{data_urls, EditorView};
use crate::domain::model::{body_of, Model};
use crate::domain::picker::{Picker, PickerKind, PickerKindView};
use crate::domain::scroll::Scroll;
use crate::domain::transcript::{ItemView, NoticeLevel, TranscriptItem};
use crate::domain::wizard::{ProviderWizard, WizardView, ADD_PROVIDER_LABEL};
use crate::kernel::{profile_views, Effort, ProfileView, ProviderProfile};
use crate::text::{
    ascii_lowercase, cat2, cat3, clone_strings, decimal, decimal_of, rest_of, same, split_head,
    to_ascii_lowercase, trim, trimmed, views,
};

verus! {

/// The position of the first `x`, or 0 where there is none.
pub open spec fn place_of(list: Seq<Seq<char>>, x: Seq<char>) -> int {
    match list.index_of_first(x) {
        Some(i) => i,
        None => 0,
    }
}

fn find_place(list: &Vec<String>, x: &str) -> (r: usize)
    ensures
        r as int == place_of(views(list@), x@),
{
    let ghost all = views(list@);
    proof {
        all.index_of_first_ensures(x@);
    }
    let mut i: usize = 0;
    while i < list.len()
        invariant
            i <= list@.len(),
            all == views(list@),
            forall|k: int| 0 <= k < i ==> (#[trigger] all[k]) != x@,
            match all.index_of_first(x@) {
                Some(at) => 0 <= at < all.len() && all[at] == x@ && (forall|j: int|
                    0 <= j < at ==> (#[trigger] all[j]) != x@),
                None => !all.contains(x@),
            },
        decreases list@.len() - i,
    {
        if same(list[i].as_str(), x) {
            assert(all[i as int] == x@);
            assert(all.contains(x@));
            return i;
        }
        i = i + 1;
    }
    0
}

/// The text of an optional display, or what to say when there is none.
pub open spec fn shown_or(display: Option<String>, otherwise: Seq<char>) -> Seq<char> {
    match display {
        Some(t) => t@,
        None => otherwise,
    }
}

/// A `/provider` list row: id, kind, model, and auth status.
pub open spec fn row_label(id: Seq<char>, profile: Option<ProfileView>) -> Seq<char> {
    match profile {
        Some(p) => id + " · ["@ + ascii_lowercase(p.kind.variant_name()) + "] "@ + p.model + " · "@
            + p.auth.wire(),
        None => id,
    }
}

/// The `/provider` rows: one per configured provider, plus the one that opens the add wizard.
pub open spec fn provider_rows(
    providers: Seq<Seq<char>>,
    profiles: Seq<ProfileView>,
) -> Seq<Seq<char>> {
    Seq::new(
        providers.len(),
        |i: int| row_label(providers[i], profile_of(profiles, providers[i])),
    ).push(ADD_PROVIDER_LABEL@)
}

/// The effort rows.
pub open spec fn effort_rows() -> Seq<Seq<char>> {
    Seq::new(Effort::ALL@.len(), |i: int| Effort::ALL@[i].name())
}

/// What `/models` does: opens the picker over the active provider's catalog on the current model, or says that
/// there is nothing to pick.
pub open spec fn models_asked(m: Model, new: Model) -> bool {
    if m.models@.len() == 0 {
        m.posted(
            new,
            NoticeLevel::Info,
            "este provider não tem catálogo de modelos; adicione em ~/.kiri/config.toml"@,
        )
    } else {
        picker_opened(
            m,
            new,
            Picker::opened(
                PickerKindView::Models,
                "modelo"@,
                "Escolha o modelo ativo:"@,
                views(m.models@),
                place_of(views(m.models@), m.status.model@),
            ),
        )
    }
}

/// What `/effort` does: opens the picker over the efforts on the current one.
pub open spec fn effort_asked(m: Model, new: Model) -> bool {
    picker_opened(
        m,
        new,
        Picker::opened(
            PickerKindView::Effort,
            "esforço"@,
            "Escolha o nível de esforço (reasoning):"@,
            effort_rows(),
            m.status.effort.rank(),
        ),
    )
}

/// What `/provider` does: opens the picker over the configured providers on the active one, or says that there
/// is none.
pub open spec fn provider_asked(m: Model, new: Model) -> bool {
    if m.providers@.len() == 0 {
        m.posted(new, NoticeLevel::Info, "nenhum provider configurado"@)
    } else {
        picker_opened(
            m,
            new,
            Picker::opened(
                PickerKindView::Provider,
                "provider"@,
                "Escolha o provider ativo (ou adicione um novo):"@,
                provider_rows(views(m.providers@), profile_views(m.provider_profiles@)),
                place_of(views(m.providers@), m.status.provider@),
            ),
        )
    }
}

/// A custom command's prompt: its body, with the typed argument behind it.
pub open spec fn expanded(body: Seq<char>, line: Seq<char>) -> Seq<char> {
    if rest_of(line).len() == 0 {
        body
    } else {
        body + "\n\n"@ + rest_of(line)
    }
}

/// A turn is armed: the transcript shows `label`, and `text` with `images` goes to the model.
pub open spec fn armed(
    m: Model,
    new: Model,
    label: Seq<char>,
    effects: Seq<EffectView>,
    text: Seq<char>,
    images: Seq<Seq<char>>,
) -> bool {
    &&& new.busy
    &&& new.transcript@ == m.transcript@.push(ItemView::User(label))
    &&& effects == seq![EffectView::SubmitPrompt { text, images }]
}

/// What a line that is no command does.
pub open spec fn prompted(m: Model, line: Seq<char>, new: Model, effects: Seq<EffectView>) -> bool {
    if trim(line).len() == 0 && m.attachments@.len() == 0 {
        new == m && effects == nothing()
    } else if m.unconfigured {
        // No usable provider yet: the staged images are dropped, and onboarding opens again. No turn is
        // armed, so the front-end is not stranded.
        &&& effects == nothing()
        &&& new == (Model {
            attachments: new.attachments,
            transcript: new.transcript,
            wizard: new.wizard,
            ..m
        })
        &&& new.attachments@.len() == 0
        &&& new.transcript@ == m.transcript@.push(
            ItemView::Notice(
                NoticeLevel::Info,
                "configure um provider primeiro — escolha um e informe a API key"@,
            ),
        )
        &&& new.wizard matches Some(w) && w@ == (WizardView {
            onboarding: true,
            ..WizardView::fresh()
        })
    } else {
        &&& new == (Model {
            attachments: new.attachments,
            transcript: new.transcript,
            busy: true,
            ..m
        })
        &&& new.attachments@.len() == 0
        &&& armed(
            m,
            new,
            if trim(line).len() == 0 {
                "🖼 "@ + decimal(m.attachments@.len() as int) + " imagem(ns)"@
            } else {
                line
            },
            effects,
            line,
            data_urls(m.attachments@),
        )
    }
}

/// What a submitted line does, once it is taken out of the editor.
pub open spec fn routed(m: Model, line: Seq<char>, new: Model, effects: Seq<EffectView>) -> bool {
    match parsed(line) {
        None => prompted(m, line, new, effects),
        Some(CommandView::Quit) => {
            new == (Model { should_quit: true, ..m }) && effects == seq![EffectView::Quit]
        },
        Some(CommandView::NewSession) => new == m && effects == seq![EffectView::NewSession],
        Some(CommandView::Resume) => new == m && effects == seq![EffectView::ResumeLast],
        Some(CommandView::Sessions) => new == m && effects == seq![EffectView::ListSessions],
        Some(CommandView::Sync) => new == m && effects == seq![EffectView::SyncPush],
        Some(CommandView::Instructions) => effects == nothing() && m.posted(
            new,
            NoticeLevel::Info,
            shown_or(m.instructions_display, "Nenhuma instrução ativa."@),
        ),
        Some(CommandView::Rules) => effects == nothing() && m.posted(
            new,
            NoticeLevel::Info,
            shown_or(m.rules_display, "Nenhuma regra carregada."@),
        ),
        Some(CommandView::Commands) => effects == nothing() && m.posted(
            new,
            NoticeLevel::Info,
            shown_or(m.commands_display, "Nenhum comando custom carregado."@),
        ),
        Some(CommandView::Agents) => effects == nothing() && m.posted(
            new,
            NoticeLevel::Info,
            shown_or(m.agents_display, "Nenhum agente carregado."@),
        ),
        Some(CommandView::Skills) => effects == nothing() && m.posted(
            new,
            NoticeLevel::Info,
            shown_or(m.skills_display, "Nenhuma skill carregada."@),
        ),
        Some(CommandView::Hooks) => effects == nothing() && m.posted(
            new,
            NoticeLevel::Info,
            shown_or(m.hooks_display, "Nenhum hook carregado."@),
        ),
        Some(CommandView::Mcp) => effects == nothing() && m.posted(
            new,
            NoticeLevel::Info,
            shown_or(m.mcp_display, "Nenhum servidor MCP carregado."@),
        ),
        Some(CommandView::ApproveHook(id)) => if id.len() == 0 {
            effects == nothing() && m.posted(
                new,
                NoticeLevel::Error,
                "uso: /approve-hook <id> (veja /hooks)"@,
            )
        } else {
            new == m && effects == seq![EffectView::ApproveHook(id)]
        },
        Some(CommandView::ApproveMcp(id)) => if id.len() == 0 {
            effects == nothing() && m.posted(
                new,
                NoticeLevel::Error,
                "uso: /approve-mcp <id> (veja /mcp)"@,
            )
        } else {
            new == m && effects == seq![EffectView::ApproveMcp(id)]
        },
        Some(CommandView::Help) => effects == nothing() && m.posted(
            new,
            NoticeLevel::Info,
            help_screen(),
        ),
        Some(CommandView::SetMode(mode)) => {
            new == (Model { approval_mode: mode, ..m }) && effects == nothing()
        },
        Some(CommandView::ChangeWorkspace(None)) => effects == nothing() && m.posted(
            new,
            NoticeLevel::Info,
            "workspace: "@ + m.status.workspace@,
        ),
        Some(CommandView::ChangeWorkspace(Some(path))) => {
            new == m && effects == seq![EffectView::ChangeWorkspace(path)]
        },
        Some(CommandView::Models) => effects == nothing() && models_asked(m, new),
        Some(CommandView::Effort) => effects == nothing() && effort_asked(m, new),
        Some(CommandView::Provider) => effects == nothing() && provider_asked(m, new),
        Some(CommandView::Unknown(token)) => match body_of(m.custom_command_bodies@, token) {
            Some(body) => {
                &&& new == (Model { transcript: new.transcript, busy: true, ..m })
                &&& armed(m, new, line, effects, expanded(body, line), Seq::empty())
            },
            None => effects == nothing() && m.posted(
                new,
                NoticeLevel::Error,
                "comando desconhecido: "@ + trim(line) + " (use /help)"@,
            ),
        },
    }
}

/// `old` with the editor emptied into the history, the transcript pinned to its end, and the preview closed;
/// `new` says which editor and history those are.
pub open spec fn line_taken(old: Model, new: Model) -> Model {
    Model {
        input: new.input,
        history: new.history,
        scroll: Scroll { scrollback: 0 },
        command_menu: None,
        ..old
    }
}

/// What submitting does: nothing while a turn runs; otherwise the line is taken out of the editor, recorded,
/// and routed.
pub open spec fn submitted(old: Model, new: Model, effects: Seq<EffectView>) -> bool {
    if old.busy {
        new == old && effects == nothing()
    } else {
        let line = old.input@.text();
        &&& new.input@ == (EditorView { yank: old.input@.yank, ..EditorView::blank() })
        &&& new.input.look() == old.input.look()
        &&& new.input.undone() is None && new.input.redone() is None
        &&& new.history@ == old.history@.recorded(line)
        &&& routed(line_taken(old, new), line, new, effects)
    }
}

fn post_display(model: &mut Model, display: Option<String>, otherwise: &'static str)
    ensures
        old(model).posted(*final(model), NoticeLevel::Info, shown_or(display, otherwise@)),
{
    match display {
        Some(text) => model.notify_info(text),
        None => model.notify_info(otherwise.to_owned()),
    }
}

fn copy_display(display: &Option<String>) -> (r: Option<String>)
    ensures
        r == *display,
{
    match display {
        Some(t) => Some(t.clone()),
        None => None,
    }
}

/// Open the `/models` picker for the active provider's catalog, preselecting the current model. An empty
/// catalog surfaces a notice instead: there is nothing to pick.
fn open_models_picker(model: &mut Model)
    requires
        old(model).wf(),
    ensures
        models_asked(*old(model), *final(model)),
        final(model).wf(),
{
    if model.models.len() == 0 {
        model.notify_info(
            "este provider não tem catálogo de modelos; adicione em ~/.kiri/config.toml".to_owned(),
        );
    } else {
        let selected: usize = find_place(&model.models, model.status.model.as_str());
        model.picker = Some(
            Picker::new(
                PickerKind::Models,
                "modelo".to_owned(),
                "Escolha o modelo ativo:".to_owned(),
                clone_strings(&model.models),
                selected,
            ),
        );
    }
}

/// Open the `/effort` picker over the reasoning-effort levels, preselecting the current effort.
fn open_effort_picker(model: &mut Model)
    requires
        old(model).wf(),
    ensures
        effort_asked(*old(model), *final(model)),
        final(model).wf(),
{
    let mut options: Vec<String> = Vec::new();
    let mut i: usize = 0;
    while i < Effort::ALL.len()
        invariant
            i <= Effort::ALL@.len(),
            views(options@) == effort_rows().take(i as int),
        decreases Effort::ALL@.len() - i,
    {
        let ghost before = options@;
        let label: String = Effort::ALL[i].label().to_owned();
        assert(label@ == effort_rows()[i as int]);
        options.push(label);
        assert(views(options@) =~= views(before).push(label@));
        i = i + 1;
        assert(effort_rows().take(i as int) =~= effort_rows().take(i - 1).push(label@));
    }
    assert(views(options@) =~= effort_rows());
    let selected: usize = model.status.effort.position();
    model.picker = Some(
        Picker::new(
            PickerKind::Effort,
            "esforço".to_owned(),
            "Escolha o nível de esforço (reasoning):".to_owned(),
            options,
            selected,
        ),
    );
}

/// One `/provider` list row: id, kind, model, and auth status, compact enough for the picker's fixed width.
fn provider_row_label(id: &str, profile: Option<&ProviderProfile>) -> (r: String)
    ensures
        r@ == row_label(
            id@,
            match profile {
                Some(p) => Some(p@),
                None => None,
            },
        ),
{
    match profile {
        Some(p) => {
            let mut out: String = id.to_owned();
            out.append(" · [");
            out.append(to_ascii_lowercase(p.kind.name()).as_str());
            out.append("] ");
            out.append(p.model.as_str());
            out.append(" · ");
            out.append(p.auth.as_wire());
            out
        },
        None => id.to_owned(),
    }
}

/// Open the `/provider` picker over the configured providers (plus the "+ adicionar" row that opens the add
/// wizard), preselecting the active one. With no providers configured it surfaces a notice instead.
fn open_provider_picker(model: &mut Model)
    requires
        old(model).wf(),
    ensures
        provider_asked(*old(model), *final(model)),
        final(model).wf(),
{
    if model.providers.len() == 0 {
        model.notify_info("nenhum provider configurado".to_owned());
        return ;
    }
    let selected: usize = find_place(&model.providers, model.status.provider.as_str());
    let ghost ids = views(model.providers@);
    let ghost profiles = profile_views(model.provider_profiles@);
    let mut options: Vec<String> = Vec::new();
    let mut i: usize = 0;
    while i < model.providers.len()
        invariant
            i <= model.providers@.len(),
            ids == views(model.providers@),
            profiles == profile_views(model.provider_profiles@),
            options@.len() == i,
            forall|k: int|
                0 <= k < i ==> (#[trigger] options@[k])@ == row_label(
                    ids[k],
                    profile_of(profiles, ids[k]),
                ),
        decreases model.providers@.len() - i,
    {
        let id: &str = model.providers[i].as_str();
        let profile: Option<&ProviderProfile> = find_profile(&model.provider_profiles, id);
        options.push(provider_row_label(id, profile));
        i = i + 1;
    }
    options.push(ADD_PROVIDER_LABEL.to_owned());
    assert(views(options@) =~= provider_rows(ids, profiles));
    model.picker = Some(
        Picker::new(
            PickerKind::Provider,
            "provider".to_owned(),
            "Escolha o provider ativo (ou adicione um novo):".to_owned(),
            options,
            selected,
        ),
    );
}

/// Expand and submit an extension-provided custom command: the transcript shows what the user typed, but the
/// prompt sent to the model is the command's body with any trailing argument text appended.
fn submit_custom_command(model: &mut Model, line: &str, body: String) -> (r: Vec<Effect>)
    requires
        old(model).wf(),
    ensures
        *final(model) == (Model { transcript: final(model).transcript, busy: true, ..*old(model) }),
        armed(
            *old(model),
            *final(model),
            line@,
            effect_views(r@),
            expanded(body@, line@),
            Seq::empty(),
        ),
        final(model).wf(),
{
    let (_, arg): (String, String) = split_head(line);
    let text: String = if arg.as_str().is_empty() {
        body
    } else {
        cat3(body.as_str(), "\n\n", arg.as_str())
    };
    model.transcript.push(TranscriptItem::User(line.to_owned()));
    model.busy = true;
    let images: Vec<String> = Vec::new();
    assert(views(images@) =~= Seq::<Seq<char>>::empty());
    one_effect(Effect::SubmitPrompt { text, images })
}

/// Submit a line that is no command. A turn can carry text, images, or both.
fn submit_prompt(model: &mut Model, line: String) -> (r: Vec<Effect>)
    requires
        old(model).wf(),
    ensures
        prompted(*old(model), line@, *final(model), effect_views(r@)),
        final(model).wf(),
{
    let blank: bool = trimmed(line.as_str()).as_str().is_empty();
    if blank && model.attachments.len() == 0 {
        return no_effects();
    }
    if model.unconfigured {
        model.attachments = Vec::new();
        model.notify_info(
            "configure um provider primeiro — escolha um e informe a API key".to_owned(),
        );
        model.wizard = Some(ProviderWizard::onboarding());
        return no_effects();
    }
    let mut images: Vec<String> = Vec::new();
    let mut i: usize = 0;
    while i < model.attachments.len()
        invariant
            i <= model.attachments@.len(),
            images@.len() == i,
            forall|k: int| 0 <= k < i ==> (#[trigger] images@[k])@ == model.attachments@[k].data_url@,
        decreases model.attachments@.len() - i,
    {
        images.push(model.attachments[i].data_url.clone());
        i = i + 1;
    }
    assert(views(images@) =~= data_urls(old(model).attachments@));
    let label: String = if blank {
        cat3("🖼 ", decimal_of(images.len() as u64).as_str(), " imagem(ns)")
    } else {
        line.clone()
    };
    model.attachments = Vec::new();
    model.transcript.push(TranscriptItem::User(label));
    model.busy = true;
    one_effect(Effect::SubmitPrompt { text: line, images })
}

/// Route a line that was taken out of the editor.
fn route(model: &mut Model, line: String) -> (r: Vec<Effect>)
    requires
        old(model).wf(),
    ensures
        routed(*old(model), line@, *final(model), effect_views(r@)),
        final(model).wf(),
{
    let command: Command = match parse(line.as_str()) {
        Some(c) => c,
        None => {
            return submit_prompt(model, line);
        },
    };
    match command {
        Command::Quit => {
            model.should_quit = true;
            one_effect(Effect::Quit)
        },
        Command::NewSession => one_effect(Effect::NewSession),
        Command::Resume => one_effect(Effect::ResumeLast),
        Command::Sessions => one_effect(Effect::ListSessions),
        Command::Sync => one_effect(Effect::SyncPush),
        Command::Instructions => {
            let display: Option<String> = copy_display(&model.instructions_display);
            post_display(model, display, "Nenhuma instrução ativa.");
            no_effects()
        },
        Command::Rules => {
            let display: Option<String> = copy_display(&model.rules_display);
            post_display(model, display, "Nenhuma regra carregada.");
            no_effects()
        },
        Command::Commands => {
            let display: Option<String> = copy_display(&model.commands_display);
            post_display(model, display, "Nenhum comando custom carregado.");
            no_effects()
        },
        Command::Agents => {
            let display: Option<String> = copy_display(&model.agents_display);
            post_display(model, display, "Nenhum agente carregado.");
            no_effects()
        },
        Command::Skills => {
            let display: Option<String> = copy_display(&model.skills_display);
            post_display(model, display, "Nenhuma skill carregada.");
            no_effects()
        },
        Command::Hooks => {
            let display: Option<String> = copy_display(&model.hooks_display);
            post_display(model, display, "Nenhum hook carregado.");
            no_effects()
        },
        Command::Mcp => {
            let display: Option<String> = copy_display(&model.mcp_display);
            post_display(model, display, "Nenhum servidor MCP carregado.");
            no_effects()
        },
        Command::ApproveHook(id) => {
            if id.as_str().is_empty() {
                model.notify_error("uso: /approve-hook <id> (veja /hooks)".to_owned());
                no_effects()
            } else {
                one_effect(Effect::ApproveHook(id))
            }
        },
        Command::ApproveMcp(id) => {
            if id.as_str().is_empty() {
                model.notify_error("uso: /approve-mcp <id> (veja /mcp)".to_owned());
                no_effects()
            } else {
                one_effect(Effect::ApproveMcp(id))
            }
        },
        Command::Help => {
            model.notify_info(help_text());
            no_effects()
        },
        Command::SetMode(mode) => {
            model.approval_mode = mode;
            no_effects()
        },
        Command::ChangeWorkspace(None) => {
            let text: String = cat2("workspace: ", model.status.workspace.as_str());
            model.notify_info(text);
            no_effects()
        },
        Command::ChangeWorkspace(Some(path)) => one_effect(Effect::ChangeWorkspace(path)),
        Command::Models => {
            open_models_picker(model);
            no_effects()
        },
        Command::Effort => {
            open_effort_picker(model);
            no_effects()
        },
        Command::Provider => {
            open_provider_picker(model);
            no_effects()
        },
        Command::Unknown(token) => match model.custom_body(token.as_str()) {
            Some(body) => submit_custom_command(model, line.as_str(), body),
            None => {
                let text: String = cat3(
                    "comando desconhecido: ",
                    trimmed(line.as_str()).as_str(),
                    " (use /help)",
                );
                model.notify_error(text);
                no_effects()
            },
        },
    }
}

/// Submit the editor contents: a command is routed; anything else non-blank starts a turn. Ignored while a turn
/// runs.
pub fn submit(model: &mut Model) -> (r: Vec<Effect>)
    requires
        old(model).wf(),
    ensures
        submitted(*old(model), *final(model), effect_views(r@)),
        final(model).wf(),
{
    if model.busy {
        return no_effects();
    }
    let line: String = model.input.take();
    model.history.record(line.as_str());
    model.scroll.pin();
    model.command_menu = None;
    route(model, line)
}

/// A turn is only ever armed with a prompt going out, and never without a provider.
pub proof fn arming_sends_a_prompt(old: Model, new: Model, effects: Seq<EffectView>)
    requires
        submitted(old, new, effects),
        !old.busy,
    ensures
        new.busy <==> effects.len() == 1 && effects[0] is SubmitPrompt,
        parsed(old.input@.text()) is None && old.unconfigured ==> !new.busy && effects == nothing(),
{
}

/// A prompt goes to the model exactly as typed, and shows so in the transcript.
pub proof fn prompt_is_sent_as_typed(old: Model, new: Model, effects: Seq<EffectView>)
    requires
        submitted(old, new, effects),
        !old.busy,
        !old.unconfigured,
        parsed(old.input@.text()) is None,
        trim(old.input@.text()).len() > 0,
    ensures
        effects == seq![
            EffectView::SubmitPrompt {
                text: old.input@.text(),
                images: data_urls(old.attachments@),
            },
        ],
        new.transcript@ == old.transcript@.push(ItemView::User(old.input@.text())),
        new.attachments@.len() == 0,
        new.input@.text().len() == 0,
{
}

/// A line that starts with a slash never goes to the model as a prompt, unless an extension command expands it.
pub proof fn commands_are_not_prompts(old: Model, new: Model, effects: Seq<EffectView>)
    requires
        submitted(old, new, effects),
        !old.busy,
        parsed(old.input@.text()) is Some,
        effects.len() == 1,
        effects[0] is SubmitPrompt,
    ensures
        parsed(old.input@.text())->0 is Unknown,
        body_of(old.custom_command_bodies@, parsed(old.input@.text())->0->Unknown_0) is Some,
{
}

/// Slash commands work before any provider is configured: the prompt gate stops prompts only.
pub proof fn gate_stops_prompts_only(old: Model, new: Model, effects: Seq<EffectView>)
    requires
        submitted(old, new, effects),
        !old.busy,
        old.unconfigured,
        parsed(old.input@.text()) == Some(CommandView::Provider),
        old.providers@.len() > 0,
    ensures
        new.picker is Some,
        new.wizard == old.wizard,
{
}

} // verus!
