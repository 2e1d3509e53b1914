//! What submitted lines come to.
use vstd::prelude::*;
use vstd::string::*;
use crate::application::command::{catalog_names_resolve, help_screen, named};
use crate::application::effect::{nothing, EffectView};
use crate::application::keymap::submit::submitted;
use crate::application::keymap::pickers::profile_of;
use crate::domain::command_menu::CommandSpec;
use crate::domain::input_buffer::data_urls;
use crate::domain::model::{body_of, Model};
use crate::domain::picker::PickerKindView;
use crate::domain::transcript::{ItemView, NoticeLevel};
use crate::domain::wizard::ADD_PROVIDER_LABEL;
use crate::kernel::{profile_views, ApprovalMode, Effort};
use crate::text::{
    a_word_and_the_rest, ascii_lowercase, decimal, head_of, is_white, rest_of, solid_text, trim, views,
};

verus! {

/// A token that a custom command may go by: a slash and more, without white space, that no built-in command has.
pub open spec fn is_custom_token(token: Seq<char>) -> bool {
    &&& token.len() > 0 && token[0] == '/'
    &&& forall|i: int| 0 <= i < token.len() ==> !is_white(#[trigger] token[i])
    &&& named(token) is None
}

/// A custom command with an argument sends the model the command's body, a blank line, and the argument without the white
/// space round it. The transcript shows the line as it was typed.
pub proof fn a_custom_command_sends_its_argument(
    old: Model,
    new: Model,
    effects: Seq<EffectView>,
    token: Seq<char>,
    white: char,
    typed: Seq<char>,
    body: Seq<char>,
)
    requires
        submitted(old, new, effects),
        !old.busy,
        is_custom_token(token),
        is_white(white),
        old.input@.text() == token.push(white) + typed,
        trim(typed).len() > 0,
        body_of(old.custom_command_bodies@, token) == Some(body),
    ensures
        effects == seq![EffectView::SubmitPrompt { text: body + "\n\n"@ + trim(typed), images: Seq::empty() }],
        new.transcript@ == old.transcript@.push(ItemView::User(old.input@.text())),
        new.busy,
{
    a_word_and_the_rest(token, white, typed);
}

/// A custom command without an argument sends the model its body alone.
pub proof fn a_bare_custom_command_sends_its_body(
    old: Model,
    new: Model,
    effects: Seq<EffectView>,
    token: Seq<char>,
    body: Seq<char>,
)
    requires
        submitted(old, new, effects),
        !old.busy,
        is_custom_token(token),
        old.input@.text() == token || (exists|white: char, typed: Seq<char>|
            is_white(white) && trim(typed).len() == 0 && old.input@.text() == #[trigger] (token.push(white) + typed)),
        body_of(old.custom_command_bodies@, token) == Some(body),
    ensures
        effects == seq![EffectView::SubmitPrompt { text: body, images: Seq::empty() }],
        new.transcript@ == old.transcript@.push(ItemView::User(old.input@.text())),
        new.busy,
        new.attachments@ == old.attachments@,
{
    if old.input@.text() == token {
        solid_text(token);
    } else {
        let (white, typed) = choose|white: char, typed: Seq<char>|
            is_white(white) && trim(typed).len() == 0 && old.input@.text() == #[trigger] (token.push(white) + typed);
        a_word_and_the_rest(token, white, typed);
    }
}

/// A custom command's body is the one given for its token first.
pub proof fn a_token_names_its_body(bodies: Seq<crate::domain::model::CommandBody>, i: int)
    requires
        0 <= i < bodies.len(),
        forall|k: int| 0 <= k < i ==> (#[trigger] bodies[k]).token@ != bodies[i].token@,
    ensures
        body_of(bodies, bodies[i].token@) == Some(bodies[i].body@),
    decreases i,
{
    if i > 0 {
        let rest = bodies.skip(1);
        assert(rest[i - 1] == bodies[i]);
        assert forall|k: int| 0 <= k < i - 1 implies (#[trigger] rest[k]).token@ != rest[i - 1].token@ by {
            assert(rest[k] == bodies[k + 1]);
        }
        a_token_names_its_body(rest, i - 1);
    }
}

/// A line that names neither a built-in command nor a custom one is not sent: it is reported in red, as it was typed.
pub proof fn an_unknown_command_is_reported(old: Model, new: Model, effects: Seq<EffectView>)
    requires
        submitted(old, new, effects),
        !old.busy,
        trim(old.input@.text()).len() > 0,
        trim(old.input@.text())[0] == '/',
        named(head_of(trim(old.input@.text()))) is None,
        body_of(old.custom_command_bodies@, head_of(trim(old.input@.text()))) is None,
    ensures
        effects == nothing(),
        !new.busy,
        new.transcript@ == old.transcript@.push(
            ItemView::Notice(
                NoticeLevel::Error,
                "comando desconhecido: "@ + trim(old.input@.text()) + " (use /help)"@,
            ),
        ),
{
}

/// The line names a built-in command by `head`, with `arg` behind it.
pub open spec fn commands(line: Seq<char>, head: Seq<char>, arg: Seq<char>) -> bool {
    &&& trim(line).len() > 0 && trim(line)[0] == '/'
    &&& head_of(trim(line)) == head
    &&& rest_of(trim(line)) == arg
}

/// Only the commands that say so quit, change the session, or push: each asks the host for one thing, and changes nothing
/// on the screen but the composer.
pub proof fn session_commands_ask_for_one_thing(old: Model, new: Model, effects: Seq<EffectView>, head: Seq<char>, arg: Seq<char>)
    requires
        submitted(old, new, effects),
        !old.busy,
        commands(old.input@.text(), head, arg),
    ensures
        head == "/exit"@ || head == "/sair"@ || head == "/quit"@ ==> effects == seq![EffectView::Quit] && new.should_quit,
        head == "/new"@ || head == "/novo"@ ==> effects == seq![EffectView::NewSession] && new.transcript
            == old.transcript,
        head == "/resume"@ || head == "/retomar"@ ==> effects == seq![EffectView::ResumeLast] && new.transcript
            == old.transcript,
        head == "/sessions"@ || head == "/sessoes"@ ==> effects == seq![EffectView::ListSessions] && new.transcript
            == old.transcript,
        head == "/sync"@ ==> effects == seq![EffectView::SyncPush] && new.transcript == old.transcript,
        head == "/cd"@ && arg.len() > 0 ==> effects == seq![EffectView::ChangeWorkspace(arg)] && new.transcript
            == old.transcript,
        head == "/cd"@ && arg.len() == 0 ==> effects == nothing() && new.transcript@ == old.transcript@.push(
            ItemView::Notice(NoticeLevel::Info, "workspace: "@ + old.status.workspace@),
        ),
        head == "/approve-hook"@ && arg.len() > 0 ==> effects == seq![EffectView::ApproveHook(arg)],
        head == "/approve-mcp"@ && arg.len() > 0 ==> effects == seq![EffectView::ApproveMcp(arg)],
        (head == "/approve-hook"@ || head == "/approve-mcp"@) && arg.len() == 0 ==> effects == nothing()
            && new.transcript@.len() == old.transcript@.len() + 1 && (new.transcript@.last() matches ItemView::Notice(
            NoticeLevel::Error,
            _,
        )),
        head == "/plan"@ || head == "/auto"@ || head == "/default"@ || head == "/normal"@ || head == "/help"@ || head
            == "/models"@ || head == "/effort"@ || head == "/provider"@ ==> effects == nothing() && new.should_quit
            == old.should_quit,
        new.should_quit && !old.should_quit ==> effects == seq![EffectView::Quit],
{
    catalog_names_resolve(CommandSpec::Exit);
    assert(CommandSpec::Exit.synonyms()[0] == "/sair" && CommandSpec::Exit.synonyms()[1] == "/quit");
    catalog_names_resolve(CommandSpec::New);
    assert(CommandSpec::New.synonyms()[0] == "/novo");
    catalog_names_resolve(CommandSpec::Resume);
    assert(CommandSpec::Resume.synonyms()[0] == "/retomar");
    catalog_names_resolve(CommandSpec::Sessions);
    assert(CommandSpec::Sessions.synonyms()[0] == "/sessoes");
    catalog_names_resolve(CommandSpec::Sync);
    catalog_names_resolve(CommandSpec::Cd);
    catalog_names_resolve(CommandSpec::ApproveHook);
    catalog_names_resolve(CommandSpec::ApproveMcp);
    catalog_names_resolve(CommandSpec::Plan);
    catalog_names_resolve(CommandSpec::Auto);
    catalog_names_resolve(CommandSpec::Default);
    assert(CommandSpec::Default.synonyms()[0] == "/normal");
    catalog_names_resolve(CommandSpec::Help);
    catalog_names_resolve(CommandSpec::Models);
    catalog_names_resolve(CommandSpec::Effort);
    catalog_names_resolve(CommandSpec::Provider);
}

/// The mode commands set the mode that they name and nothing else.
pub proof fn mode_commands_set_their_mode(old: Model, new: Model, effects: Seq<EffectView>, head: Seq<char>, arg: Seq<char>)
    requires
        submitted(old, new, effects),
        !old.busy,
        commands(old.input@.text(), head, arg),
    ensures
        head == "/plan"@ ==> new.approval_mode == ApprovalMode::Plan && effects == nothing() && new.transcript
            == old.transcript,
        head == "/auto"@ ==> new.approval_mode == ApprovalMode::Auto && effects == nothing() && new.transcript
            == old.transcript,
        head == "/default"@ || head == "/normal"@ ==> new.approval_mode == ApprovalMode::Default && effects == nothing()
            && new.transcript == old.transcript,
        head == "/help"@ || head == "/new"@ || head == "/sync"@ || head == "/cd"@ || head == "/models"@
            ==> new.approval_mode == old.approval_mode,
{
    catalog_names_resolve(CommandSpec::Plan);
    catalog_names_resolve(CommandSpec::Auto);
    catalog_names_resolve(CommandSpec::Default);
    assert(CommandSpec::Default.synonyms()[0] == "/normal");
    catalog_names_resolve(CommandSpec::Help);
    catalog_names_resolve(CommandSpec::New);
    catalog_names_resolve(CommandSpec::Sync);
    catalog_names_resolve(CommandSpec::Cd);
    catalog_names_resolve(CommandSpec::Models);
}

/// A display command posts the text that the host gave for it, and asks for nothing.
pub proof fn display_commands_show_their_text(
    old: Model,
    new: Model,
    effects: Seq<EffectView>,
    head: Seq<char>,
    arg: Seq<char>,
    text: Seq<char>,
)
    requires
        submitted(old, new, effects),
        !old.busy,
        commands(old.input@.text(), head, arg),
        head == "/instructions"@ && (old.instructions_display matches Some(t) && t@ == text) || head == "/rules"@ && (
        old.rules_display matches Some(t) && t@ == text) || head == "/commands"@ && (
        old.commands_display matches Some(t) && t@ == text) || head == "/agents"@ && (
        old.agents_display matches Some(t) && t@ == text) || head == "/skills"@ && (
        old.skills_display matches Some(t) && t@ == text) || head == "/hooks"@ && (
        old.hooks_display matches Some(t) && t@ == text) || head == "/mcp"@ && (old.mcp_display matches Some(t) && t@
            == text) || head == "/help"@ && text == help_screen(),
    ensures
        effects == nothing(),
        new.transcript@ == old.transcript@.push(ItemView::Notice(NoticeLevel::Info, text)),
{
    catalog_names_resolve(CommandSpec::Instructions);
    catalog_names_resolve(CommandSpec::Rules);
    catalog_names_resolve(CommandSpec::Commands);
    catalog_names_resolve(CommandSpec::Agents);
    catalog_names_resolve(CommandSpec::Skills);
    catalog_names_resolve(CommandSpec::Hooks);
    catalog_names_resolve(CommandSpec::Mcp);
    catalog_names_resolve(CommandSpec::Help);
}

/// The model command lists the catalog in its order, on the model in use where the catalog holds it.
pub proof fn the_model_picker_lists_the_catalog(
    old: Model,
    new: Model,
    effects: Seq<EffectView>,
    head: Seq<char>,
    arg: Seq<char>,
)
    requires
        submitted(old, new, effects),
        !old.busy,
        commands(old.input@.text(), head, arg),
        head == "/models"@ || head == "/modelos"@,
        old.models@.len() > 0,
    ensures
        new.picker is Some,
        ({
            let p = (new.picker->0)@;
            &&& p.kind == PickerKindView::Models
            &&& p.options == views(old.models@)
            &&& 0 <= p.selected < p.options.len()
            &&& views(old.models@).contains(old.status.model@) ==> p.options[p.selected] == old.status.model@
            &&& p.query.text().len() == 0
        }),
{
    catalog_names_resolve(CommandSpec::Models);
    assert(CommandSpec::Models.synonyms()[0] == "/modelos");
    views(old.models@).index_of_first_ensures(old.status.model@);
    reveal_with_fuel(crate::text::join_with, 2);
}

/// The effort command lists the efforts from the least to the most, each by its name, on the one in use.
pub proof fn the_effort_picker_lists_the_efforts(
    old: Model,
    new: Model,
    effects: Seq<EffectView>,
    head: Seq<char>,
    arg: Seq<char>,
)
    requires
        submitted(old, new, effects),
        !old.busy,
        commands(old.input@.text(), head, arg),
        head == "/effort"@ || head == "/esforco"@,
    ensures
        new.picker is Some,
        ({
            let p = (new.picker->0)@;
            &&& p.kind == PickerKindView::Effort
            &&& p.options == seq!["off"@, "low"@, "medium"@, "high"@, "max"@]
            &&& 0 <= p.selected < p.options.len()
            &&& p.options[p.selected] == old.status.effort.name()
        }),
{
    catalog_names_resolve(CommandSpec::Effort);
    assert(CommandSpec::Effort.synonyms()[0] == "/esforco");
    assert((new.picker->0)@.options =~= seq!["off"@, "low"@, "medium"@, "high"@, "max"@]);
}

/// The provider command lists the configured providers in their order, each row beginning with the provider's id, on the
/// active one; behind them comes the row that adds one.
pub proof fn the_provider_picker_lists_the_providers(
    old: Model,
    new: Model,
    effects: Seq<EffectView>,
    head: Seq<char>,
    arg: Seq<char>,
    i: int,
)
    requires
        submitted(old, new, effects),
        !old.busy,
        commands(old.input@.text(), head, arg),
        head == "/provider"@ || head == "/providers"@,
        0 <= i < old.providers@.len(),
    ensures
        new.picker is Some,
        ({
            let p = (new.picker->0)@;
            let id = old.providers@[i]@;
            &&& p.kind == PickerKindView::Provider
            &&& p.options.len() == old.providers@.len() + 1
            &&& p.options.last() == ADD_PROVIDER_LABEL@
            &&& p.options[i].len() >= id.len()
            &&& p.options[i].take(id.len() as int) == id
            &&& 0 <= p.selected < p.options.len()
            &&& views(old.providers@).contains(old.status.provider@) ==> p.selected < old.providers@.len()
                && old.providers@[p.selected]@ == old.status.provider@
            &&& profile_of(profile_views(old.provider_profiles@), id) matches Some(profile) ==> p.options[i] == id
                + " · ["@ + ascii_lowercase(profile.kind.variant_name()) + "] "@ + profile.model + " · "@
                + profile.auth.wire()
        }),
{
    catalog_names_resolve(CommandSpec::Provider);
    assert(CommandSpec::Provider.synonyms()[0] == "/providers");
    views(old.providers@).index_of_first_ensures(old.status.provider@);
    let p = (new.picker->0)@;
    let id = old.providers@[i]@;
    assert(views(old.providers@)[i] == id);
    assert(p.options[i].take(id.len() as int) =~= id);
}

/// Images alone make a prompt, which the transcript shows as their number; every staged image goes along, and none stays.
pub proof fn images_go_with_the_prompt(old: Model, new: Model, effects: Seq<EffectView>)
    requires
        submitted(old, new, effects),
        !old.busy,
        !old.unconfigured,
        trim(old.input@.text()).len() == 0,
        old.attachments@.len() > 0,
    ensures
        effects.len() == 1,
        effects[0] matches EffectView::SubmitPrompt { text, images } && images == data_urls(old.attachments@),
        new.attachments@.len() == 0,
        new.busy,
        new.transcript@ == old.transcript@.push(
            ItemView::User("🖼 "@ + decimal(old.attachments@.len() as int) + " imagem(ns)"@),
        ),
{
}

/// A blank line without images does nothing, but for the composer it empties.
pub proof fn a_blank_line_is_nothing(old: Model, new: Model, effects: Seq<EffectView>)
    requires
        submitted(old, new, effects),
        trim(old.input@.text()).len() == 0,
        old.attachments@.len() == 0,
    ensures
        effects == nothing(),
        new.transcript == old.transcript,
        new.busy == old.busy,
{
}

/// Nothing is submitted while a turn runs: what was typed stays.
pub proof fn nothing_is_submitted_while_busy(old: Model, new: Model, effects: Seq<EffectView>)
    requires
        submitted(old, new, effects),
        old.busy,
    ensures
        new == old,
        effects == nothing(),
{
}

/// Every submitted line leaves the composer empty and goes to the history, and the transcript shows its end again.
pub proof fn submitting_empties_the_composer(old: Model, new: Model, effects: Seq<EffectView>)
    requires
        submitted(old, new, effects),
        !old.busy,
    ensures
        new.input@.text().len() == 0,
        new.history@ == old.history@.recorded(old.input@.text()),
        new.scroll.scrollback == 0,
        new.command_menu is None,
{
    reveal_with_fuel(crate::text::join_with, 2);
}

} // verus!
