//! The key handler of the add-provider wizard.
use vstd::prelude::*;
use crate::application::effect::{effect_views, no_effects, nothing, one_effect, Effect, EffectView};
use crate::application::keymap::field_edit::{after_copy, chord, chorded, clipped, field_chords};
use crate::domain::input::{Key, KeyPress};
use crate::domain::input_buffer::InputBuffer;
use crate::domain::model::{can_think, Model};
use crate::domain::nav::wrapped;
use crate::domain::transcript::{ItemView, NoticeLevel};
use crate::domain::wizard::{fed_to, model_catalog, ProviderWizard, WizardStep, WizardView, WIZARD_KINDS};
use crate::kernel::{AuthMethod, Secret};
use crate::text::{trim, trimmed};

verus! {

/// A field with nothing but white space.
pub open spec fn blank(s: Seq<char>) -> bool {
    trim(s).len() == 0
}

fn is_blank(s: &str) -> (r: bool)
    ensures
        r == blank(s@),
{
    trimmed(s).as_str().is_empty()
}

/// The wizard once its kind is confirmed. Vendor kinds go straight to the base URL, seeded with the kind's
/// endpoint; the others let the user name the provider, suggesting the canonical token.
pub open spec fn kind_confirmed(w: WizardView) -> WizardView {
    if w.kind().is_vendor() {
        WizardView {
            thinking: w.kind().thinks_by_default(),
            base_url: if w.base_url.len() == 0 {
                w.kind().endpoint()
            } else {
                w.base_url
            },
            ..w
        }.at_step(WizardStep::BaseUrl)
    } else {
        WizardView {
            thinking: w.kind().thinks_by_default(),
            id: if w.id.len() == 0 {
                w.provider_id()
            } else {
                w.id
            },
            ..w
        }.at_step(WizardStep::ProviderId)
    }
}

/// The wizard once Enter is pressed on a text step before the last. A blank required field keeps it there.
pub open spec fn advanced(w: WizardView, thinks: bool) -> WizardView {
    match w.step {
        WizardStep::ProviderId => WizardView {
            base_url: if blank(w.base_url) {
                w.kind().endpoint()
            } else {
                w.base_url
            },
            ..w
        }.at_step(WizardStep::BaseUrl),
        WizardStep::BaseUrl => if !blank(w.base_url) {
            w.at_step(WizardStep::Model)
        } else if w.kind().endpoint().len() == 0 {
            w
        } else {
            WizardView { base_url: w.kind().endpoint(), ..w }.at_step(WizardStep::Model)
        },
        WizardStep::Model => if blank(w.model) {
            w
        } else {
            w.at_step(WizardStep::ExtraModels)
        },
        WizardStep::ExtraModels => if thinks {
            w.at_step(WizardStep::Thinking)
        } else {
            WizardView { thinking: false, ..w }.at_step(WizardStep::ApiKey)
        },
        _ => w,
    }
}

/// A wizard on its last step that can be saved: a vendor kind needs a key, unless an existing provider is
/// edited and keeps its own.
pub open spec fn can_save(w: WizardView) -> bool {
    !blank(w.api_key) || !w.kind().is_vendor() || w.edit_mode
}

/// The effect that saves a finished wizard. It holds no part of the API key.
pub open spec fn save_effect(w: WizardView) -> EffectView {
    EffectView::SaveProvider {
        id: w.provider_id(),
        kind: w.kind(),
        base_url: if blank(w.base_url) {
            w.kind().endpoint()
        } else {
            trim(w.base_url)
        },
        model: trim(w.model),
        models: model_catalog(w.model, w.extra_models),
        // A blank key in edit mode keeps the existing credential, but only if there was one: the provider
        // must not silently become keyless.
        auth: if !blank(w.api_key) || (w.edit_mode && (w.kind().is_vendor() || w.had_key)) {
            AuthMethod::ApiKey
        } else {
            AuthMethod::Keyless
        },
        thinking: Some(w.thinking),
        keep_existing_key: w.edit_mode && blank(w.api_key),
    }
}

/// `new` is `old` with the wizard `w`.
pub open spec fn wizard_is(old: Model, new: Model, w: WizardView) -> bool {
    new == (Model { wizard: new.wizard, ..old }) && (new.wizard matches Some(n) && n@ == w)
}

/// What Enter does on a text step of a wizard whose draft shows the field.
pub open spec fn entered(old: Model, w: WizardView, new: Model, effects: Seq<EffectView>) -> bool {
    if w.step == WizardStep::ApiKey && can_save(w) {
        &&& effects == seq![save_effect(w)]
        &&& new == (Model { wizard: None, pending_credential: new.pending_credential, ..old })
        &&& if blank(w.api_key) {
            new.pending_credential == old.pending_credential
        } else {
            new.pending_credential matches Some(s) && s@ == w.api_key
        }
    } else {
        &&& effects == nothing()
        &&& wizard_is(old, new, advanced(w, can_think(old.thinking_models@, w.kind(), w.model)))
    }
}

/// What a key does on a chooser step.
pub open spec fn chooser_keyed(w: WizardView, code: Key) -> WizardView {
    if w.step == WizardStep::Kind {
        match code {
            Key::Up => WizardView {
                kind_selected: wrapped(w.kind_selected, -1, WIZARD_KINDS@.len() as int),
                ..w
            },
            Key::Down => WizardView {
                kind_selected: wrapped(w.kind_selected, 1, WIZARD_KINDS@.len() as int),
                ..w
            },
            Key::Enter => kind_confirmed(w),
            _ => w,
        }
    } else {
        match code {
            Key::Up | Key::Down => WizardView { thinking: !w.thinking, ..w },
            Key::Enter => w.at_step(WizardStep::ApiKey),
            _ => w,
        }
    }
}

/// The notice that cancelling leaves. Cancelling onboarding must not strand a credential-less app.
pub open spec fn cancel_notice(onboarding: bool) -> Seq<char> {
    if onboarding {
        "configure um provider com /provider para começar"@
    } else {
        "wizard cancelado"@
    }
}

/// What a key does on a text step. The draft is loaded with the field first, should it show something else.
#[verifier::opaque]
pub open spec fn text_keyed(
    old: Model,
    wizard: ProviderWizard,
    key: KeyPress,
    new: Model,
    effects: Seq<EffectView>,
) -> bool {
    let w = wizard@.loaded();
    if chord(key, 'v') || chord(key, 'x') || chord(key, 'z') || chord(key, 'y') {
        &&& new == (Model { wizard: new.wizard, ..old })
        &&& new.wizard matches Some(n) && n@ == w.with_draft(n@.draft) && exists|b: InputBuffer| #[trigger]
            wizard.loads(b) && chorded(b, key, n.draft, Some(effects))
    } else if key.code == Key::Enter {
        entered(old, w, new, effects)
    } else {
        &&& effects == nothing()
        &&& new == (Model { wizard: new.wizard, ..old })
        &&& new.wizard matches Some(n) && exists|b: InputBuffer| #[trigger]
            wizard.loads(b) && fed_to(w, b, key, n)
    }
}

/// What a key does to a model with an open wizard.
pub open spec fn wizard_keyed(old: Model, key: KeyPress, new: Model, effects: Seq<EffectView>) -> bool {
    match old.wizard {
        None => new == old && effects == nothing(),
        Some(wizard) => {
            let w = wizard@.loaded();
            if chord(key, 'c') {
                match clipped(w.draft) {
                    Some(t) => {
                        &&& effects == seq![EffectView::CopyToClipboard(t)]
                        &&& wizard_is(old, new, WizardView { draft: after_copy(w.draft), ..w })
                        &&& new.wizard matches Some(n) && exists|b: InputBuffer| #[trigger]
                            wizard.loads(b) && n.draft.copied_from(b)
                    },
                    None => {
                        &&& effects == seq![EffectView::Quit]
                        &&& new == (Model { wizard: None, should_quit: true, ..old })
                    },
                }
            } else if key.code == Key::Esc {
                &&& effects == nothing()
                &&& (Model { wizard: None, ..old }).posted(
                    new,
                    NoticeLevel::Info,
                    cancel_notice(w.onboarding),
                )
            } else if !w.step.edits_text() {
                effects == nothing() && wizard_is(old, new, chooser_keyed(w, key.code))
            } else {
                text_keyed(old, wizard, key, new, effects)
            }
        },
    }
}

fn confirm_kind(wizard: &mut ProviderWizard)
    ensures
        final(wizard)@ == kind_confirmed(old(wizard)@),
        final(wizard)@.wf(),
{
    wizard.thinking = wizard.kind().thinking_default();
    if wizard.key_required() {
        if wizard.base_url.as_str().is_empty() {
            wizard.base_url = wizard.kind().default_base_url().to_owned();
        }
        wizard.go_to_step(WizardStep::BaseUrl);
    } else {
        if wizard.id.as_str().is_empty() {
            wizard.id = wizard.provider_id();
        }
        wizard.go_to_step(WizardStep::ProviderId);
    }
}

fn choose_key(wizard: &mut ProviderWizard, code: Key)
    requires
        old(wizard)@.wf(),
        !old(wizard)@.step.edits_text(),
    ensures
        final(wizard)@ == chooser_keyed(old(wizard)@, code),
        final(wizard)@.wf(),
{
    if wizard.step == WizardStep::Kind {
        match code {
            Key::Up => wizard.move_kind(-1),
            Key::Down => wizard.move_kind(1),
            Key::Enter => confirm_kind(wizard),
            _ => {},
        }
    } else {
        match code {
            Key::Up | Key::Down => wizard.toggle_thinking(),
            Key::Enter => wizard.go_to_step(WizardStep::ApiKey),
            _ => {},
        }
    }
}

/// Advance a text step on Enter: validate the required fields and move to the next step. A blank required
/// field (base URL, model) keeps the wizard on the step rather than producing an invalid provider.
fn advance_step(wizard: &mut ProviderWizard, thinks: bool)
    requires
        old(wizard)@.wf(),
    ensures
        final(wizard)@ == advanced(old(wizard)@, thinks),
        final(wizard)@.wf(),
{
    match wizard.step {
        WizardStep::ProviderId => {
            // The id is sanitized at the end and falls back to the canonical token, so a blank field is
            // acceptable here.
            if is_blank(wizard.base_url.as_str()) {
                wizard.base_url = wizard.kind().default_base_url().to_owned();
            }
            wizard.go_to_step(WizardStep::BaseUrl);
        },
        WizardStep::BaseUrl => {
            if is_blank(wizard.base_url.as_str()) {
                // Vendor kinds default their endpoint; compatible/custom have none.
                let default: &'static str = wizard.kind().default_base_url();
                if default.is_empty() {
                    return ;
                }
                wizard.base_url = default.to_owned();
            }
            wizard.go_to_step(WizardStep::Model);
        },
        WizardStep::Model => {
            if is_blank(wizard.model.as_str()) {
                return ;
            }
            wizard.go_to_step(WizardStep::ExtraModels);
        },
        WizardStep::ExtraModels => {
            // A model that cannot switch thinking skips a question that would be a no-op.
            if thinks {
                wizard.go_to_step(WizardStep::Thinking);
            } else {
                wizard.thinking = false;
                wizard.go_to_step(WizardStep::ApiKey);
            }
        },
        _ => {},
    }
}

fn saving_effect(wizard: &ProviderWizard) -> (r: Effect)
    ensures
        r@ == save_effect(wizard@),
{
    let has_key: bool = !is_blank(wizard.api_key.as_str());
    let base_url: String = if is_blank(wizard.base_url.as_str()) {
        wizard.kind().default_base_url().to_owned()
    } else {
        trimmed(wizard.base_url.as_str())
    };
    let auth: AuthMethod = if has_key || (wizard.edit_mode && (wizard.key_required()
        || wizard.had_key)) {
        AuthMethod::ApiKey
    } else {
        AuthMethod::Keyless
    };
    Effect::SaveProvider {
        id: wizard.provider_id(),
        kind: wizard.kind(),
        base_url,
        model: trimmed(wizard.model.as_str()),
        models: wizard.models(),
        auth,
        thinking: Some(wizard.thinking),
        keep_existing_key: wizard.edit_mode && !has_key,
    }
}

/// Act on Enter in a text step: move to the next step, or finish on the last one. Finishing stages the key as
/// a `Secret` only when one was typed, and emits `SaveProvider` without it.
fn advance_wizard(model: &mut Model, wizard: ProviderWizard) -> (r: Vec<Effect>)
    requires
        old(model).wf(),
        old(model).wizard is None,
        wizard@.wf(),
        wizard@.in_step(),
    ensures
        entered(*old(model), wizard@, *final(model), effect_views(r@)),
        final(model).wf(),
{
    let mut wizard: ProviderWizard = wizard;
    if wizard.step == WizardStep::ApiKey {
        let has_key: bool = !is_blank(wizard.api_key.as_str());
        if has_key || !wizard.key_required() || wizard.edit_mode {
            let effect: Effect = saving_effect(&wizard);
            if has_key {
                let mut key: String = String::new();
                core::mem::swap(&mut key, &mut wizard.api_key);
                model.pending_credential = Some(Secret::new(key));
            }
            return one_effect(effect);
        }
    }
    let thinks: bool = model.thinking_supported(wizard.kind(), wizard.model.as_str());
    advance_step(&mut wizard, thinks);
    model.wizard = Some(wizard);
    no_effects()
}

/// What a text step does with a key does not hang on where the wizard was held before, nor on whether the draft was
/// loaded already.
proof fn text_step_ignores_the_slot(
    a: Model,
    b: Model,
    loaded: ProviderWizard,
    wizard: ProviderWizard,
    key: KeyPress,
    new: Model,
    effects: Seq<EffectView>,
)
    requires
        text_keyed(a, loaded, key, new, effects),
        a == (Model { wizard: a.wizard, ..b }),
        loaded@ == wizard@.loaded(),
        loaded@.in_step(),
        wizard.loads(loaded.draft),
    ensures
        text_keyed(b, wizard, key, new, effects),
{
    reveal(text_keyed);
    assert(loaded@.loaded() == loaded@);
    if new.wizard is Some {
        assert(loaded.loads(loaded.draft));
        assert forall|d: InputBuffer| loaded.loads(d) implies d == loaded.draft by {}
    }
}

/// The key handler of the text steps.
fn text_key(model: &mut Model, wizard: ProviderWizard, key: KeyPress) -> (r: Vec<Effect>)
    requires
        old(model).wf(),
        old(model).wizard is None,
        wizard@.wf(),
        wizard@.in_step(),
        wizard@.step.edits_text(),
        !chord(key, 'c'),
    ensures
        text_keyed(*old(model), wizard, key, *final(model), effect_views(r@)),
        final(model).wf(),
{
    proof {
        reveal(text_keyed);
    }
    let ghost held = wizard;
    assert(held@.loaded() == held@ && held.loads(held.draft));
    let mut wizard: ProviderWizard = wizard;
    if let Some(effects) = field_chords(&mut wizard.draft, key) {
        wizard.commit_draft_to_field();
        model.wizard = Some(wizard);
        return effects;
    }
    if key.code == Key::Enter {
        return advance_wizard(model, wizard);
    }
    wizard.feed_key(key);
    model.wizard = Some(wizard);
    no_effects()
}

/// Drive the add-provider wizard. The `Kind` and `Thinking` steps use arrows and Enter; the text steps are full
/// editor fields. The final `ApiKey` step stages the key in `Model::pending_credential` and emits
/// `SaveProvider`. Esc cancels any step; Ctrl+C copies a selection or quits.
pub fn on_wizard_key(model: &mut Model, key: KeyPress) -> (r: Vec<Effect>)
    requires
        old(model).wf(),
    ensures
        wizard_keyed(*old(model), key, *final(model), effect_views(r@)),
        final(model).wf(),
{
    let mut wizard: ProviderWizard = match model.wizard.take() {
        Some(w) => w,
        None => {
            return no_effects();
        },
    };
    let ghost held = wizard;
    wizard.load_draft();
    if key.ctrl && !key.alt && key.code == Key::Char('c') {
        let ghost draft = wizard.draft;
        if let Some(text) = wizard.draft.copy_selection() {
            assert(held.loads(draft) && wizard.draft.copied_from(draft));
            model.wizard = Some(wizard);
            return one_effect(Effect::CopyToClipboard(text));
        }
        model.should_quit = true;
        return one_effect(Effect::Quit);
    }
    if key.code == Key::Esc {
        let message: &'static str = if wizard.onboarding {
            "configure um provider com /provider para começar"
        } else {
            "wizard cancelado"
        };
        model.notify_info(message.to_owned());
        return no_effects();
    }
    if wizard.step == WizardStep::Kind || wizard.step == WizardStep::Thinking {
        choose_key(&mut wizard, key.code);
        model.wizard = Some(wizard);
        return no_effects();
    }
    let ghost taken = *model;
    let ghost loaded = wizard;
    let effects: Vec<Effect> = text_key(model, wizard, key);
    proof {
        text_step_ignores_the_slot(taken, *old(model), loaded, held, key, *model, effect_views(effects@));
    }
    effects
}

/// The API key never rides in an effect: what saving emits is the same whichever non-blank key was typed.
pub proof fn save_effect_hides_the_key(w: WizardView, other: Seq<char>)
    requires
        !blank(w.api_key),
        !blank(other),
    ensures
        save_effect(WizardView { api_key: other, ..w }) == save_effect(w),
{
}

/// The typed key is staged exactly as typed, and the wizard that held it is gone.
pub proof fn key_is_staged(old: Model, w: WizardView, new: Model, effects: Seq<EffectView>)
    requires
        entered(old, w, new, effects),
        w.step == WizardStep::ApiKey,
        !blank(w.api_key),
    ensures
        new.wizard is None,
        new.pending_credential matches Some(s) && s@ == w.api_key,
{
}

/// Editing a provider that has a key and leaving the key field blank keeps it: the saved provider still
/// authenticates with its key.
pub proof fn blank_key_keeps_the_credential(w: WizardView)
    requires
        w.edit_mode,
        w.had_key,
        blank(w.api_key),
    ensures
        can_save(w),
        save_effect(w)->auth == AuthMethod::ApiKey,
        save_effect(w)->keep_existing_key,
{
}

/// A vendor kind cannot be added without a key.
pub proof fn vendor_needs_a_key(old: Model, w: WizardView, new: Model, effects: Seq<EffectView>)
    requires
        entered(old, w, new, effects),
        w.step == WizardStep::ApiKey,
        w.kind().is_vendor(),
        !w.edit_mode,
        blank(w.api_key),
    ensures
        effects == nothing(),
        new.wizard is Some,
        new.pending_credential == old.pending_credential,
{
}

/// Cancelling the wizard leaves the submit gate as it was and saves nothing.
pub proof fn cancelling_saves_nothing(old: Model, key: KeyPress, new: Model, effects: Seq<EffectView>)
    requires
        wizard_keyed(old, key, new, effects),
        old.wizard is Some,
        key.code == Key::Esc,
    ensures
        effects == nothing(),
        new.wizard is None,
        new.unconfigured == old.unconfigured,
        new.pending_credential == old.pending_credential,
{
}

/// What is typed into the wizard stays there: it reaches neither the composer nor the transcript, which a key leaves
/// as it is but for the notice of a cancel.
pub proof fn what_is_typed_stays_in_the_wizard(old: Model, key: KeyPress, new: Model, effects: Seq<EffectView>)
    requires
        wizard_keyed(old, key, new, effects),
        old.wizard is Some,
    ensures
        new.input == old.input,
        new.history == old.history,
        new.transcript == old.transcript || new.transcript@ == old.transcript@.push(
            ItemView::Notice(NoticeLevel::Info, cancel_notice((old.wizard->0)@.onboarding)),
        ),
{
    reveal(text_keyed);
}

} // verus!
