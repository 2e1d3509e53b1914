//! The key handler of an open single-choice picker.
use vstd::prelude::*;
use vstd::string::*;
use crate::application::effect::{effect_views, no_effects, nothing, one_effect, Effect, EffectView};
use crate::application::keymap::field_edit::{chord, chorded, clipped, consumed_views, field_chords};
use crate::application::keymap::modals::{digit_row, row_for_digit};
use crate::domain::input::{Key, KeyPress};
use crate::domain::input_buffer::translated;
use crate::domain::model::Model;
use crate::domain::nav::wrapped;
use crate::domain::picker::{Picker, PickerKind, PickerKindView, PickerView};
use crate::domain::wizard::{ProviderWizard, WizardView};
use crate::kernel::{profile_views, Effort, ProfileView, ProviderProfile};
use crate::text::{ascii_lowercase, same, to_ascii_lowercase, views};

verus! {

/// The first profile with an id.
pub open spec fn profile_of(profiles: Seq<ProfileView>, id: Seq<char>) -> Option<ProfileView>
    decreases profiles.len(),
{
    if profiles.len() == 0 {
        None
    } else if profiles[0].id == id {
        Some(profiles[0])
    } else {
        profile_of(profiles.skip(1), id)
    }
}

/// The first profile with an id.
pub fn find_profile<'a>(profiles: &'a Vec<ProviderProfile>, id: &str) -> (r: Option<&'a ProviderProfile>)
    ensures
        match r {
            Some(p) => profile_of(profile_views(profiles@), id@) == Some(p@),
            None => profile_of(profile_views(profiles@), id@) is None,
        },
{
    let ghost all = profile_views(profiles@);
    let mut i: usize = 0;
    assert(all.skip(0) =~= all);
    while i < profiles.len()
        invariant
            i <= profiles@.len(),
            all == profile_views(profiles@),
            profile_of(all.skip(i as int), id@) == profile_of(all, id@),
        decreases profiles@.len() - i,
    {
        assert(all.skip(i as int)[0] == profiles@[i as int]@);
        if same(profiles[i].id.as_str(), id) {
            return Some(&profiles[i]);
        }
        assert(all.skip(i as int).skip(1) =~= all.skip(i as int + 1));
        i = i + 1;
    }
    None
}

/// The thinking part of a provider's summary.
pub open spec fn thinking_tag(thinking: Option<bool>) -> Seq<char> {
    match thinking {
        Some(true) => " · thinking: sim"@,
        Some(false) => " · thinking: não"@,
        None => ""@,
    }
}

/// The one-line summary of a provider.
pub open spec fn detail_line(p: ProfileView) -> Seq<char> {
    "["@ + ascii_lowercase(p.kind.variant_name()) + "] "@ + p.base_url + " · "@ + p.model + " · "@
        + p.auth.wire() + thinking_tag(p.thinking)
}

/// One-line summary of a provider profile shown as the action picker's description line.
fn provider_detail_line(p: &ProviderProfile) -> (r: String)
    ensures
        r@ == detail_line(p@),
{
    let mut out: String = "[".to_owned();
    out.append(to_ascii_lowercase(p.kind.name()).as_str());
    out.append("] ");
    out.append(p.base_url.as_str());
    out.append(" · ");
    out.append(p.model.as_str());
    out.append(" · ");
    out.append(p.auth.as_wire());
    out.append(
        match p.thinking {
            Some(true) => " · thinking: sim",
            Some(false) => " · thinking: não",
            None => "",
        },
    );
    out
}

/// The action sub-menu of a provider.
pub open spec fn action_menu(id: Seq<char>, detail: Seq<char>) -> PickerView {
    Picker::opened(
        PickerKindView::ProviderAction(id),
        "provider"@,
        detail,
        seq!["Ativar"@, "Editar"@, "Remover"@],
        0,
    )
}

/// The delete confirmation of a provider, on "Cancelar".
pub open spec fn delete_menu(id: Seq<char>) -> PickerView {
    Picker::opened(
        PickerKindView::ProviderDeleteConfirm(id),
        "confirmar"@,
        "esta ação não pode ser desfeita"@,
        seq!["Sim, remover"@, "Cancelar"@],
        1,
    )
}

/// `new` is `base` with exactly this picker open.
pub open spec fn picker_opened(base: Model, new: Model, picker: PickerView) -> bool {
    new == (Model { picker: new.picker, ..base }) && (new.picker matches Some(p) && p@ == picker)
}

/// `new` is `base` with exactly this wizard open.
pub open spec fn wizard_opened(base: Model, new: Model, wizard: WizardView) -> bool {
    new == (Model { wizard: new.wizard, ..base }) && (new.wizard matches Some(w) && w@ == wizard)
}

/// What choosing the option `index` of a picker does, once the picker is closed (`base`).
pub open spec fn chosen(
    base: Model,
    picker: PickerView,
    index: int,
    new: Model,
    effects: Seq<EffectView>,
) -> bool {
    match picker.kind {
        PickerKindView::Models => {
            &&& new == base
            &&& effects == seq![EffectView::SetModel(picker.options[index])]
        },
        PickerKindView::Effort => {
            &&& new == base
            &&& effects == if index < Effort::ALL@.len() {
                seq![EffectView::SetEffort(Effort::ALL@[index])]
            } else {
                nothing()
            }
        },
        PickerKindView::Provider => if index < base.providers@.len() {
            let id = base.providers@[index]@;
            match profile_of(profile_views(base.provider_profiles@), id) {
                Some(p) => {
                    &&& effects == nothing()
                    &&& picker_opened(base, new, action_menu(id, detail_line(p)))
                },
                None => new == base && effects == seq![EffectView::SetProvider(id)],
            }
        } else {
            effects == nothing() && wizard_opened(base, new, WizardView::fresh())
        },
        PickerKindView::ProviderAction(id) => if index == 0 {
            new == base && effects == seq![EffectView::SetProvider(id)]
        } else if index == 1 {
            &&& effects == nothing()
            &&& match profile_of(profile_views(base.provider_profiles@), id) {
                Some(p) => wizard_opened(base, new, WizardView::editing(p)),
                None => new == base,
            }
        } else {
            effects == nothing() && picker_opened(base, new, delete_menu(id))
        },
        PickerKindView::ProviderDeleteConfirm(id) => {
            &&& new == base
            &&& effects == if index == 0 {
                seq![EffectView::DeleteProvider(id)]
            } else {
                nothing()
            }
        },
        PickerKindView::Sessions => {
            &&& new == base
            &&& effects == if index < base.session_ids@.len() {
                seq![EffectView::OpenSession(base.session_ids@[index]@)]
            } else {
                nothing()
            }
        },
    }
}

fn list3(a: &str, b: &str, c: &str) -> (r: Vec<String>)
    ensures
        views(r@) == seq![a@, b@, c@],
{
    let mut v: Vec<String> = Vec::new();
    v.push(a.to_owned());
    v.push(b.to_owned());
    v.push(c.to_owned());
    assert(views(v@) =~= seq![a@, b@, c@]);
    v
}

fn list2(a: &str, b: &str) -> (r: Vec<String>)
    ensures
        views(r@) == seq![a@, b@],
{
    let mut v: Vec<String> = Vec::new();
    v.push(a.to_owned());
    v.push(b.to_owned());
    assert(views(v@) =~= seq![a@, b@]);
    v
}

/// Act on the chosen option of a picker that was just closed.
pub fn choose_option(model: &mut Model, picker: Picker, index: usize) -> (r: Vec<Effect>)
    requires
        old(model).wf(),
        index < picker.options@.len(),
    ensures
        chosen(*old(model), picker@, index as int, *final(model), effect_views(r@)),
        final(model).wf(),
{
    match picker.kind {
        PickerKind::Models => one_effect(Effect::SetModel(picker.options[index].clone())),
        PickerKind::Effort => {
            if index < Effort::ALL.len() {
                one_effect(Effect::SetEffort(Effort::ALL[index]))
            } else {
                no_effects()
            }
        },
        PickerKind::Provider => {
            // The configured ids come first; the last row is the "+ adicionar" sentinel, which opens the add
            // wizard instead of switching. The ids of the model, not the row labels, say which provider a row
            // stands for.
            if index < model.providers.len() {
                let id: String = model.providers[index].clone();
                let detail: Option<String> = match find_profile(
                    &model.provider_profiles,
                    id.as_str(),
                ) {
                    Some(profile) => Some(provider_detail_line(profile)),
                    None => None,
                };
                match detail {
                    Some(detail) => {
                        model.picker = Some(
                            Picker::new(
                                PickerKind::ProviderAction(id),
                                "provider".to_owned(),
                                detail,
                                list3("Ativar", "Editar", "Remover"),
                                0,
                            ),
                        );
                        no_effects()
                    },
                    None => one_effect(Effect::SetProvider(id)),
                }
            } else {
                model.wizard = Some(ProviderWizard::new());
                no_effects()
            }
        },
        PickerKind::ProviderAction(id) => {
            if index == 0 {
                one_effect(Effect::SetProvider(id))
            } else if index == 1 {
                let wizard: Option<ProviderWizard> = match find_profile(
                    &model.provider_profiles,
                    id.as_str(),
                ) {
                    Some(profile) => Some(ProviderWizard::from_profile(profile)),
                    None => None,
                };
                if wizard.is_some() {
                    model.wizard = wizard;
                }
                no_effects()
            } else {
                model.picker = Some(
                    Picker::new(
                        PickerKind::ProviderDeleteConfirm(id),
                        "confirmar".to_owned(),
                        "esta ação não pode ser desfeita".to_owned(),
                        list2("Sim, remover", "Cancelar"),
                        1,
                    ),
                );
                no_effects()
            }
        },
        PickerKind::ProviderDeleteConfirm(id) => {
            if index == 0 {
                one_effect(Effect::DeleteProvider(id))
            } else {
                no_effects()
            }
        },
        PickerKind::Sessions => {
            // The labels are display titles; the id comes from the parallel `session_ids`.
            if index < model.session_ids.len() {
                one_effect(Effect::OpenSession(model.session_ids[index].clone()))
            } else {
                no_effects()
            }
        },
    }
}

/// A key that edits the search text, or moves in it.
pub open spec fn edits_query(code: Key) -> bool {
    code == Key::Backspace || code == Key::Delete || code == Key::Left || code == Key::Right || code
        == Key::Home || code == Key::End
}

/// The row that a key chooses: Enter the highlighted one, a digit the one it counts to.
pub open spec fn chosen_row(picker: PickerView, key: KeyPress) -> Option<int> {
    match key.code {
        Key::Enter => if picker.selected < picker.rows().len() {
            Some(picker.selected)
        } else {
            None
        },
        Key::Char(c) => if key.unmodified() {
            digit_row(c, picker.rows().len() as int)
        } else {
            None
        },
        _ => None,
    }
}

/// What a key that chooses nothing does to an open picker.
pub open spec fn searched(before: Picker, key: KeyPress, after: Picker, r: Option<Seq<EffectView>>) -> bool {
    &&& after@ == (PickerView { query: after@.query, selected: after@.selected, ..before@ })
    &&& if chord(key, 'v') || chord(key, 'c') || chord(key, 'x') || chord(key, 'z') || chord(key, 'y') {
        &&& chorded(before.query, key, after.query, r)
        &&& after.selected == if chord(key, 'v') || chord(key, 'c') {
            before.selected
        } else {
            0
        }
    } else {
        &&& r == Some(nothing())
        &&& if key.code is Char && key.unmodified() {
            after.selected == 0 && after.query.fed_from(before.query, translated(key))
        } else if edits_query(key.code) {
            &&& after.query.fed_from(before.query, translated(key))
            &&& after.selected == if before.query.fed(translated(key)).1 || key.code == Key::Backspace {
                0
            } else {
                before.selected
            }
        } else {
            after == before
        }
    }
}

/// What a key does to a model with an open picker.
pub open spec fn picker_keyed(old: Model, key: KeyPress, new: Model, effects: Seq<EffectView>) -> bool {
    match old.picker {
        None => new == old && effects == nothing(),
        Some(p) => {
            let base = Model { picker: None, ..old };
            if key.ctrl && key.code == Key::Char('c') && (key.alt || clipped(p@.query) is None) {
                new == (Model { should_quit: true, ..base }) && effects == seq![EffectView::Quit]
            } else if key.code == Key::Esc {
                new == base && effects == nothing()
            } else if key.code == Key::Up || key.code == Key::Down {
                &&& effects == nothing()
                &&& picker_opened(
                    base,
                    new,
                    PickerView {
                        selected: wrapped(
                            p@.selected,
                            if key.code == Key::Up {
                                -1
                            } else {
                                1
                            },
                            p@.rows().len() as int,
                        ),
                        ..p@
                    },
                )
            } else {
                match chosen_row(p@, key) {
                    Some(row) => chosen(base, p@, p@.rows()[row], new, effects),
                    None => {
                        &&& new == (Model { picker: new.picker, ..base })
                        &&& new.picker matches Some(q) && searched(p, key, q, Some(effects))
                    },
                }
            }
        },
    }
}

/// The search field's share of a key: chords, typing, and motion. The effects where it consumed the key.
fn search_key(picker: &mut Picker, key: KeyPress) -> (r: Option<Vec<Effect>>)
    requires
        old(picker)@.wf(),
    ensures
        searched(*old(picker), key, *final(picker), consumed_views(r)),
        r is None ==> chord(key, 'c') && clipped(old(picker)@.query) is None,
        final(picker)@.wf(),
{
    if key.ctrl && !key.alt && (key.code == Key::Char('v') || key.code == Key::Char('c') || key.code
        == Key::Char('x') || key.code == Key::Char('z') || key.code == Key::Char('y')) {
        let r: Option<Vec<Effect>> = field_chords(&mut picker.query, key);
        if key.code != Key::Char('v') && key.code != Key::Char('c') {
            picker.selected = 0;
        }
        return r;
    }
    match key.code {
        Key::Char(_) => {
            if !key.ctrl && !key.alt {
                let _ = picker.query.feed_key(key);
                picker.selected = 0;
            }
        },
        Key::Backspace | Key::Delete | Key::Left | Key::Right | Key::Home | Key::End => {
            let changed: bool = picker.query.feed_key(key);
            if changed || key.code == Key::Backspace {
                picker.selected = 0;
            }
        },
        _ => {},
    }
    Some(no_effects())
}

/// The option that a key chooses, if it chooses one.
fn chosen_index(picker: &Picker, key: KeyPress) -> (r: Option<usize>)
    ensures
        match r {
            Some(i) => chosen_row(picker@, key) matches Some(row) && 0 <= row < picker@.rows().len()
                && i == picker@.rows()[row] && i < picker.options@.len(),
            None => chosen_row(picker@, key) is None,
        },
{
    let filtered: Vec<(usize, &str)> = picker.filtered_options();
    match key.code {
        Key::Enter => {
            if picker.selected < filtered.len() {
                Some(filtered[picker.selected].0)
            } else {
                None
            }
        },
        Key::Char(c) => {
            if !key.ctrl && !key.alt {
                match row_for_digit(c, filtered.len()) {
                    Some(row) => Some(filtered[row].0),
                    None => None,
                }
            } else {
                None
            }
        },
        _ => None,
    }
}

/// Drive an open picker: arrows move the highlight, Enter takes the highlighted row, a digit the row it counts
/// to, Esc closes it, and Ctrl+C copies a selection of the search text or else quits. Everything else edits
/// the search text. A `Models` choice emits `SetModel`; on `Effort`, the row maps back to `Effort::ALL` for
/// `SetEffort`; on `Provider` it opens the provider's action sub-menu, or the wizard on the last row.
pub fn on_picker_key(model: &mut Model, key: KeyPress) -> (r: Vec<Effect>)
    requires
        old(model).wf(),
    ensures
        picker_keyed(*old(model), key, *final(model), effect_views(r@)),
        final(model).wf(),
{
    let mut picker: Picker = match model.picker.take() {
        Some(p) => p,
        None => {
            return no_effects();
        },
    };
    if key.ctrl && key.alt && key.code == Key::Char('c') {
        model.should_quit = true;
        return one_effect(Effect::Quit);
    }
    match key.code {
        Key::Esc => {
            return no_effects();
        },
        Key::Up => {
            picker.move_cursor(-1);
            model.picker = Some(picker);
            return no_effects();
        },
        Key::Down => {
            picker.move_cursor(1);
            model.picker = Some(picker);
            return no_effects();
        },
        _ => {},
    }
    if let Some(index) = chosen_index(&picker, key) {
        return choose_option(model, picker, index);
    }
    match search_key(&mut picker, key) {
        Some(effects) => {
            model.picker = Some(picker);
            effects
        },
        None => {
            model.should_quit = true;
            one_effect(Effect::Quit)
        },
    }
}

/// The last row of the provider picker opens the add wizard and switches nothing.
pub proof fn add_row_opens_the_wizard(
    base: Model,
    picker: PickerView,
    new: Model,
    effects: Seq<EffectView>,
)
    requires
        picker.kind == PickerKindView::Provider,
        chosen(base, picker, base.providers@.len() as int, new, effects),
    ensures
        effects == nothing(),
        new.wizard is Some,
        new.picker == base.picker,
{
}

/// A provider is only ever deleted from the confirmation, by its first row.
pub proof fn deleting_takes_the_confirmation(
    base: Model,
    picker: PickerView,
    index: int,
    new: Model,
    effects: Seq<EffectView>,
    id: Seq<char>,
)
    requires
        chosen(base, picker, index, new, effects),
        effects.contains(EffectView::DeleteProvider(id)),
    ensures
        picker.kind == PickerKindView::ProviderDeleteConfirm(id),
        index == 0,
{
}

} // verus!
