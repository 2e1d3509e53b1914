//! What is picked is what was shown.
use vstd::prelude::*;
use vstd::string::*;
use crate::application::effect::{nothing, EffectView};
use crate::application::keymap::pickers::{chosen, detail_line, picker_keyed, profile_of};
use crate::domain::input::{Key, KeyPress};
use crate::domain::model::Model;
use crate::domain::picker::{matching_is_exact, option_matches, PickerKindView, PickerView};
use crate::domain::wizard::WizardStep;
use crate::kernel::{profile_views, Effort, ProfileView};
use crate::text::{ascii_lowercase, occurs, unicode_lowercase};

verus! {

/// The option under the highlight of a picker.
pub open spec fn highlighted_option(p: PickerView) -> int {
    p.rows()[p.selected]
}

/// Enter picks what is highlighted, and a digit the row that it counts to, from one on, among the rows on display. Either
/// way the picker closes, and what happens is what choosing that option does.
pub proof fn keys_pick_the_row_they_point_at(old: Model, key: KeyPress, new: Model, effects: Seq<EffectView>)
    requires
        picker_keyed(old, key, new, effects),
        old.picker is Some,
    ensures
        ({
            let p = (old.picker->0)@;
            let base = Model { picker: None, ..old };
            &&& key.code == Key::Enter && 0 <= p.selected < p.rows().len() ==> chosen(
                base,
                p,
                p.rows()[p.selected],
                new,
                effects,
            )
            &&& forall|n: int|
                0 <= n < 9 && n < p.rows().len() && !key.ctrl && !key.alt && key.code == Key::Char(
                    #[trigger] crate::text::digit_char(n + 1),
                ) ==> chosen(base, p, p.rows()[n], new, effects)
            &&& key.code == Key::Esc ==> new == base && effects == nothing()
        }),
{
    let p = (old.picker->0)@;
    let base = Model { picker: None, ..old };
    assert forall|n: int|
        0 <= n < 9 && n < p.rows().len() && !key.ctrl && !key.alt && key.code == Key::Char(
            #[trigger] crate::text::digit_char(n + 1),
        ) implies chosen(base, p, p.rows()[n], new, effects) by {
        let c = crate::text::digit_char(n + 1);
        assert('1' <= c <= '9' && c as int == 49 + n);
    }
}

/// The arrows move the highlight by a row, from the last to the first and back, and pick nothing: options and search text
/// stay, and the picker stays open.
pub proof fn arrows_move_the_highlight(old: Model, key: KeyPress, new: Model, effects: Seq<EffectView>)
    requires
        picker_keyed(old, key, new, effects),
        old.picker is Some,
        key.code == Key::Up || key.code == Key::Down,
        0 <= (old.picker->0)@.selected < (old.picker->0)@.rows().len(),
    ensures
        effects == nothing(),
        new.picker is Some,
        ({
            let p = (old.picker->0)@;
            let q = (new.picker->0)@;
            let n = p.rows().len() as int;
            &&& q == (PickerView { selected: q.selected, ..p })
            &&& key.code == Key::Down ==> q.selected == if p.selected + 1 == n { 0 } else { p.selected + 1 }
            &&& key.code == Key::Up ==> q.selected == if p.selected == 0 { n - 1 } else { p.selected - 1 }
        }),
{
    let p = (old.picker->0)@;
    crate::domain::nav::steps_wrap(p.selected, p.rows().len() as int);
}

/// Only options that hold the search text are on display, whatever the case of either, and all of those are, in the order
/// of the options.
pub proof fn the_search_narrows_the_rows(p: PickerView, i: int)
    ensures
        0 <= i < p.options.len() ==> (p.rows().contains(i) <==> occurs(
            unicode_lowercase(p.options[i]),
            unicode_lowercase(p.query.text()),
        )),
        forall|j: int, k: int|
            #![trigger p.rows()[j], p.rows()[k]]
            0 <= j < k < p.rows().len() ==> p.rows()[j] < p.rows()[k],
        forall|k: int| 0 <= k < p.rows().len() ==> 0 <= #[trigger] p.rows()[k] < p.options.len(),
{
    matching_is_exact(p.options, p.query.text());
    if 0 <= i < p.options.len() && p.rows().contains(i) {
        let k = choose|k: int| 0 <= k < p.rows().len() && p.rows()[k] == i;
        assert(option_matches(p.options[p.rows()[k]], p.query.text()));
    }
    if 0 <= i < p.options.len() && occurs(unicode_lowercase(p.options[i]), unicode_lowercase(p.query.text())) {
        assert(option_matches(p.options[i], p.query.text()));
    }
}

/// A model picker sets the model that its row names.
pub proof fn picking_a_model_sets_it(base: Model, p: PickerView, i: int, new: Model, effects: Seq<EffectView>)
    requires
        chosen(base, p, i, new, effects),
        p.kind == PickerKindView::Models,
    ensures
        effects == seq![EffectView::SetModel(p.options[i])],
        new == base,
{
}

/// An effort picker sets the effort that its row names.
pub proof fn picking_an_effort_sets_it(base: Model, p: PickerView, e: Effort, new: Model, effects: Seq<EffectView>, i: int)
    requires
        chosen(base, p, i, new, effects),
        p.kind == PickerKindView::Effort,
        p.options == seq!["off"@, "low"@, "medium"@, "high"@, "max"@],
        0 <= i < 5,
        p.options[i] == e.name(),
    ensures
        effects == seq![EffectView::SetEffort(e)],
        new == base,
{
    reveal_strlit("off");
    reveal_strlit("low");
    reveal_strlit("medium");
    reveal_strlit("high");
    reveal_strlit("max");
    assert("off"@.len() == 3 && "low"@.len() == 3 && "max"@.len() == 3);
    assert("off"@[0] == 'o' && "low"@[0] == 'l' && "max"@[0] == 'm');
    assert("medium"@.len() == 6 && "high"@.len() == 4);
}

/// A row of the provider picker stands for the provider in the same place: one that has a profile gets its actions, with
/// activation first; one that has none is activated at once; the row behind them all opens a fresh wizard.
pub proof fn picking_a_provider_offers_its_actions(base: Model, p: PickerView, i: int, new: Model, effects: Seq<EffectView>)
    requires
        chosen(base, p, i, new, effects),
        p.kind == PickerKindView::Provider,
        0 <= i,
    ensures
        i < base.providers@.len() ==> {
            let id = base.providers@[i]@;
            let profile = profile_of(profile_views(base.provider_profiles@), id);
            &&& profile is None ==> effects == seq![EffectView::SetProvider(id)] && new == base
            &&& profile is Some ==> effects == nothing() && new.picker is Some && {
                let q = (new.picker->0)@;
                &&& q.kind == PickerKindView::ProviderAction(id)
                &&& q.options == seq!["Ativar"@, "Editar"@, "Remover"@]
                &&& q.selected == 0
                &&& q.query.text().len() == 0
            }
        },
        i >= base.providers@.len() ==> effects == nothing() && new.wizard is Some && (new.wizard->0)@.step
            == WizardStep::Kind && !(new.wizard->0)@.edit_mode && (new.wizard->0)@.api_key.len() == 0,
{
    reveal_with_fuel(crate::text::join_with, 2);
}

/// The action that is picked is done to the provider that the menu is for: "Ativar" activates it, "Editar" opens the wizard
/// on what is known of it, and "Remover" asks first, with the way back highlighted.
pub proof fn picking_an_action_acts_on_its_provider(
    base: Model,
    p: PickerView,
    id: Seq<char>,
    i: int,
    new: Model,
    effects: Seq<EffectView>,
)
    requires
        chosen(base, p, i, new, effects),
        p.kind == PickerKindView::ProviderAction(id),
        p.options == seq!["Ativar"@, "Editar"@, "Remover"@],
        0 <= i < 3,
    ensures
        p.options[i] == "Ativar"@ ==> effects == seq![EffectView::SetProvider(id)] && new == base,
        p.options[i] == "Editar"@ ==> effects == nothing() && (profile_of(
            profile_views(base.provider_profiles@),
            id,
        ) matches Some(profile) ==> new.wizard is Some && {
            let w = (new.wizard->0)@;
            &&& w.edit_mode && w.step == WizardStep::BaseUrl
            &&& w.id == profile.id && w.base_url == profile.base_url && w.model == profile.model
            &&& w.api_key.len() == 0
            &&& w.had_key == (profile.auth == crate::kernel::AuthMethod::ApiKey)
        }),
        p.options[i] == "Remover"@ ==> effects == nothing() && new.picker is Some && {
            let q = (new.picker->0)@;
            &&& q.kind == PickerKindView::ProviderDeleteConfirm(id)
            &&& q.options == seq!["Sim, remover"@, "Cancelar"@]
            &&& q.options[q.selected] == "Cancelar"@
        },
{
    reveal_strlit("Ativar");
    reveal_strlit("Editar");
    reveal_strlit("Remover");
    assert("Ativar"@[0] == 'A' && "Editar"@[0] == 'E' && "Remover"@[0] == 'R');
}

/// A provider is removed only where its removal is confirmed, and then that one.
pub proof fn removal_takes_a_yes(base: Model, p: PickerView, id: Seq<char>, i: int, new: Model, effects: Seq<EffectView>)
    requires
        chosen(base, p, i, new, effects),
        p.kind == PickerKindView::ProviderDeleteConfirm(id),
        p.options == seq!["Sim, remover"@, "Cancelar"@],
        0 <= i < 2,
    ensures
        new == base,
        p.options[i] == "Sim, remover"@ ==> effects == seq![EffectView::DeleteProvider(id)],
        p.options[i] == "Cancelar"@ ==> effects == nothing(),
{
    reveal_strlit("Sim, remover");
    reveal_strlit("Cancelar");
    assert("Sim, remover"@[0] == 'S' && "Cancelar"@[0] == 'C');
}

/// A row of the session picker reopens the session in the same place of the list.
pub proof fn picking_a_session_reopens_it(base: Model, p: PickerView, i: int, new: Model, effects: Seq<EffectView>)
    requires
        chosen(base, p, i, new, effects),
        p.kind == PickerKindView::Sessions,
        0 <= i < base.session_ids@.len(),
    ensures
        effects == seq![EffectView::OpenSession(base.session_ids@[i]@)],
        new == base,
{
}

/// The profile of an id is the first that has it.
pub proof fn a_profile_is_found_by_its_id(profiles: Seq<ProfileView>, id: Seq<char>)
    ensures
        match profile_of(profiles, id) {
            Some(p) => p.id == id && profiles.contains(p),
            None => forall|i: int| 0 <= i < profiles.len() ==> (#[trigger] profiles[i]).id != id,
        },
    decreases profiles.len(),
{
    if profiles.len() > 0 && profiles[0].id != id {
        let rest = profiles.skip(1);
        a_profile_is_found_by_its_id(rest, id);
        match profile_of(profiles, id) {
            Some(p) => {
                let k = choose|k: int| 0 <= k < rest.len() && rest[k] == p;
                assert(profiles[k + 1] == p);
            },
            None => {
                assert forall|i: int| 0 <= i < profiles.len() implies (#[trigger] profiles[i]).id != id by {
                    if i > 0 {
                        assert(rest[i - 1] == profiles[i]);
                    }
                }
            },
        }
    } else if profiles.len() > 0 {
        assert(profiles.contains(profiles[0]));
    }
}

/// What is typed into an open picker goes to its search, and the highlight to the first match; the options stay, and so does
/// everything behind the picker.
pub proof fn typing_searches_the_options(old: Model, key: KeyPress, new: Model, effects: Seq<EffectView>)
    requires
        picker_keyed(old, key, new, effects),
        old.picker is Some,
        key.code is Char && !key.ctrl && !key.alt,
        !('1' <= key.code->Char_0 <= '9') && key.code->Char_0 != '\n' && key.code->Char_0 != '\r',
    ensures
        effects == nothing(),
        new.picker is Some,
        (new.picker->0)@.query == (old.picker->0)@.query.with_char(key.code->Char_0),
        (new.picker->0)@.selected == 0,
        (new.picker->0)@.options == (old.picker->0)@.options,
        (new.picker->0)@.kind == (old.picker->0)@.kind,
        new.input == old.input,
{
}

/// The actions of a provider are headed by what is known of it: its kind, endpoint, model, way of authenticating, and whether
/// it thinks.
pub proof fn a_provider_is_described(p: ProfileView)
    ensures
        p.thinking == Some(true) ==> detail_line(p) == "["@ + ascii_lowercase(p.kind.variant_name()) + "] "@ + p.base_url
            + " · "@ + p.model + " · "@ + p.auth.wire() + " · thinking: sim"@,
        p.thinking == Some(false) ==> detail_line(p) == "["@ + ascii_lowercase(p.kind.variant_name()) + "] "@ + p.base_url
            + " · "@ + p.model + " · "@ + p.auth.wire() + " · thinking: não"@,
        p.thinking is None ==> detail_line(p) == "["@ + ascii_lowercase(p.kind.variant_name()) + "] "@ + p.base_url
            + " · "@ + p.model + " · "@ + p.auth.wire(),
{
    reveal_strlit("");
    let head = "["@ + ascii_lowercase(p.kind.variant_name()) + "] "@ + p.base_url + " · "@ + p.model + " · "@
        + p.auth.wire();
    assert(head + ""@ =~= head);
}

} // verus!
