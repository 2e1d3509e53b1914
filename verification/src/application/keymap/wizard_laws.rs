//! What the add-provider wizard comes to.
use vstd::prelude::*;
use vstd::string::*;
use crate::application::effect::{nothing, EffectView};
use crate::application::keymap::wizard::{
    advanced, can_save, chooser_keyed, entered, kind_confirmed, save_effect, text_keyed, wizard_keyed,
};
use crate::domain::input::{Key, KeyPress};
use crate::domain::model::Model;
use crate::domain::nav::steps_wrap;
use crate::domain::transcript::{ItemView, NoticeLevel};
use crate::domain::wizard::{
    catalog_has_no_repeats, default_model_leads, has_other, id_token, kind_at, model_catalog, other_models,
    printable, row_of, with_model, with_models, WizardStep, WizardView, WIZARD_KINDS,
};
use crate::kernel::{AuthMethod, ProfileView, ProviderKind};
use crate::text::{is_white, split_of_clean, split_on, split_on_nonempty, trim, trimmed_is_bare};

verus! {

// ---- the kinds ----

/// Each row of the kind chooser stands for a kind of its own, and every kind has a row.
pub proof fn every_kind_has_its_row(kind: ProviderKind)
    ensures
        0 <= row_of(kind) < WIZARD_KINDS@.len(),
        WIZARD_KINDS@[row_of(kind)] == kind,
        kind_at(row_of(kind)) == kind,
{
}

/// The arrows go through the kinds one by one, wrapping, and flip the thinking choice; nothing else of the wizard changes.
pub proof fn choosers_step(w: WizardView, code: Key)
    requires
        code == Key::Up || code == Key::Down,
    ensures
        w.step == WizardStep::Kind && 0 <= w.kind_selected < 5 ==> {
            let n = chooser_keyed(w, code);
            &&& n == (WizardView { kind_selected: n.kind_selected, ..w })
            &&& code == Key::Down ==> n.kind_selected == if w.kind_selected == 4 { 0 } else { w.kind_selected + 1 }
            &&& code == Key::Up ==> n.kind_selected == if w.kind_selected == 0 { 4 } else { w.kind_selected - 1 }
        },
        w.step == WizardStep::Thinking ==> chooser_keyed(w, code) == (WizardView { thinking: !w.thinking, ..w }),
{
    if 0 <= w.kind_selected < 5 {
        steps_wrap(w.kind_selected, 5);
    }
}

/// Confirming a kind goes to the endpoint of a vendor, filled in where none was given, and for the others to the name, which
/// the kind suggests; what was given stays.
pub proof fn confirming_a_kind_moves_on(w: WizardView)
    ensures
        ({
            let n = kind_confirmed(w);
            let kind = w.kind();
            let vendor = kind == ProviderKind::Nvidia || kind == ProviderKind::Openai || kind == ProviderKind::Anthropic;
            &&& n.kind() == kind && n.model == w.model && n.extra_models == w.extra_models && n.api_key == w.api_key
            &&& vendor ==> n.step == WizardStep::BaseUrl && n.id == w.id && n.draft.text() == n.base_url
            &&& vendor && w.base_url.len() > 0 ==> n.base_url == w.base_url
            &&& vendor && w.base_url.len() == 0 ==> n.base_url == kind.endpoint() && n.base_url.len() > 0
            &&& !vendor ==> n.step == WizardStep::ProviderId && n.base_url == w.base_url && n.draft.text() == n.id
            &&& !vendor && w.id.len() > 0 ==> n.id == w.id
            &&& !vendor && w.id.len() == 0 ==> n.id == kind.token()
        }),
{
    reveal_strlit("https://integrate.api.nvidia.com/v1");
    reveal_strlit("https://api.openai.com/v1");
    reveal_strlit("https://api.anthropic.com/v1");
    let n = kind_confirmed(w);
    crate::text::join_of_split(n.base_url, '\n');
    crate::text::join_of_split(n.id, '\n');
    if w.id.len() == 0 {
        assert(w.id =~= Seq::<char>::empty());
        assert(trim(w.id) == w.id);
        assert(crate::text::ascii_lowercase(w.id) =~= w.id);
        assert(crate::domain::wizard::dashed(w.id) =~= w.id);
        assert(id_token(w.id).len() == 0);
    }
}

// ---- the steps ----

/// The steps follow one another: name, endpoint, model, further models, thinking where the model can, and the key. A step
/// whose field is required is not left while it is blank, and no step touches what another one asked for.
pub proof fn the_steps_follow_one_another(w: WizardView, thinks: bool)
    ensures
        ({
            let n = advanced(w, thinks);
            &&& w.step == WizardStep::ProviderId ==> n.step == WizardStep::BaseUrl
            &&& w.step == WizardStep::BaseUrl && trim(w.base_url).len() > 0 ==> n.step == WizardStep::Model && n.base_url
                == w.base_url
            &&& w.step == WizardStep::BaseUrl && trim(w.base_url).len() == 0 && w.kind().endpoint().len() == 0 ==> n == w
            &&& w.step == WizardStep::BaseUrl && trim(w.base_url).len() == 0 && w.kind().endpoint().len() > 0 ==> n.step
                == WizardStep::Model && n.base_url == w.kind().endpoint()
            &&& w.step == WizardStep::Model && trim(w.model).len() > 0 ==> n.step == WizardStep::ExtraModels
            &&& w.step == WizardStep::Model && trim(w.model).len() == 0 ==> n == w
            &&& w.step == WizardStep::ExtraModels && thinks ==> n.step == WizardStep::Thinking && n.thinking == w.thinking
            &&& w.step == WizardStep::ExtraModels && !thinks ==> n.step == WizardStep::ApiKey && !n.thinking
            &&& n.id == w.id && n.model == w.model && n.extra_models == w.extra_models && n.api_key == w.api_key
            &&& n.kind() == w.kind() && n.edit_mode == w.edit_mode && n.onboarding == w.onboarding && n.had_key == w.had_key
        }),
{
}

/// The thinking step goes on to the key with the choice made.
pub proof fn the_thinking_choice_is_kept(w: WizardView)
    requires
        w.step == WizardStep::Thinking,
    ensures
        chooser_keyed(w, Key::Enter).step == WizardStep::ApiKey,
        chooser_keyed(w, Key::Enter).thinking == w.thinking,
        chooser_keyed(w, Key::Enter).api_key == w.api_key,
        chooser_keyed(w, Key::Enter).model == w.model,
{
}

// ---- what is saved ----

/// A finished wizard saves what was entered: the kind that was chosen, the endpoint and the model without the white space
/// round them, the thinking choice, and authentication by key exactly where there is one to use. It closes.
pub proof fn a_finished_wizard_saves_what_was_entered(old: Model, w: WizardView, new: Model, effects: Seq<EffectView>)
    requires
        entered(old, w, new, effects),
        w.step == WizardStep::ApiKey,
        trim(w.api_key).len() > 0 || !w.kind().is_vendor() || w.edit_mode,
    ensures
        new.wizard is None,
        effects.len() == 1,
        effects[0] matches EffectView::SaveProvider {
            id,
            kind,
            base_url,
            model,
            models,
            auth,
            thinking,
            keep_existing_key,
        } && {
            let keyed = trim(w.api_key).len() > 0;
            &&& kind == w.kind()
            &&& model == trim(w.model)
            &&& trim(w.base_url).len() > 0 ==> base_url == trim(w.base_url)
            &&& trim(w.base_url).len() == 0 ==> base_url == w.kind().endpoint()
            &&& thinking == Some(w.thinking)
            &&& keyed ==> auth == AuthMethod::ApiKey && !keep_existing_key
            &&& !keyed && !w.edit_mode ==> auth == AuthMethod::Keyless && !keep_existing_key
            &&& !keyed && w.edit_mode ==> keep_existing_key
            &&& !keyed && w.edit_mode && !w.kind().is_vendor() ==> auth == if w.had_key {
                AuthMethod::ApiKey
            } else {
                AuthMethod::Keyless
            }
            &&& w.kind().is_vendor() ==> id == w.kind().token()
            &&& !w.kind().is_vendor() && id_token(w.id).len() > 0 ==> id == id_token(w.id)
            &&& trim(w.model).len() > 0 ==> models.len() > 0 && models[0] == trim(w.model)
        },
{
    if trim(w.model).len() > 0 {
        default_model_leads(with_model(Seq::empty(), w.model), split_on(w.extra_models, ','));
    }
}

/// The saved catalog holds the default model and each of the further ones that is not blank, without the white space round
/// them, each once, and nothing else.
pub proof fn the_catalog_holds_what_was_listed(model: Seq<char>, extras: Seq<char>, m: Seq<char>)
    ensures
        model_catalog(model, extras).contains(m) <==> m.len() > 0 && (m == trim(model) || exists|i: int|
            0 <= i < split_on(extras, ',').len() && m == trim(#[trigger] split_on(extras, ',')[i])),
        model_catalog(model, extras).no_duplicates(),
{
    let first = with_model(Seq::empty(), model);
    let more = split_on(extras, ',');
    catalog_has_no_repeats(first, more);
    listed(first, more, m);
    assert(Seq::<Seq<char>>::empty().push(trim(model)) =~= seq![trim(model)]);
    if first.len() > 0 {
        assert(first[0] == trim(model));
        assert(first.contains(m) <==> m == trim(model));
    }
}

proof fn listed(models: Seq<Seq<char>>, more: Seq<Seq<char>>, m: Seq<char>)
    ensures
        with_models(models, more).contains(m) <==> models.contains(m) || (m.len() > 0 && exists|i: int|
            0 <= i < more.len() && m == trim(#[trigger] more[i])),
    decreases more.len(),
{
    if more.len() > 0 {
        let short = more.drop_last();
        listed(models, short, m);
        let before = with_models(models, short);
        let t = trim(more.last());
        let all = with_models(models, more);
        if before.contains(m) {
            let k = choose|k: int| 0 <= k < before.len() && before[k] == m;
            assert(all[k] == m);
        }
        if t.len() > 0 && !before.contains(t) {
            assert(all.last() == t);
            if all.contains(m) && m != t {
                let k = choose|k: int| 0 <= k < all.len() && all[k] == m;
                assert(before[k] == m);
            }
        }
        if exists|i: int| 0 <= i < short.len() && m == trim(#[trigger] short[i]) {
            let i = choose|i: int| 0 <= i < short.len() && m == trim(#[trigger] short[i]);
            assert(more[i] == short[i]);
        }
        if m == t {
            assert(m == trim(more[more.len() - 1]));
        }
        if exists|i: int| 0 <= i < more.len() && m == trim(#[trigger] more[i]) {
            let i = choose|i: int| 0 <= i < more.len() && m == trim(#[trigger] more[i]);
            if i < short.len() {
                assert(short[i] == more[i]);
            }
        }
    }
}

/// A typed provider name becomes an id of lower-case letters, digits, dashes and underscores, and one that is such an id
/// already, with no dash at its ends, is kept as it is.
pub proof fn ids_are_tokens(id: Seq<char>)
    ensures
        forall|i: int|
            0 <= i < id_token(id).len() ==> ({
                let c = #[trigger] id_token(id)[i];
                ('a' <= c <= 'z') || ('0' <= c <= '9') || c == '-' || c == '_'
            }),
        (forall|i: int|
            0 <= i < id.len() ==> (('a' <= #[trigger] id[i] <= 'z') || ('0' <= id[i] <= '9') || id[i] == '-' || id[i]
                == '_')) && id.len() > 0 && id[0] != '-' && id.last() != '-' ==> id_token(id) == id,
{
    let t = trim(id);
    let low = crate::text::ascii_lowercase(t);
    let d = crate::domain::wizard::dashed(low);
    crate::text::strip_ends_within(d, '-');
    assert forall|i: int| 0 <= i < d.len() implies (('a' <= #[trigger] d[i] <= 'z') || ('0' <= d[i] <= '9') || d[i] == '-'
        || d[i] == '_') by {
        assert(low[i] == crate::text::ascii_lower(t[i]));
    }
    if (forall|i: int|
        0 <= i < id.len() ==> (('a' <= #[trigger] id[i] <= 'z') || ('0' <= id[i] <= '9') || id[i] == '-' || id[i] == '_'))
        && id.len() > 0 && id[0] != '-' && id.last() != '-' {
        assert forall|i: int| 0 <= i < id.len() implies !is_white(#[trigger] id[i]) by {}
        crate::text::solid_text(id);
        assert(low =~= id);
        assert(d =~= id);
        assert(id[0] != '-');
        reveal_with_fuel(crate::text::strip_lead, 2);
        reveal_with_fuel(crate::text::strip_tail, 2);
    }
}

// ---- editing ----

proof fn splitting_appends(a: Seq<char>, b: Seq<char>, sep: char)
    ensures
        split_on(a.push(sep) + b, sep) == split_on(a, sep) + split_on(b, sep),
    decreases b.len(),
{
    split_on_nonempty(a, sep);
    split_on_nonempty(b, sep);
    let s = a.push(sep) + b;
    if b.len() == 0 {
        assert(s =~= a.push(sep));
        assert(s.drop_last() =~= a);
        assert(split_on(s, sep) =~= split_on(a, sep) + split_on(b, sep));
    } else {
        assert(s.drop_last() =~= a.push(sep) + b.drop_last());
        splitting_appends(a, b.drop_last(), sep);
        split_on_nonempty(b.drop_last(), sep);
        assert(split_on(s, sep) =~= split_on(a, sep) + split_on(b, sep));
    }
}

/// The model names of a profile that the wizard can write down and read back: not blank, bare, and without a comma.
pub open spec fn writable(models: Seq<Seq<char>>) -> bool {
    forall|i: int|
        0 <= i < models.len() ==> (#[trigger] models[i]).len() > 0 && trim(models[i]) == models[i]
            && !models[i].contains(',')
}

proof fn spaced_name(m: Seq<char>)
    requires
        m.len() > 0,
        trim(m) == m,
        !m.contains(','),
    ensures
        split_on(" "@ + m, ',') == seq![" "@ + m],
        trim(" "@ + m) == m,
{
    reveal_strlit(" ");
    let s = " "@ + m;
    assert(!s.contains(',')) by {
        if s.contains(',') {
            let k = choose|k: int| 0 <= k < s.len() && s[k] == ',';
            assert(m[k - 1] == ',');
        }
    }
    split_of_clean(s, ',');
    trimmed_is_bare(m);
    assert(s.skip(1) =~= m);
    assert(is_white(s[0]));
}

proof fn others_read_back(models: Seq<Seq<char>>, n: int)
    requires
        1 <= n <= models.len(),
        writable(models),
        models.no_duplicates(),
    ensures
        ({
            let extras = other_models(models.take(n), models[0]);
            with_models(seq![models[0]], split_on(extras, ',')) == models.take(n)
        }),
        has_other(models.take(n), models[0]) <==> n > 1,
    decreases n,
{
    let model = models[0];
    let all = models.take(n);
    if n == 1 {
        assert(all =~= seq![model]);
        assert(all.drop_last() =~= Seq::<Seq<char>>::empty());
        reveal_with_fuel(other_models, 2);
        assert(other_models(all, model) =~= Seq::<char>::empty());
        assert(split_on(Seq::<char>::empty(), ',') =~= seq![Seq::<char>::empty()]);
        reveal_with_fuel(with_models, 2);
        assert(seq![Seq::<char>::empty()].drop_last() =~= Seq::<Seq<char>>::empty());
        assert(trim(Seq::<char>::empty()).len() == 0);
    } else {
        others_read_back(models, n - 1);
        let m = models[n - 1];
        assert(all.drop_last() =~= models.take(n - 1));
        assert(m != model);
        assert(all[n - 1] != model);
        let before = other_models(models.take(n - 1), model);
        assert(writable(models) && models[n - 1].len() > 0);
        let kept = models.take(n - 1);
        assert(!kept.contains(m)) by {
            if kept.contains(m) {
                let k = choose|k: int| 0 <= k < kept.len() && kept[k] == m;
                assert(models[k] == models[n - 1]);
            }
        }
        assert(kept.push(m) =~= all);
        if n == 2 {
            assert(!has_other(kept, model));
            assert(other_models(all, model) == m);
            split_of_clean(m, ',');
            reveal_with_fuel(with_models, 2);
            assert(seq![m].drop_last() =~= Seq::<Seq<char>>::empty());
            assert(kept =~= seq![model]);
            assert(with_models(seq![model], seq![m]) =~= all);
        } else {
            let extras = other_models(all, model);
            assert(has_other(kept, model));
            reveal_strlit(", ");
            reveal_strlit(" ");
            assert(extras =~= before.push(',') + (" "@ + m));
            splitting_appends(before, " "@ + m, ',');
            spaced_name(m);
            let parts = split_on(extras, ',');
            assert(parts =~= split_on(before, ',').push(" "@ + m));
            assert(parts.drop_last() =~= split_on(before, ','));
            assert(with_models(seq![model], parts) =~= all);
        }
    }
}

/// Editing a provider and saving it without a change gives it back: the wizard writes the profile's answers down so that
/// saving reads the same kind, endpoint, default model and catalog from them, and keeps the stored key.
pub proof fn editing_without_a_change_keeps_the_profile(p: ProfileView)
    requires
        p.models.len() > 0,
        p.models[0] == p.model,
        writable(p.models),
        p.models.no_duplicates(),
        trim(p.base_url).len() > 0,
        trim(p.base_url) == p.base_url,
        p.kind.is_vendor() ==> p.id == p.kind.token() && p.auth == AuthMethod::ApiKey,
        !p.kind.is_vendor() ==> p.id.len() > 0 && id_token(p.id) == p.id && p.auth != AuthMethod::OAuth,
    ensures
        ({
            let w = WizardView::editing(p).at_step(WizardStep::ApiKey);
            &&& can_save(w)
            &&& save_effect(w) matches EffectView::SaveProvider {
                id,
                kind,
                base_url,
                model,
                models,
                auth,
                thinking,
                keep_existing_key,
            } && id == p.id && kind == p.kind && base_url == p.base_url && model == p.model && models == p.models && auth
                == p.auth && keep_existing_key && (p.thinking is Some ==> thinking == p.thinking)
        }),
{
    every_kind_has_its_row(p.kind);
    let n = p.models.len() as int;
    others_read_back(p.models, n);
    assert(p.models.take(n) =~= p.models);
    assert(p.models[0].len() > 0 && trim(p.models[0]) == p.models[0]);
    assert(with_model(Seq::empty(), p.model) =~= seq![p.model]);
    assert(trim(Seq::<char>::empty()).len() == 0);
}

/// A cancelled wizard says so and is gone; during onboarding it says how to go on instead.
pub proof fn cancelling_is_announced(old: Model, key: KeyPress, new: Model, effects: Seq<EffectView>)
    requires
        wizard_keyed(old, key, new, effects),
        old.wizard is Some,
        key.code == Key::Esc,
    ensures
        new.wizard is None,
        new.transcript@ == old.transcript@.push(
            ItemView::Notice(
                NoticeLevel::Info,
                if (old.wizard->0)@.onboarding {
                    "configure um provider com /provider para começar"@
                } else {
                    "wizard cancelado"@
                },
            ),
        ),
{
}

/// A pasted text keeps every character but the control characters, in order.
pub proof fn printing_drops_controls_only(s: Seq<char>, c: char)
    ensures
        printable(s.push(c)) == if c <= '\u{1f}' || ('\u{7f}' <= c <= '\u{9f}') {
            printable(s)
        } else {
            printable(s).push(c)
        },
        printable(Seq::empty()) == Seq::<char>::empty(),
{
    assert(s.push(c).drop_last() =~= s);
}

/// What is typed on a text step goes to the field of that step and to no other: the field is what its editor then holds.
pub proof fn typing_fills_the_field(old: Model, key: KeyPress, new: Model, effects: Seq<EffectView>)
    requires
        wizard_keyed(old, key, new, effects),
        old.wizard is Some,
        (old.wizard->0)@.step.edits_text(),
        key.code is Char && !key.ctrl && !key.alt && key.code->Char_0 != '\n' && key.code->Char_0 != '\r',
    ensures
        effects == nothing(),
        new.wizard is Some,
        ({
            let w = (old.wizard->0)@.loaded();
            let n = (new.wizard->0)@;
            &&& n.draft == w.draft.with_char(key.code->Char_0)
            &&& n.field(w.step) == Some(n.draft.text())
            &&& n.step == w.step && n.kind_selected == w.kind_selected && n.thinking == w.thinking
            &&& forall|step: WizardStep| step != w.step ==> #[trigger] n.field(step) == w.field(step)
        }),
{
    reveal(text_keyed);
}

/// Enter on a text step goes on from what its field holds, and a chooser does what its keys say; either way the wizard stays
/// open until it is saved.
pub proof fn enter_goes_on(old: Model, key: KeyPress, new: Model, effects: Seq<EffectView>)
    requires
        wizard_keyed(old, key, new, effects),
        old.wizard is Some,
        key.code == Key::Enter,
    ensures
        (old.wizard->0)@.step.edits_text() ==> entered(old, (old.wizard->0)@.loaded(), new, effects),
        (old.wizard->0)@.step == WizardStep::Kind ==> new.wizard is Some && (new.wizard->0)@ == kind_confirmed(
            (old.wizard->0)@,
        ),
        (old.wizard->0)@.step == WizardStep::Thinking ==> new.wizard is Some && (new.wizard->0)@.step
            == WizardStep::ApiKey,
{
    reveal(text_keyed);
}

} // verus!
