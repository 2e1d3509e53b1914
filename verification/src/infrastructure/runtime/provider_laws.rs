//! What a change of provider, model or effort comes to.
use vstd::prelude::*;
use vstd::string::*;
use crate::application::keymap::pickers::profile_of;
use crate::domain::model::Model;
use crate::domain::transcript::{ItemView, NoticeLevel};
use crate::infrastructure::runtime::provider_swap::{
    added, effort_applied, ids_of, models_of, no_credential, remodelled, save_shown, switch_shown, switched, without, Credential,
    CredentialView, ProviderSwap, ProviderSwitch, SwapView,
};
use crate::kernel::{Effort, ProfileView};
use crate::text::{occurs, occurs_at, views};

verus! {

/// A switch to a configured provider whose credential was found and whose adapter was built makes it the active one, with
/// that credential, and reports its model; the catalog and the dials stay.
pub proof fn a_switch_takes_the_provider(
    old: SwapView,
    id: Seq<char>,
    credential: Credential,
    warning: Option<String>,
    r: Result<ProviderSwitch, String>,
    new: SwapView,
    profile: ProfileView,
)
    requires
        switched(old, id, Ok((credential, warning)), Ok(()), r, new),
        profile_of(old.providers, id) == Some(profile),
    ensures
        new.active == id,
        new.credential == Some(credential@),
        new.providers == old.providers,
        new.thinking == old.thinking && new.effort == old.effort,
        r matches Ok(s) && s.model@ == profile.model && s.persist_warning == warning,
{
}

/// A switch to a provider that is not configured, has no credential or cannot be built is refused with the reason.
pub proof fn a_refused_switch_tells_why(
    old: SwapView,
    id: Seq<char>,
    found: Result<(Credential, Option<String>), String>,
    built: Result<(), String>,
    r: Result<ProviderSwitch, String>,
    new: SwapView,
)
    requires
        switched(old, id, found, built, r, new),
    ensures
        profile_of(old.providers, id) is None ==> r is Err && (r->Err_0)@ == "provider '"@ + id + "' is not configured"@
            && new == old,
        profile_of(old.providers, id) is Some && found is Err ==> r is Err && r->Err_0 == found->Err_0 && new == old,
        profile_of(old.providers, id) is Some && found is Ok && built is Err ==> r is Err && r->Err_0 == built->Err_0
            && new == old,
{
}

/// What is shown of a switch: the status names the provider and its model, the models on offer are the provider's, and the
/// transcript says so; a key that could not be saved is told in red. A refused switch shows the reason and changes nothing.
pub proof fn a_switch_shows(
    old: Model,
    id: Seq<char>,
    outcome: Result<ProviderSwitch, String>,
    profile: Option<ProfileView>,
    new: Model,
)
    requires
        switch_shown(old, id, outcome, models_of(profile), new),
    ensures
        outcome matches Ok(s) ==> {
            &&& new.status.provider@ == id
            &&& new.status.model@ == s.model@
            &&& profile matches Some(p) ==> views(new.models@) == p.models
            &&& new.transcript@.len() > old.transcript@.len()
            &&& new.transcript@[old.transcript@.len() as int] == ItemView::Notice(
                NoticeLevel::Info,
                "provider: "@ + id + " ("@ + s.model@ + ")"@,
            )
            &&& s.persist_warning matches Some(e) ==> new.transcript@.last() == ItemView::Notice(
                NoticeLevel::Error,
                "a chave importada do ambiente não foi salva: "@ + e@,
            )
            &&& s.persist_warning is None ==> new.transcript@.len() == old.transcript@.len() + 1
        },
        outcome matches Err(e) ==> {
            &&& new == (Model { transcript: new.transcript, ..old })
            &&& new.transcript@ == old.transcript@.push(
                ItemView::Notice(NoticeLevel::Error, "não foi possível trocar de provider: "@ + e@),
            )
        },
{
}

/// Removing an id keeps every other provider, in order, and none of that id.
pub proof fn removing_keeps_the_others(profiles: Seq<ProfileView>, id: Seq<char>)
    ensures
        forall|i: int| 0 <= i < without(profiles, id).len() ==> (#[trigger] without(profiles, id)[i]).id != id,
        forall|p: ProfileView| p.id != id ==> (#[trigger] without(profiles, id).contains(p) <==> profiles.contains(p)),
        (forall|i: int| 0 <= i < profiles.len() ==> (#[trigger] profiles[i]).id != id) ==> without(profiles, id) == profiles,
    decreases profiles.len(),
{
    if profiles.len() > 0 {
        let rest = profiles.drop_last();
        removing_keeps_the_others(rest, id);
        let kept = without(profiles, id);
        let before = without(rest, id);
        assert forall|p: ProfileView| p.id != id implies (#[trigger] kept.contains(p) <==> profiles.contains(p)) by {
            assert(before.contains(p) <==> rest.contains(p));
            if rest.contains(p) {
                let k = choose|k: int| 0 <= k < rest.len() && rest[k] == p;
                assert(profiles[k] == p);
                let j = choose|j: int| 0 <= j < before.len() && before[j] == p;
                assert(kept[j] == p);
            }
            if p == profiles.last() {
                assert(profiles[profiles.len() - 1] == p);
                assert(kept[kept.len() - 1] == p);
            }
            if kept.contains(p) && p != profiles.last() {
                let k = choose|k: int| 0 <= k < kept.len() && kept[k] == p;
                assert(before[k] == p);
            }
            if profiles.contains(p) && p != profiles.last() {
                let k = choose|k: int| 0 <= k < profiles.len() && profiles[k] == p;
                assert(rest[k] == p);
            }
        }
        if forall|i: int| 0 <= i < profiles.len() ==> (#[trigger] profiles[i]).id != id {
            assert forall|i: int| 0 <= i < rest.len() implies (#[trigger] rest[i]).id != id by {
                assert(rest[i] == profiles[i]);
            }
            assert(profiles[profiles.len() - 1].id != id);
            assert(rest.push(profiles.last()) =~= profiles);
        }
    }
}

/// A provider that was built, and whose key, where it has one, was stored, joins the catalog behind the others, in the place
/// of any of its id, and is active with its credential.
pub proof fn a_saved_provider_joins_the_catalog(
    old: SwapView,
    profile: ProfileView,
    credential: CredentialView,
    stored: Result<(), String>,
    r: Result<String, String>,
    new: SwapView,
)
    requires
        added(old, profile, credential, Ok(()), stored, r, new),
        credential is Keyless || stored is Ok,
    ensures
        new.active == profile.id,
        new.credential == Some(credential),
        new.providers.last() == profile,
        new.providers.drop_last() == without(old.providers, profile.id),
        r matches Ok(model) && model@ == profile.model,
        new.effort == old.effort && new.thinking == old.thinking,
{
    assert(new.providers.drop_last() =~= without(old.providers, profile.id));
}

/// A provider that was not built, or whose key was not stored, is not added, and the reason is given.
pub proof fn a_failed_save_adds_nothing(
    old: SwapView,
    profile: ProfileView,
    credential: CredentialView,
    built: Result<(), String>,
    stored: Result<(), String>,
    r: Result<String, String>,
    new: SwapView,
)
    requires
        added(old, profile, credential, built, stored, r, new),
    ensures
        built is Err ==> new == old && r is Err && r->Err_0 == built->Err_0,
        built is Ok && credential is ApiKey && stored is Err ==> new == old && r is Err && r->Err_0 == stored->Err_0,
{
}

/// What is shown of a saved provider: prompts are let through, the status names the provider and its model, the models and the
/// providers on offer are the new ones; a failed save shows the reason and changes nothing.
pub proof fn a_save_shows(old: Model, profile: ProfileView, outcome: Result<String, String>, ids: Seq<Seq<char>>, new: Model)
    requires
        save_shown(old, profile, outcome, ids, new),
    ensures
        outcome matches Ok(model) ==> {
            &&& !new.unconfigured
            &&& new.status.provider@ == profile.id
            &&& new.status.model@ == model@
            &&& views(new.models@) == profile.models
            &&& views(new.providers@) == ids
            &&& new.transcript@ == old.transcript@.push(
                ItemView::Notice(NoticeLevel::Info, "provider '"@ + profile.id + "' adicionado e ativo"@),
            )
        },
        outcome matches Err(e) ==> {
            &&& new.unconfigured == old.unconfigured
            &&& new.providers == old.providers && new.status == old.status
            &&& new.transcript@ == old.transcript@.push(
                ItemView::Notice(NoticeLevel::Error, "não foi possível salvar o provider: "@ + e@),
            )
        },
{
}

/// The providers on offer are those of the catalog, in its order.
pub proof fn ids_follow_the_catalog(profiles: Seq<ProfileView>, i: int)
    requires
        0 <= i < profiles.len(),
    ensures
        ids_of(profiles).len() == profiles.len(),
        ids_of(profiles)[i] == profiles[i].id,
{
}

/// A change of model moves the provider of that id to it and touches no other, and nothing else of that one.
pub proof fn a_model_change_touches_one_provider(profiles: Seq<ProfileView>, id: Seq<char>, model: Seq<char>)
    ensures
        remodelled(profiles, id, model).len() == profiles.len(),
        profile_of(profiles, id) matches Some(p) ==> profile_of(remodelled(profiles, id, model), id) == Some(
            ProfileView { model, ..p },
        ),
        forall|i: int|
            0 <= i < profiles.len() ==> {
                let q = #[trigger] remodelled(profiles, id, model)[i];
                q == (ProfileView { model: q.model, ..profiles[i] }) && (profiles[i].id != id ==> q == profiles[i])
            },
    decreases profiles.len(),
{
    if profiles.len() > 0 {
        let rest = profiles.skip(1);
        a_model_change_touches_one_provider(rest, id, model);
        let all = remodelled(profiles, id, model);
        assert forall|i: int| 0 <= i < profiles.len() implies {
            let q = #[trigger] all[i];
            q == (ProfileView { model: q.model, ..profiles[i] }) && (profiles[i].id != id ==> q == profiles[i])
        } by {
            if i > 0 {
                assert(rest[i - 1] == profiles[i]);
                if profiles[0].id != id {
                    assert(all[i] == remodelled(rest, id, model)[i - 1]);
                }
            }
        }
        if profiles[0].id != id {
            assert(all.skip(1) =~= remodelled(rest, id, model));
        }
    }
}

/// A change of model configures no provider that was not.
pub proof fn a_model_change_adds_no_provider(profiles: Seq<ProfileView>, id: Seq<char>, model: Seq<char>)
    requires
        profile_of(profiles, id) is None,
    ensures
        remodelled(profiles, id, model) == profiles,
    decreases profiles.len(),
{
    if profiles.len() > 0 {
        a_model_change_adds_no_provider(profiles.skip(1), id, model);
        assert(seq![profiles[0]] + profiles.skip(1) =~= profiles);
    }
}

/// An effort is taken on only where the active provider was rebuilt with it; then the dial and the status both show it, and
/// the notice names it. Otherwise both stay and the reason is told.
pub proof fn an_effort_is_taken_or_refused(
    swap: ProviderSwap,
    model: Model,
    effort: Effort,
    built: Result<(), String>,
    applied: bool,
    swap2: ProviderSwap,
    model2: Model,
)
    requires
        effort_applied(swap, model, effort, built, applied, swap2, model2),
    ensures
        applied ==> built is Ok && swap.credential is Some && swap2.effort == effort && model2.status.effort == effort
            && model2.transcript@.len() == model.transcript@.len() + 1,
        !applied ==> swap2 == swap && model2.status == model.status && model2.transcript@.len() == model.transcript@.len()
            + 1 && (model2.transcript@.last() matches ItemView::Notice(NoticeLevel::Error, _)),
        built is Ok && swap.credential is Some && swap@.active_profile() is Some ==> applied,
        applied && (swap@.active_profile() matches Some(p) && p.kind != crate::kernel::ProviderKind::Anthropic)
            ==> model2.transcript@.last() == ItemView::Notice(NoticeLevel::Info, "esforço: "@ + effort.name()),
{
}

/// Where a provider has no credential the message names the provider.
pub proof fn a_missing_credential_names_its_provider(id: Seq<char>)
    ensures
        occurs(no_credential(id), id),
        forall|other: Seq<char>| #[trigger] no_credential(other) == no_credential(id) ==> other == id,
{
    let head = "no credential for provider '"@;
    assert(no_credential(id).subrange(head.len() as int, (head.len() + id.len()) as int) =~= id);
    assert(occurs_at(no_credential(id), id, head.len() as int));
    assert forall|other: Seq<char>| #[trigger] no_credential(other) == no_credential(id) implies other == id by {
        let end = "'. Configure it via /provider or set its API-key env var."@;
        assert(no_credential(other).len() == head.len() + other.len() + end.len());
        assert(no_credential(id).len() == head.len() + id.len() + end.len());
        assert(no_credential(other).subrange(head.len() as int, (head.len() + other.len()) as int) =~= other);
    }
}

} // verus!
