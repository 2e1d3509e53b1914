//! Live provider swapping: the provider catalog, and what a model, effort or provider change does to it and to
//! the front-end. The adapters themselves are built outside; whether that worked is handed in.
use vstd::prelude::*;
use crate::application::keymap::pickers::{find_profile, profile_of};
use crate::domain::model::{Model, Status};
use crate::domain::transcript::{ItemView, NoticeLevel};
use crate::infrastructure::runtime::turn::{error, info};
use crate::infrastructure::runtime::provider_laws::{
    a_model_change_adds_no_provider, a_model_change_touches_one_provider,
};
use crate::kernel::{profile_views, AuthMethod, Effort, ProfileView, ProviderKind, ProviderProfile, Secret};
use crate::text::{cat2, cat3, cat5, clone_strings, same, views};

verus! {

/// What opens a provider. A keyless provider needs nothing.
pub enum Credential {
    ApiKey(Secret),
    Keyless,
}

/// A credential's contents.
pub enum CredentialView {
    ApiKey(Seq<char>),
    Keyless,
}

impl View for Credential {
    type V = CredentialView;

    open spec fn view(&self) -> CredentialView {
        match *self {
            Credential::ApiKey(key) => CredentialView::ApiKey(key@),
            Credential::Keyless => CredentialView::Keyless,
        }
    }
}

/// Where a provider's credential was found.
pub enum CredentialResolution {
    Keyless,
    Stored(Credential),
    /// The key came from the environment; saving it may have failed.
    Imported { credential: Credential, failure: Option<String> },
    Absent,
}

/// The provider catalog: every configured provider, the active one, its credential, and the thinking and effort
/// dials. The credential has three states: none during first-run onboarding, keyless for a keyless active
/// provider, and a key for a keyed one.
pub struct ProviderSwap {
    pub providers: Vec<ProviderProfile>,
    pub active: String,
    pub credential: Option<Credential>,
    pub thinking: bool,
    pub effort: Effort,
}

/// The catalog's contents.
pub struct SwapView {
    pub providers: Seq<ProfileView>,
    pub active: Seq<char>,
    pub credential: Option<CredentialView>,
    pub thinking: bool,
    pub effort: Effort,
}

impl View for ProviderSwap {
    type V = SwapView;

    open spec fn view(&self) -> SwapView {
        SwapView {
            providers: profile_views(self.providers@),
            active: self.active@,
            credential: match self.credential {
                Some(c) => Some(c@),
                None => None,
            },
            thinking: self.thinking,
            effort: self.effort,
        }
    }
}

/// The ids of a list of providers.
pub open spec fn ids_of(profiles: Seq<ProfileView>) -> Seq<Seq<char>> {
    Seq::new(profiles.len(), |i: int| profiles[i].id)
}

/// The providers but those with an id.
pub open spec fn without(profiles: Seq<ProfileView>, id: Seq<char>) -> Seq<ProfileView>
    decreases profiles.len(),
{
    if profiles.len() == 0 {
        Seq::empty()
    } else {
        let before = without(profiles.drop_last(), id);
        if profiles.last().id == id {
            before
        } else {
            before.push(profiles.last())
        }
    }
}

/// The providers with the first one of an id moved to another model.
pub open spec fn remodelled(profiles: Seq<ProfileView>, id: Seq<char>, model: Seq<char>) -> Seq<ProfileView>
    decreases profiles.len(),
{
    if profiles.len() == 0 {
        profiles
    } else if profiles[0].id == id {
        seq![ProfileView { model, ..profiles[0] }] + profiles.skip(1)
    } else {
        seq![profiles[0]] + remodelled(profiles.skip(1), id, model)
    }
}

/// The text of a missing credential.
pub open spec fn no_credential(id: Seq<char>) -> Seq<char> {
    "no credential for provider '"@ + id
        + "'. Configure it via /provider or set its API-key env var."@
}

impl SwapView {
    pub open spec fn active_profile(self) -> Option<ProfileView> {
        profile_of(self.providers, self.active)
    }

    /// Why the active provider cannot be rebuilt.
    pub open spec fn rebuild_refusal(self) -> Option<Seq<char>> {
        if self.credential is None {
            Some("configure um provider com /provider antes de mudar o esforço"@)
        } else if self.active_profile() is None {
            Some("no active provider configured"@)
        } else {
            None
        }
    }

    /// The catalog with a provider added, in place of any with its id, and active.
    pub open spec fn with_added(self, profile: ProfileView, credential: CredentialView) -> SwapView {
        SwapView {
            providers: without(self.providers, profile.id).push(profile),
            active: profile.id,
            credential: Some(credential),
            ..self
        }
    }
}

/// The outcome of a live switch: the target's model, and why a key imported from the environment was not saved.
#[derive(Debug, PartialEq, Eq)]
pub struct ProviderSwitch {
    pub model: String,
    pub persist_warning: Option<String>,
}

/// The credential of a provider from where it was found, with why an imported key was not saved. A keyless
/// provider needs no key; a provider with nothing configured is a clear error.
pub fn resolve_credential(
    profile: &ProviderProfile,
    found: Result<CredentialResolution, String>,
) -> (r: Result<(Credential, Option<String>), String>)
    ensures
        match found {
            Ok(CredentialResolution::Keyless) => r matches Ok(c) && c.0 is Keyless && c.1 is None,
            Ok(CredentialResolution::Stored(credential)) => r == Ok::<(Credential, Option<String>), String>(
                (credential, None),
            ),
            Ok(CredentialResolution::Imported { credential, failure }) => r == Ok::<
                (Credential, Option<String>),
                String,
            >((credential, failure)),
            Ok(CredentialResolution::Absent) => r matches Err(e) && e@ == no_credential(profile.id@),
            Err(e) => r matches Err(f) && f == e,
        },
{
    match found {
        Ok(CredentialResolution::Keyless) => Ok((Credential::Keyless, None)),
        Ok(CredentialResolution::Stored(credential)) => Ok((credential, None)),
        Ok(CredentialResolution::Imported { credential, failure }) => Ok((credential, failure)),
        Ok(CredentialResolution::Absent) => Err(
            cat3(
                "no credential for provider '",
                profile.id.as_str(),
                "'. Configure it via /provider or set its API-key env var.",
            ),
        ),
        Err(failure) => Err(failure),
    }
}

/// The catalog's move to another provider. It is committed only where the provider is known, its credential was
/// found and its adapter was built.
pub open spec fn switched(
    old: SwapView,
    id: Seq<char>,
    found: Result<(Credential, Option<String>), String>,
    built: Result<(), String>,
    r: Result<ProviderSwitch, String>,
    new: SwapView,
) -> bool {
    match profile_of(old.providers, id) {
        None => new == old && (r matches Err(e) && e@ == "provider '"@ + id + "' is not configured"@),
        Some(profile) => match found {
            Err(f) => new == old && r == Err::<ProviderSwitch, String>(f),
            Ok(c) => match built {
                Err(f) => new == old && r == Err::<ProviderSwitch, String>(f),
                Ok(_) => {
                    &&& new == (SwapView { active: id, credential: Some(c.0@), ..old })
                    &&& r matches Ok(s) && s.model@ == profile.model && s.persist_warning == c.1
                },
            },
        },
    }
}

/// The catalog's gain of a provider. It is committed only where the adapter was built and the key, where there is
/// one, was stored.
pub open spec fn added(
    old: SwapView,
    profile: ProfileView,
    credential: CredentialView,
    built: Result<(), String>,
    stored: Result<(), String>,
    r: Result<String, String>,
    new: SwapView,
) -> bool {
    match built {
        Err(f) => new == old && r == Err::<String, String>(f),
        Ok(_) => if credential is ApiKey && stored is Err {
            new == old && r == Err::<String, String>(stored->Err_0)
        } else {
            new == old.with_added(profile, credential) && (r matches Ok(model) && model@ == profile.model)
        },
    }
}

/// What the secret store gets when a provider is saved.
#[derive(Debug, Clone, Copy, PartialEq, Eq, Structural)]
pub enum StoreAction {
    /// No call.
    Leave,
    /// The credential is set; a failure fails the save.
    Store,
    /// A stale key of the provider is deleted; a failure is ignored.
    Forget,
}

/// What the secret store gets when a provider is saved. Nothing where its adapter was not built, so that no credential
/// is left behind for a provider that was not added; a keyless provider stores nothing, and a stale key of an earlier
/// keyed one goes.
pub fn store_action(built: bool, credential: &Credential) -> (r: StoreAction)
    ensures
        r == if !built {
            StoreAction::Leave
        } else if credential@ is ApiKey {
            StoreAction::Store
        } else {
            StoreAction::Forget
        },
{
    if !built {
        return StoreAction::Leave;
    }
    match credential {
        Credential::ApiKey(_) => StoreAction::Store,
        Credential::Keyless => StoreAction::Forget,
    }
}

impl ProviderSwap {
    pub fn new(
        providers: Vec<ProviderProfile>,
        active: String,
        credential: Option<Credential>,
        thinking: bool,
        effort: Effort,
    ) -> (r: ProviderSwap)
        ensures
            r == (ProviderSwap { providers, active, credential, thinking, effort }),
    {
        ProviderSwap { providers, active, credential, thinking, effort }
    }

    pub fn active_profile(&self) -> (r: Option<&ProviderProfile>)
        ensures
            match r {
                Some(p) => self@.active_profile() == Some(p@),
                None => self@.active_profile() is None,
            },
    {
        find_profile(&self.providers, self.active.as_str())
    }

    /// The configured provider ids, in catalog order: the `/provider` picker's options.
    pub fn provider_ids(&self) -> (r: Vec<String>)
        ensures
            views(r@) == ids_of(self@.providers),
    {
        let mut ids: Vec<String> = Vec::new();
        for i in 0..self.providers.len()
            invariant
                ids@.len() == i,
                forall|j: int| 0 <= j < i ==> #[trigger] ids@[j]@ == self.providers@[j].id@,
        {
            ids.push(self.providers[i].id.clone());
        }
        assert(views(ids@) =~= ids_of(self@.providers));
        ids
    }

    /// Whether the active provider can be rebuilt: without a live credential there is nothing to rebuild.
    pub fn rebuildable(&self) -> (r: Result<(), String>)
        ensures
            match r {
                Ok(_) => self@.rebuild_refusal() is None,
                Err(e) => self@.rebuild_refusal() == Some(e@),
            },
    {
        if self.credential.is_none() {
            return Err("configure um provider com /provider antes de mudar o esforço".to_owned());
        }
        if self.active_profile().is_none() {
            return Err("no active provider configured".to_owned());
        }
        Ok(())
    }

    /// Commit a new effort once the active provider was rebuilt with it. Where it cannot be, or the rebuild
    /// failed, the dial stays untouched.
    pub fn rebuild_with_effort(&mut self, effort: Effort, built: Result<(), String>) -> (r: Result<(), String>)
        ensures
            match old(self)@.rebuild_refusal() {
                Some(refusal) => *final(self) == *old(self) && (r matches Err(e) && e@ == refusal),
                None => match built {
                    Err(f) => *final(self) == *old(self) && r == Err::<(), String>(f),
                    Ok(_) => *final(self) == (ProviderSwap { effort, ..*old(self) }) && r is Ok,
                },
            },
    {
        if let Err(refusal) = self.rebuildable() {
            return Err(refusal);
        }
        if let Err(failure) = built {
            return Err(failure);
        }
        self.effort = effort;
        Ok(())
    }

    /// Switch the active provider to `id`, given its credential and whether its adapter was built.
    pub fn switch_to(
        &mut self,
        id: &str,
        found: Result<(Credential, Option<String>), String>,
        built: Result<(), String>,
    ) -> (r: Result<ProviderSwitch, String>)
        ensures
            switched(old(self)@, id@, found, built, r, final(self)@),
            final(self).providers == old(self).providers,
    {
        let model: String = match find_profile(&self.providers, id) {
            None => {
                return Err(cat3("provider '", id, "' is not configured"));
            },
            Some(profile) => profile.model.clone(),
        };
        let (credential, persist_warning): (Credential, Option<String>) = match found {
            Err(failure) => {
                return Err(failure);
            },
            Ok(pair) => pair,
        };
        if let Err(failure) = built {
            return Err(failure);
        }
        self.active = id.to_owned();
        self.credential = Some(credential);
        Ok(ProviderSwitch { model, persist_warning })
    }

    /// Add a provider, in place of any with its id, and make it active, given whether its adapter was built and
    /// its key stored. A keyless provider stores nothing.
    pub fn add_and_activate(
        &mut self,
        profile: ProviderProfile,
        credential: Credential,
        built: Result<(), String>,
        stored: Result<(), String>,
    ) -> (r: Result<String, String>)
        ensures
            added(old(self)@, profile@, credential@, built, stored, r, final(self)@),
    {
        if let Err(failure) = built {
            return Err(failure);
        }
        if matches!(&credential, Credential::ApiKey(_)) {
            if let Err(failure) = stored {
                return Err(failure);
            }
        }
        let id: String = profile.id.clone();
        let model: String = profile.model.clone();
        let ghost all = profile_views(self.providers@);
        let mut kept: Vec<ProviderProfile> = Vec::new();
        let mut i: usize = 0;
        assert(profile_views(kept@) =~= without(all.take(0), id@));
        while i < self.providers.len()
            invariant
                i <= self.providers@.len(),
                *self == *old(self),
                all == profile_views(self.providers@),
                profile_views(kept@) == without(all.take(i as int), id@),
            decreases self.providers@.len() - i,
        {
            let ghost next = all.take(i + 1);
            assert(next.drop_last() =~= all.take(i as int));
            assert(next.last() == self.providers@[i as int]@);
            if !same(self.providers[i].id.as_str(), id.as_str()) {
                let ghost before = kept@;
                kept.push(self.providers[i].duplicate());
                assert(profile_views(kept@) =~= profile_views(before).push(next.last()));
            }
            i = i + 1;
        }
        assert(all.take(all.len() as int) =~= all);
        let ghost before = kept@;
        kept.push(profile);
        assert(profile_views(kept@) =~= profile_views(before).push(profile@));
        self.providers = kept;
        self.active = id;
        self.credential = Some(credential);
        Ok(model)
    }

    /// Move the active provider to another model.
    pub fn set_active_model(&mut self, model: &str)
        ensures
            final(self)@ == (SwapView {
                providers: remodelled(old(self)@.providers, old(self)@.active, model@),
                ..old(self)@
            }),
    {
        let ghost all = profile_views(self.providers@);
        let ghost id = self.active@;
        let mut i: usize = 0;
        assert(all.skip(0) =~= all);
        assert(all.take(0) + remodelled(all, id, model@) =~= remodelled(all, id, model@));
        while i < self.providers.len()
            invariant
                i <= self.providers@.len(),
                *self == *old(self),
                all == profile_views(self.providers@),
                id == self.active@,
                remodelled(all, id, model@) == all.take(i as int) + remodelled(
                    all.skip(i as int),
                    id,
                    model@,
                ),
            decreases self.providers@.len() - i,
        {
            let ghost rest = all.skip(i as int);
            assert(rest[0] == self.providers@[i as int]@);
            assert(rest.skip(1) =~= all.skip(i + 1));
            if same(self.providers[i].id.as_str(), self.active.as_str()) {
                let mut profile: ProviderProfile = self.providers[i].duplicate();
                profile.model = model.to_owned();
                let ghost new = profile;
                self.providers.set(i, profile);
                assert(new@ == (ProfileView { model: model@, ..rest[0] }));
                assert(profile_views(self.providers@) =~= all.take(i as int) + (seq![new@] + rest.skip(1)));
                return ;
            }
            assert(all.take(i as int) + (seq![rest[0]] + remodelled(all.skip(i + 1), id, model@))
                =~= all.take(i + 1) + remodelled(all.skip(i + 1), id, model@));
            i = i + 1;
        }
        assert(all.take(all.len() as int) + remodelled(all.skip(all.len() as int), id, model@) =~= all);
    }
}

/// Surface a failure to persist as an error notice, or stay silent on success: the one way that every change takes,
/// so that a failed write is never swallowed.
pub fn persist_or_notice(result: Result<(), String>, model: &mut Model, context: &str)
    requires
        old(model).wf(),
    ensures
        match result {
            Ok(_) => *final(model) == *old(model),
            Err(e) => old(model).posted(*final(model), NoticeLevel::Error, context@ + ": "@ + e@),
        },
        final(model).wf(),
{
    if let Err(failure) = result {
        model.notify_error(cat3(context, ": ", failure.as_str()));
    }
}

/// The text of an imported key that was not saved.
pub open spec fn import_failure(error: Seq<char>) -> Seq<char> {
    "a chave importada do ambiente não foi salva: "@ + error
}

/// Surface an imported key that was not saved, or stay silent where it was (or nothing was imported).
pub fn notice_env_import_failure(warning: Option<String>, model: &mut Model)
    requires
        old(model).wf(),
    ensures
        match warning {
            None => *final(model) == *old(model),
            Some(e) => old(model).posted(*final(model), NoticeLevel::Error, import_failure(e@)),
        },
        final(model).wf(),
{
    if let Some(failure) = warning {
        model.notify_error(cat2("a chave importada do ambiente não foi salva: ", failure.as_str()));
    }
}

/// Apply a `/models` selection: the change is live at once, needs no rebuild, and shows in the status line.
pub fn apply_set_model(swap: &mut ProviderSwap, model: &mut Model, model_id: String)
    requires
        old(model).wf(),
    ensures
        final(swap)@ == (SwapView {
            providers: remodelled(old(swap)@.providers, old(swap)@.active, model_id@),
            ..old(swap)@
        }),
        *final(model) == (Model {
            status: Status { model: model_id, ..old(model).status },
            transcript: final(model).transcript,
            ..*old(model)
        }),
        final(model).transcript@ == old(model).transcript@.push(info("modelo: "@ + model_id@)),
        // The status shows the model that the active provider now has.
        final(swap)@.active_profile() matches Some(p) ==> final(model).status.model@ == p.model,
        final(swap)@.active_profile() is Some == old(swap)@.active_profile() is Some,
        final(model).wf(),
{
    swap.set_active_model(model_id.as_str());
    proof {
        a_model_change_touches_one_provider(old(swap)@.providers, old(swap)@.active, model_id@);
        if old(swap)@.active_profile() is None {
            a_model_change_adds_no_provider(old(swap)@.providers, old(swap)@.active, model_id@);
        }
    }
    let notice: String = cat2("modelo: ", model_id.as_str());
    model.status.model = model_id;
    model.notify_info(notice);
}

/// The notice of a new effort. A provider that does not read the dial yet says so, rather than silently appearing
/// to change nothing.
pub open spec fn effort_notice(effort: Effort, active: Option<ProfileView>) -> Seq<char> {
    if active matches Some(p) && p.kind == ProviderKind::Anthropic {
        "esforço: "@ + effort.name() + " — nota: ainda não afeta modelos Anthropic"@
    } else {
        "esforço: "@ + effort.name()
    }
}

/// What an effort change does: it is committed only where the active provider was rebuilt with it.
pub open spec fn effort_applied(
    swap: ProviderSwap,
    model: Model,
    effort: Effort,
    built: Result<(), String>,
    applied: bool,
    swap2: ProviderSwap,
    model2: Model,
) -> bool {
    let failed = |e: Seq<char>|
        !applied && swap2 == swap && model.posted(
            model2,
            NoticeLevel::Error,
            "não foi possível aplicar o esforço: "@ + e,
        );
    match swap@.rebuild_refusal() {
        Some(refusal) => failed(refusal),
        None => match built {
            Err(f) => failed(f@),
            Ok(_) => {
                &&& applied
                &&& swap2 == (ProviderSwap { effort, ..swap })
                &&& model2 == (Model {
                    status: Status { effort, ..model.status },
                    transcript: model2.transcript,
                    ..model
                })
                &&& model2.transcript@ == model.transcript@.push(
                    info(effort_notice(effort, swap@.active_profile())),
                )
            },
        },
    }
}

/// Apply an `/effort` selection. Effort is baked into the adapter, which is rebuilt first; a failure leaves the
/// current provider untouched. Says whether the effort was applied and so is to be persisted.
pub fn apply_set_effort(
    swap: &mut ProviderSwap,
    model: &mut Model,
    effort: Effort,
    built: Result<(), String>,
) -> (r: bool)
    requires
        old(model).wf(),
    ensures
        effort_applied(*old(swap), *old(model), effort, built, r, *final(swap), *final(model)),
        final(model).wf(),
{
    let is_anthropic: bool = match swap.active_profile() {
        Some(profile) => profile.kind == ProviderKind::Anthropic,
        None => false,
    };
    match swap.rebuild_with_effort(effort, built) {
        Ok(_) => {
            model.status.effort = effort;
            let note: String = if is_anthropic {
                cat3("esforço: ", effort.label(), " — nota: ainda não afeta modelos Anthropic")
            } else {
                cat2("esforço: ", effort.label())
            };
            model.notify_info(note);
            true
        },
        Err(failure) => {
            model.notify_error(cat2("não foi possível aplicar o esforço: ", failure.as_str()));
            false
        },
    }
}

/// The model catalog of a provider; none without one.
pub open spec fn models_of(profile: Option<ProfileView>) -> Seq<Seq<char>> {
    match profile {
        Some(p) => p.models,
        None => Seq::empty(),
    }
}

/// The notices of a switch: the provider and its model, and an imported key that was not saved.
pub open spec fn switch_notices(id: Seq<char>, model: Seq<char>, warning: Option<String>) -> Seq<ItemView> {
    let moved = seq![info("provider: "@ + id + " ("@ + model + ")"@)];
    match warning {
        Some(e) => moved.push(error(import_failure(e@))),
        None => moved,
    }
}

/// What the front-end shows of a switch, given what came of it.
pub open spec fn switch_shown(
    old: Model,
    id: Seq<char>,
    outcome: Result<ProviderSwitch, String>,
    catalog: Seq<Seq<char>>,
    new: Model,
) -> bool {
    match outcome {
        Ok(s) => {
            &&& new == (Model {
                status: Status {
                    model: new.status.model,
                    provider: new.status.provider,
                    ..old.status
                },
                models: new.models,
                transcript: new.transcript,
                ..old
            })
            &&& new.status.model@ == s.model@
            &&& new.status.provider@ == id
            &&& views(new.models@) == catalog
            &&& new.transcript@ == old.transcript@ + switch_notices(id, s.model@, s.persist_warning)
        },
        Err(e) => old.posted(new, NoticeLevel::Error, "não foi possível trocar de provider: "@ + e@),
    }
}

/// Apply a `/provider` switch, adopting the target's model and catalog. A missing credential or an unknown id is
/// announced, never a silent no-op. Says whether the switch was made and so is to be persisted.
pub fn apply_set_provider(
    swap: &mut ProviderSwap,
    model: &mut Model,
    id: &str,
    found: Result<(Credential, Option<String>), String>,
    built: Result<(), String>,
) -> (r: bool)
    requires
        old(model).wf(),
    ensures
        exists|outcome: Result<ProviderSwitch, String>| #[trigger]
            switched(old(swap)@, id@, found, built, outcome, final(swap)@) && switch_shown(
                *old(model),
                id@,
                outcome,
                models_of(final(swap)@.active_profile()),
                *final(model),
            ) && r == (outcome is Ok),
        // What is shown is what is active.
        r ==> final(model).status.provider@ == final(swap)@.active && final(swap)@.active == id@,
        r ==> (final(swap)@.active_profile() matches Some(p) ==> final(model).status.model@ == p.model && views(
            final(model).models@,
        ) == p.models),
        !r ==> final(swap)@ == old(swap)@ && final(model).status == old(model).status,
        final(model).wf(),
{
    let outcome: Result<ProviderSwitch, String> = swap.switch_to(id, found, built);
    let ghost made = outcome;
    match outcome {
        Ok(switch) => {
            let catalog: Vec<String> = match swap.active_profile() {
                Some(profile) => clone_strings(&profile.models),
                None => Vec::new(),
            };
            assert(views(catalog@) =~= models_of(swap@.active_profile()));
            let notice: String = cat5("provider: ", id, " (", switch.model.as_str(), ")");
            model.status.model = switch.model;
            model.status.provider = id.to_owned();
            model.models = catalog;
            model.notify_info(notice);
            notice_env_import_failure(switch.persist_warning, model);
            assert(model.transcript@ =~= old(model).transcript@ + switch_notices(
                id@,
                made->Ok_0.model@,
                made->Ok_0.persist_warning,
            ));
            assert(switch_shown(*old(model), id@, made, models_of(swap@.active_profile()), *model));
            true
        },
        Err(failure) => {
            model.notify_error(cat2("não foi possível trocar de provider: ", failure.as_str()));
            assert(switch_shown(*old(model), id@, made, models_of(swap@.active_profile()), *model));
            false
        },
    }
}

/// The credential of a provider being saved: a keyed one takes the key staged by the wizard, or else the one kept
/// from before; a keyless one drops any stray key. A missing key and an unsupported method are announced.
pub fn take_credential(model: &mut Model, auth: AuthMethod, kept: Option<Credential>) -> (r: Option<Credential>)
    requires
        old(model).wf(),
    ensures
        match auth {
            AuthMethod::ApiKey => match old(model).pending_credential {
                Some(key) => {
                    &&& r == Some(Credential::ApiKey(key))
                    &&& *final(model) == (Model { pending_credential: None, ..*old(model) })
                },
                None => match kept {
                    Some(credential) => r == Some(credential) && *final(model) == *old(model),
                    None => r is None && old(model).posted(
                        *final(model),
                        NoticeLevel::Error,
                        "chave ausente; provider não foi salvo"@,
                    ),
                },
            },
            AuthMethod::Keyless => {
                &&& r matches Some(c) && c is Keyless
                &&& *final(model) == (Model { pending_credential: None, ..*old(model) })
            },
            AuthMethod::OAuth => {
                &&& r is None
                &&& (Model { pending_credential: None, ..*old(model) }).posted(
                    *final(model),
                    NoticeLevel::Error,
                    "método de auth não suportado pelo wizard (OAuth); provider não foi salvo"@,
                )
            },
        },
        // A staged key is used up or dropped, and never left lying.
        final(model).pending_credential is None,
        r is None ==> final(model).transcript@.len() == old(model).transcript@.len() + 1,
        r is Some ==> final(model).transcript == old(model).transcript,
        final(model).wf(),
{
    match auth {
        AuthMethod::ApiKey => {
            if let Some(key) = model.pending_credential.take() {
                return Some(Credential::ApiKey(key));
            }
            if kept.is_none() {
                model.notify_error("chave ausente; provider não foi salvo".to_owned());
            }
            kept
        },
        AuthMethod::Keyless => {
            model.pending_credential = None;
            Some(Credential::Keyless)
        },
        AuthMethod::OAuth => {
            model.pending_credential = None;
            model.notify_error(
                "método de auth não suportado pelo wizard (OAuth); provider não foi salvo".to_owned(),
            );
            None
        },
    }
}

/// What the front-end shows of a saved provider, given what came of it.
pub open spec fn save_shown(
    old: Model,
    profile: ProfileView,
    outcome: Result<String, String>,
    ids: Seq<Seq<char>>,
    new: Model,
) -> bool {
    match outcome {
        Ok(model) => {
            &&& new == (Model {
                unconfigured: false,
                status: Status {
                    model: new.status.model,
                    provider: new.status.provider,
                    ..old.status
                },
                models: new.models,
                providers: new.providers,
                transcript: new.transcript,
                ..old
            })
            &&& new.status.model@ == model@
            &&& new.status.provider@ == profile.id
            &&& views(new.models@) == profile.models
            &&& views(new.providers@) == ids
            &&& new.transcript@ == old.transcript@.push(
                info("provider '"@ + profile.id + "' adicionado e ativo"@),
            )
        },
        Err(e) => old.posted(new, NoticeLevel::Error, "não foi possível salvar o provider: "@ + e@),
    }
}

/// Apply a saved provider: add it, make it active, and let the user into the normal chat. A failure is announced
/// and changes nothing. Says whether it was saved and so is to be persisted.
pub fn apply_save_provider(
    swap: &mut ProviderSwap,
    model: &mut Model,
    profile: &ProviderProfile,
    credential: Credential,
    built: Result<(), String>,
    stored: Result<(), String>,
) -> (r: bool)
    requires
        old(model).wf(),
    ensures
        exists|outcome: Result<String, String>| #[trigger]
            added(old(swap)@, profile@, credential@, built, stored, outcome, final(swap)@) && save_shown(
                *old(model),
                profile@,
                outcome,
                ids_of(final(swap)@.providers),
                *final(model),
            ) && r == (outcome is Ok),
        // What is shown is what is active.
        r ==> final(model).status.provider@ == final(swap)@.active && final(swap)@.active == profile@.id,
        r ==> final(model).status.model@ == profile@.model && !final(model).unconfigured,
        r ==> views(final(model).providers@).contains(profile@.id),
        !r ==> final(swap)@ == old(swap)@ && final(model).unconfigured == old(model).unconfigured,
        final(model).wf(),
{
    let outcome: Result<String, String> = swap.add_and_activate(
        profile.duplicate(),
        credential,
        built,
        stored,
    );
    let ghost made = outcome;
    match outcome {
        Ok(target_model) => {
            model.unconfigured = false;
            model.status.model = target_model;
            model.status.provider = profile.id.clone();
            model.models = clone_strings(&profile.models);
            model.providers = swap.provider_ids();
            model.notify_info(cat3("provider '", profile.id.as_str(), "' adicionado e ativo"));
            assert(save_shown(*old(model), profile@, made, ids_of(swap@.providers), *model));
            assert(ids_of(swap@.providers).last() == profile@.id);
            assert(views(model.providers@)[views(model.providers@).len() - 1] == profile@.id);
            true
        },
        Err(failure) => {
            model.notify_error(cat2("não foi possível salvar o provider: ", failure.as_str()));
            assert(save_shown(*old(model), profile@, made, ids_of(swap@.providers), *model));
            false
        },
    }
}

/// A switch that fails leaves the catalog as it was.
pub proof fn a_failed_switch_changes_nothing(
    old: SwapView,
    id: Seq<char>,
    found: Result<(Credential, Option<String>), String>,
    built: Result<(), String>,
    r: Result<ProviderSwitch, String>,
    new: SwapView,
)
    requires
        switched(old, id, found, built, r, new),
    ensures
        r is Err ==> new == old,
        r is Ok ==> new.active == id && new.active_profile() is Some && new.providers == old.providers,
{
}

proof fn lookup_after_removal(profiles: Seq<ProfileView>, profile: ProfileView)
    ensures
        profile_of(without(profiles, profile.id).push(profile), profile.id) == Some(profile),
        forall|i: int|
            0 <= i < without(profiles, profile.id).len() ==> (#[trigger] without(profiles, profile.id)[i]).id
                != profile.id,
    decreases profiles.len(),
{
    removal_is_thorough(profiles, profile.id);
    lookup_of_last(without(profiles, profile.id), profile);
}

proof fn removal_is_thorough(profiles: Seq<ProfileView>, id: Seq<char>)
    ensures
        forall|i: int| 0 <= i < without(profiles, id).len() ==> (#[trigger] without(profiles, id)[i]).id != id,
    decreases profiles.len(),
{
    if profiles.len() > 0 {
        removal_is_thorough(profiles.drop_last(), id);
    }
}

proof fn lookup_of_last(others: Seq<ProfileView>, profile: ProfileView)
    requires
        forall|i: int| 0 <= i < others.len() ==> (#[trigger] others[i]).id != profile.id,
    ensures
        profile_of(others.push(profile), profile.id) == Some(profile),
    decreases others.len(),
{
    let all = others.push(profile);
    if others.len() > 0 {
        assert(all[0] == others[0]);
        assert(all.skip(1) =~= others.skip(1).push(profile));
        lookup_of_last(others.skip(1), profile);
    } else {
        assert(all[0] == profile);
    }
}

/// A saved provider is the active one, and the only one with its id.
pub proof fn a_saved_provider_is_active(
    old: SwapView,
    profile: ProfileView,
    credential: CredentialView,
    built: Result<(), String>,
    stored: Result<(), String>,
    r: Result<String, String>,
    new: SwapView,
)
    requires
        added(old, profile, credential, built, stored, r, new),
    ensures
        r is Err ==> new == old,
        r is Ok ==> {
            &&& new.active_profile() == Some(profile)
            &&& new.rebuild_refusal() is None
            &&& forall|i: int|
                0 <= i < new.providers.len() && (#[trigger] new.providers[i]).id == profile.id ==> i
                    == new.providers.len() - 1
        },
{
    if r is Ok {
        lookup_after_removal(old.providers, profile);
        let others = without(old.providers, profile.id);
        assert forall|i: int|
            0 <= i < new.providers.len() && (#[trigger] new.providers[i]).id == profile.id implies i
            == new.providers.len() - 1 by {
            if i < others.len() {
                assert(others[i].id != profile.id);
            }
        }
    }
}

/// A keyless save never depends on the secret store.
pub proof fn a_keyless_save_ignores_the_store(
    old: SwapView,
    profile: ProfileView,
    built: Result<(), String>,
    stored: Result<(), String>,
    r: Result<String, String>,
    new: SwapView,
)
    requires
        added(old, profile, CredentialView::Keyless, built, stored, r, new),
    ensures
        r is Ok <==> built is Ok,
{
}

/// Without a credential the effort dial stays where it is, and the user learns why.
pub proof fn effort_needs_a_credential(
    swap: ProviderSwap,
    model: Model,
    effort: Effort,
    built: Result<(), String>,
    applied: bool,
    swap2: ProviderSwap,
    model2: Model,
)
    requires
        effort_applied(swap, model, effort, built, applied, swap2, model2),
        swap.credential is None,
    ensures
        !applied,
        swap2.effort == swap.effort,
        model2.status == model.status,
        model2.transcript@.len() == model.transcript@.len() + 1,
        model2.transcript@.last() is Notice,
{
}

} // verus!
