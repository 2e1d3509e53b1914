//! The add-provider wizard.
use vstd::prelude::*;
use vstd::string::*;
use crate::domain::input::KeyPress;
use crate::domain::input_buffer::{pasted_lines, translated, EditorView, InputBuffer};
use crate::domain::nav::{wrapped, wrapping_step};
use crate::kernel::{AuthMethod, ProviderKind, ProviderProfile};
use crate::text::{
    ascii_lowercase, cat2, char_count, chars_of, contains, join, join_of_split, occurs_at, same, split, split_of_clean,
    split_on, string_of, strip_ends, to_ascii_lowercase, trim, trim_char, trimmed, views, wipe, wipe_all, without_cr,
};

verus! {

/// The last row of the `/provider` picker: selecting it opens the add-provider wizard instead of switching.
/// A sentinel label, never a real provider id.
pub const ADD_PROVIDER_LABEL: &'static str = "+ adicionar novo provider";

/// The provider kinds the wizard offers, in display order. NVIDIA leads (the seeded default), so it is
/// preselected at first-run onboarding; the rest follow. Vendor kinds require an API key; the generic
/// OpenAI-compatible and custom kinds may be keyless: the typed key decides.
pub const WIZARD_KINDS: [ProviderKind; 5] = [
    ProviderKind::Nvidia,
    ProviderKind::Anthropic,
    ProviderKind::Openai,
    ProviderKind::OpenAiCompatible,
    ProviderKind::Custom,
];

/// The steps of the add-provider wizard, in order. `ProviderId` is shown only for the keyless-capable kinds,
/// so the user can name several coexisting endpoints; vendor kinds use a canonical id and skip it.
#[derive(Debug, Clone, Copy, PartialEq, Eq, Structural)]
pub enum WizardStep {
    Kind,
    ProviderId,
    BaseUrl,
    Model,
    ExtraModels,
    /// Boolean chooser: whether to enable thinking/reasoning for this provider.
    Thinking,
    ApiKey,
}

impl WizardStep {
    /// The step edits a text field rather than offering a choice.
    pub open spec fn edits_text(self) -> bool {
        self != WizardStep::Kind && self != WizardStep::Thinking
    }
}

/// The add-provider wizard's accumulated state. Each text step edits `draft`, which is committed to the
/// step's own field; the `Kind` step moves `kind_selected`. The wizard has no `Debug`: its textual form is
/// [`ProviderWizard::debug_text`], which leaves the API key out.
pub struct ProviderWizard {
    pub step: WizardStep,
    pub kind_selected: usize,
    /// The user-chosen provider id (keyless-capable kinds only; vendor kinds use a canonical token).
    pub id: String,
    pub base_url: String,
    pub model: String,
    pub extra_models: String,
    pub api_key: String,
    /// Whether thinking/reasoning is enabled for this provider. Toggled on the `Thinking` step.
    pub thinking: bool,
    /// True when the wizard is the first-run onboarding flow (welcome framing; cancelling keeps the submit
    /// gate up instead of stranding a credential-less app).
    pub onboarding: bool,
    /// True when editing an existing provider. In this mode the `Kind` step is skipped, the fields are
    /// pre-populated, and a blank `api_key` on the final step means "keep the existing key".
    pub edit_mode: bool,
    /// True when the profile being edited already had an API key. A keyless-capable kind requires none, so
    /// without this the final step could not tell "never had a key" from "has a key I'm keeping".
    pub had_key: bool,
    /// The editor of the current text step.
    pub draft: InputBuffer,
}

impl Clone for ProviderWizard {
    fn clone(&self) -> (r: ProviderWizard)
        ensures
            r@ == self@,
            r.draft == self.draft,
    {
        ProviderWizard {
            step: self.step,
            kind_selected: self.kind_selected,
            id: self.id.clone(),
            base_url: self.base_url.clone(),
            model: self.model.clone(),
            extra_models: self.extra_models.clone(),
            api_key: self.api_key.clone(),
            thinking: self.thinking,
            onboarding: self.onboarding,
            edit_mode: self.edit_mode,
            had_key: self.had_key,
            draft: self.draft.clone(),
        }
    }
}

/// Wizards are equal when they have come to the same step with the same answers. The editor of the step, with its
/// cursor and its edits, does not count.
impl PartialEq for ProviderWizard {
    fn eq(&self, other: &ProviderWizard) -> (r: bool) {
        self.step == other.step && self.kind_selected == other.kind_selected && self.id == other.id
            && self.base_url == other.base_url && self.model == other.model && self.extra_models
            == other.extra_models && self.api_key == other.api_key && self.thinking == other.thinking
            && self.onboarding == other.onboarding && self.edit_mode == other.edit_mode && self.had_key
            == other.had_key
    }
}

impl vstd::std_specs::cmp::PartialEqSpecImpl for ProviderWizard {
    open spec fn obeys_eq_spec() -> bool {
        true
    }

    open spec fn eq_spec(&self, other: &ProviderWizard) -> bool {
        self@.same_answers(other@)
    }
}

impl Eq for ProviderWizard {

}

/// The contents of a wizard.
pub struct WizardView {
    pub step: WizardStep,
    pub kind_selected: int,
    pub id: Seq<char>,
    pub base_url: Seq<char>,
    pub model: Seq<char>,
    pub extra_models: Seq<char>,
    pub api_key: Seq<char>,
    pub thinking: bool,
    pub onboarding: bool,
    pub edit_mode: bool,
    pub had_key: bool,
    pub draft: EditorView,
}

impl View for ProviderWizard {
    type V = WizardView;

    open spec fn view(&self) -> WizardView {
        WizardView {
            step: self.step,
            kind_selected: self.kind_selected as int,
            id: self.id@,
            base_url: self.base_url@,
            model: self.model@,
            extra_models: self.extra_models@,
            api_key: self.api_key@,
            thinking: self.thinking,
            onboarding: self.onboarding,
            edit_mode: self.edit_mode,
            had_key: self.had_key,
            draft: self.draft@,
        }
    }
}

/// The kind of a highlighted row; rows past the last count as the last.
pub open spec fn kind_at(selected: int) -> ProviderKind {
    if selected < WIZARD_KINDS@.len() {
        WIZARD_KINDS@[selected]
    } else {
        WIZARD_KINDS@[4]
    }
}

/// The row of a kind.
pub open spec fn row_of(kind: ProviderKind) -> int {
    match kind {
        ProviderKind::Nvidia => 0,
        ProviderKind::Anthropic => 1,
        ProviderKind::Openai => 2,
        ProviderKind::OpenAiCompatible => 3,
        ProviderKind::Custom => 4,
    }
}

/// A character of a stable provider id.
pub open spec fn id_char(c: char) -> bool {
    ('a' <= c <= 'z') || ('A' <= c <= 'Z') || ('0' <= c <= '9') || c == '-' || c == '_'
}

/// Each character that an id cannot hold replaced by a dash.
pub open spec fn dashed(s: Seq<char>) -> Seq<char> {
    Seq::new(
        s.len(),
        |i: int|
            if id_char(s[i]) {
                s[i]
            } else {
                '-'
            },
    )
}

/// The stable `[a-z0-9_-]` token of a typed id; blank where nothing usable was typed.
pub open spec fn id_token(id: Seq<char>) -> Seq<char> {
    strip_ends(dashed(ascii_lowercase(trim(id))), '-')
}

/// The catalog `models` with the trimmed `m` behind it, unless blank or already there.
pub open spec fn with_model(models: Seq<Seq<char>>, m: Seq<char>) -> Seq<Seq<char>> {
    let t = trim(m);
    if t.len() == 0 || models.contains(t) {
        models
    } else {
        models.push(t)
    }
}

/// The catalog `models` with each of `more` behind it.
pub open spec fn with_models(models: Seq<Seq<char>>, more: Seq<Seq<char>>) -> Seq<Seq<char>>
    decreases more.len(),
{
    if more.len() == 0 {
        models
    } else {
        with_model(with_models(models, more.drop_last()), more.last())
    }
}

/// The default model first, then the comma-separated extras.
pub open spec fn model_catalog(model: Seq<char>, extras: Seq<char>) -> Seq<Seq<char>> {
    with_models(with_model(Seq::empty(), model), split_on(extras, ','))
}

/// The models other than the default, with a comma and a blank between each two.
pub open spec fn other_models(models: Seq<Seq<char>>, model: Seq<char>) -> Seq<char>
    decreases models.len(),
{
    if models.len() == 0 {
        Seq::empty()
    } else {
        let before = other_models(models.drop_last(), model);
        if models.last() == model {
            before
        } else if has_other(models.drop_last(), model) {
            before + ", "@ + models.last()
        } else {
            models.last()
        }
    }
}

/// Some model of the list is not the default one.
pub open spec fn has_other(models: Seq<Seq<char>>, model: Seq<char>) -> bool {
    exists|i: int| 0 <= i < models.len() && #[trigger] models[i] != model
}

/// A control character (Unicode general category Cc).
pub open spec fn is_control(c: char) -> bool {
    c <= '\u{1f}' || ('\u{7f}' <= c <= '\u{9f}')
}

/// A text without its control characters.
pub open spec fn printable(s: Seq<char>) -> Seq<char>
    decreases s.len(),
{
    if s.len() == 0 {
        s
    } else if is_control(s.last()) {
        printable(s.drop_last())
    } else {
        printable(s.drop_last()).push(s.last())
    }
}

impl WizardView {
    pub open spec fn wf(self) -> bool {
        self.draft.wf()
    }

    /// The wizards have come to the same step with the same answers.
    pub open spec fn same_answers(self, other: WizardView) -> bool {
        WizardView { draft: other.draft, ..self } == other
    }

    pub open spec fn fresh() -> WizardView {
        WizardView {
            step: WizardStep::Kind,
            kind_selected: 0,
            id: Seq::empty(),
            base_url: Seq::empty(),
            model: Seq::empty(),
            extra_models: Seq::empty(),
            api_key: Seq::empty(),
            thinking: true,
            onboarding: false,
            edit_mode: false,
            had_key: false,
            draft: EditorView::blank(),
        }
    }

    pub open spec fn kind(self) -> ProviderKind {
        kind_at(self.kind_selected)
    }

    /// The field that a step edits; nothing on the choosers.
    pub open spec fn field(self, step: WizardStep) -> Option<Seq<char>> {
        match step {
            WizardStep::Kind | WizardStep::Thinking => None,
            WizardStep::ProviderId => Some(self.id),
            WizardStep::BaseUrl => Some(self.base_url),
            WizardStep::Model => Some(self.model),
            WizardStep::ExtraModels => Some(self.extra_models),
            WizardStep::ApiKey => Some(self.api_key),
        }
    }

    /// The wizard with the current step's field holding `t`; unchanged on a chooser.
    pub open spec fn with_field(self, t: Seq<char>) -> WizardView {
        match self.step {
            WizardStep::Kind | WizardStep::Thinking => self,
            WizardStep::ProviderId => WizardView { id: t, ..self },
            WizardStep::BaseUrl => WizardView { base_url: t, ..self },
            WizardStep::Model => WizardView { model: t, ..self },
            WizardStep::ExtraModels => WizardView { extra_models: t, ..self },
            WizardStep::ApiKey => WizardView { api_key: t, ..self },
        }
    }

    /// The wizard with the text of the draft written to the current step's field.
    pub open spec fn committed(self) -> WizardView {
        self.with_field(self.draft.text())
    }

    /// The draft holding `t`, with the cursor at its end and nothing selected.
    pub open spec fn draft_of(self, t: Seq<char>) -> EditorView {
        EditorView { plain: true, ..self.draft.holding(t) }
    }

    /// The draft shows the current step's field; so does any on a chooser.
    pub open spec fn in_step(self) -> bool {
        match self.field(self.step) {
            Some(t) => self.draft.text() == t,
            None => true,
        }
    }

    /// The wizard with the current step's field loaded into the draft, unless the draft shows it already.
    pub open spec fn loaded(self) -> WizardView {
        match self.field(self.step) {
            Some(t) if self.draft.text() != t => WizardView { draft: self.draft_of(t), ..self },
            _ => self,
        }
    }

    /// The wizard with `t` in the current step's field and in the draft; unchanged on a chooser.
    pub open spec fn filled(self, t: Seq<char>) -> WizardView {
        if self.step.edits_text() {
            WizardView { draft: self.draft_of(t), ..self }.with_field(t)
        } else {
            self
        }
    }

    /// The wizard with a text appended to the current step's field; unchanged on a chooser.
    pub open spec fn appended(self, more: Seq<char>) -> WizardView {
        match self.field(self.step) {
            Some(t) => self.filled(t + more),
            None => self,
        }
    }

    /// The wizard without the last character of the current step's field; unchanged where there is none.
    pub open spec fn erased(self) -> WizardView {
        match self.field(self.step) {
            Some(t) if t.len() > 0 => self.filled(t.drop_last()),
            _ => self,
        }
    }

    /// The wizard at a step, the draft holding that step's field.
    pub open spec fn at_step(self, step: WizardStep) -> WizardView {
        let text = match self.field(step) {
            Some(t) => t,
            None => Seq::empty(),
        };
        WizardView {
            step,
            draft: EditorView { plain: true, ..self.draft.holding(text) },
            ..self
        }
    }

    /// The wizard once its draft became `draft` on a text step; unchanged on a chooser.
    pub open spec fn with_draft(self, draft: EditorView) -> WizardView {
        WizardView { draft, ..self }.committed()
    }

    /// The id a finished wizard gives its provider.
    pub open spec fn provider_id(self) -> Seq<char> {
        if self.kind().is_vendor() || id_token(self.id).len() == 0 {
            self.kind().token()
        } else {
            id_token(self.id)
        }
    }

    /// The wizard pre-populated from a profile.
    pub open spec fn editing(p: crate::kernel::ProfileView) -> WizardView {
        WizardView {
            kind_selected: row_of(p.kind),
            id: p.id,
            base_url: p.base_url,
            model: p.model,
            extra_models: other_models(p.models, p.model),
            thinking: match p.thinking {
                Some(t) => t,
                None => p.kind.thinks_by_default(),
            },
            edit_mode: true,
            had_key: p.auth == AuthMethod::ApiKey,
            ..WizardView::fresh()
        }.at_step(WizardStep::BaseUrl)
    }

    /// The textual form: every field but the API key, which shows as asterisks.
    pub open spec fn debug_form(self) -> Seq<char> {
        "ProviderWizard { step: "@ + step_name(self.step) + ", kind: "@ + self.kind().variant_name()
            + ", id: "@ + self.id + ", base_url: "@ + self.base_url + ", model: "@ + self.model
            + ", extra_models: "@ + self.extra_models + ", api_key: ***, thinking: "@ + bool_name(
            self.thinking,
        ) + ", onboarding: "@ + bool_name(self.onboarding) + ", edit_mode: "@ + bool_name(
            self.edit_mode,
        ) + ", had_key: "@ + bool_name(self.had_key) + " }"@
    }
}

pub open spec fn step_name(step: WizardStep) -> Seq<char> {
    match step {
        WizardStep::Kind => "Kind"@,
        WizardStep::ProviderId => "ProviderId"@,
        WizardStep::BaseUrl => "BaseUrl"@,
        WizardStep::Model => "Model"@,
        WizardStep::ExtraModels => "ExtraModels"@,
        WizardStep::Thinking => "Thinking"@,
        WizardStep::ApiKey => "ApiKey"@,
    }
}

pub open spec fn bool_name(b: bool) -> Seq<char> {
    if b {
        "true"@
    } else {
        "false"@
    }
}

fn name_of_step(step: WizardStep) -> (r: &'static str)
    ensures
        r@ == step_name(step),
{
    match step {
        WizardStep::Kind => "Kind",
        WizardStep::ProviderId => "ProviderId",
        WizardStep::BaseUrl => "BaseUrl",
        WizardStep::Model => "Model",
        WizardStep::ExtraModels => "ExtraModels",
        WizardStep::Thinking => "Thinking",
        WizardStep::ApiKey => "ApiKey",
    }
}

fn name_of_bool(b: bool) -> (r: &'static str)
    ensures
        r@ == bool_name(b),
{
    if b {
        "true"
    } else {
        "false"
    }
}

/// A text without its control characters.
pub fn printable_of(text: &str) -> (r: String)
    ensures
        r@ == printable(text@),
{
    let mut kept: String = String::new();
    assert(text@.take(0) =~= Seq::<char>::empty());
    assert(kept@ =~= printable(text@.take(0)));
    for c in it: text.chars()
        invariant
            it.seq() == text@,
            kept@ == printable(text@.take(it.index() as int)),
    {
        let ghost next = text@.take(it.index() as int + 1);
        assert(next.drop_last() =~= text@.take(it.index() as int));
        if !(c <= '\u{1f}' || ('\u{7f}' <= c && c <= '\u{9f}')) {
            kept.push(c);
        }
    }
    assert(text@.take(text@.len() as int) =~= text@);
    kept
}

fn to_id_token(id: &str) -> (r: String)
    ensures
        r@ == id_token(id@),
{
    let low: String = to_ascii_lowercase(trimmed(id).as_str());
    let src: Vec<char> = chars_of(low.as_str());
    let mut chars: Vec<char> = Vec::new();
    let mut k: usize = 0;
    while k < src.len()
        invariant
            k <= src@.len(),
            chars@ == dashed(src@).take(k as int),
        decreases src@.len() - k,
    {
        let c: char = src[k];
        if ('a' <= c && c <= 'z') || ('A' <= c && c <= 'Z') || ('0' <= c && c <= '9') || c == '-' || c
            == '_' {
            chars.push(c);
        } else {
            chars.push('-');
        }
        k = k + 1;
        assert(chars@ =~= dashed(src@).take(k as int));
    }
    assert(chars@ =~= dashed(src@));
    assert(chars@.subrange(0, chars@.len() as int) =~= chars@);
    let all: String = string_of(&chars, 0, chars.len());
    trim_char(all.as_str(), '-')
}

fn held(models: &Vec<String>, m: &str) -> (r: bool)
    ensures
        r == views(models@).contains(m@),
{
    let mut i: usize = 0;
    while i < models.len()
        invariant
            i <= models@.len(),
            forall|k: int| 0 <= k < i ==> (#[trigger] models@[k])@ != m@,
        decreases models@.len() - i,
    {
        if same(models[i].as_str(), m) {
            assert(views(models@)[i as int] == m@);
            return true;
        }
        i = i + 1;
    }
    assert forall|k: int| 0 <= k < views(models@).len() implies views(models@)[k] != m@ by {
        assert(models@[k]@ != m@);
    }
    false
}

fn add_model(models: &mut Vec<String>, m: &str)
    ensures
        views(final(models)@) == with_model(views(old(models)@), m@),
{
    let t: String = trimmed(m);
    if !t.as_str().is_empty() && !held(models, t.as_str()) {
        let ghost before = models@;
        models.push(t);
        assert(views(models@) =~= views(before).push(t@));
    }
}

/// What a key leaves of a wizard on a text step whose draft is `b`.
pub open spec fn fed_to(w: WizardView, b: InputBuffer, key: KeyPress, after: ProviderWizard) -> bool {
    &&& after@ == w.with_draft(after.draft@)
    &&& after.draft.fed_from(b, translated(key))
}

/// Inserting a text at the end of a line appends it.
proof fn inserted_at_end(v: EditorView, t: Seq<char>, more: Seq<char>)
    requires
        v.wf(),
        v.lines == seq![t],
        v.row == 0,
        v.col == t.len(),
        v.anchor is None,
        !t.contains('\n'),
        forall|i: int| 0 <= i < more.len() ==> !is_control(#[trigger] more[i]),
    ensures
        v.with_text(more) == (EditorView { plain: true, ..v.holding(t + more) }),
        v.with_text(more).text() == t + more,
{
    assert(!more.contains('\n')) by {
        if more.contains('\n') {
            let k = choose|k: int| 0 <= k < more.len() && more[k] == '\n';
            assert(is_control(more[k]));
        }
    }
    assert(!(t + more).contains('\n')) by {
        if (t + more).contains('\n') {
            let k = choose|k: int| 0 <= k < (t + more).len() && (t + more)[k] == '\n';
            if k < t.len() {
                assert(t[k] == '\n');
            } else {
                assert(more[k - t.len()] == '\n');
            }
        }
    }
    split_of_clean(more, '\n');
    split_of_clean(t + more, '\n');
    assert(without_cr(more) == more) by {
        if more.len() > 0 {
            assert(!is_control(more[more.len() - 1]));
        }
    }
    assert(pasted_lines(more) =~= seq![more]);
    assert(t.take(t.len() as int) + more + t.skip(t.len() as int) =~= t + more);
    assert(v.lines.update(0, t + more) =~= seq![t + more]);
}

impl ProviderWizard {
    pub fn new() -> (r: ProviderWizard)
        ensures
            r@ == WizardView::fresh(),
            r@.wf(),
    {
        ProviderWizard {
            step: WizardStep::Kind,
            kind_selected: 0,
            id: String::new(),
            base_url: String::new(),
            model: String::new(),
            extra_models: String::new(),
            api_key: String::new(),
            thinking: true,
            onboarding: false,
            edit_mode: false,
            had_key: false,
            draft: InputBuffer::default(),
        }
    }

    /// Open the wizard in edit mode, pre-populated from an existing profile. The `Kind` step is skipped (the
    /// kind is locked); `api_key` starts empty ("keep existing" unless the user types one). A profile that
    /// does not say whether thinking is enabled takes the default of its kind.
    pub fn from_profile(profile: &ProviderProfile) -> (r: ProviderWizard)
        ensures
            r@ == WizardView::editing(profile@),
            r@.wf(),
    {
        let kind_selected: usize = match profile.kind {
            ProviderKind::Nvidia => 0,
            ProviderKind::Anthropic => 1,
            ProviderKind::Openai => 2,
            ProviderKind::OpenAiCompatible => 3,
            ProviderKind::Custom => 4,
        };
        let mut extra_models: String = String::new();
        let mut some: bool = false;
        let mut i: usize = 0;
        let ghost all = views(profile.models@);
        assert(all.take(0) =~= Seq::<Seq<char>>::empty());
        while i < profile.models.len()
            invariant
                i <= profile.models@.len(),
                all == views(profile.models@),
                some == has_other(all.take(i as int), profile.model@),
                extra_models@ == other_models(all.take(i as int), profile.model@),
                !some ==> extra_models@.len() == 0,
            decreases profile.models@.len() - i,
        {
            let ghost now = all.take(i as int);
            let ghost next = all.take(i as int + 1);
            assert(next.drop_last() =~= now);
            assert(next.last() == profile.models@[i as int]@);
            if !same(profile.models[i].as_str(), profile.model.as_str()) {
                if some {
                    extra_models.append(", ");
                }
                extra_models.append(profile.models[i].as_str());
                assert(!some ==> extra_models@ =~= profile.models@[i as int]@);
                some = true;
                assert(next[i as int] != profile.model@);
            } else {
                assert(has_other(next, profile.model@) == has_other(now, profile.model@)) by {
                    if has_other(next, profile.model@) {
                        let k = choose|k: int| 0 <= k < next.len() && next[k] != profile.model@;
                        assert(now[k] != profile.model@);
                    }
                    if has_other(now, profile.model@) {
                        let k = choose|k: int| 0 <= k < now.len() && now[k] != profile.model@;
                        assert(next[k] != profile.model@);
                    }
                }
            }
            i = i + 1;
        }
        assert(all.take(all.len() as int) =~= all);
        let mut wizard: ProviderWizard = ProviderWizard {
            step: WizardStep::Kind,
            kind_selected,
            id: profile.id.clone(),
            base_url: profile.base_url.clone(),
            model: profile.model.clone(),
            extra_models,
            api_key: String::new(),
            thinking: match profile.thinking {
                Some(t) => t,
                None => profile.kind.thinking_default(),
            },
            onboarding: false,
            edit_mode: true,
            had_key: profile.auth == AuthMethod::ApiKey,
            draft: InputBuffer::default(),
        };
        wizard.go_to_step(WizardStep::BaseUrl);
        wizard
    }

    /// The wizard opened at first run with no credential: the welcome framing, NVIDIA preselected.
    pub fn onboarding() -> (r: ProviderWizard)
        ensures
            r@ == (WizardView { onboarding: true, ..WizardView::fresh() }),
            r@.kind() == ProviderKind::Nvidia,
            r@.wf(),
    {
        let mut wizard: ProviderWizard = ProviderWizard::new();
        wizard.onboarding = true;
        wizard
    }

    /// The selected provider kind.
    pub fn kind(&self) -> (r: ProviderKind)
        ensures
            r == self@.kind(),
    {
        if self.kind_selected < WIZARD_KINDS.len() {
            WIZARD_KINDS[self.kind_selected]
        } else {
            WIZARD_KINDS[4]
        }
    }

    /// Whether the selected kind requires an API key (vendor) or may be keyless (compatible / custom).
    pub fn key_required(&self) -> (r: bool)
        ensures
            r == self@.kind().is_vendor(),
    {
        self.kind().requires_api_key()
    }

    /// The id a finished wizard gives its provider. Vendor kinds use the canonical token (re-adding one
    /// reconfigures it). Keyless-capable kinds use the user-typed `id`, sanitized to a stable `[a-z0-9_-]`
    /// token, so several compatible endpoints can coexist; a blank id falls back to the canonical token.
    pub fn provider_id(&self) -> (r: String)
        ensures
            r@ == self@.provider_id(),
    {
        if self.key_required() {
            return self.kind().canonical_id().to_owned();
        }
        let token: String = to_id_token(self.id.as_str());
        if token.as_str().is_empty() {
            self.kind().canonical_id().to_owned()
        } else {
            token
        }
    }

    /// The model catalog: the default model first, then the comma-separated extras (trimmed, de-duped,
    /// blanks dropped).
    pub fn models(&self) -> (r: Vec<String>)
        ensures
            views(r@) == model_catalog(self.model@, self.extra_models@),
    {
        let mut models: Vec<String> = Vec::new();
        assert(views(models@) =~= Seq::<Seq<char>>::empty());
        add_model(&mut models, self.model.as_str());
        let ghost first = views(models@);
        let extras: Vec<String> = split(self.extra_models.as_str(), ',');
        let mut i: usize = 0;
        assert(views(extras@).take(0) =~= Seq::<Seq<char>>::empty());
        while i < extras.len()
            invariant
                i <= extras@.len(),
                views(models@) == with_models(first, views(extras@).take(i as int)),
            decreases extras@.len() - i,
        {
            let ghost next = views(extras@).take(i as int + 1);
            assert(next.drop_last() =~= views(extras@).take(i as int));
            add_model(&mut models, extras[i].as_str());
            i = i + 1;
        }
        assert(views(extras@).take(extras@.len() as int) =~= views(extras@));
        models
    }

    /// `b` is the draft with the current step's field loaded: the draft as it is where it shows the field already,
    /// else a draft that holds the field and has nothing to undo.
    pub open spec fn loads(self, b: InputBuffer) -> bool {
        &&& b@ == self@.loaded().draft
        &&& if self@.in_step() {
            b == self.draft
        } else {
            b.undone() is None && b.redone() is None
        }
    }

    /// The text of the current step's field.
    fn field_text(&self) -> (r: Option<String>)
        ensures
            match r {
                Some(t) => self@.field(self@.step) == Some(t@),
                None => self@.field(self@.step) is None,
            },
    {
        match self.step {
            WizardStep::Kind | WizardStep::Thinking => None,
            WizardStep::ProviderId => Some(self.id.clone()),
            WizardStep::BaseUrl => Some(self.base_url.clone()),
            WizardStep::Model => Some(self.model.clone()),
            WizardStep::ExtraModels => Some(self.extra_models.clone()),
            WizardStep::ApiKey => Some(self.api_key.clone()),
        }
    }

    /// Load the current step's field into the draft, unless the draft shows it already.
    pub fn load_draft(&mut self)
        requires
            old(self)@.wf(),
        ensures
            final(self)@ == old(self)@.loaded(),
            final(self)@.in_step(),
            final(self)@.wf(),
            old(self).loads(final(self).draft),
    {
        if let Some(text) = self.field_text() {
            if !same(self.draft.text().as_str(), text.as_str()) {
                self.draft.set(text);
            }
        }
    }

    /// Write the draft to the field of the current step; nothing on the choosers. A key that is replaced is
    /// overwritten with zeros.
    pub fn commit_draft_to_field(&mut self)
        ensures
            final(self)@ == old(self)@.committed(),
            final(self).draft == old(self).draft,
    {
        let mut lines: Vec<String> = self.draft.lines();
        let text: String = join(&lines, '\n');
        match self.step {
            WizardStep::Kind | WizardStep::Thinking => {},
            WizardStep::ProviderId => {
                self.id = text;
            },
            WizardStep::BaseUrl => {
                self.base_url = text;
            },
            WizardStep::Model => {
                self.model = text;
            },
            WizardStep::ExtraModels => {
                self.extra_models = text;
            },
            WizardStep::ApiKey => {
                wipe_all(&mut lines);
                wipe(&mut self.api_key);
                self.api_key = text;
            },
        }
    }

    /// Put a text into the current step's field and into the draft.
    fn fill(&mut self, text: String)
        requires
            old(self)@.wf(),
        ensures
            final(self)@ == old(self)@.filled(text@),
            final(self)@.wf(),
    {
        if self.step != WizardStep::Kind && self.step != WizardStep::Thinking {
            self.draft.set(text);
            self.commit_draft_to_field();
        }
    }

    /// The draft is one line that shows `field`, with the cursor at its end and nothing selected.
    fn at_end_of(&self, field: &str) -> (r: bool)
        requires
            self@.wf(),
        ensures
            r ==> self@.draft.lines == seq![field@] && !field@.contains('\n') && self@.draft.row == 0
                && self@.draft.col == field@.len() && self@.draft.anchor is None,
    {
        let lines: Vec<String> = self.draft.lines();
        if lines.len() != 1 || !same(lines[0].as_str(), field) || contains(field, "\n") {
            return false;
        }
        proof {
            assert(views(lines@) =~= seq![field@]);
            reveal_strlit("\n");
            if field@.contains('\n') {
                let k = choose|k: int| 0 <= k < field@.len() && field@[k] == '\n';
                assert(field@.subrange(k, k + 1) =~= "\n"@);
                assert(occurs_at(field@, "\n"@, k));
            }
        }
        !self.draft.is_selecting() && self.draft.cursor().1 == char_count(field)
    }

    /// Move to a step, loading its field into the draft with the cursor at the end.
    pub fn go_to_step(&mut self, step: WizardStep)
        ensures
            final(self)@ == old(self)@.at_step(step),
            final(self)@.wf(),
    {
        self.step = step;
        let text: String = match step {
            WizardStep::Kind | WizardStep::Thinking => String::new(),
            WizardStep::ProviderId => self.id.clone(),
            WizardStep::BaseUrl => self.base_url.clone(),
            WizardStep::Model => self.model.clone(),
            WizardStep::ExtraModels => self.extra_models.clone(),
            WizardStep::ApiKey => self.api_key.clone(),
        };
        self.draft.set(text);
    }

    /// Feed a key to the draft of a text step and commit what it leaves; ignored on the choosers.
    pub fn feed_key(&mut self, key: KeyPress)
        requires
            old(self)@.wf(),
        ensures
            final(self)@.wf(),
            !old(self)@.step.edits_text() ==> final(self)@ == old(self)@,
            old(self)@.step.edits_text() ==> exists|b: InputBuffer| #[trigger]
                old(self).loads(b) && fed_to(old(self)@.loaded(), b, key, *final(self)),
    {
        if self.step != WizardStep::Kind && self.step != WizardStep::Thinking {
            self.load_draft();
            let ghost b = self.draft;
            self.draft.feed_key(key);
            self.commit_draft_to_field();
            assert(old(self).loads(b) && fed_to(old(self)@.loaded(), b, key, *self));
        }
    }

    /// Toggle the thinking flag (only on the `Thinking` step).
    pub fn toggle_thinking(&mut self)
        ensures
            final(self)@ == (WizardView {
                thinking: if old(self)@.step == WizardStep::Thinking {
                    !old(self)@.thinking
                } else {
                    old(self)@.thinking
                },
                ..old(self)@
            }),
    {
        if self.step == WizardStep::Thinking {
            self.thinking = !self.thinking;
        }
    }

    /// Append a character to the current field; ignored on the choosers.
    pub fn push_char(&mut self, c: char)
        requires
            old(self)@.wf(),
        ensures
            final(self)@ == old(self)@.appended(seq![c]),
            final(self)@.wf(),
    {
        if let Some(text) = self.field_text() {
            let ghost before = text@;
            let mut text: String = text;
            text.push(c);
            assert(text@ =~= before + seq![c]);
            self.fill(text);
        }
    }

    /// Append pasted text to the current field, dropping control characters (a pasted key often carries a
    /// trailing newline). Ignored on the choosers. This is how an API key is pasted into the masked field
    /// instead of leaking into the plaintext composer.
    pub fn push_str(&mut self, text: &str)
        requires
            old(self)@.wf(),
        ensures
            final(self)@ == old(self)@.appended(printable(text@)),
            final(self)@.wf(),
    {
        if let Some(field) = self.field_text() {
            let kept: String = printable_of(text);
            if self.at_end_of(field.as_str()) {
                // What the cursor is behind can be inserted, so that it can be undone.
                proof {
                    printable_has_no_controls(text@);
                    inserted_at_end(self@.draft, field@, kept@);
                }
                self.draft.insert(kept.as_str());
                self.commit_draft_to_field();
            } else {
                self.fill(cat2(field.as_str(), kept.as_str()));
            }
        }
    }

    /// Delete the last character of the current field; ignored on the choosers.
    pub fn backspace(&mut self)
        requires
            old(self)@.wf(),
        ensures
            final(self)@ == old(self)@.erased(),
            final(self)@.wf(),
    {
        if let Some(field) = self.field_text() {
            let chars: Vec<char> = chars_of(field.as_str());
            if chars.len() > 0 {
                let kept: String = string_of(&chars, 0, chars.len() - 1);
                assert(kept@ =~= field@.drop_last());
                self.fill(kept);
            }
        }
    }

    /// Move the kind highlight (only on the `Kind` step), wrapping.
    pub fn move_kind(&mut self, delta: i32)
        ensures
            final(self)@ == (WizardView {
                kind_selected: if old(self)@.step == WizardStep::Kind {
                    wrapped(old(self)@.kind_selected, delta as int, WIZARD_KINDS@.len() as int)
                } else {
                    old(self)@.kind_selected
                },
                ..old(self)@
            }),
    {
        if self.step != WizardStep::Kind {
            return ;
        }
        self.kind_selected = wrapping_step(self.kind_selected, delta, WIZARD_KINDS.len());
    }

    /// Whether the thinking toggle is "sim" (index 0) or "não" (index 1).
    pub fn thinking_selected_index(&self) -> (r: usize)
        ensures
            r == if self@.thinking {
                0int
            } else {
                1int
            },
    {
        if self.thinking {
            0
        } else {
            1
        }
    }

    /// The textual form of the wizard, for logs. The API key shows as asterisks.
    pub fn debug_text(&self) -> (r: String)
        ensures
            r@ == self@.debug_form(),
    {
        let mut out: String = "ProviderWizard { step: ".to_owned();
        out.append(name_of_step(self.step));
        out.append(", kind: ");
        out.append(self.kind().name());
        out.append(", id: ");
        out.append(self.id.as_str());
        out.append(", base_url: ");
        out.append(self.base_url.as_str());
        out.append(", model: ");
        out.append(self.model.as_str());
        out.append(", extra_models: ");
        out.append(self.extra_models.as_str());
        out.append(", api_key: ***, thinking: ");
        out.append(name_of_bool(self.thinking));
        out.append(", onboarding: ");
        out.append(name_of_bool(self.onboarding));
        out.append(", edit_mode: ");
        out.append(name_of_bool(self.edit_mode));
        out.append(", had_key: ");
        out.append(name_of_bool(self.had_key));
        out.append(" }");
        out
    }

    /// Overwrite the API key and the draft it is typed into with zeros, so that a typed key does not linger in freed
    /// memory. The edits that the draft remembers, and the copies that typing leaves behind, are not reached.
    pub fn wipe_key(&mut self)
        ensures
            final(self)@ == (WizardView {
                api_key: Seq::empty(),
                draft: EditorView::blank(),
                ..old(self)@
            }),
        opens_invariants none
        no_unwind
    {
        wipe(&mut self.api_key);
        self.draft.wipe();
        assert(self@.api_key =~= Seq::<char>::empty());
    }
}

impl Drop for ProviderWizard {
    /// The key is overwritten whichever way the wizard goes.
    fn drop(&mut self)
        opens_invariants none
        no_unwind
    {
        self.wipe_key();
    }
}

impl Default for ProviderWizard {
    fn default() -> (r: ProviderWizard)
        ensures
            r@ == WizardView::fresh(),
            r@.wf(),
    {
        ProviderWizard::new()
    }
}

/// The textual form does not depend on the API key, nor on the draft it is typed into.
pub proof fn debug_form_hides_the_key(w: WizardView, key: Seq<char>, draft: EditorView)
    ensures
        (WizardView { api_key: key, draft, ..w }).debug_form() == w.debug_form(),
{
}

/// A wizard's provider id is never blank.
pub proof fn provider_id_is_never_blank(w: WizardView)
    requires
        w.kind_selected >= 0,
    ensures
        w.provider_id().len() > 0,
{
    reveal_strlit("nvidia");
    reveal_strlit("openai");
    reveal_strlit("anthropic");
    reveal_strlit("openai-compatible");
    reveal_strlit("custom");
}

/// A model catalog repeats nothing and holds no blank.
pub proof fn catalog_has_no_repeats(models: Seq<Seq<char>>, more: Seq<Seq<char>>)
    requires
        models.no_duplicates(),
        forall|i: int| 0 <= i < models.len() ==> (#[trigger] models[i]).len() > 0,
    ensures
        with_models(models, more).no_duplicates(),
        forall|i: int|
            0 <= i < with_models(models, more).len() ==> (#[trigger] with_models(
                models,
                more,
            )[i]).len() > 0,
    decreases more.len(),
{
    if more.len() > 0 {
        catalog_has_no_repeats(models, more.drop_last());
    }
}

/// The default model leads the catalog, whatever the extras are.
pub proof fn default_model_leads(models: Seq<Seq<char>>, more: Seq<Seq<char>>)
    requires
        models.len() > 0,
    ensures
        with_models(models, more).len() >= models.len(),
        with_models(models, more)[0] == models[0],
    decreases more.len(),
{
    if more.len() > 0 {
        default_model_leads(models, more.drop_last());
    }
}

/// A pasted text reaches the field without control characters.
pub proof fn printable_has_no_controls(s: Seq<char>)
    ensures
        forall|i: int| 0 <= i < printable(s).len() ==> !is_control(#[trigger] printable(s)[i]),
    decreases s.len(),
{
    if s.len() > 0 {
        printable_has_no_controls(s.drop_last());
        let before = printable(s.drop_last());
        assert forall|i: int| 0 <= i < printable(s).len() implies !is_control(
            #[trigger] printable(s)[i],
        ) by {
            if i < before.len() {
                assert(!is_control(before[i]));
            }
        }
    }
}

/// Leaving a text step and coming back to it finds the field as it was left.
pub proof fn step_returns_to_its_field(w: WizardView, step: WizardStep)
    requires
        step.edits_text(),
    ensures
        w.at_step(step).committed() == w.at_step(step),
{
    crate::text::join_of_split(w.field(step)->0, '\n');
}

/// A character typed and erased again leaves every field as it was; with the cursor at the end of the field, it leaves
/// the whole wizard as it was.
pub proof fn typing_and_erasing_leaves_the_field(w: WizardView, c: char)
    ensures
        w.appended(seq![c]).erased().same_answers(w),
        w.appended(seq![c]).erased() == match w.field(w.step) {
            Some(t) => w.filled(t),
            None => w,
        },
        w.field(w.step) matches Some(t) ==> (WizardView { draft: w.draft, ..w.filled(t) }) == w,
        (w.field(w.step) matches Some(t) ==> w.draft == w.draft_of(t)) ==> w.appended(seq![c]).erased() == w,
{
    match w.field(w.step) {
        Some(t) => {
            assert((t + seq![c]).drop_last() =~= t);
        },
        None => {},
    }
}

/// A pasted text ends up behind what the field held, and touches no other field.
pub proof fn pasting_appends(w: WizardView, text: Seq<char>)
    requires
        w.step.edits_text(),
    ensures
        w.appended(printable(text)).field(w.step) == Some((w.field(w.step)->0) + printable(text)),
        w.appended(printable(text)).draft.text() == (w.field(w.step)->0) + printable(text),
        (WizardView { draft: w.draft, ..w.appended(printable(text)).with_field(w.field(w.step)->0) }) == w,
{
    join_of_split((w.field(w.step)->0) + printable(text), '\n');
}

} // verus!
