//! The add-provider wizard.
use kiri_tui::domain::wizard::{ProviderWizard, WizardStep, WIZARD_KINDS};
use kiri_tui::kernel::{AuthMethod, ProviderKind, ProviderProfile};

#[test]
fn wizard_wizard_debug_redacts_the_api_key() {
    let mut w = ProviderWizard::new();
    w.step = WizardStep::ApiKey;
    w.api_key = "sk-super-secret".to_string();
    let rendered = w.debug_text();
    assert!(
        !rendered.contains("sk-super-secret"),
        "the API key leaked in Debug: {rendered}"
    );
    assert!(rendered.contains("***"));
}

#[test]
fn wizard_wizard_models_puts_the_default_first_and_dedupes_extras() {
    let mut w = ProviderWizard::new();
    w.model = "  m1 ".to_string();
    w.extra_models = "m2, m1 , ,m3".to_string();
    assert_eq!(w.models(), vec!["m1", "m2", "m3"]);
}

#[test]
fn wizard_wizard_provider_id_is_the_kind_token() {
    let w = ProviderWizard::new(); // kind index 0 = NVIDIA (the leading, preselected entry)
    assert_eq!(w.provider_id(), "nvidia");
    assert_eq!(w.kind(), ProviderKind::Nvidia);
}

#[test]
fn wizard_key_required_only_for_vendor_kinds() {
    let mut w = ProviderWizard::new();
    // WIZARD_KINDS: [Nvidia, Anthropic, Openai, OpenAiCompatible, Custom].
    for (idx, required) in [(0, true), (1, true), (2, true), (3, false), (4, false)] {
        w.kind_selected = idx;
        assert_eq!(w.key_required(), required, "kind {:?}", w.kind());
    }
}

#[test]
fn wizard_provider_id_sanitizes_a_named_keyless_provider() {
    let mut w = ProviderWizard::new();
    w.kind_selected = 3; // OpenAiCompatible — keyless-capable, so the typed id is used
    w.id = "  My LM Studio! ".to_string();
    assert_eq!(w.provider_id(), "my-lm-studio");
    // A blank id falls back to the canonical kind token, never an empty id.
    w.id = "   ".to_string();
    assert_eq!(w.provider_id(), "openai-compatible");
    // A vendor kind ignores the id field entirely.
    w.kind_selected = 0;
    w.id = "ignored".to_string();
    assert_eq!(w.provider_id(), "nvidia");
}

#[test]
fn wizard_wizard_kinds_lead_with_nvidia() {
    assert_eq!(WIZARD_KINDS.len(), 5);
    assert_eq!(WIZARD_KINDS[0], ProviderKind::Nvidia);
}

#[test]
fn wizard_onboarding_constructor_sets_flag_and_preselects_nvidia() {
    let w = ProviderWizard::onboarding();
    assert!(w.onboarding);
    assert_eq!(w.kind_selected, 0);
    assert_eq!(w.kind(), ProviderKind::Nvidia);
    assert_eq!(w.step, WizardStep::Kind);
}

fn saved_profile(
    kind: ProviderKind,
    auth: AuthMethod,
) -> ProviderProfile {
    ProviderProfile {
        id: "openrouter".to_string(),
        kind,
        base_url: "https://openrouter.ai/api/v1".to_string(),
        model: "m1".to_string(),
        models: vec!["m1".to_string(), "m2".to_string()],
        auth,
        thinking: None,
    }
}

#[test]
fn from_profile_pre_populates_fields_in_edit_mode() {
    let profile = saved_profile(ProviderKind::OpenAiCompatible, AuthMethod::ApiKey);
    let w = ProviderWizard::from_profile(&profile);
    assert!(w.edit_mode);
    assert_eq!(w.step, WizardStep::BaseUrl);
    assert_eq!(w.id, "openrouter");
    assert_eq!(w.base_url, "https://openrouter.ai/api/v1");
    assert_eq!(w.model, "m1");
    assert_eq!(w.extra_models, "m2");
    assert!(
        w.api_key.is_empty(),
        "the key field starts blank in edit mode"
    );
}

#[test]
fn from_profile_captures_had_key_from_the_saved_auth_method() {
    let keyed = saved_profile(ProviderKind::OpenAiCompatible, AuthMethod::ApiKey);
    assert!(ProviderWizard::from_profile(&keyed).had_key);

    let keyless = saved_profile(ProviderKind::OpenAiCompatible, AuthMethod::Keyless);
    assert!(!ProviderWizard::from_profile(&keyless).had_key);

    // A fresh (non-edit) wizard never had a key.
    assert!(!ProviderWizard::new().had_key);
}

#[test]
fn view_state_wizard_debug_redacts_the_api_key() {
    let mut w = ProviderWizard::new();
    w.step = WizardStep::ApiKey;
    w.api_key = "sk-super-secret".to_string();
    let rendered = w.debug_text();
    assert!(
        !rendered.contains("sk-super-secret"),
        "the API key leaked in Debug: {rendered}"
    );
    assert!(rendered.contains("***"));
}

#[test]
fn view_state_wizard_models_puts_the_default_first_and_dedupes_extras() {
    let mut w = ProviderWizard::new();
    w.model = "  m1 ".to_string();
    w.extra_models = "m2, m1 , ,m3".to_string();
    assert_eq!(w.models(), vec!["m1", "m2", "m3"]);
}

#[test]
fn view_state_wizard_provider_id_is_the_kind_token() {
    let w = ProviderWizard::new(); // kind index 0 = NVIDIA (the leading, preselected entry)
    assert_eq!(w.provider_id(), "nvidia");
    assert_eq!(w.kind(), ProviderKind::Nvidia);
}

#[test]
fn view_state_key_required_only_for_vendor_kinds() {
    let mut w = ProviderWizard::new();
    // WIZARD_KINDS: [Nvidia, Anthropic, Openai, OpenAiCompatible, Custom].
    for (idx, required) in [(0, true), (1, true), (2, true), (3, false), (4, false)] {
        w.kind_selected = idx;
        assert_eq!(w.key_required(), required, "kind {:?}", w.kind());
    }
}

#[test]
fn view_state_provider_id_sanitizes_a_named_keyless_provider() {
    let mut w = ProviderWizard::new();
    w.kind_selected = 3; // OpenAiCompatible — keyless-capable, so the typed id is used
    w.id = "  My LM Studio! ".to_string();
    assert_eq!(w.provider_id(), "my-lm-studio");
    // A blank id falls back to the canonical kind token, never an empty id.
    w.id = "   ".to_string();
    assert_eq!(w.provider_id(), "openai-compatible");
    // A vendor kind ignores the id field entirely.
    w.kind_selected = 0;
    w.id = "ignored".to_string();
    assert_eq!(w.provider_id(), "nvidia");
}

#[test]
fn view_state_wizard_kinds_lead_with_nvidia() {
    assert_eq!(WIZARD_KINDS.len(), 5);
    assert_eq!(WIZARD_KINDS[0], ProviderKind::Nvidia);
}

#[test]
fn view_state_onboarding_constructor_sets_flag_and_preselects_nvidia() {
    let w = ProviderWizard::onboarding();
    assert!(w.onboarding);
    assert_eq!(w.kind_selected, 0);
    assert_eq!(w.kind(), ProviderKind::Nvidia);
    assert_eq!(w.step, WizardStep::Kind);
}
