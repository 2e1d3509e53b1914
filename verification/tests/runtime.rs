//! The event loop's decisions: turns, provider swaps, copies, the boot.
use kiri_tui::clock::Duration;
use kiri_tui::conversation::{Conversation, Message};
use kiri_tui::domain::model::Model;
use kiri_tui::domain::transcript::{NoticeLevel, TranscriptItem};
use kiri_tui::infrastructure::render::layout::Rect;
use kiri_tui::infrastructure::render::markdown::cache::Renderer;
use kiri_tui::infrastructure::render::markdown::render::Highlighter;
use kiri_tui::infrastructure::render::view::frame_regions;
use kiri_tui::infrastructure::render::widgets::editor::content_rect;
use kiri_tui::infrastructure::runtime::provider_swap::{
    notice_env_import_failure, persist_or_notice, resolve_credential, Credential, CredentialResolution,
    ProviderSwap,
};
use kiri_tui::infrastructure::runtime::render::{notify_copy_result, place_cursor};
use kiri_tui::infrastructure::runtime::tui::{surface_boot_notices, BootNotice};
use kiri_tui::infrastructure::runtime::turn::{
    on_turn_end, spinner_frame, turn_produced_nothing, TurnOutcome, FRAME_INTERVAL,
};
use kiri_tui::kernel::{ApprovalMode, AuthMethod, Effort, ProviderKind, ProviderProfile, Secret};

fn has_error_notice(model: &Model) -> bool {
    model
        .transcript
        .items()
        .iter()
        .any(|item| matches!(item, TranscriptItem::Notice(NoticeLevel::Error, _)))
}

fn conversation(messages: Vec<Message>) -> Conversation {
    let mut conversation = Conversation::new("system".to_string());
    for message in messages {
        conversation.push(message);
    }
    conversation
}

#[test]
fn boot_degradation_surfaces_as_in_transcript_notice() {
    // A degradation must reach the transcript as a non-fatal notice — never an Error, which would trip the
    // editor's error gate.
    let mut model = Model::new("m".to_string(), "/w".to_string());
    surface_boot_notices(
        &mut model,
        &vec![BootNotice::new(
            "session store unavailable; continuing without it".to_string(),
        )],
    );
    assert!(
        matches!(
            model.transcript.items().last(),
            Some(TranscriptItem::Notice(NoticeLevel::Info, t)) if t.contains("session store unavailable")
        ),
        "the degradation must surface as an in-transcript info notice"
    );
    assert!(
        !has_error_notice(&model),
        "a non-fatal boot degradation must not be an Error notice"
    );
}

fn profile(id: &str, kind: ProviderKind, model: &str) -> ProviderProfile {
    ProviderProfile {
        id: id.into(),
        kind,
        base_url: "https://example.test/v1".into(),
        model: model.into(),
        models: vec![model.into()],
        auth: AuthMethod::ApiKey,
        thinking: None,
    }
}

/// A keyless profile — a local endpoint that needs no key.
fn keyless_profile(id: &str, kind: ProviderKind, model: &str) -> ProviderProfile {
    ProviderProfile {
        id: id.into(),
        kind,
        base_url: "http://localhost:1234/v1".into(),
        model: model.into(),
        models: vec![model.into()],
        auth: AuthMethod::Keyless,
        thinking: None,
    }
}

fn api_key() -> Credential {
    Credential::ApiKey(Secret::new("k".to_string()))
}

fn swap(providers: Vec<ProviderProfile>, active: &str) -> ProviderSwap {
    ProviderSwap::new(providers, active.to_string(), Some(api_key()), true, Effort::High)
}

/// The credential of a provider as a store that holds keys for `stored` resolves it: keyless providers need
/// none, and nothing is set in the environment.
fn look_up(profile: &ProviderProfile, stored: &[&str]) -> Result<(Credential, Option<String>), String> {
    let found = if profile.auth == AuthMethod::Keyless {
        CredentialResolution::Keyless
    } else if stored.contains(&profile.id.as_str()) {
        CredentialResolution::Stored(api_key())
    } else {
        CredentialResolution::Absent
    };
    resolve_credential(profile, Ok(found))
}

#[test]
fn switch_to_swaps_active_and_adopts_the_target_model() {
    let anthropic = profile("anthropic", ProviderKind::Anthropic, "anthropic-large");
    let found = look_up(&anthropic, &["anthropic"]);
    let mut s = swap(vec![profile("nvidia", ProviderKind::Nvidia, "m1"), anthropic], "nvidia");
    let switch = s.switch_to("anthropic", found, Ok(())).unwrap();
    assert_eq!(switch.model, "anthropic-large");
    assert!(
        switch.persist_warning.is_none(),
        "a stored credential needs no env import, so no persist warning"
    );
    assert_eq!(s.active, "anthropic");
}

#[test]
fn switch_to_unknown_provider_errors() {
    let mut s = swap(vec![profile("nvidia", ProviderKind::Nvidia, "m1")], "nvidia");
    assert_eq!(
        s.switch_to("ghost", Ok((api_key(), None)), Ok(())).unwrap_err(),
        "provider 'ghost' is not configured"
    );
}

#[test]
fn switch_to_without_a_credential_or_env_errors() {
    let custom = profile("unit-test-custom-xyz", ProviderKind::Custom, "m2");
    let found = look_up(&custom, &["nvidia"]);
    let mut s = swap(vec![profile("nvidia", ProviderKind::Nvidia, "m1"), custom], "nvidia");
    assert_eq!(
        s.switch_to("unit-test-custom-xyz", found, Ok(())).unwrap_err(),
        "no credential for provider 'unit-test-custom-xyz'. Configure it via /provider or set its API-key env var."
    );
    assert_eq!(s.active, "nvidia");
}

#[test]
fn rebuild_with_effort_commits_the_effort_on_success() {
    let mut s = swap(vec![profile("nvidia", ProviderKind::Nvidia, "m1")], "nvidia");
    s.rebuild_with_effort(Effort::Max, Ok(())).unwrap();
    assert_eq!(s.effort, Effort::Max);
}

#[test]
fn rebuild_with_effort_without_credential_errors() {
    // Onboarding state: a seeded provider but no live credential. Changing effort must error clearly and
    // leave the dial untouched, never panic.
    let mut s = ProviderSwap::new(
        vec![profile("nvidia", ProviderKind::Nvidia, "m1")],
        "nvidia".into(),
        None,
        true,
        Effort::High,
    );
    assert!(s.rebuild_with_effort(Effort::Max, Ok(())).is_err());
    assert_eq!(s.effort, Effort::High, "the effort dial must not change");
}

#[test]
fn add_and_activate_adds_the_provider_and_selects_it() {
    let mut s = swap(vec![profile("nvidia", ProviderKind::Nvidia, "m1")], "nvidia");
    let model = s
        .add_and_activate(
            profile("anthropic", ProviderKind::Anthropic, "anthropic-large"),
            api_key(),
            Ok(()),
            Ok(()),
        )
        .unwrap();
    assert_eq!(model, "anthropic-large");
    assert_eq!(s.active, "anthropic");
    assert!(s.provider_ids().iter().any(|p| p == "anthropic"));
}

#[test]
fn resolve_credential_yields_none_for_a_keyless_profile() {
    let p = keyless_profile("lmstudio", ProviderKind::OpenAiCompatible, "gemma");
    let (credential, persist_warning) = look_up(&p, &["nvidia"]).unwrap();
    assert!(matches!(credential, Credential::Keyless));
    assert!(persist_warning.is_none(), "keyless needs no env import");
}

#[test]
fn switch_to_no_auth_provider_needs_no_credential() {
    // A keyless provider in the catalog switches with neither a stored credential nor an env key.
    let lmstudio = keyless_profile("lmstudio", ProviderKind::OpenAiCompatible, "gemma");
    let found = look_up(&lmstudio, &["nvidia"]);
    let mut s = swap(vec![profile("nvidia", ProviderKind::Nvidia, "m1"), lmstudio], "nvidia");
    let switch = s
        .switch_to("lmstudio", found, Ok(()))
        .expect("a keyless switch needs no credential");
    assert_eq!(switch.model, "gemma");
    assert!(switch.persist_warning.is_none());
    assert_eq!(s.active, "lmstudio");
}

#[test]
fn add_and_activate_none_credential_skips_secret_store() {
    // A keyless save must succeed though the store would fail.
    let mut s = ProviderSwap::new(vec![], String::new(), None, true, Effort::High);
    let model = s
        .add_and_activate(
            keyless_profile("lmstudio", ProviderKind::OpenAiCompatible, "gemma"),
            Credential::Keyless,
            Ok(()),
            Err("set must not be called for a keyless provider".to_string()),
        )
        .expect("keyless add must not touch secrets.set");
    assert_eq!(model, "gemma");
    assert_eq!(s.active, "lmstudio");
}

#[test]
fn rebuild_with_effort_works_for_a_keyless_active_provider() {
    // Changing the effort of a keyless active provider must rebuild, never hit the "configure um provider"
    // error that no credential at all would trigger.
    let mut s = ProviderSwap::new(
        vec![keyless_profile(
            "lmstudio",
            ProviderKind::OpenAiCompatible,
            "gemma",
        )],
        "lmstudio".into(),
        Some(Credential::Keyless),
        true,
        Effort::High,
    );
    s.rebuild_with_effort(Effort::Max, Ok(()))
        .expect("a keyless effort rebuild must succeed");
    assert_eq!(s.effort, Effort::Max);
}

#[test]
fn empty_completion_surfaces_a_notice_and_no_plan_box() {
    // A plan-mode turn whose provider returned nothing must NOT show a plan box, and must surface a
    // visible error instead of failing silently.
    let mut model = Model::new("m".to_string(), "/w".to_string());
    model.approval_mode = ApprovalMode::Plan;
    model.busy = true;
    let conversation = conversation(vec![
        Message::user("faça um plano".to_string()),
        Message::assistant_text("".to_string()), // the empty reply that was appended
    ]);

    on_turn_end(Ok(TurnOutcome::Completed), false, &mut model, &conversation);

    assert!(
        model.pending_plan.is_none(),
        "an empty turn must not pop a phantom plan box"
    );
    assert!(
        has_error_notice(&model),
        "an empty turn must surface an error notice"
    );
}

#[test]
fn a_cancel_aborts_the_turn_without_quitting() {
    // A single ^C while busy cancels just the turn. The app must NOT quit — only a genuine input-stream
    // end does.
    let mut model = Model::new("m".to_string(), "/w".to_string());
    model.busy = true;
    let conversation = conversation(vec![Message::user("rodar algo demorado".to_string())]);

    on_turn_end(Ok(TurnOutcome::Aborted), true, &mut model, &conversation);

    assert!(
        !model.should_quit,
        "^C must cancel the turn, not quit the app"
    );
}

#[test]
fn a_genuine_abort_quits() {
    // The approval channel closed: this is a real session end and must quit.
    let mut model = Model::new("m".to_string(), "/w".to_string());
    let conversation = conversation(vec![]);
    on_turn_end(Ok(TurnOutcome::Aborted), false, &mut model, &conversation);
    assert!(model.should_quit, "a genuine abort must quit");
}

#[test]
fn present_plan_outcome_renders_the_plan_and_offers_the_box() {
    // A plan is surfaced ONLY where the model presented one: the plan text is rendered and the approval
    // box opens.
    let mut model = Model::new("m".to_string(), "/w".to_string());
    model.approval_mode = ApprovalMode::Plan;
    let conversation = conversation(vec![Message::user("faça um plano".to_string())]);

    on_turn_end(
        Ok(TurnOutcome::PlanProposed(
            "## Plano\n1. fazer X".to_string(),
        )),
        false,
        &mut model,
        &conversation,
    );

    assert!(
        model.pending_plan.is_some(),
        "a proposed plan must offer the plan box"
    );
    assert!(
        model.transcript.items().iter().any(|item| matches!(
            item,
            TranscriptItem::Assistant(text) if text.contains("Plano")
        )),
        "the proposed plan text must be rendered in the transcript"
    );
    assert!(!has_error_notice(&model), "a proposed plan is not an error");
}

#[test]
fn plain_plan_mode_completion_does_not_pop_the_box() {
    // A plain text turn in plan mode (the model thought aloud or asked a question) must NOT open the
    // approval box.
    let mut model = Model::new("m".to_string(), "/w".to_string());
    model.approval_mode = ApprovalMode::Plan;
    let conversation = conversation(vec![
        Message::user("faça um plano".to_string()),
        Message::assistant_text("Preciso de mais detalhes: qual módulo?".to_string()),
    ]);

    on_turn_end(Ok(TurnOutcome::Completed), false, &mut model, &conversation);

    assert!(
        model.pending_plan.is_none(),
        "a plain plan-mode turn must not pop the box without a presented plan"
    );
    assert!(!has_error_notice(&model), "a real reply is not an error");
}

#[test]
fn spinner_frame_advances_one_step_per_frame_interval() {
    assert_eq!(spinner_frame(Duration::from_millis(0)), 0);
    assert_eq!(spinner_frame(Duration::from_millis(FRAME_INTERVAL - 1)), 0);
    assert_eq!(spinner_frame(Duration::from_millis(FRAME_INTERVAL)), 1);
    assert_eq!(spinner_frame(Duration::from_millis(FRAME_INTERVAL * 5)), 5);
}

#[test]
fn place_cursor_moves_the_edit_cursor() {
    let mut model = Model::new("m".to_string(), "/w".to_string());
    model.input.set("hello world".to_string()); // one short line — the unambiguous regime
    let mut renderer = Renderer::new(Highlighter::new());
    let area = Rect::new(0, 0, 40, 10);

    // Resolve the editor rect the same way the click will, then click two cells into the text.
    let editor_area = content_rect(frame_regions(&mut renderer, area, &model).input);
    place_cursor(&mut renderer, &mut model, area, editor_area.x + 2, editor_area.y);
    assert_eq!(
        model.input.cursor(),
        (0, 2),
        "a click two cells into the line lands at char index 2"
    );
}

#[test]
fn a_tool_only_turn_is_not_treated_as_empty() {
    // A turn that ended on a tool result (e.g. a declined checkpoint) produced activity — it is not
    // "nothing", so no spurious error notice.
    let conversation = conversation(vec![
        Message::user("read a.txt".to_string()),
        Message::tool_result("c1".to_string(), "hello".to_string()),
    ]);
    assert!(!turn_produced_nothing(&conversation));
}

#[test]
fn persist_or_notice_is_silent_on_ok() {
    let mut model = Model::default();
    persist_or_notice(Ok(()), &mut model, "contexto");
    assert!(
        model.transcript.is_empty(),
        "a successful persist must add no notice"
    );
}

#[test]
fn persist_or_notice_pushes_an_error_notice_on_err() {
    let mut model = Model::default();
    persist_or_notice(Err("disco cheio".to_string()), &mut model, "não persistiu o modelo");
    assert_eq!(
        model.transcript.items().last(),
        Some(&TranscriptItem::Notice(
            NoticeLevel::Error,
            "não persistiu o modelo: disco cheio".to_string()
        )),
        "a persist failure must surface a contextual error notice"
    );
}

#[test]
fn notice_env_import_failure_some_pushes_error_notice() {
    let mut model = Model::default();
    notice_env_import_failure(Some("credential store error: falha".to_string()), &mut model);
    assert_eq!(
        model.transcript.items().last(),
        Some(&TranscriptItem::Notice(
            NoticeLevel::Error,
            "a chave importada do ambiente não foi salva: credential store error: falha"
                .to_string()
        )),
        "an env-import persist failure must surface the exact one-time warning"
    );
}

#[test]
fn notice_env_import_failure_none_is_silent() {
    let mut model = Model::default();
    notice_env_import_failure(None, &mut model);
    assert!(
        model.transcript.is_empty(),
        "a persisted (or absent) env key must add no notice"
    );
}

#[test]
fn a_successful_copy_of_real_text_notifies_success() {
    let mut model = Model::default();
    notify_copy_result(&mut model, Ok(()), true);
    assert_eq!(
        model.transcript.items().last(),
        Some(&TranscriptItem::Notice(
            NoticeLevel::Info,
            "copiado para a área de transferência".to_string()
        )),
        "a real copy must surface transient success feedback"
    );
}

#[test]
fn a_no_op_copy_of_empty_text_stays_silent() {
    let mut model = Model::default();
    notify_copy_result(&mut model, Ok(()), false);
    assert!(
        model.transcript.is_empty(),
        "nothing was actually copied, so there is nothing to confirm"
    );
}

#[test]
fn a_failed_copy_notifies_the_error() {
    let mut model = Model::default();
    notify_copy_result(&mut model, Err("boom".to_string()), true);
    assert_eq!(
        model.transcript.items().last(),
        Some(&TranscriptItem::Notice(
            NoticeLevel::Error,
            "falha ao copiar para a área de transferência: boom".to_string()
        ))
    );
}
