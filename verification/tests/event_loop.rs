//! The event loop's decisions: boot, turns, sessions, distillation, providers, hooks and sync.
use kiri_tui::application::effect::Effect;
use kiri_tui::application::msg::{Msg, StreamKind};
use kiri_tui::clock::{Duration, Instant};
use kiri_tui::conversation::{Conversation, Message, Role, ToolCall};
use kiri_tui::domain::input::{Key, KeyPress};
use kiri_tui::domain::input_buffer::ImageAttachment;
use kiri_tui::domain::modal::PendingApproval;
use kiri_tui::domain::model::{Model, Motion, ONBOARDING_WELCOME};
use kiri_tui::domain::selection::{Granularity, ScreenSelection, SelectionState};
use kiri_tui::domain::transcript::{NoticeLevel, ToolStatus, TranscriptItem};
use kiri_tui::domain::wizard::ProviderWizard;
use kiri_tui::infrastructure::input::{TerminalEvent, TerminalKey};
use kiri_tui::infrastructure::render::layout::Rect;
use kiri_tui::infrastructure::render::markdown::cache::Renderer;
use kiri_tui::infrastructure::render::markdown::render::Highlighter;
use kiri_tui::infrastructure::render::theme::Ink;
use kiri_tui::infrastructure::render::widgets::editor::{click_to_cursor, content_rect};
use kiri_tui::infrastructure::runtime::bridge::{
    confirm_continue, display_outcome, on_event, tool_finished, tool_started, CancelToken, CheckpointReason,
    EngineMsg, StreamEvent, ToolOutcome,
};
use kiri_tui::infrastructure::runtime::clipboard::ClipboardContent;
use kiri_tui::infrastructure::runtime::distill::{
    begin_distillation, distill_input, distill_step, end_distillation, should_distill, DistillStep, Distilled,
};
use kiri_tui::infrastructure::runtime::hook_dispatch::{announce_hook, hook_approved, Layer};
use kiri_tui::infrastructure::runtime::provider_swap::{
    apply_save_provider, apply_set_effort, apply_set_model, apply_set_provider, take_credential, Credential,
    ProviderSwap,
};
use kiri_tui::infrastructure::runtime::render::{
    paste_from_clipboard, pending_copy, place_cursor, resolve_motion, settle_copy,
};
use kiri_tui::infrastructure::runtime::session_ops::{
    change_workspace, flush_step, list_sessions, new_session, open_session, rebuild_transcript, resume_last,
    session_appended, session_created, sessions_ready, short_timestamp, FlushStep, SessionCursor,
    SessionSummary, StoredSession,
};
use kiri_tui::infrastructure::runtime::sync::{sync_finished, sync_started};
use kiri_tui::infrastructure::runtime::tui::{
    apply_effect, boot, idle_input, open_shell, seed_turn, turn_input, BootNotice, Incoming, Job,
};
use kiri_tui::infrastructure::runtime::turn::{
    approve_plan, forces_draw, on_turn_end, submit_prompt, Rollback, Step, Turn, TurnAction, TurnError,
    TurnOutcome,
};
use kiri_tui::kernel::{Approval, ApprovalMode, AuthMethod, Effort, ProviderKind, ProviderProfile, Secret};

fn at(ms: u64) -> Instant {
    Instant { nanos: ms * 1_000_000 }
}

fn notices(model: &Model) -> Vec<(NoticeLevel, String)> {
    model
        .transcript
        .items()
        .iter()
        .filter_map(|i| match i {
            TranscriptItem::Notice(level, text) => Some((*level, text.clone())),
            _ => None,
        })
        .collect()
}

fn info(text: &str) -> (NoticeLevel, String) {
    (NoticeLevel::Info, text.to_string())
}

fn error(text: &str) -> (NoticeLevel, String) {
    (NoticeLevel::Error, text.to_string())
}

fn talk(messages: Vec<Message>) -> Conversation {
    let mut conversation = Conversation::new("system".to_string());
    for message in messages {
        conversation.push(message);
    }
    conversation
}

fn user(text: &str) -> Message {
    Message::user(text.to_string())
}

fn reply(text: &str) -> Message {
    Message::assistant_text(text.to_string())
}

fn calls(n: usize) -> Message {
    let mut message = reply("");
    for _ in 0..n {
        message.tool_calls.push(ToolCall { name: "ls".to_string(), arguments: "{}".to_string() });
    }
    message
}

fn fresh() -> SessionCursor {
    SessionCursor { session_id: None, persisted_len: 0 }
}

fn profile(id: &str, kind: ProviderKind, model: &str) -> ProviderProfile {
    ProviderProfile {
        id: id.to_string(),
        kind,
        base_url: "u".to_string(),
        model: model.to_string(),
        models: vec![model.to_string(), "extra".to_string()],
        auth: AuthMethod::ApiKey,
        thinking: None,
    }
}

fn key() -> Credential {
    Credential::ApiKey(Secret::new("k".to_string()))
}

fn swap() -> ProviderSwap {
    ProviderSwap::new(
        vec![
            profile("nvidia", ProviderKind::Nvidia, "m1"),
            profile("anthropic", ProviderKind::Anthropic, "m2"),
        ],
        "nvidia".to_string(),
        Some(key()),
        true,
        Effort::High,
    )
}

#[test]
fn every_error_has_its_end() {
    let failed = |rejected| TurnError { message: "quebrou".to_string(), rejected };
    let conversation = talk(vec![user("oi")]);

    let mut m = Model { busy: true, ..Model::default() };
    assert_eq!(on_turn_end(Err(failed(false)), false, &mut m, &conversation), Rollback::DanglingUser);
    assert_eq!(notices(&m), vec![error("erro: quebrou")]);
    assert!(!m.busy && !m.should_quit);

    let mut m = Model::default();
    assert_eq!(on_turn_end(Err(failed(true)), false, &mut m, &conversation), Rollback::LastTurn);
    assert_eq!(
        notices(&m),
        vec![
            error("erro: quebrou"),
            info("turno anterior descartado (request rejeitado pelo provedor)"),
        ]
    );

    let mut m = Model::default();
    assert_eq!(on_turn_end(Err(failed(true)), true, &mut m, &conversation), Rollback::DanglingUser);
    assert_eq!(notices(&m), vec![info("⨯ cancelado")]);

    // A cancelled plan opens no box.
    let mut m = Model::default();
    let plan = TurnOutcome::PlanProposed("p".to_string());
    assert_eq!(on_turn_end(Ok(plan), true, &mut m, &conversation), Rollback::Keep);
    assert!(m.pending_plan.is_none());
    assert!(m.transcript.is_empty());
}

#[test]
fn a_turn_runs_from_deltas_to_its_end() {
    let mut m = Model { busy: true, ..Model::default() };
    let conversation = talk(vec![user("oi"), reply("olá")]);
    let mut turn = Turn::new(at(1000));

    // A delta is throttled until the frame budget is spent.
    let (effects, drain) = turn.step(
        &mut m,
        Step::Apply(Msg::StreamDelta(StreamKind::Content, "ol".to_string())),
        at(1010),
    );
    assert!(effects.is_empty() && drain);
    assert!(!turn.due(&mut m, at(1032)));
    assert!(turn.due(&mut m, at(1033)));
    turn.drawn(None, at(1033));
    assert!(!turn.due(&mut m, at(1040)));

    // A queue coalesces, and a structural message in it forces the draw.
    turn.absorb(&mut m, vec![EngineMsg::Content("á".to_string()), EngineMsg::Reasoning("hm".to_string())]);
    assert!(!turn.due(&mut m, at(1041)));
    turn.absorb(
        &mut m,
        vec![EngineMsg::Approval(PendingApproval::new("rodar?".to_string(), true)), EngineMsg::Finished],
    );
    assert!(turn.due(&mut m, at(1041)));
    assert!(turn.awaiting_reply && m.pending_approval.is_some());

    // The answer goes to the engine once.
    let (effects, _) = turn.step(
        &mut m,
        Step::Apply(Msg::Key(KeyPress { code: Key::Char('1'), ctrl: false, alt: false, shift: false })),
        at(1050),
    );
    assert_eq!(effects, vec![Effect::AnswerApproval(Approval::Approved)]);
    for effect in effects {
        assert_eq!(turn.on_effect(&mut m, effect), Some(TurnAction::Reply(Approval::Approved)));
    }
    assert_eq!(turn.on_effect(&mut m, Effect::AnswerApproval(Approval::Approved)), None);

    turn.step(&mut m, Step::Done(Ok(TurnOutcome::Completed)), at(3500));
    assert!(turn.due(&mut m, at(3500)));
    assert_eq!(m.status.elapsed_secs, 2);
    assert_eq!(m.status.spinner_frame, 2500 / 120);
    let rest = vec![EngineMsg::Content("!".to_string())];
    assert_eq!(turn.finish(&mut m, &conversation, rest), Rollback::Keep);
    assert!(!m.busy);
    assert_eq!(
        m.transcript.items().as_slice(),
        &[
            TranscriptItem::Assistant("olá".to_string()),
            TranscriptItem::Reasoning("hm".to_string()),
            TranscriptItem::Notice(NoticeLevel::Info, "✓ rodar?".to_string()),
            TranscriptItem::Assistant("!".to_string()),
        ]
    );
}

#[test]
fn a_cancel_ends_the_turn_at_once() {
    let mut m = Model { busy: true, ..Model::default() };
    let mut turn = Turn::new(at(0));
    assert_eq!(turn.on_effect(&mut m, Effect::CancelTurn), None);
    assert_eq!(turn.outcome, Some(Ok(TurnOutcome::Aborted)));
    assert!(turn.cancel.is_cancelled());
    turn.finish(&mut m, &talk(vec![user("oi")]), vec![]);
    assert!(!m.should_quit);
    assert_eq!(notices(&m), vec![info("⨯ cancelado")]);

    let mut m = Model { busy: true, ..Model::default() };
    let mut turn = Turn::new(at(0));
    turn.on_effect(&mut m, Effect::Quit);
    turn.finish(&mut m, &talk(vec![user("oi")]), vec![]);
    assert!(m.should_quit);
}

#[test]
fn a_failed_draw_still_frees_the_front_end() {
    let mut m = Model { busy: true, ..Model::default() };
    let mut turn = Turn::new(at(0));
    turn.drawn(Some("no tty".to_string()), at(1));
    turn.finish(&mut m, &talk(vec![user("oi")]), vec![]);
    assert!(!m.busy);
    assert_eq!(notices(&m), vec![error("erro: no tty")]);
}

#[test]
fn mid_turn_effects_stay_live_or_wait() {
    let mut m = Model::default();
    let mut turn = Turn::new(at(0));
    assert_eq!(
        turn.on_effect(&mut m, Effect::CopyToClipboard("t".to_string())),
        Some(TurnAction::Copy("t".to_string()))
    );
    assert_eq!(turn.on_effect(&mut m, Effect::PasteClipboard), Some(TurnAction::Paste));
    assert_eq!(
        turn.on_effect(&mut m, Effect::PlaceCursor { col: 1, row: 2 }),
        Some(TurnAction::PlaceCursor { col: 1, row: 2 })
    );
    for waits in [Effect::NewSession, Effect::SyncPush, Effect::SetModel("m".to_string())] {
        assert_eq!(turn.on_effect(&mut m, waits), None);
    }
    assert_eq!(turn, Turn::new(at(0)));
}

#[test]
fn only_deltas_and_ticks_are_throttled() {
    assert!(!forces_draw(&Msg::Tick));
    assert!(!forces_draw(&Msg::StreamDelta(StreamKind::Reasoning, String::new())));
    assert!(forces_draw(&Msg::Resize));
    assert!(forces_draw(&Msg::TurnFinished));
}

#[test]
fn prompts_become_messages() {
    let mut conversation = talk(vec![]);
    submit_prompt("a".to_string(), vec![], &mut conversation);
    submit_prompt("b".to_string(), vec!["data:x".to_string()], &mut conversation);
    let mut m = Model::default();
    approve_plan(ApprovalMode::Auto, &mut m, &mut conversation);
    let messages = conversation.messages();
    assert_eq!(messages[1], user("a"));
    assert_eq!(messages[2].images, vec!["data:x".to_string()]);
    assert_eq!(messages[3], user("Plano aprovado. Prossiga com a execução."));
    assert_eq!(messages[0].role, Role::System);
    assert!(m.busy);
    assert_eq!(m.approval_mode, ApprovalMode::Auto);
    approve_plan(ApprovalMode::Default, &mut m, &mut conversation);
    assert_eq!(notices(&m), vec![info("▶ executando o plano (auto)"), info("▶ executando o plano")]);
}

#[test]
fn engine_events_are_told() {
    let mut cancel = CancelToken::new();
    assert_eq!(
        on_event(&cancel, StreamEvent::Content("x".to_string())),
        Some(EngineMsg::Content("x".to_string()))
    );
    cancel.cancel();
    assert_eq!(on_event(&cancel, StreamEvent::Reasoning("x".to_string())), None);
    cancel.reset();
    assert!(!cancel.is_cancelled());

    assert_eq!(display_outcome(&ToolOutcome::Declined), (ToolStatus::Declined, String::new()));
    assert_eq!(
        tool_finished(&ToolOutcome::Error("e".to_string()), Duration::from_secs(1)),
        EngineMsg::ToolFinished {
            status: ToolStatus::Error,
            output: "e".to_string(),
            elapsed: Duration::from_secs(1),
        }
    );
    let call = ToolCall { name: "run_command".to_string(), arguments: "{}".to_string() };
    assert_eq!(
        tool_started(&call, "ls"),
        EngineMsg::ToolStarted { command: "ls".to_string(), diff: None, is_run_command: true }
    );
    assert_eq!(
        confirm_continue(CheckpointReason::Elapsed { minutes: 12 }).prompt,
        "Execução já dura ~12min. Continuar?"
    );
    assert_eq!(
        confirm_continue(CheckpointReason::CallCount { calls: 50 }).prompt,
        "Já são 50 chamadas de ferramenta neste turno. Continuar?"
    );
}

#[test]
fn timestamps_are_cut_to_the_minute() {
    assert_eq!(short_timestamp("2024-05-06T07:08:09Z"), "2024-05-06 07:08");
    assert_eq!(short_timestamp("2024-05-06T07:08"), "2024-05-06 07:08");
    assert_eq!(short_timestamp("T short"), "  short");
    assert_eq!(short_timestamp(""), "");
    // A cut inside a character keeps the whole text.
    assert_eq!(short_timestamp("123456789012345ç7"), "123456789012345ç7");
    assert_eq!(short_timestamp("12345678901234ç7"), "12345678901234ç");
}

#[test]
fn a_stored_conversation_is_replayed() {
    let messages = vec![
        Message::system("s".to_string()),
        user("oi"),
        user("  "),
        calls(3),
        Message::tool_result("c".to_string(), "out".to_string()),
        reply("pronto"),
        reply(" "),
    ];
    assert_eq!(
        rebuild_transcript(&messages).items().as_slice(),
        &[
            TranscriptItem::User("oi".to_string()),
            TranscriptItem::Notice(NoticeLevel::Info, "· 3 ferramenta(s) executada(s)".to_string()),
            TranscriptItem::Assistant("pronto".to_string()),
        ]
    );
}

#[test]
fn a_flush_writes_only_the_new_tail() {
    let mut m = Model::default();
    let mut cursor = fresh();
    let mut conversation = talk(vec![]);
    assert_eq!(flush_step(true, &conversation, &cursor), FlushStep::Idle, "nothing was said");
    conversation.push(user("primeira"));
    conversation.push(reply("r"));
    assert_eq!(flush_step(false, &conversation, &cursor), FlushStep::Idle, "no store");
    assert_eq!(flush_step(true, &conversation, &cursor), FlushStep::Create);

    assert!(!session_created(&mut cursor, &mut m, Err("disco".to_string())));
    assert_eq!(notices(&m), vec![error("não persistiu a sessão: disco")]);
    assert!(session_created(&mut cursor, &mut m, Ok("id".to_string())));
    assert_eq!(
        flush_step(true, &conversation, &cursor),
        FlushStep::Append { id: "id".to_string(), from: 1 }
    );

    // A failed append is tried again in full.
    assert_eq!(session_appended(&mut cursor, &mut m, &conversation, Err("x".to_string())), None);
    assert_eq!(cursor.persisted_len, 0);
    assert_eq!(
        session_appended(&mut cursor, &mut m, &conversation, Ok(())).as_deref(),
        Some("primeira"),
        "the first flush names the session"
    );
    assert_eq!(flush_step(true, &conversation, &cursor), FlushStep::Idle);

    conversation.push(user("segunda"));
    assert_eq!(
        flush_step(true, &conversation, &cursor),
        FlushStep::Append { id: "id".to_string(), from: 3 }
    );
    assert_eq!(session_appended(&mut cursor, &mut m, &conversation, Ok(())), None);
    // A rollback may shrink the conversation below the cursor.
    assert_eq!(flush_step(true, &talk(vec![user("a")]), &cursor), FlushStep::Idle);
}

#[test]
fn sessions_are_listed_and_resumed() {
    let mut m = Model::default();
    assert!(!sessions_ready(&mut m, false));
    assert!(sessions_ready(&mut m, true));
    list_sessions(&mut m, Ok(vec![]), "(sem título)");
    list_sessions(&mut m, Err("sql".to_string()), "(sem título)");
    assert_eq!(resume_last(&mut m, Ok(None)), None);
    assert_eq!(resume_last(&mut m, Err("sql".to_string())), None);
    assert_eq!(
        notices(&m),
        vec![
            info("persistência de sessão indisponível"),
            info("nenhuma sessão anterior neste workspace"),
            error("não foi possível listar as sessões: sql"),
            info("nenhuma sessão anterior neste workspace"),
            error("não foi possível ler as sessões: sql"),
        ]
    );
    assert_eq!(resume_last(&mut m, Ok(Some("id".to_string()))).as_deref(), Some("id"));

    let row = |id: &str, title: &str| SessionSummary {
        id: id.to_string(),
        title: title.to_string(),
        updated_at: "2024-05-06T07:08:09Z".to_string(),
        message_count: 4,
    };
    list_sessions(&mut m, Ok(vec![row("1", " bugs "), row("2", "  ")]), "(sem título)");
    assert_eq!(m.session_ids, vec!["1".to_string(), "2".to_string()]);
    assert_eq!(
        m.picker.as_ref().unwrap().options,
        vec![
            "bugs · 2024-05-06 07:08 · 4 msgs".to_string(),
            "(sem título) · 2024-05-06 07:08 · 4 msgs".to_string(),
        ]
    );
}

#[test]
fn a_session_is_opened_or_left_alone() {
    let stored = StoredSession {
        id: "s".to_string(),
        title: "bugs".to_string(),
        messages: vec![user("oi"), reply("olá")],
        skipped_messages: 2,
    };
    let mut m = Model::default();
    m.attachments.push(ImageAttachment { data_url: "d".to_string(), width: 1, height: 1 });
    m.scroll.top();
    let mut cursor = SessionCursor { session_id: Some("old".to_string()), persisted_len: 9 };
    let mut conversation = talk(vec![user("antes")]);

    open_session(&mut m, &mut cursor, &mut conversation, "p", "-", Ok(None));
    open_session(&mut m, &mut cursor, &mut conversation, "p", "-", Err("io".to_string()));
    assert_eq!(
        notices(&m),
        vec![error("sessão não encontrada"), error("não foi possível abrir a sessão: io")]
    );
    assert_eq!(conversation.messages().len(), 2);
    assert_eq!(cursor.persisted_len, 9);

    open_session(&mut m, &mut cursor, &mut conversation, "p", "-", Ok(Some(stored)));
    assert_eq!(conversation.messages()[0], Message::system("p".to_string()));
    assert_eq!(conversation.messages()[1..], [user("oi"), reply("olá")]);
    assert_eq!(cursor, SessionCursor { session_id: Some("s".to_string()), persisted_len: 2 });
    assert_eq!(flush_step(true, &conversation, &cursor), FlushStep::Idle);
    assert!(m.attachments.is_empty());
    assert_eq!(m.scroll.scrollback, 0);
    assert_eq!(
        notices(&m),
        vec![
            info("sessão retomada: bugs"),
            error("2 mensagem(ns) corrompida(s) ignorada(s) ao retomar a sessão"),
        ]
    );

    change_workspace(&mut m, &mut cursor, Err("não existe".to_string()));
    assert!(cursor.session_id.is_some());
    change_workspace(&mut m, &mut cursor, Ok("~/w".to_string()));
    assert_eq!(cursor, fresh());
    assert_eq!(m.status.workspace, "~/w");
    assert_eq!(notices(&m)[2..], [error("erro: não existe"), info("workspace: ~/w")]);

    new_session(&mut m, &mut cursor, &mut conversation, "p");
    assert_eq!(conversation.messages().len(), 1);
    assert_eq!(notices(&m), vec![info("nova sessão")]);
}

#[test]
fn a_distillation_is_worth_it_and_skippable() {
    assert!(!should_distill(&talk(vec![user("oi")])));
    assert!(!should_distill(&talk(vec![user("oi"), reply("  "), calls(1)])));
    let conversation = talk(vec![reply("olá"), user("oi")]);
    assert!(should_distill(&conversation));

    let mut m = Model::default();
    assert!(!begin_distillation(&mut m, &conversation, false, false, at(0)));
    assert!(m.transcript.is_empty());
    assert!(begin_distillation(&mut m, &conversation, false, true, at(100)));
    assert!(m.busy);
    assert_eq!(distill_step(&mut m, DistillStep::Tick, at(100), at(340)), None);
    assert_eq!(m.status.spinner_frame, 2);
    let press = |code, ctrl| TerminalEvent::Key { code, ctrl, alt: false, shift: false, pressed: true };
    assert_eq!(distill_input(Some(press(TerminalKey::Char('c'), false))), DistillStep::Tick);
    assert_eq!(distill_input(None), DistillStep::Tick);
    let skip = distill_input(Some(press(TerminalKey::Char('c'), true)));
    let outcome = distill_step(&mut m, skip, at(100), at(400)).unwrap();
    assert_eq!(outcome, Distilled::Skipped);
    end_distillation(&mut m, outcome);
    assert!(!m.busy);
    end_distillation(&mut m, Distilled::Finished(Ok(0)));
    end_distillation(&mut m, Distilled::Finished(Ok(3)));
    end_distillation(&mut m, Distilled::Finished(Err("timeout".to_string())));
    assert_eq!(
        notices(&m),
        vec![
            info("destilando memórias da sessão… (^C pula)"),
            info("destilação pulada"),
            info("memória atualizada: 3 aprendizado(s)"),
            info("destilação não concluída: timeout"),
        ]
    );
}

#[test]
fn provider_changes_are_told_and_kept() {
    let mut s = swap();
    let mut m = Model::default();
    apply_set_model(&mut s, &mut m, "m9".to_string());
    assert_eq!(s.active_profile().unwrap().model, "m9");
    assert_eq!(m.status.model, "m9");
    assert_eq!(s.providers[1].model, "m2");

    assert!(apply_set_effort(&mut s, &mut m, Effort::Low, Ok(())));
    assert!(!apply_set_effort(&mut s, &mut m, Effort::Max, Err("sem rede".to_string())));
    assert_eq!(s.effort, Effort::Low);

    assert!(!apply_set_provider(&mut s, &mut m, "ghost", Ok((key(), None)), Ok(())));
    let found = Ok((key(), Some("chaveiro".to_string())));
    assert!(apply_set_provider(&mut s, &mut m, "anthropic", found, Ok(())));
    assert_eq!(m.status.provider, "anthropic");
    assert_eq!(m.models, vec!["m2".to_string(), "extra".to_string()]);
    assert!(apply_set_effort(&mut s, &mut m, Effort::Max, Ok(())));
    assert_eq!(
        notices(&m),
        vec![
            info("modelo: m9"),
            info("esforço: low"),
            error("não foi possível aplicar o esforço: sem rede"),
            error("não foi possível trocar de provider: provider 'ghost' is not configured"),
            info("provider: anthropic (m2)"),
            error("a chave importada do ambiente não foi salva: chaveiro"),
            info("esforço: max — nota: ainda não afeta modelos Anthropic"),
        ]
    );
}

#[test]
fn a_provider_is_saved_in_place_of_its_namesake() {
    let mut s = swap();
    let mut m = Model { unconfigured: true, ..Model::default() };
    let edited = profile("nvidia", ProviderKind::Nvidia, "m7");
    assert!(!apply_save_provider(&mut s, &mut m, &edited, key(), Err("ruim".to_string()), Ok(())));
    assert!(!apply_save_provider(&mut s, &mut m, &edited, key(), Ok(()), Err("cofre".to_string())));
    assert!(m.unconfigured);
    assert_eq!(s.providers[0].model, "m1");
    assert!(apply_save_provider(&mut s, &mut m, &edited, key(), Ok(()), Ok(())));
    assert_eq!(s.provider_ids(), vec!["anthropic".to_string(), "nvidia".to_string()]);
    assert_eq!(m.providers, s.provider_ids());
    assert!(!m.unconfigured);
    assert_eq!(m.status.model, "m7");
    assert_eq!(
        notices(&m),
        vec![
            error("não foi possível salvar o provider: ruim"),
            error("não foi possível salvar o provider: cofre"),
            info("provider 'nvidia' adicionado e ativo"),
        ]
    );
}

#[test]
fn a_saved_key_comes_from_where_it_should() {
    let mut m = Model { pending_credential: Some(Secret::new("novo".to_string())), ..Model::default() };
    match take_credential(&mut m, AuthMethod::ApiKey, None) {
        Some(Credential::ApiKey(k)) => assert_eq!(k.expose(), "novo"),
        _ => panic!("the staged key is taken"),
    }
    assert!(m.pending_credential.is_none());
    assert!(take_credential(&mut m, AuthMethod::ApiKey, None).is_none());
    match take_credential(&mut m, AuthMethod::ApiKey, Some(key())) {
        Some(Credential::ApiKey(k)) => assert_eq!(k.expose(), "k"),
        _ => panic!("the kept key is taken"),
    }
    m.pending_credential = Some(Secret::new("solto".to_string()));
    assert!(matches!(take_credential(&mut m, AuthMethod::Keyless, None), Some(Credential::Keyless)));
    assert!(m.pending_credential.is_none());
    assert!(take_credential(&mut m, AuthMethod::OAuth, None).is_none());
    assert_eq!(
        notices(&m),
        vec![
            error("chave ausente; provider não foi salvo"),
            error("método de auth não suportado pelo wizard (OAuth); provider não foi salvo"),
        ]
    );
}

#[test]
fn the_active_provider_may_be_gone() {
    let mut s = swap();
    s.active = "ghost".to_string();
    assert_eq!(
        s.rebuild_with_effort(Effort::Low, Ok(())).unwrap_err(),
        "no active provider configured"
    );
    s.set_active_model("mX");
    assert_eq!(s.providers[0].model, "m1");
}

#[test]
fn the_front_end_boots_with_its_notices_first() {
    let notes = vec![BootNotice::new("sem memória".to_string())];
    let m = boot("~/w".to_string(), &swap(), &notes, true);
    assert_eq!(notices(&m), vec![info("sem memória"), info(ONBOARDING_WELCOME)]);
    assert!(m.unconfigured);
    assert_eq!(m.status.model, "m1");
    assert_eq!(m.status.provider, "nvidia");
    assert_eq!(m.status.effort, Effort::High);
    assert_eq!(m.provider_profiles.len(), 2);

    let empty = ProviderSwap::new(vec![], String::new(), None, false, Effort::Off);
    let mut m = boot("~/w".to_string(), &empty, &vec![], false);
    assert_eq!(m.status.model, "");
    assert!(m.wizard.is_none());
    open_shell(&mut m, Motion::Reduced, at(5));
    assert_eq!(m.timeline.opened_at, Some(at(5)));
    // The empty composer is drawn as its caret, in the highlight colour.
    let mut buffer = ratatui::buffer::Buffer::empty(ratatui::layout::Rect::new(0, 0, 4, 1));
    m.input.render(0, 0, 4, 1, &mut buffer);
    let caret = Ink::Highlight.color();
    assert_eq!(buffer[(0, 0)].bg, ratatui::style::Color::Rgb(caret.r, caret.g, caret.b));
}

#[test]
fn a_seed_runs_as_the_first_turn() {
    let run = |seed: Option<&str>, unconfigured: bool| {
        let mut m = Model { unconfigured, ..Model::default() };
        let mut c = talk(vec![]);
        let runs = seed_turn(&mut m, &mut c, seed.map(|s| s.to_string()));
        (runs, m, c.messages().len())
    };
    let (runs, m, said) = run(Some("  oi  "), false);
    assert!(runs && m.busy && said == 2);
    assert_eq!(m.transcript.items().as_slice(), &[TranscriptItem::User("oi".to_string())]);
    for ignored in [None, Some("   "), Some("/plan")] {
        let (runs, m, said) = run(ignored, false);
        assert!(!runs && !m.busy && said == 1 && m.transcript.is_empty());
    }
    assert!(run(Some("/quit"), true).1.should_quit);
    let (runs, m, _) = run(Some("oi"), true);
    assert!(!runs);
    assert_eq!(
        notices(&m),
        vec![info("configure um provider antes de enviar — a mensagem inicial foi ignorada")]
    );
}

#[test]
fn input_is_stamped_and_resolved() {
    let event = || TerminalEvent::Resize;
    let mut m = Model::default();
    assert_eq!(idle_input(&mut m, Incoming::Event(event()), at(3)), Some(Msg::Resize));
    assert_eq!(m.timeline.last_event_at, Some(at(3)));
    assert_eq!(idle_input(&mut m, Incoming::Fault, at(4)), None);
    assert_eq!(idle_input(&mut m, Incoming::Tick, at(4)), None);
    assert!(!m.should_quit);
    assert_eq!(turn_input(&mut m, Incoming::Closed, at(4)), Step::Idle);
    assert!(!m.should_quit, "a running turn goes on");
    assert_eq!(turn_input(&mut m, Incoming::Tick, at(4)), Step::Apply(Msg::Tick));
    assert_eq!(turn_input(&mut m, Incoming::Event(event()), at(5)), Step::Apply(Msg::Resize));
    assert_eq!(turn_input(&mut m, Incoming::Event(TerminalEvent::Unhandled), at(6)), Step::Idle);
    assert_eq!(idle_input(&mut m, Incoming::Closed, at(7)), None);
    assert!(m.should_quit);
}

#[test]
fn effects_find_their_job() {
    let mut m = Model::default();
    assert_eq!(apply_effect(&mut m, Effect::CancelTurn), None);
    assert_eq!(apply_effect(&mut m, Effect::AnswerApproval(Approval::Approved)), None);
    assert_eq!(apply_effect(&mut m, Effect::SyncPush), Some(Job::SyncPush));
    assert!(!m.should_quit);
    assert_eq!(apply_effect(&mut m, Effect::Quit), None);
    assert!(m.should_quit);
    let effect = Effect::SaveProvider {
        id: "lm".to_string(),
        kind: ProviderKind::Custom,
        base_url: "u".to_string(),
        model: "g".to_string(),
        models: vec!["g".to_string()],
        auth: AuthMethod::Keyless,
        thinking: None,
        keep_existing_key: false,
    };
    match apply_effect(&mut m, effect) {
        Some(Job::SaveProvider { profile, keep_existing_key: false }) => {
            assert_eq!(profile.id, "lm");
            assert_eq!(profile.model, "g");
        }
        other => panic!("expected a save, got {other:?}"),
    }
}

#[test]
fn a_copy_is_settled_once() {
    let select = |state| {
        let mut m = Model::default();
        let mut s = ScreenSelection::new(1, 1, Granularity::Char);
        s.extend(4, 1);
        s.state = state;
        m.selection.active = Some(s);
        m
    };
    assert!(pending_copy(&select(SelectionState::Idle)).is_none());
    let mut m = select(SelectionState::CopyAndKeep);
    let s = pending_copy(&m).unwrap();
    settle_copy(&mut m, s);
    assert!(m.selection.active.is_some(), "the highlight stays up");
    assert!(pending_copy(&m).is_none());
    let mut m = select(SelectionState::CopyAndClear);
    let s = pending_copy(&m).unwrap();
    settle_copy(&mut m, s);
    assert!(m.selection.active.is_none());
}

#[test]
fn the_clipboard_goes_where_it_should() {
    let mut m = Model::default();
    paste_from_clipboard(&mut m, ClipboardContent::Text("oi".to_string()));
    assert_eq!(m.input.text(), "oi");
    paste_from_clipboard(&mut m, ClipboardContent::Empty);
    paste_from_clipboard(&mut m, ClipboardContent::Unreadable);
    assert_eq!(notices(&m), vec![error("não consegui ler a imagem da área de transferência")]);
    let image = ImageAttachment { data_url: "d".to_string(), width: 1, height: 1 };
    paste_from_clipboard(&mut m, ClipboardContent::Image(image));
    assert_eq!(m.attachments.len(), 1);
    m.wizard = Some(ProviderWizard::new());
    paste_from_clipboard(&mut m, ClipboardContent::Text("sk".to_string()));
    assert_eq!(m.input.text(), "oi", "an open wizard keeps pastes from the composer");
}

#[test]
fn clicks_land_on_characters_or_nowhere() {
    let mut m = Model::default();
    m.input.set("漢字ab\nz".to_string());
    let area = Rect::new(10, 5, 20, 3);
    let click = |m: &Model, col, row| click_to_cursor(&m.input, area, col, row);
    assert_eq!(click(&m, 10, 5), Some((0, 0)));
    assert_eq!(click(&m, 11, 5), Some((0, 0)), "the second cell of a wide character");
    assert_eq!(click(&m, 12, 5), Some((0, 1)));
    assert_eq!(click(&m, 29, 5), Some((0, 4)), "past the end is the end");
    assert_eq!(click(&m, 10, 6), Some((1, 0)));
    assert_eq!(click(&m, 10, 7), None, "below the text");
    assert_eq!(click(&m, 9, 5), None);
    assert_eq!(click(&m, 30, 5), None);
    m.input.set("x".repeat(21));
    assert_eq!(click(&m, 10, 5), None, "a wrapped line is ambiguous");
    m.input.set("a\tb".to_string());
    assert_eq!(click(&m, 10, 5), None, "and so is a tab");
    assert_eq!(content_rect(Rect::new(0, 0, 1, 1)), Rect::new(1, 0, 0, 1));

    // A click off the composer leaves the cursor put.
    m.input.set("abc".to_string());
    let mut renderer = Renderer::new(Highlighter::new());
    place_cursor(&mut renderer, &mut m, Rect::new(0, 0, 40, 10), 0, 0);
    assert_eq!(m.input.cursor(), (0, 3));
}

#[test]
fn motion_is_reduced_by_either_wish() {
    assert_eq!(resolve_motion(false, false), Motion::Full);
    assert_eq!(resolve_motion(true, false), Motion::Reduced);
    assert_eq!(resolve_motion(false, true), Motion::Reduced);
}

#[test]
fn hooks_fail_closed() {
    assert!(hook_approved(Layer::Global, Ok(false)));
    assert!(hook_approved(Layer::Bundled, Err("x".to_string())));
    assert!(hook_approved(Layer::Project, Ok(true)));
    assert!(!hook_approved(Layer::Project, Ok(false)));
    assert!(!hook_approved(Layer::Project, Err("ilegível".to_string())));
    let mut m = Model::default();
    announce_hook(&mut m, true, "fmt", "ok");
    announce_hook(&mut m, false, "lint", "timeout");
    assert_eq!(notices(&m), vec![info("hook ✓ fmt: ok"), info("hook ✗ lint: timeout")]);
}

#[test]
fn a_sync_is_told() {
    let mut m = Model::default();
    sync_started(&mut m, at(9));
    assert_eq!(m.timeline.render_at, Some(at(9)));
    sync_finished(&mut m, Ok("2 arquivos".to_string()));
    sync_finished(&mut m, Err("rede".to_string()));
    assert_eq!(
        notices(&m),
        vec![info("sincronizando (push)…"), info("sync: 2 arquivos"), error("sync falhou: rede")]
    );
}

#[test]
fn what_was_flushed_is_what_is_reopened() {
    let conversation = talk(vec![user("oi"), calls(2), reply("olá")]);
    let session = StoredSession {
        id: "s".to_string(),
        title: "  ".to_string(),
        messages: conversation.messages()[1..].to_vec(),
        skipped_messages: 0,
    };
    let mut m = Model::default();
    let mut cursor = fresh();
    let mut resumed = talk(vec![user("outra")]);
    open_session(&mut m, &mut cursor, &mut resumed, "system", "(sem título)", Ok(Some(session)));
    assert_eq!(resumed, conversation);
    assert_eq!(flush_step(true, &resumed, &cursor), FlushStep::Idle);
    assert_eq!(notices(&m)[1..], [info("sessão retomada: (sem título)")]);
}
