//! The front-end as a user drives it: panes, search, pickers, recall, and what no key may do.
use kiri_tui::application::command::{help_text, parse, Command};
use kiri_tui::application::effect::Effect;
use kiri_tui::application::keymap::editor_input::{on_key, on_mouse, DOUBLE_TAP_WINDOW};
use kiri_tui::application::keymap::transcript_pane::{extract_code_blocks, extract_filepath};
use kiri_tui::application::keymap::{SCROLL_PAGE, SCROLL_STEP};
use kiri_tui::application::msg::{Msg, StreamKind};
use kiri_tui::application::update::update;
use kiri_tui::clock::{Duration, Instant};
use kiri_tui::domain::command_menu::{CommandMenu, CustomCommandEntry};
use kiri_tui::domain::history::History;
use kiri_tui::domain::input::{Key, KeyPress, MouseKind};
use kiri_tui::domain::input_buffer::{ImageAttachment, InputBuffer};
use kiri_tui::domain::modal::{ApprovalOption, PendingApproval, PendingPlan, PlanOption};
use kiri_tui::domain::model::{CommandBody, Model, Motion, PaneFocus, ThinkingModel};
use kiri_tui::domain::nav::wrapping_step;
use kiri_tui::domain::picker::{Picker, PickerKind};
use kiri_tui::domain::scroll::Scroll;
use kiri_tui::domain::transcript::{NoticeLevel, ToolActivity, ToolStatus, Transcript, TranscriptItem};
use kiri_tui::domain::wizard::{ProviderWizard, WizardStep, ADD_PROVIDER_LABEL};
use kiri_tui::kernel::{Approval, ApprovalMode, AuthMethod, Effort, ProviderKind, ProviderProfile, Secret};

fn press(code: Key) -> KeyPress {
    KeyPress { code, ctrl: false, alt: false, shift: false }
}

fn ctrl(c: char) -> KeyPress {
    KeyPress { code: Key::Char(c), ctrl: true, alt: false, shift: false }
}

fn type_str(m: &mut Model, s: &str) {
    for c in s.chars() {
        on_key(m, press(Key::Char(c)));
    }
}

fn submit_line(m: &mut Model, line: &str) -> Vec<Effect> {
    type_str(m, line);
    on_key(m, press(Key::Enter))
}

fn last_notice(m: &Model) -> (NoticeLevel, String) {
    match m.transcript.items().last() {
        Some(TranscriptItem::Notice(level, text)) => (*level, text.clone()),
        other => panic!("expected a notice, got {other:?}"),
    }
}

fn tool(command: &str, output: Option<&str>) -> TranscriptItem {
    TranscriptItem::Tool(ToolActivity {
        command: command.to_string(),
        diff: None,
        result: output.map(|o| (ToolStatus::Success, o.to_string(), Duration::from_millis(5))),
    })
}

fn chat() -> Model {
    let mut m = Model::default();
    m.transcript.push(TranscriptItem::User("ler Cargo".to_string()));
    m.transcript.push(tool("cat \"src/main.rs\"", Some("fn main() {}")));
    m.transcript.push(TranscriptItem::Assistant("veja:\n```rust\nlet x;\n```\nfim".to_string()));
    m
}

#[test]
fn stepping_there_and_back_stays() {
    for len in 1..6usize {
        for index in 0..len {
            for delta in [-7, -1, 0, 1, 2, 9] {
                assert_eq!(wrapping_step(wrapping_step(index, delta, len), -delta, len), index);
            }
        }
    }
    // Deltas beyond what the length could hold still land in range.
    assert_eq!(wrapping_step(0, i32::MIN, 3), (3 - 2147483648i64.rem_euclid(3)) as usize % 3);
}

#[test]
fn scrolling_saturates_at_both_ends() {
    let mut s = Scroll::default();
    s.up(10);
    s.down(4);
    assert_eq!(s.scrollback, 6);
    s.down(100);
    assert_eq!(s.scrollback, 0);
    s.top();
    s.up(1);
    assert_eq!(s.scrollback, u16::MAX);
}

#[test]
fn an_unsent_draft_comes_back() {
    let mut h = History::default();
    assert_eq!(h.older("draft"), None);
    assert_eq!(h.newer(), None);
    h.record("one");
    h.record("   ");
    h.record("two");
    h.record("two");
    assert_eq!(h.older("draft").as_deref(), Some("two"));
    assert_eq!(h.older("two").as_deref(), Some("one"));
    assert_eq!(h.older("one").as_deref(), Some("one"), "the oldest entry is the end");
    assert_eq!(h.newer().as_deref(), Some("two"));
    assert_eq!(h.newer().as_deref(), Some("draft"));
    assert_eq!(h.newer(), None);
}

#[test]
fn an_outcome_lands_once_on_the_last_call() {
    let mut t = Transcript::default();
    t.push_tool_start("a".to_string(), None);
    t.push_tool_start("b".to_string(), None);
    t.finish_last_tool(ToolStatus::Error, "boom".to_string(), Duration::from_secs(1));
    t.finish_last_tool(ToolStatus::Declined, String::new(), Duration::from_secs(2));
    t.finish_last_tool(ToolStatus::Success, "late".to_string(), Duration::from_secs(3));
    let results: Vec<_> = t
        .items()
        .iter()
        .map(|i| match i {
            TranscriptItem::Tool(a) => a.result.clone(),
            other => panic!("{other:?}"),
        })
        .collect();
    assert_eq!(results[1], Some((ToolStatus::Error, "boom".to_string(), Duration::from_secs(1))));
    assert_eq!(results[0], None, "only the last item can take an outcome");
}

#[test]
fn deltas_coalesce_however_they_are_cut() {
    for cut in 0..6 {
        let mut t = Transcript::default();
        t.push_reasoning_delta(&"abcde"[..cut]);
        t.push_reasoning_delta(&"abcde"[cut..]);
        assert_eq!(t.items().as_slice(), &[TranscriptItem::Reasoning("abcde".to_string())]);
    }
}

#[test]
fn the_transcript_is_walked_with_wrapping() {
    let mut m = chat();
    on_key(&mut m, ctrl('p'));
    assert_eq!(m.focused_pane, PaneFocus::Transcript);
    assert_eq!(m.selected_item, Some(2), "the last item is picked up");
    on_key(&mut m, press(Key::Down));
    assert_eq!(m.selected_item, Some(0));
    on_key(&mut m, press(Key::Up));
    assert_eq!(m.selected_item, Some(2));
    on_key(&mut m, press(Key::Char('k')));
    assert_eq!(m.selected_item, Some(1));
    on_key(&mut m, press(Key::Char('j')));
    assert_eq!(m.selected_item, Some(2));
    on_key(&mut m, press(Key::Esc));
    assert_eq!(m.focused_pane, PaneFocus::Input);
}

#[test]
fn a_tool_item_expands_copies_and_opens() {
    let mut m = chat();
    on_key(&mut m, press(Key::Esc)); // an empty composer hands the focus over
    assert_eq!(m.focused_pane, PaneFocus::Transcript);
    on_key(&mut m, press(Key::Up));
    on_key(&mut m, press(Key::Enter));
    assert!(m.expanded_tools_indices.contains(&1));
    on_key(&mut m, press(Key::Char(' ')));
    assert!(m.expanded_tools_indices.is_empty(), "a second toggle takes the first back");
    assert_eq!(
        on_key(&mut m, press(Key::Char('c'))),
        vec![Effect::CopyToClipboard("fn main() {}".to_string())]
    );
    assert_eq!(
        on_key(&mut m, press(Key::Char('o'))),
        vec![Effect::OpenFile("src/main.rs".to_string())]
    );
    // An answer with a fence copies its code alone.
    on_key(&mut m, press(Key::Down));
    assert_eq!(
        on_key(&mut m, press(Key::Char('c'))),
        vec![Effect::CopyToClipboard("let x;".to_string())]
    );
}

#[test]
fn code_is_cut_out_of_an_answer() {
    assert_eq!(extract_code_blocks("só texto"), "só texto");
    assert_eq!(extract_code_blocks("```\na\nb\n```\nx\n```py\nc\n```"), "a\nb\n\nc");
    assert_eq!(extract_code_blocks("```\nnever closed"), "```\nnever closed");
    assert_eq!(extract_filepath("cat 'a b'"), Some("a".to_string()));
    assert_eq!(extract_filepath("  ls   -la  x"), Some("-la".to_string()));
    assert_eq!(extract_filepath("ls"), None);
}

#[test]
fn a_search_finds_and_steps_through_its_hits() {
    let mut m = chat();
    m.transcript.push(TranscriptItem::User("outra LER".to_string()));
    on_key(&mut m, ctrl('f'));
    assert_eq!(m.search_query.as_deref(), Some(""));
    type_str(&mut m, "ler");
    assert_eq!(m.search_results, vec![0, 3]);
    assert_eq!(m.selected_item, Some(0));
    on_key(&mut m, ctrl('n'));
    assert_eq!((m.active_search_match, m.selected_item), (1, Some(3)));
    on_key(&mut m, ctrl('n'));
    assert_eq!(m.active_search_match, 0, "stepping wraps");
    on_key(&mut m, ctrl('p'));
    assert_eq!(m.active_search_match, 1);
    on_key(&mut m, press(Key::Backspace));
    assert_eq!(m.search_query.as_deref(), Some("le"));
    type_str(&mut m, "zzz");
    assert!(m.search_results.is_empty());
    on_key(&mut m, press(Key::Esc));
    assert_eq!(m.search_query, None);
    assert!(m.input.is_empty(), "the search never types into the composer");
}

fn saved(id: &str, auth: AuthMethod) -> ProviderProfile {
    ProviderProfile {
        id: id.to_string(),
        kind: ProviderKind::OpenAiCompatible,
        base_url: "http://localhost:1234/v1".to_string(),
        model: "m1".to_string(),
        models: vec!["m1".to_string(), "m2".to_string()],
        auth,
        thinking: Some(true),
    }
}

fn with_saved(auth: AuthMethod) -> Model {
    Model::default().with_providers("lm".to_string(), vec!["lm".to_string()], vec![saved("lm", auth)])
}

#[test]
fn a_saved_provider_offers_its_actions() {
    let mut m = with_saved(AuthMethod::ApiKey);
    submit_line(&mut m, "/provider");
    assert_eq!(
        m.picker.as_ref().unwrap().options,
        vec!["lm · [openaicompatible] m1 · api_key".to_string(), ADD_PROVIDER_LABEL.to_string()]
    );
    on_key(&mut m, press(Key::Enter));
    let menu = m.picker.as_ref().expect("the action menu");
    assert_eq!(menu.kind, PickerKind::ProviderAction("lm".to_string()));
    assert_eq!(
        menu.action,
        "[openaicompatible] http://localhost:1234/v1 · m1 · api_key · thinking: sim"
    );
    // Ativar.
    assert_eq!(on_key(&mut m, press(Key::Enter)), vec![Effect::SetProvider("lm".to_string())]);
    assert!(m.picker.is_none());
}

#[test]
fn deleting_a_provider_takes_a_confirmation() {
    let mut m = with_saved(AuthMethod::ApiKey);
    submit_line(&mut m, "/provider");
    on_key(&mut m, press(Key::Enter));
    assert!(on_key(&mut m, press(Key::Char('3'))).is_empty(), "Remover asks first");
    let confirm = m.picker.as_ref().expect("the confirmation");
    assert_eq!(confirm.kind, PickerKind::ProviderDeleteConfirm("lm".to_string()));
    assert_eq!(confirm.selected, 1, "Cancelar is highlighted");
    assert!(on_key(&mut m, press(Key::Enter)).is_empty());
    assert!(m.picker.is_none());

    submit_line(&mut m, "/provider");
    on_key(&mut m, press(Key::Enter));
    on_key(&mut m, press(Key::Char('3')));
    assert_eq!(
        on_key(&mut m, press(Key::Char('1'))),
        vec![Effect::DeleteProvider("lm".to_string())]
    );
}

#[test]
fn editing_with_a_blank_key_keeps_the_credential() {
    let mut m = with_saved(AuthMethod::ApiKey);
    submit_line(&mut m, "/provider");
    on_key(&mut m, press(Key::Enter));
    on_key(&mut m, press(Key::Char('2')));
    let w = m.wizard.as_ref().expect("Editar opens the wizard");
    assert!(w.edit_mode && w.had_key);
    assert_eq!(w.step, WizardStep::BaseUrl);
    let mut effects = Vec::new();
    for _ in 0..4 {
        effects = on_key(&mut m, press(Key::Enter));
    }
    match effects.as_slice() {
        [Effect::SaveProvider { id, auth, keep_existing_key, models, .. }] => {
            assert_eq!(id, "lm");
            assert_eq!(*auth, AuthMethod::ApiKey);
            assert!(*keep_existing_key);
            assert_eq!(models, &vec!["m1".to_string(), "m2".to_string()]);
        }
        other => panic!("expected SaveProvider, got {other:?}"),
    }
    assert!(m.pending_credential.is_none());
}

#[test]
fn thinking_is_asked_for_models_that_can_think() {
    let mut m = Model::default();
    m.thinking_models = vec![ThinkingModel { kind: ProviderKind::Nvidia, model: "deep".to_string() }];
    m.wizard = Some(ProviderWizard::new());
    on_key(&mut m, press(Key::Enter)); // kind
    on_key(&mut m, press(Key::Enter)); // base url
    type_str(&mut m, "deep");
    on_key(&mut m, press(Key::Enter)); // model
    on_key(&mut m, press(Key::Enter)); // extra models
    assert_eq!(m.wizard.as_ref().unwrap().step, WizardStep::Thinking);
}

#[test]
fn a_picker_filters_as_it_is_typed_into() {
    let models = vec!["alpha".to_string(), "beta".to_string(), "gamma".to_string()];
    let mut m = Model::default().with_provider_catalog(models, Effort::High);
    m.status.model = "beta".to_string();
    submit_line(&mut m, "/models");
    assert_eq!(m.picker.as_ref().unwrap().selected, 1, "the current model is highlighted");
    type_str(&mut m, "am");
    assert_eq!(m.picker.as_ref().unwrap().filtered_options(), vec![(2, "gamma")]);
    assert_eq!(on_key(&mut m, press(Key::Enter)), vec![Effect::SetModel("gamma".to_string())]);

    submit_line(&mut m, "/models");
    type_str(&mut m, "zzz");
    assert!(on_key(&mut m, press(Key::Enter)).is_empty(), "no row, no choice");
}

#[test]
fn pasting_into_a_picker_filters_it() {
    let mut m = Model::default().with_provider_catalog(vec!["a".to_string(), "b".to_string()], Effort::High);
    submit_line(&mut m, "/models");
    update(&mut m, Msg::Paste("b\n".to_string()));
    assert_eq!(m.picker.as_ref().unwrap().filtered_options(), vec![(1, "b")]);
    assert!(m.input.is_empty());
}

#[test]
fn a_session_row_opens_its_session() {
    let mut m = Model::default();
    m.session_ids = vec!["id-1".to_string(), "id-2".to_string()];
    m.picker = Some(Picker::new(
        PickerKind::Sessions,
        "sessão".to_string(),
        "Escolha:".to_string(),
        vec!["um".to_string(), "dois".to_string()],
        7,
    ));
    assert_eq!(m.picker.as_ref().unwrap().selected, 1, "the highlight is clamped");
    assert_eq!(on_key(&mut m, press(Key::Enter)), vec![Effect::OpenSession("id-2".to_string())]);
}

#[test]
fn a_custom_command_sends_its_body() {
    let entry = CustomCommandEntry { name: "/rev".to_string(), blurb: "revisa".to_string() };
    let body = CommandBody { token: "/rev".to_string(), body: "revise o código".to_string() };
    let mut m = Model::default().with_custom_commands(vec![entry], vec![body], None);
    type_str(&mut m, "/re");
    let menu = m.command_menu.as_ref().unwrap();
    assert!((0..menu.len()).any(|i| menu.row(i).unwrap().name() == "/rev"));
    m.input.set(String::new());
    let effects = submit_line(&mut m, "/rev");
    assert_eq!(
        effects,
        vec![Effect::SubmitPrompt { text: "revise o código".to_string(), images: vec![] }]
    );
    assert!(m.busy);
}

#[test]
fn attachments_ride_along_and_are_spent() {
    let mut m = Model::default();
    update(
        &mut m,
        Msg::ImageAttached(ImageAttachment { data_url: "data:x".to_string(), width: 3, height: 2 }),
    );
    assert_eq!(
        last_notice(&m),
        (NoticeLevel::Info, "🖼 imagem anexada (3×2) — vai junto no próximo envio".to_string())
    );
    let effects = submit_line(&mut m, "olhe");
    assert_eq!(
        effects,
        vec![Effect::SubmitPrompt { text: "olhe".to_string(), images: vec!["data:x".to_string()] }]
    );
    assert!(m.attachments.is_empty());
}

#[test]
fn while_busy_nothing_is_submitted() {
    let mut m = Model { busy: true, ..Model::default() };
    let effects = submit_line(&mut m, "mais uma");
    assert!(effects.is_empty());
    assert_eq!(m.input.text(), "mais uma", "the draft stays");
}

#[test]
fn a_blank_line_is_no_prompt() {
    let mut m = Model::default();
    assert!(submit_line(&mut m, "   ").is_empty());
    assert!(!m.busy);
}

#[test]
fn every_help_command_answers_in_the_transcript() {
    let mut m = Model::default();
    submit_line(&mut m, "/help");
    assert_eq!(last_notice(&m), (NoticeLevel::Info, help_text()));
    for line in ["/rules", "/commands", "/agents", "/skills", "/hooks", "/mcp", "/instructions"] {
        let before = m.transcript.items().len();
        assert!(submit_line(&mut m, line).is_empty(), "{line}");
        assert_eq!(m.transcript.items().len(), before + 1, "{line}");
    }
    assert_eq!(
        submit_line(&mut m, "/approve-hook fmt"),
        vec![Effect::ApproveHook("fmt".to_string())]
    );
    assert_eq!(
        submit_line(&mut m, "/approve-mcp srv"),
        vec![Effect::ApproveMcp("srv".to_string())]
    );
    assert_eq!(submit_line(&mut m, "/resume"), vec![Effect::ResumeLast]);
    assert_eq!(submit_line(&mut m, "/sessions"), vec![Effect::ListSessions]);
    assert_eq!(submit_line(&mut m, "/sync"), vec![Effect::SyncPush]);
    assert_eq!(submit_line(&mut m, "/quit"), vec![Effect::Quit]);
    assert!(m.should_quit);
}

#[test]
fn parsing_goes_by_the_first_word() {
    assert_eq!(parse("/approve-hook  fmt x"), Some(Command::ApproveHook("fmt x".to_string())));
    assert_eq!(parse("\t/plan now"), Some(Command::SetMode(ApprovalMode::Plan)));
    assert_eq!(parse("not /plan"), None);
    assert_eq!(parse("/"), Some(Command::Unknown("/".to_string())));
}

#[test]
fn interrupts_far_apart_never_quit() {
    let mut m = Model::default();
    let mut at = Instant { nanos: 1 };
    for _ in 0..3 {
        m.timeline.last_event_at = Some(at);
        assert!(on_key(&mut m, ctrl('c')).is_empty());
        assert!(!m.should_quit);
        at = Instant { nanos: at.nanos + DOUBLE_TAP_WINDOW };
    }
    at = Instant { nanos: at.nanos - 1 };
    m.timeline.last_event_at = Some(at);
    assert_eq!(on_key(&mut m, ctrl('c')), vec![Effect::Quit]);
}

#[test]
fn ctrl_d_quits_an_empty_composer_only() {
    let mut m = Model::default();
    type_str(&mut m, "x");
    m.input.set_cursor(0, 0);
    assert!(on_key(&mut m, ctrl('d')).is_empty());
    assert_eq!(m.input.text(), "", "there it deletes forward");
    assert_eq!(on_key(&mut m, ctrl('d')), vec![Effect::Quit]);
}

#[test]
fn modals_keep_keys_from_the_composer() {
    let mut m = Model {
        pending_approval: Some(PendingApproval::new("p".to_string(), true)),
        ..Model::default()
    };
    type_str(&mut m, "zz");
    assert!(m.input.is_empty());
    assert!(m.pending_approval.is_some(), "an unbound key answers nothing");
    update(&mut m, Msg::Paste("segredo".to_string()));
    assert!(m.input.is_empty());
    // The digits follow the rows.
    assert_eq!(
        on_key(&mut m, press(Key::Char('3'))),
        vec![Effect::AnswerApproval(Approval::Declined)]
    );
}

#[test]
fn boxes_label_their_rows() {
    assert_eq!(ApprovalOption::from_index(3), None);
    assert_eq!(ApprovalOption::from_index(0).map(|o| o.label()), Some("Sim"));
    assert_eq!(PlanOption::from_index(4), None);
    assert_eq!(PendingApproval::new("Rodar `ls`? [S/n] ".to_string(), true).action(), "Rodar `ls`?");
    assert_eq!(PendingApproval::new("Apagar? [s/N] ".to_string(), false).selected, 2);
}

#[test]
fn a_plan_scrolls_and_chooses() {
    let mut m = Model {
        pending_plan: Some(PendingPlan { plan: "p".to_string(), selected: 0, scroll: 0 }),
        approval_mode: ApprovalMode::Plan,
        ..Model::default()
    };
    assert_eq!(
        on_key(&mut m, press(Key::Char('2'))),
        vec![Effect::ApprovePlan(ApprovalMode::Auto)]
    );
    assert!(m.pending_plan.is_none());
}

#[test]
fn pages_scroll_by_step_or_page() {
    let mut m = Model::default();
    on_key(&mut m, press(Key::PageUp));
    assert_eq!(m.scroll.scrollback, SCROLL_STEP);
    on_key(&mut m, KeyPress { shift: true, ..press(Key::PageUp) });
    assert_eq!(m.scroll.scrollback, SCROLL_STEP + SCROLL_PAGE);
    on_key(&mut m, KeyPress { ctrl: true, ..press(Key::Home) });
    assert_eq!(m.scroll.scrollback, u16::MAX);
    on_key(&mut m, KeyPress { ctrl: true, ..press(Key::End) });
    assert_eq!(m.scroll.scrollback, 0);
}

#[test]
fn landings_follow_the_answer() {
    let mut m = Model::default();
    let t = Instant { nanos: 9 };
    m.timeline.render_at = Some(t);
    update(&mut m, Msg::TurnBegan);
    update(&mut m, Msg::StreamDelta(StreamKind::Content, "a\nb\n".to_string()));
    assert_eq!(m.timeline.stream_landings, vec![t, t]);
    update(
        &mut m,
        Msg::ToolStarted { command: "ls".to_string(), diff: None, is_run_command: true },
    );
    update(&mut m, Msg::StreamDelta(StreamKind::Content, "c\n".to_string()));
    assert_eq!(m.timeline.stream_landings, vec![t], "a fresh answer starts without any");
    update(&mut m, Msg::TurnEnded);
    assert!(m.timeline.stream_landings.is_empty());
    assert_eq!(m.timeline.turn_settled_at, Some(t));
}

#[test]
fn a_key_skips_the_splash() {
    let mut m = Model::default();
    m.timeline.render_at = Some(Instant { nanos: 5_000_000_000 });
    m.timeline.opened_at = Some(Instant { nanos: 4_999_000_000 });
    update(&mut m, Msg::Key(press(Key::Char('a'))));
    assert_eq!(m.timeline.opened_at, Some(Instant { nanos: 4_300_000_000 }));
}

#[test]
fn the_wizard_takes_an_escape_without_saving() {
    let mut m = Model { wizard: Some(ProviderWizard::new()), ..Model::default() };
    m.wizard.as_mut().unwrap().step = WizardStep::ApiKey;
    type_str(&mut m, "sk-abandoned");
    assert!(on_key(&mut m, press(Key::Esc)).is_empty());
    assert!(m.pending_credential.is_none());
    assert!(m.wizard.is_none());
}

#[test]
fn the_preview_stays_shut_while_a_prompt_is_gated() {
    let mut m = Model { busy: true, ..Model::default() };
    type_str(&mut m, "/n");
    assert!(m.command_menu.is_none());
    m.busy = false;
    type_str(&mut m, "e");
    assert_eq!(m.command_menu.as_ref().map(|menu| menu.len()), Some(1));
    type_str(&mut m, "w x");
    assert!(m.command_menu.is_none(), "an argument follows the name");
}

#[test]
fn longer_queries_never_widen_the_menu() {
    for query in ["/", "/s", "/se", "/ses", "/sess", "/sessz"] {
        let short = CommandMenu::open(query, &Vec::new());
        for c in 'a'..='z' {
            let long = CommandMenu::open(&format!("{query}{c}"), &Vec::new());
            for i in 0..long.len() {
                let name = long.row(i).unwrap().name().to_string();
                assert!((0..short.len()).any(|j| short.row(j).unwrap().name() == name));
            }
        }
    }
}

#[test]
fn dragging_selects_in_reading_order() {
    let mut m = Model::default();
    on_mouse(&mut m, MouseKind::Down, 9, 5);
    on_mouse(&mut m, MouseKind::Drag, 2, 3);
    assert_eq!(m.selection.active.unwrap().ordered(), ((2, 3), (9, 5)));
}

#[test]
fn typing_and_erasing_leave_nothing() {
    let mut b = InputBuffer::default();
    for c in ['x', 'ç', '漢'] {
        b.feed_key(press(Key::Char(c)));
    }
    b.newline();
    for _ in 0..4 {
        assert!(b.feed_key(press(Key::Backspace)));
    }
    assert!(b.is_empty());
    assert!(!b.feed_key(press(Key::Backspace)));
}

#[test]
fn motion_folds_in_the_frame() {
    assert!(Motion::Full.and_reduce_if(true).is_reduced());
    assert!(!Motion::Full.and_reduce_if(false).is_reduced());
    assert!(Motion::Reduced.and_reduce_if(false).is_reduced());
}

#[test]
fn a_secret_is_exposed_only_on_demand() {
    let secret = Secret::new("k".to_string());
    assert_eq!(secret.expose(), "k");
}
