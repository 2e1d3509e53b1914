//! The domain types and the slash commands.
use kiri_tui::application::command::{help_text, parse, Command};
use kiri_tui::clock::Duration;
use kiri_tui::domain::command_menu::{filter, CommandMenu, CustomCommandEntry, COMMANDS};
use kiri_tui::domain::history::History;
use kiri_tui::domain::input_buffer::InputBuffer;
use kiri_tui::domain::instructions::instructions_display;
use kiri_tui::domain::modal::{PendingApproval, PendingPlan};
use kiri_tui::domain::model::{ActiveModal, Model, Status, Timeline};
use kiri_tui::domain::nav::wrapping_step;
use kiri_tui::domain::picker::{Picker, PickerKind};
use kiri_tui::domain::scroll::Scroll;
use kiri_tui::domain::selection::{Granularity, ScreenSelection};
use kiri_tui::domain::transcript::{NoticeLevel, ToolActivity, ToolStatus, Transcript, TranscriptItem};
use kiri_tui::domain::wizard::ProviderWizard;
use kiri_tui::kernel::{ApprovalMode, ProviderKind};

#[test]
fn quit_aliases_parse() {
    for q in ["/exit", "/sair", "/quit", "  /exit  "] {
        assert_eq!(parse(q), Some(Command::Quit));
    }
}

#[test]
fn plain_text_and_blank_are_prompts() {
    assert_eq!(parse("hello"), None);
    assert_eq!(parse("  hello world  "), None);
    assert_eq!(parse(""), None);
    assert_eq!(parse("   "), None);
}

#[test]
fn unknown_slash_tokens_are_commands_not_prompts() {
    assert_eq!(
        parse("/exitnow"),
        Some(Command::Unknown("/exitnow".to_string()))
    );
    assert_eq!(parse("/foo"), Some(Command::Unknown("/foo".to_string())));
}

#[test]
fn session_and_help_aliases_parse() {
    assert_eq!(parse("/new"), Some(Command::NewSession));
    assert_eq!(parse("/novo"), Some(Command::NewSession));
    assert_eq!(parse("/help"), Some(Command::Help));
}

#[test]
fn resume_and_sessions_aliases_parse() {
    assert_eq!(parse("/resume"), Some(Command::Resume));
    assert_eq!(parse("/retomar"), Some(Command::Resume));
    assert_eq!(parse("/sessions"), Some(Command::Sessions));
    assert_eq!(parse("/sessoes"), Some(Command::Sessions));
}

#[test]
fn sync_parses() {
    assert_eq!(parse("/sync"), Some(Command::Sync));
}

#[test]
fn instructions_parses() {
    assert_eq!(parse("/instructions"), Some(Command::Instructions));
    assert_eq!(parse("/instrucoes"), Some(Command::Instructions));
}

#[test]
fn paste_is_now_unknown() {
    assert_eq!(
        parse("/paste"),
        Some(Command::Unknown("/paste".to_string()))
    );
    assert_eq!(
        parse("/colar"),
        Some(Command::Unknown("/colar".to_string()))
    );
}

#[test]
fn mode_commands_parse() {
    assert_eq!(parse("/plan"), Some(Command::SetMode(ApprovalMode::Plan)));
    assert_eq!(parse("/auto"), Some(Command::SetMode(ApprovalMode::Auto)));
    assert_eq!(
        parse("/default"),
        Some(Command::SetMode(ApprovalMode::Default))
    );
}

#[test]
fn models_effort_and_provider_parse() {
    assert_eq!(parse("/models"), Some(Command::Models));
    assert_eq!(parse("/modelos"), Some(Command::Models));
    assert_eq!(parse("/effort"), Some(Command::Effort));
    assert_eq!(parse("/esforco"), Some(Command::Effort));
    assert_eq!(parse("/provider"), Some(Command::Provider));
    assert_eq!(parse("/providers"), Some(Command::Provider));
}

#[test]
fn help_text_is_derived_from_catalog() {
    let help = help_text();
    for spec in COMMANDS {
        assert!(help.contains(spec.name()), "help omits {}", spec.name());
        assert!(
            help.contains(spec.blurb()),
            "help omits the blurb for {}",
            spec.name()
        );
    }
}

#[test]
fn catalog_aliases_match_parser() {

    // Every catalog token (canonical name + aliases) must be a real parser synonym mapping to the
    // same command as its name, so the menu never advertises a token the parser would reject.
    for spec in COMMANDS {
        let canonical = parse(spec.name()).expect("catalog name parses");
        assert!(!matches!(canonical, Command::Unknown(_)));
        for alias in spec.aliases() {
            assert_eq!(
                parse(alias),
                Some(canonical.clone()),
                "alias {alias} desynced from {}",
                spec.name()
            );
        }
    }

    // The catalog token set must equal the parser's arm set. This list mirrors the `parse` match
    // arms; comparing it to the catalog locks the two against drift (an alias added to one but not the
    // other fails here).
    let catalog: std::collections::BTreeSet<&str> = COMMANDS
        .iter()
        .flat_map(|spec| std::iter::once(spec.name()).chain(spec.aliases()))
        .collect();
    let parser_arms: std::collections::BTreeSet<&str> = [
        "/exit",
        "/sair",
        "/quit",
        "/new",
        "/novo",
        "/help",
        "/ajuda",
        "/plan",
        "/auto",
        "/default",
        "/normal",
        "/cd",
        "/models",
        "/modelos",
        "/effort",
        "/esforco",
        "/provider",
        "/providers",
        "/resume",
        "/retomar",
        "/sessions",
        "/sessoes",
        "/sync",
        "/instructions",
        "/instrucoes",
        "/rules",
        "/regras",
        "/commands",
        "/comandos",
        "/agents",
        "/agentes",
        "/skills",
        "/hooks",
        "/approve-hook",
        "/mcp",
        "/approve-mcp",
    ]
    .into_iter()
    .collect();
    assert_eq!(
        catalog, parser_arms,
        "catalog tokens and parser arms drifted"
    );
}

#[test]
fn cd_shows_or_changes_the_workspace() {
    assert_eq!(parse("/cd"), Some(Command::ChangeWorkspace(None)));
    assert_eq!(parse("/cd   "), Some(Command::ChangeWorkspace(None)));
    assert_eq!(
        parse("/cd src"),
        Some(Command::ChangeWorkspace(Some("src".to_string())))
    );
    assert_eq!(
        parse("/cd ~/dev"),
        Some(Command::ChangeWorkspace(Some("~/dev".to_string())))
    );
}

#[test]
fn bare_slash_matches_everything() {
    assert_eq!(filter("/"), (0..COMMANDS.len()).collect::<Vec<_>>());
    assert_eq!(filter(""), (0..COMMANDS.len()).collect::<Vec<_>>());
}

#[test]
fn name_prefix_filters_case_insensitively() {
    let idx = |name: &str| COMMANDS.iter().position(|s| s.name() == name).unwrap();
    // `/N` matches `/new` by name and `/default` by its alias `/normal`.
    assert_eq!(filter("/N"), [idx("/new"), idx("/default")]);
    assert_eq!(filter("/EX"), [idx("/exit")]);
}

#[test]
fn alias_prefix_filters_to_the_owning_command() {
    let idx = |name: &str| COMMANDS.iter().position(|s| s.name() == name).unwrap();
    assert_eq!(filter("/nov"), [idx("/new")]);
    assert_eq!(filter("/nor"), [idx("/default")]);
}

#[test]
fn blurb_is_display_only_and_never_drives_filtering() {
    let got = filter("/workspace");
    assert!(got.is_empty(), "blurb substring must not match: {got:?}");
}

#[test]
fn no_match_returns_empty() {
    assert!(filter("/zzz").is_empty());
}

#[test]
fn menu_refresh_keeps_selection_in_range() {
    let mut m = CommandMenu::open("/", &Vec::new());
    assert_eq!(m.selected(), 0);
    m.move_cursor(3);
    assert_eq!(m.selected(), 3);
    m.refresh("/new");
    assert_eq!(m.len(), 1);
    assert_eq!(m.selected(), 0);
}

#[test]
fn move_cursor_wraps_in_both_directions() {
    let mut m = CommandMenu::open("/", &Vec::new());
    let len = m.len();
    m.move_cursor(-(1));
    assert_eq!(m.selected(), len - 1);
    m.move_cursor(1);
    assert_eq!(m.selected(), 0);
}

#[test]
fn entry_returns_the_highlighted_command() {
    let mut m = CommandMenu::open("/", &Vec::new());
    m.move_cursor(1);
    assert_eq!(m.entry().unwrap().name(), COMMANDS[1].name());
}

#[test]
fn custom_commands_are_filtered_and_shown_alongside_built_ins() {
    let custom = vec![CustomCommandEntry {
        name: "/test".to_string(),
        blurb: "run the suite".to_string(),
    }];
    let m = CommandMenu::open("/", &custom);
    assert_eq!(m.len(), COMMANDS.len() + 1);

    let m = CommandMenu::open("/te", &custom);
    assert_eq!(m.len(), 1);
    assert_eq!(m.entry().unwrap().name(), "/test");
    assert_eq!(m.entry().unwrap().blurb(), "run the suite");
}

/// Every entry in `COMMANDS` must resolve
/// to a real command via `application::command::parse`. If a future change drops a parser arm but
/// leaves its catalog row — or vice versa — the test fails and the menu and the parser stop
/// disagreeing silently.
#[test]
fn catalog_matches_parse() {
    for spec in COMMANDS {
        let parsed = parse(spec.name()).expect("catalog name must parse");
        assert!(
            !matches!(parsed, Command::Unknown(_)),
            "{spec:?} is in the catalog but parse() returned Unknown"
        );
    }
}

#[test]
fn history_history_recalls_older_then_restores_draft() {
    let mut h = History::default();
    h.record("first");
    h.record("second");
    assert_eq!(h.older("draft").as_deref(), Some("second"));
    assert_eq!(h.older("draft").as_deref(), Some("first"));
    assert_eq!(h.newer().as_deref(), Some("second"));
    assert_eq!(h.newer().as_deref(), Some("draft"));
}

#[test]
fn history_history_skips_consecutive_duplicates() {
    let mut h = History::default();
    h.record("x");
    h.record("x");
    assert_eq!(h.older("").as_deref(), Some("x"));
    assert_eq!(h.older("").as_deref(), Some("x"));
}

#[test]
fn input_buffer_insert_set_and_take_round_trip_the_text() {
    let mut b = InputBuffer::default();
    b.insert("ação");
    assert_eq!(b.text(), "ação");
    assert!(!b.is_empty());
    let taken = b.take();
    assert_eq!(taken, "ação");
    assert!(b.is_empty());
    b.set("ab\ncd".to_string());
    assert_eq!(b.text(), "ab\ncd");
    assert_eq!(b.last_row(), 1);
    assert_eq!(b.cursor_row(), 1); // set places the cursor at the end (second line)
}

#[test]
fn input_buffer_set_cursor_jumps_to_a_logical_position() {
    let mut b = InputBuffer::default();
    b.set("abc\nde".to_string());
    b.set_cursor(1, 1);
    assert_eq!(b.cursor(), (1, 1));
}

#[test]
fn input_buffer_set_cursor_clamps_beyond_the_buffer() {
    let mut b = InputBuffer::default();
    b.set("ab".to_string());
    b.set_cursor(9, 9); // both out of range — clamped to the only row and its end
    assert_eq!(b.cursor(), (0, 2));
}

#[test]
fn input_buffer_copy_selection_is_none_without_a_selection() {
    let mut b = InputBuffer::default();
    b.insert("hello");
    assert!(!b.is_selecting());
    assert_eq!(b.copy_selection(), None);
}

#[test]
fn no_instructions_yields_no_panel() {
    assert!(instructions_display(&Vec::new(), None, None).is_none());
}

#[test]
fn both_layers_render_under_one_paths_header() {
    let paths = vec!["/g/KIRI.md".to_string(), "/p/AGENTS.md".to_string()];
    let display =
        instructions_display(&paths, Some("global text"), Some("project text")).unwrap();
    assert!(display.starts_with("Arquivos carregados:\n- "));
    assert!(display.contains("KIRI.md"));
    assert!(display.contains("AGENTS.md"));
    // Global before project, matching discovery order.
    assert!(display.find("global text").unwrap() < display.find("project text").unwrap());
}

#[test]
fn one_layer_alone_still_renders() {
    let paths = vec!["/p/AGENTS.md".to_string()];
    let display = instructions_display(&paths, None, Some("project only")).unwrap();
    assert!(display.contains("project only"));
    assert!(display.contains("AGENTS.md"));
}

#[test]
fn elapsed_label_formats_seconds_below_a_minute() {
    let s = Status {
        elapsed_secs: 0,
        ..Status::default()
    };
    assert_eq!(s.elapsed_label(), "0s");
    let s = Status {
        elapsed_secs: 59,
        ..Status::default()
    };
    assert_eq!(s.elapsed_label(), "59s");
}

#[test]
fn elapsed_label_formats_minutes_and_seconds_at_and_above_a_minute() {
    let s = Status {
        elapsed_secs: 60,
        ..Status::default()
    };
    assert_eq!(s.elapsed_label(), "1m 0s");
    let s = Status {
        elapsed_secs: 125,
        ..Status::default()
    };
    assert_eq!(s.elapsed_label(), "2m 5s");
}

#[test]
fn notify_info_pushes_an_info_notice() {
    let mut m = Model::default();
    m.notify_info("hello".to_string());
    assert_eq!(
        m.transcript.items().last(),
        Some(&TranscriptItem::Notice(
            NoticeLevel::Info,
            "hello".to_string()
        ))
    );
}

#[test]
fn notify_error_pushes_an_error_notice() {
    let mut m = Model::default();
    m.notify_error("boom".to_string());
    assert_eq!(
        m.transcript.items().last(),
        Some(&TranscriptItem::Notice(
            NoticeLevel::Error,
            "boom".to_string()
        ))
    );
}

#[test]
fn notify_pushes_with_the_given_level() {
    let mut m = Model::default();
    m.notify(NoticeLevel::Error, "dynamic".to_string());
    assert_eq!(
        m.transcript.items().last(),
        Some(&TranscriptItem::Notice(
            NoticeLevel::Error,
            "dynamic".to_string()
        ))
    );
}

#[test]
fn enter_onboarding_opens_the_nvidia_wizard_and_raises_the_gate() {

    let mut m = Model::default();
    m.enter_onboarding();

    assert!(m.unconfigured, "the submit gate must be raised");
    assert!(m.has_modal(), "the onboarding wizard is a modal");
    let wizard = m.wizard.as_ref().expect("onboarding opens the wizard");
    assert!(wizard.onboarding);
    assert_eq!(wizard.kind(), ProviderKind::Nvidia);
    assert!(
        m.transcript.items().iter().any(
            |item| matches!(item, TranscriptItem::Notice(_, text) if text.contains("Bem-vindo"))
        ),
        "a welcome notice must be posted"
    );
}

#[test]
fn active_modal_orders_plan_over_approval_over_picker_over_wizard() {

    let mut m = Model {
        pending_plan: Some(PendingPlan::default()),
        pending_approval: Some(PendingApproval::new("p".to_string(), true)),
        picker: Some(Picker::new(
            PickerKind::Models,
            "m".to_string(),
            "a".to_string(),
            vec!["x".to_string()],
            0,
        )),
        wizard: Some(ProviderWizard::new()),
        ..Model::default()
    };
    // Peel the modals off in precedence order; each step must surface the next one down.
    assert!(matches!(m.active_modal(), Some(ActiveModal::Plan(_))));
    m.pending_plan = None;
    assert!(matches!(m.active_modal(), Some(ActiveModal::Approval(_))));
    m.pending_approval = None;
    assert!(matches!(m.active_modal(), Some(ActiveModal::Picker(_))));
    m.picker = None;
    assert!(matches!(m.active_modal(), Some(ActiveModal::Wizard(_))));
    m.wizard = None;
    assert!(m.active_modal().is_none());
}

#[test]
fn timeline_reset_clears_all_render_instants() {
    let now = kiri_tui::clock::Instant { nanos: 5_000_000_000 };
    let mut t = Timeline {
        render_at: Some(now),
        stream_landings: vec![now, now],
        turn_settled_at: Some(now),
        ..Timeline::default()
    };
    // begin_turn drops the streaming landings and the settled marker so no per-turn instant leaks
    // into the new turn.
    t.begin_turn();
    assert!(t.stream_landings.is_empty());
    assert!(t.turn_settled_at.is_none());

    // settle_turn re-derives the settled marker from the current frame and clears the landings
    // atomically, leaving none stranded across the boundary.
    t.render_at = Some(now);
    t.stream_landings = vec![now];
    t.settle_turn();
    assert!(t.stream_landings.is_empty());
    assert_eq!(t.turn_settled_at, Some(now));
}

#[test]
fn wrapping_step_wraps_both_directions_and_handles_empty() {
    // Wrap past the bottom edge back to the top, and past the top back to the bottom.
    assert_eq!(wrapping_step(2, 1, 3), 0);
    assert_eq!(wrapping_step(0, -1, 3), 2);
    // In-range moves are plain steps.
    assert_eq!(wrapping_step(1, 1, 3), 2);
    // A delta larger than the length still lands in range.
    assert_eq!(wrapping_step(0, -3, 3), 0);
    assert_eq!(wrapping_step(1, 5, 3), 0);
    // An empty collection saturates to 0 instead of panicking on the modulus.
    assert_eq!(wrapping_step(0, 1, 0), 0);
    assert_eq!(wrapping_step(5, -1, 0), 0);
}

#[test]
fn scroll_scroll_top_saturates_and_pin_resets() {
    let mut s = Scroll::default();
    s.top();
    assert_eq!(s.scrollback, u16::MAX);
    s.pin();
    assert_eq!(s.scrollback, 0);
}

#[test]
fn selection_screen_selection_is_empty_only_for_a_char_click() {
    // A bare char click (anchor == head) selects nothing; a word/line click or any drag does not.
    assert!(ScreenSelection::new(3, 2, Granularity::Char).is_empty());
    assert!(!ScreenSelection::new(3, 2, Granularity::Word).is_empty());
    assert!(!ScreenSelection::new(3, 2, Granularity::Line).is_empty());
    let mut s = ScreenSelection::new(3, 2, Granularity::Char);
    s.extend(4, 2);
    assert!(!s.is_empty());
}

#[test]
fn content_deltas_coalesce_into_one_assistant_item() {
    let mut t = Transcript::default();
    t.push_content_delta("Hel");
    t.push_content_delta("lo");
    assert_eq!(t.items(), &[TranscriptItem::Assistant("Hello".to_string())]);
}

#[test]
fn reasoning_then_content_are_separate_items() {
    let mut t = Transcript::default();
    t.push_reasoning_delta("thinking");
    t.push_content_delta("answer");
    assert_eq!(
        t.items(),
        &[
            TranscriptItem::Reasoning("thinking".to_string()),
            TranscriptItem::Assistant("answer".to_string()),
        ]
    );
}

#[test]
fn a_delta_after_a_notice_starts_a_fresh_item() {
    let mut t = Transcript::default();
    t.push(TranscriptItem::Notice(NoticeLevel::Info, "n".to_string()));
    t.push_content_delta("hi");
    assert_eq!(t.items().len(), 2);
}

#[test]
fn tool_start_then_finish_coalesce_into_one_item() {
    let mut t = Transcript::default();
    t.push_tool_start("edit a.txt".to_string(), None);
    assert_eq!(t.items().len(), 1);
    t.finish_last_tool(
        ToolStatus::Success,
        "edited a.txt".to_string(),
        Duration::from_millis(5),
    );
    assert_eq!(
        t.items(),
        &[TranscriptItem::Tool(ToolActivity {
            command: "edit a.txt".to_string(),
            diff: None,
            result: Some((
                ToolStatus::Success,
                "edited a.txt".to_string(),
                Duration::from_millis(5)
            )),
        })]
    );
}

#[test]
fn finish_without_a_running_tool_is_a_noop() {
    let mut t = Transcript::default();
    t.finish_last_tool(ToolStatus::Success, "x".to_string(), Duration::from_millis(0));
    assert!(t.is_empty());
}

#[test]
fn a_delta_after_a_tool_starts_a_fresh_assistant_item() {
    let mut t = Transcript::default();
    t.push_tool_start("cat a.txt".to_string(), None);
    t.push_content_delta("hi");
    assert_eq!(t.items().len(), 2);
    assert!(matches!(t.items()[1], TranscriptItem::Assistant(_)));
}

#[test]
fn view_state_insert_set_and_take_round_trip_the_text() {
    let mut b = InputBuffer::default();
    b.insert("ação");
    assert_eq!(b.text(), "ação");
    assert!(!b.is_empty());
    let taken = b.take();
    assert_eq!(taken, "ação");
    assert!(b.is_empty());
    b.set("ab\ncd".to_string());
    assert_eq!(b.text(), "ab\ncd");
    assert_eq!(b.last_row(), 1);
    assert_eq!(b.cursor_row(), 1); // set places the cursor at the end (second line)
}

#[test]
fn view_state_set_cursor_jumps_to_a_logical_position() {
    let mut b = InputBuffer::default();
    b.set("abc\nde".to_string());
    b.set_cursor(1, 1);
    assert_eq!(b.cursor(), (1, 1));
}

#[test]
fn view_state_set_cursor_clamps_beyond_the_buffer() {
    let mut b = InputBuffer::default();
    b.set("ab".to_string());
    b.set_cursor(9, 9); // both out of range — clamped to the only row and its end
    assert_eq!(b.cursor(), (0, 2));
}

#[test]
fn view_state_copy_selection_is_none_without_a_selection() {
    let mut b = InputBuffer::default();
    b.insert("hello");
    assert!(!b.is_selecting());
    assert_eq!(b.copy_selection(), None);
}

#[test]
fn view_state_scroll_top_saturates_and_pin_resets() {
    let mut s = Scroll::default();
    s.top();
    assert_eq!(s.scrollback, u16::MAX);
    s.pin();
    assert_eq!(s.scrollback, 0);
}

#[test]
fn view_state_screen_selection_is_empty_only_for_a_char_click() {
    // A bare char click (anchor == head) selects nothing; a word/line click or any drag does not.
    assert!(ScreenSelection::new(3, 2, Granularity::Char).is_empty());
    assert!(!ScreenSelection::new(3, 2, Granularity::Word).is_empty());
    assert!(!ScreenSelection::new(3, 2, Granularity::Line).is_empty());
    let mut s = ScreenSelection::new(3, 2, Granularity::Char);
    s.extend(4, 2);
    assert!(!s.is_empty());
}

#[test]
fn view_state_history_recalls_older_then_restores_draft() {
    let mut h = History::default();
    h.record("first");
    h.record("second");
    assert_eq!(h.older("draft").as_deref(), Some("second"));
    assert_eq!(h.older("draft").as_deref(), Some("first"));
    assert_eq!(h.newer().as_deref(), Some("second"));
    assert_eq!(h.newer().as_deref(), Some("draft"));
}

#[test]
fn view_state_history_skips_consecutive_duplicates() {
    let mut h = History::default();
    h.record("x");
    h.record("x");
    assert_eq!(h.older("").as_deref(), Some("x"));
    assert_eq!(h.older("").as_deref(), Some("x"));
}
