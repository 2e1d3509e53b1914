//! What each widget shows.
use std::collections::HashSet;

use kiri_tui::clock::{Duration, Instant};
use kiri_tui::domain::command_menu::CommandMenu;
use kiri_tui::domain::input::{Key, KeyPress};
use kiri_tui::domain::input_buffer::InputBuffer;
use kiri_tui::domain::modal::{PendingApproval, PendingPlan};
use kiri_tui::domain::model::{Model, Motion};
use kiri_tui::domain::picker::{Picker, PickerKind};
use kiri_tui::domain::transcript::{NoticeLevel, ToolActivity, ToolDiff, ToolStatus, TranscriptItem};
use kiri_tui::domain::wizard::{ProviderWizard, WizardStep};
use kiri_tui::infrastructure::render::cells::{chunk_by_width, display_width, greedy_wrap, hard_wrap};
use kiri_tui::infrastructure::render::layout::{frame_layout, Rect};
use kiri_tui::infrastructure::render::line::Line;
use kiri_tui::infrastructure::render::markdown::cache::{Renderer, MAX_RENDER_CACHE};
use kiri_tui::infrastructure::render::markdown::render::Highlighter;
use kiri_tui::infrastructure::render::theme::{gate, spinner_glyph, GateState, SPINNER};
use kiri_tui::infrastructure::render::view::{gate_state, screen, wrapped_line_count};
use kiri_tui::infrastructure::render::widgets::approval::{
    approval_lines, box_dims, plan_lines, plan_options_len, PLAN_ACTION,
};
use kiri_tui::infrastructure::render::widgets::command_menu::{box_rect, truncate_blurb};
use kiri_tui::infrastructure::render::widgets::header::header_line;
use kiri_tui::infrastructure::render::widgets::meta_rule::{fit_context, meta_line};
use kiri_tui::infrastructure::render::widgets::picker::{centered_rect, option_lines, title, window};
use kiri_tui::infrastructure::render::widgets::plan_pane::{plan_scroll, plan_text};
use kiri_tui::infrastructure::render::widgets::search_bar::{bar_rect, hits_label};
use kiri_tui::infrastructure::render::widgets::sidebar::{collect_modified_files, fit_text, sidebar_lines};
use kiri_tui::infrastructure::render::widgets::splash::{splash_lines, top_pad};
use kiri_tui::infrastructure::render::widgets::transcript_pane::{
    build_transcript_lines, landing_ages, scroll_offset, transcript_view, Reveal,
};
use kiri_tui::infrastructure::render::widgets::wizard::{chooser_lines, field_lines, masked_line, prompt_line};
use kiri_tui::style::TextStyle;

fn text(line: &Line) -> String {
    line.spans.iter().map(|s| s.content.as_str()).collect()
}

fn texts(lines: &[Line]) -> Vec<String> {
    lines.iter().map(text).collect()
}

fn renderer() -> Renderer {
    Renderer::new(Highlighter::new())
}

fn still() -> Reveal {
    Reveal { motion: Motion::Reduced, cooled: vec![] }
}

fn rows(items: Vec<TranscriptItem>, expand: bool) -> Vec<String> {
    let lines = build_transcript_lines(
        &mut renderer(),
        &items,
        60,
        expand,
        &HashSet::new(),
        false,
        false,
        &still(),
    );
    texts(&lines)
}

#[test]
fn wrapping_keeps_every_word() {
    let line = "the quick  brown 漢字漢字漢字 fox_jumping_over";
    for width in 1..20 {
        let wrapped = greedy_wrap(line, width);
        let kept: String = wrapped.concat().chars().filter(|c| *c != ' ').collect();
        let want: String = line.chars().filter(|c| *c != ' ').collect();
        assert_eq!(kept, want);
        for row in &wrapped {
            assert!(display_width(row) <= width || row.chars().count() == 1, "{row:?} at {width}");
        }
    }
    assert_eq!(greedy_wrap("fits as it is", 40), vec!["fits as it is"]);
    assert_eq!(chunk_by_width("漢字a", 2), vec!["漢", "字", "a"]);
    assert_eq!(chunk_by_width("漢字a", 3), vec!["漢", "字a"]);
    assert_eq!(hard_wrap("", 5), vec![""]);
}

#[test]
fn styles_never_move_text() {
    let mut r = renderer();
    for width in 1..30 {
        let plain = r.render("alpha beta gamma delta", TextStyle::default(), width);
        let bold = r.render("**alpha beta gamma delta**", TextStyle::default(), width);
        assert_eq!(texts(&plain), texts(&bold));
        for row in &plain {
            assert!(display_width(&text(row)) <= width);
        }
    }
}

#[test]
fn the_render_cache_is_bounded_and_right() {
    let mut r = renderer();
    let first = r.render("**um**", TextStyle::default(), 20);
    for i in 0..MAX_RENDER_CACHE + 5 {
        r.render(&format!("texto {i}"), TextStyle::default(), 20);
    }
    assert_eq!(r.render("**um**", TextStyle::default(), 20), first);
}

#[test]
fn the_brand_line_drops_its_tagline_first() {
    assert_eq!(text(&header_line(false, 100)), " ⬢ kiri  Engineering-Grade Code Harness");
    assert_eq!(text(&header_line(false, 20)), " ⬢ kiri ");
    assert_ne!(header_line(true, 100).spans[0].style, header_line(false, 100).spans[0].style);
}

#[test]
fn the_mode_survives_any_width() {
    let mut m = Model::default();
    m.status.model = "m".to_string();
    m.status.workspace = "~/projects/kiri".to_string();
    for width in 0..60 {
        let row = text(&meta_line(&m, width));
        assert!(row.ends_with(" ◈"), "{row}");
    }
    let wide = text(&meta_line(&m, 60));
    assert!(wide.starts_with("m · ~/projects/kiri "));
    assert_eq!(display_width(&wide), 59);
    m.busy = true;
    m.status.elapsed_secs = 75;
    m.status.spinner_frame = 12;
    assert!(text(&meta_line(&m, 60)).contains(&format!("{} 1m 15s ", SPINNER[2])));
    m.busy = false;
    m.status.turn_failed = true;
    assert!(text(&meta_line(&m, 60)).contains("✗ erro"));
    assert_eq!(fit_context("m · /w", "/w", 0, 0, "AUTO"), "");
}

#[test]
fn the_gate_follows_the_editor() {
    let mut m = Model::default();
    assert_eq!(gate_state(&m), GateState::Idle);
    m.input.insert("x");
    assert_eq!(gate_state(&m), GateState::Typing);
    m.notify_error("e".to_string());
    m.busy = true;
    assert_eq!(gate_state(&m), GateState::Busy(0));
    m.pending_approval = Some(PendingApproval::new("p".to_string(), true));
    assert_eq!(gate_state(&m), GateState::Approval);
    m.pending_approval = None;
    m.busy = false;
    assert_eq!(gate_state(&m), GateState::Error);
    assert_ne!(gate(GateState::Idle).1, gate(GateState::Error).1);
    assert_eq!(spinner_glyph(13), SPINNER[3]);
}

#[test]
fn an_approval_fills_its_box() {
    let mut r = renderer();
    let pending = PendingApproval::new("Rodar `cargo test`? [S/n] ".to_string(), true);
    let area = Rect::new(0, 0, 60, 20);
    let (width, height) = box_dims(&mut r, area, &pending.action(), 3);
    assert_eq!(width, 60);
    let lines = approval_lines(&mut r, &pending, Rect::new(0, 0, width, height));
    assert_eq!(lines.len(), height as usize);
    let all = texts(&lines).join("\n");
    assert!(all.contains("cargo test") && all.contains("❯ ") && all.contains("Sim"));

    let plan = PendingPlan { plan: "# p".to_string(), selected: 1, scroll: 0 };
    let (_, height) = box_dims(&mut r, area, PLAN_ACTION, plan_options_len());
    let lines = plan_lines(&mut r, &plan, Rect::new(0, 0, 60, height));
    assert!(texts(&lines).iter().any(|l| l.contains(PLAN_ACTION)));
}

#[test]
fn the_dropdown_stays_above_the_editor() {
    for y in 0..20 {
        let anchor = Rect::new(1, y, 90, 1);
        let list = box_rect(anchor, 9);
        assert_eq!(list.width, 64);
        assert!(list.y + list.height <= y.max(2));
    }
    assert_eq!(truncate_blurb("uma frase", 9), "uma frase");
    assert_eq!(truncate_blurb("uma frase", 5), "uma …");
    assert_eq!(truncate_blurb("uma frase", 1), "…");
    assert_eq!(truncate_blurb("uma frase", 0), "");
    assert!(CommandMenu::open("/zz", &Vec::new()).is_empty());
}

#[test]
fn the_picker_keeps_its_highlight_in_sight() {
    for height in 1..6 {
        for selected in 0..9 {
            let (from, to) = window(selected, height, 9);
            assert!(from <= selected && selected < to && to - from <= height);
        }
    }
    let picker = Picker::new(
        PickerKind::Models,
        "modelo".to_string(),
        "Escolha:".to_string(),
        (0..9).map(|i| format!("modelo-{i}")).collect(),
        7,
    );
    let shown = texts(&option_lines(&picker, 3));
    assert_eq!(shown.len(), 3);
    assert!(shown[2].contains("modelo-7") && shown[2].contains("❯"));
    assert_eq!(title(&picker), " Escolha modelo ");
    assert_eq!(centered_rect(20, 4, Rect::new(10, 10, 40, 10)), Rect::new(20, 13, 20, 4));
}

#[test]
fn a_plan_scrolls_to_its_end_and_no_further() {
    assert_eq!(plan_scroll(10, 20, 5), (0, " 📋 PLANO PROPOSTO ".to_string()));
    let (offset, title) = plan_scroll(30, 10, 5);
    assert_eq!(offset, 5);
    assert!(title.contains("25%"), "{title}");
    let (offset, title) = plan_scroll(30, 10, 99);
    assert_eq!(offset, 20);
    assert!(title.contains("100%"), "{title}");
    let lines = plan_text(&mut renderer(), "# Um\n\ntexto", 40);
    assert!(texts(&lines).iter().any(|l| l.contains("Um")));
}

#[test]
fn the_search_bar_counts_from_one() {
    assert_eq!(hits_label("", 0, 0), " (digite para buscar)");
    assert_eq!(hits_label("x", 0, 0), " (nenhuma correspondência)");
    assert_eq!(hits_label("x", 3, 1), " (correspondência 2 de 3)");
    assert_eq!(bar_rect(Rect::new(2, 9, 100, 3)), Rect::new(2, 8, 64, 1));
    assert_eq!(bar_rect(Rect::new(2, 0, 10, 3)).y, 0);
}

#[test]
fn the_sidebar_lists_changed_files_once() {
    assert_eq!(fit_text("abcdef", 6), "abcdef");
    assert_eq!(fit_text("abcdefg", 6), "...efg");
    assert_eq!(fit_text("ação", 3), "...");
    assert_eq!(fit_text("abc", 0), "");
    let edit = |command: &str| {
        TranscriptItem::Tool(ToolActivity {
            command: command.to_string(),
            diff: Some(ToolDiff { old: "a".to_string(), new: "b".to_string() }),
            result: Some((ToolStatus::Success, String::new(), Duration::from_millis(1))),
        })
    };
    let mut m = Model::default();
    for command in ["edit_file z.rs", "write_file \"a.rs\"", "edit_file z.rs", "read_file b.rs"] {
        m.transcript.push(edit(command));
    }
    let files = collect_modified_files(&m);
    assert_eq!(files, vec!["a.rs".to_string(), "z.rs".to_string()]);
    let shown = texts(&sidebar_lines(&m, &files, 35)).join("\n");
    assert!(shown.contains("AGUARDANDO") && shown.contains("  • a.rs") && shown.contains("  • z.rs"));
    let many: Vec<String> = (0..11).map(|i| format!("f{i}")).collect();
    assert!(texts(&sidebar_lines(&m, &many, 35)).join("\n").contains("  ... e mais 3"));
    assert!(texts(&sidebar_lines(&m, &vec![], 35)).join("\n").contains("(nenhum arquivo alterado)"));
}

#[test]
fn the_splash_drops_its_icon_where_it_does_not_fit() {
    let big = splash_lines(Rect::new(0, 0, 100, 40));
    let small = splash_lines(Rect::new(0, 0, 100, 8));
    assert!(big.len() > small.len());
    assert!(texts(&small).contains(&"[ KIRI ]".to_string()));
    assert_eq!(top_pad(20, 4), 8);
    assert_eq!(top_pad(4, 20), 0);
}

#[test]
fn long_outputs_are_previewed_until_expanded() {
    let output: Vec<String> = (0..30).map(|i| format!("linha {i}")).collect();
    let item = TranscriptItem::Tool(ToolActivity {
        command: "ls".to_string(),
        diff: None,
        result: Some((ToolStatus::Success, output.join("\n"), Duration::from_millis(1500))),
    });
    let short = rows(vec![item.clone()], false);
    let long = rows(vec![item.clone()], true);
    assert!(short.len() < long.len());
    assert!(short.iter().any(|l| l.contains("ls")) && short.iter().any(|l| l.contains("1.5s")));
    assert!(!short.iter().any(|l| l.contains("linha 29")));
    assert!(long.iter().any(|l| l.contains("linha 29")));

    // One tool can be expanded by itself.
    let mut r = renderer();
    let one = build_transcript_lines(
        &mut r,
        &vec![item.clone(), item],
        60,
        false,
        &HashSet::from([0]),
        false,
        false,
        &still(),
    );
    assert_eq!(texts(&one).iter().filter(|l| l.contains("linha 29")).count(), 1);
}

#[test]
fn every_item_has_its_rows() {
    let all = rows(
        vec![
            TranscriptItem::User("pergunta".to_string()),
            TranscriptItem::Reasoning("pensando".to_string()),
            TranscriptItem::Assistant("**resposta**".to_string()),
            TranscriptItem::Notice(NoticeLevel::Error, "falhou".to_string()),
            TranscriptItem::PlanProposed("o plano".to_string()),
        ],
        false,
    )
    .join("\n");
    for piece in ["pergunta", "pensando", "resposta", "falhou", "o plano"] {
        assert!(all.contains(piece), "{piece} is missing:\n{all}");
    }
}

#[test]
fn the_newest_rows_stay_in_view() {
    assert_eq!(scroll_offset(100, 20, 0), 80);
    assert_eq!(scroll_offset(100, 20, 30), 50);
    assert_eq!(scroll_offset(100, 20, u16::MAX), 0);
    assert_eq!(scroll_offset(5, 20, 3), 0);
    let mut m = Model::default();
    for i in 0..50 {
        m.notify_info(format!("aviso {i}"));
    }
    let (lines, offset) = transcript_view(&mut renderer(), &m, Rect::new(0, 0, 60, 10), &still());
    assert_eq!(offset as usize, lines.len() - 10);
}

#[test]
fn landings_age_with_the_frame() {
    let landed = vec![Instant { nanos: 10 }, Instant { nanos: 50 }];
    assert_eq!(
        landing_ages(Some(Instant { nanos: 40 }), &landed),
        vec![Duration { nanos: 30 }, Duration { nanos: 0 }]
    );
    assert!(landing_ages(None, &landed).is_empty());
}

#[test]
fn the_key_field_shows_bullets_alone() {
    let mut field = InputBuffer::default();
    field.insert("sk-secret");
    assert_eq!(text(&masked_line(&field)), "•••••••••▏");
    field.feed_key(KeyPress { code: Key::Home, ctrl: false, alt: false, shift: false });
    assert_eq!(text(&masked_line(&field)), "▏•••••••••");
    let mut other = InputBuffer::default();
    other.insert("sk-segredo".get(..9).unwrap());
    other.set_cursor(0, 0);
    assert_eq!(masked_line(&other), masked_line(&field), "only the length shows");
    assert_eq!(field_lines(&field, 4), 3);
    assert_eq!(wrapped_line_count(&field, 4), 3);
}

#[test]
fn the_wizard_asks_its_questions() {
    let mut w = ProviderWizard::onboarding();
    let shown = texts(&chooser_lines(&w)).join("\n");
    assert!(shown.contains("Bem-vindo ao Kiri · tipo"));
    assert!(shown.contains("❯ NVIDIA"), "{shown}");
    w.step = WizardStep::Model;
    assert!(text(&prompt_line(&w)).len() > 1);
}

#[test]
fn a_box_is_served_before_the_transcript() {
    let area = Rect::new(0, 0, 80, 24);
    let without = frame_layout(area, 1, 0);
    let with = frame_layout(area, 1, 8);
    assert_eq!(with.prompt_box.height, 8);
    assert!(with.transcript.height < without.transcript.height);
    assert_eq!(with.prompt_box.y + with.prompt_box.height, with.input.y);
}

#[test]
fn a_plan_takes_a_pane_of_its_own() {
    let mut r = renderer();
    let mut m = Model::default();
    m.pending_plan = Some(PendingPlan { plan: "p".to_string(), selected: 0, scroll: 0 });
    let wide = screen(&mut r, Rect::new(0, 0, 120, 40), &m);
    assert!(wide.plan.is_some() && wide.transcript.is_some());
    let narrow = screen(&mut r, Rect::new(0, 0, 80, 40), &m);
    assert!(narrow.plan.is_some() && narrow.transcript.is_none());
    let none = screen(&mut r, Rect::new(0, 0, 80, 40), &Model::default());
    assert!(none.plan.is_none() && none.transcript.is_some());
}
