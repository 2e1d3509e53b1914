//! The frame: layout, widgets, and terminal input.
use kiri_tui::application::msg::Msg;
use kiri_tui::clock::{Duration, Instant};
use kiri_tui::domain::command_menu::CommandMenu;
use kiri_tui::domain::input::{Key, KeyPress};
use kiri_tui::domain::modal::PendingApproval;
use kiri_tui::domain::model::Motion;
use kiri_tui::infrastructure::input::{to_msg, TerminalEvent, TerminalKey};
use kiri_tui::infrastructure::render::cells::{display_width, hard_wrap};
use kiri_tui::infrastructure::render::layout::{frame_layout, h_pad_total, Rect};
use kiri_tui::infrastructure::render::line::{Line, Span};
use kiri_tui::infrastructure::render::markdown::cache::Renderer;
use kiri_tui::infrastructure::render::markdown::render::Highlighter;
use kiri_tui::infrastructure::render::theme::{Ink, STEEL_RAMP};
use kiri_tui::infrastructure::render::widgets::approval::{approval_lines, hairline};
use kiri_tui::infrastructure::render::widgets::command_menu::{dropdown, TITLE};
use kiri_tui::infrastructure::render::widgets::meta_rule::fit_context;
use kiri_tui::infrastructure::render::widgets::splash::breath_age_ms;
use kiri_tui::infrastructure::render::widgets::transcript_pane::{line_fg, recede, Reveal};
use kiri_tui::infrastructure::runtime::clipboard::{classify_image, ClipboardContent, ClipboardImage};
use kiri_tui::style::TextStyle;

fn keypress(code: TerminalKey, ctrl: bool, alt: bool) -> KeyPress {
    match to_msg(TerminalEvent::Key {
        code,
        ctrl,
        alt,
        shift: false,
        pressed: true,
    }) {
        Some(Msg::Key(press)) => press,
        other => panic!("expected a key press, got {other:?}"),
    }
}

#[test]
fn altgr_char_is_delivered_as_plain_text() {
    // The AltGr-composed cedilla must reach the editor, not be dropped as a Ctrl+Alt chord.
    let press = keypress(TerminalKey::Char('ç'), true, true);
    assert_eq!(press.code, Key::Char('ç'));
    assert!(!press.ctrl && !press.alt);
}

#[test]
fn ctrl_only_char_keeps_its_modifier() {
    // A real Ctrl chord (no Alt) is left untouched for the key map to act on.
    let press = keypress(TerminalKey::Char('a'), true, false);
    assert_eq!(press.code, Key::Char('a'));
    assert!(press.ctrl && !press.alt);
}

#[test]
fn clipboard_image_encode_failure_is_surfaced() {
    // A present-but-unencodable image (zero dimensions) reports Unreadable, not Empty, so the paste
    // handler surfaces a notice instead of looking like nothing was on the clipboard.
    let broken = ClipboardImage {
        width: 0,
        height: 0,
        bytes: vec![],
    };
    assert!(matches!(
        classify_image(&broken),
        ClipboardContent::Unreadable
    ));
}

#[test]
fn roomy_terminal_gets_gutters_top_margin_and_a_gap() {
    let r = frame_layout(Rect::new(0, 0, 100, 30), 1, 0);
    assert_eq!(r.header.x, 2, "left gutter expected");
    assert_eq!(r.header.width, 97, "side gutters left 2 right 1 expected");
    assert_eq!(r.header.y, 1, "top margin expected");
    // A two-row gap separates the transcript from the meta rule (the input cluster).
    let transcript_end = r.transcript.y + r.transcript.height;
    assert_eq!(
        r.meta.y - transcript_end,
        2,
        "gap above the meta rule expected"
    );
}

#[test]
fn small_terminal_runs_edge_to_edge() {
    // Below the roominess threshold (width < 60): no gutter, no top margin, no gap.
    let r = frame_layout(Rect::new(0, 0, 50, 20), 1, 0);
    assert_eq!(r.header.x, 0, "no gutter on a small terminal");
    assert_eq!(r.header.width, 50, "full width on a small terminal");
    assert_eq!(r.header.y, 0, "no top margin on a small terminal");
    let transcript_end = r.transcript.y + r.transcript.height;
    assert_eq!(r.meta.y, transcript_end, "no gap on a small terminal");
}

#[test]
fn h_pad_total_is_zero_when_not_roomy() {
    assert_eq!(h_pad_total(Rect::new(0, 0, 50, 20)), 0);
    assert_eq!(h_pad_total(Rect::new(0, 0, 100, 10)), 0);
    assert_eq!(h_pad_total(Rect::new(0, 0, 100, 30)), 3);
}

#[test]
fn hairline_is_exactly_width_cells() {
    assert_eq!(display_width(&hairline(0)), 0);
    assert_eq!(display_width(&hairline(5)), 5);
    assert_eq!(hairline(4), "┄┈┄┈");
}

#[test]
fn a_backtick_highlighted_command_renders_with_the_inline_code_style() {
    // The file or command of the question must be visually set off from the surrounding prose — not just
    // as literal backtick characters.
    let pending = PendingApproval::new(
        "Ler o arquivo. Aprova executar: `cat a.txt`? [S/n] ".to_string(),
        true,
    );
    let mut renderer = Renderer::new(Highlighter::new());
    let lines = approval_lines(&mut renderer, &pending, Rect::new(0, 0, 60, 10));
    let mut found_highlighted_c = false;
    let mut saw_literal_backtick = false;
    for span in lines.iter().flat_map(|l| l.spans.iter()) {
        if span.content.contains('`') {
            saw_literal_backtick = true;
        }
        if span.content.contains('c') && span.style.bg == Some(Ink::CodeBg.color()) {
            found_highlighted_c = true;
        }
    }
    assert!(
        found_highlighted_c,
        "the command text must render with the inline-code background"
    );
    assert!(
        !saw_literal_backtick,
        "the backtick delimiters must be consumed by markdown rendering, not shown literally"
    );
}

/// The dropdown as text: its title, then its rows.
fn paint(menu: &CommandMenu, width: u16, height: u16) -> String {
    let anchor = Rect::new(0, height.saturating_sub(3), width, 1);
    let mut out = String::new();
    if let Some((_, lines)) = dropdown(menu, anchor) {
        out.push_str(TITLE);
        out.push('\n');
        for line in lines {
            for span in line.spans {
                out.push_str(&span.content);
            }
            out.push('\n');
        }
    }
    out
}

#[test]
fn menu_renders_title_and_highlighted_row() {
    let menu = CommandMenu::open("/", &Vec::new());
    let out = paint(&menu, 64, 16);
    assert!(out.contains("comandos"), "title missing:\n{out}");
    assert!(out.contains("/new"), "canonical names missing:\n{out}");
    assert!(out.contains("❯"), "highlight marker missing:\n{out}");
}

#[test]
fn menu_shows_aliases_next_to_the_canonical_name() {
    // "/novo" for "/new" must be visible in the menu, not only accepted by the parser.
    let menu = CommandMenu::open("/new", &Vec::new());
    let out = paint(&menu, 64, 16);
    assert!(out.contains("/new"), "canonical name missing:\n{out}");
    assert!(out.contains("/novo"), "alias missing:\n{out}");
}

#[test]
fn empty_menu_renders_nothing() {
    let menu = CommandMenu::open("/zzz", &Vec::new());
    let out = paint(&menu, 64, 16);
    assert!(
        !out.contains("comandos"),
        "empty menu must not render:\n{out}"
    );
}

#[test]
fn fit_context_keeps_the_workspace_tail_when_truncating() {
    let workspace = "C:/Users/dev/projects/kiri";
    let full = format!("model · {workspace}");
    // A narrow width forces truncation; the tail (the folder) must survive, prefixed with `…`.
    let ctx = fit_context(&full, workspace, 24, 0, "AUTO");
    assert!(
        ctx.starts_with('…'),
        "should ellipsize from the front: {ctx}"
    );
    assert!(ctx.ends_with("kiri"), "should keep the folder tail: {ctx}");
}

#[test]
fn fit_context_prefers_the_full_string_when_it_fits() {
    let workspace = "/w";
    let full = "m · /w";
    assert_eq!(fit_context(full, workspace, 80, 0, "AUTO"), full);
}

#[test]
fn breath_plays_then_settles() {
    let o = Instant { nanos: 5_000_000_000 };
    assert_eq!(breath_age_ms(Some(o), Some(o), Motion::Full), Some(0));
    // Past the settle window the splash freezes (no age → final, still frame).
    assert_eq!(
        breath_age_ms(
            Some(o),
            o.checked_add(Duration::from_millis(600)),
            Motion::Full
        ),
        None
    );
    // Reduced motion never plays it.
    assert_eq!(breath_age_ms(Some(o), Some(o), Motion::Reduced), None);
}

#[test]
fn line_fg_freezes_to_steel_under_reduced_motion() {
    let reduced = Reveal {
        motion: Motion::Reduced,
        cooled: vec![Ink::CodeFg.color()],
    };
    assert_eq!(line_fg(0, false, &reduced), Ink::Steel.color());
    assert_eq!(line_fg(0, true, &reduced), Ink::Steel.color());
}

#[test]
fn recede_drops_every_span_to_dim_steel() {
    let line = Line {
        spans: vec![
            Span {
                content: "você".to_string(),
                style: TextStyle::default().fg(Ink::Highlight.color()),
            },
            Span {
                content: " oi".to_string(),
                style: TextStyle::default().fg(Ink::Steel.color()),
            },
        ],
    };
    for span in &recede(line).spans {
        assert_eq!(span.style.fg, Some(STEEL_RAMP[3].color()));
    }
}

#[test]
fn line_fg_in_flight_line_is_forge_warm() {
    let reveal = Reveal {
        motion: Motion::Full,
        cooled: vec![],
    };
    assert_eq!(line_fg(0, true, &reveal), Ink::CodeFg.color());
}

#[test]
fn wraps_long_lines_and_preserves_blank_lines() {
    assert_eq!(hard_wrap("abcdef", 3), vec!["abc", "def"]);
    assert_eq!(hard_wrap("a\n\nb", 10), vec!["a", "", "b"]);
}

#[test]
fn word_wrap_breaks_at_spaces_and_chunks_long_words() {
    assert_eq!(
        hard_wrap("the quick brown fox", 5),
        vec!["the", "quick", "brown", "fox"]
    );
    assert_eq!(
        hard_wrap("a verylongword here", 4),
        vec!["a", "very", "long", "word", "here"]
    );
}
