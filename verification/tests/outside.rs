//! What the library takes on trust of the crates it builds on, held against those crates.
use kiri_tui::application::keymap::editor_input::on_key;
use kiri_tui::clock::Duration;
use kiri_tui::conversation::ToolCall;
use kiri_tui::domain::input::{Key, KeyPress};
use kiri_tui::domain::input_buffer::InputBuffer;
use kiri_tui::domain::model::Model;
use kiri_tui::domain::picker::{Picker, PickerKind};
use kiri_tui::domain::wizard::{printable_of, ProviderWizard, WizardStep};
use kiri_tui::infrastructure::render::cells::display_width;
use kiri_tui::infrastructure::render::layout::{frame_layout, Rect};
use kiri_tui::infrastructure::render::line::Line;
use kiri_tui::infrastructure::render::markdown::cache::Renderer;
use kiri_tui::infrastructure::render::markdown::render::{highlight_code_block, Highlighter};
use kiri_tui::infrastructure::render::theme::Ink;
use kiri_tui::infrastructure::render::view::screen;
use kiri_tui::infrastructure::render::widgets::picker::modal_rows;
use kiri_tui::infrastructure::render::widgets::transcript_pane::fmt_dur;
use kiri_tui::infrastructure::runtime::bridge::edit_diff;
use kiri_tui::infrastructure::runtime::clipboard::{classify_image, ClipboardContent, ClipboardImage};
use kiri_tui::style::TextStyle;
use kiri_tui::text::{is_whitespace, trimmed};

fn every_char() -> impl Iterator<Item = char> {
    (0..=char::MAX as u32).filter_map(char::from_u32)
}

#[test]
fn white_space_is_what_unicode_says() {
    for c in every_char() {
        assert_eq!(is_whitespace(c), c.is_whitespace(), "{:?}", c);
    }
    assert_eq!(trimmed("\u{3000}\t a b \u{a0}\n"), "a b");
}

#[test]
fn control_characters_are_dropped_and_nothing_else() {
    for c in every_char() {
        let text = format!("a{c}b");
        let want = if c.is_control() { "ab".to_string() } else { text.clone() };
        assert_eq!(printable_of(&text), want, "{:?}", c);
    }
}

#[test]
fn no_character_is_wider_than_three_cells() {
    for c in every_char() {
        let width = display_width(&c.to_string());
        assert!(width <= 3, "{:?} is {width} cells wide", c);
        if (' '..='~').contains(&c) {
            assert_eq!(width, 1, "{:?}", c);
        }
    }
    assert_eq!(display_width("漢字"), 4);
    assert_eq!(display_width("e\u{301}"), 1);
}

/// The plain model of an editor: lines, and a cursor.
struct Plain {
    lines: Vec<Vec<char>>,
    row: usize,
    col: usize,
}

impl Plain {
    fn text(&self) -> String {
        let lines: Vec<String> = self.lines.iter().map(|l| l.iter().collect()).collect();
        lines.join("\n")
    }

    fn insert(&mut self, c: char) {
        if c == '\n' {
            let rest = self.lines[self.row].split_off(self.col);
            self.lines.insert(self.row + 1, rest);
            self.row += 1;
            self.col = 0;
        } else {
            self.lines[self.row].insert(self.col, c);
            self.col += 1;
        }
    }

    fn backspace(&mut self) -> bool {
        if self.col > 0 {
            self.col -= 1;
            self.lines[self.row].remove(self.col);
            true
        } else if self.row > 0 {
            let rest = self.lines.remove(self.row);
            self.row -= 1;
            self.col = self.lines[self.row].len();
            self.lines[self.row].extend(rest);
            true
        } else {
            false
        }
    }
}

fn key(code: Key, shift: bool) -> KeyPress {
    KeyPress { code, ctrl: false, alt: false, shift }
}

/// A small deterministic sequence of numbers.
struct Dice(u64);

impl Dice {
    fn roll(&mut self, sides: u64) -> u64 {
        self.0 = self.0.wrapping_mul(6364136223846793005).wrapping_add(1442695040888963407);
        (self.0 >> 33) % sides
    }
}

#[test]
fn the_widget_edits_as_a_plain_editor_does() {
    let mut dice = Dice(7);
    for _ in 0..200 {
        let mut field = InputBuffer::default();
        let mut plain = Plain { lines: vec![vec![]], row: 0, col: 0 };
        for _ in 0..60 {
            match dice.roll(9) {
                0 | 1 => {
                    let c = ['a', 'ç', '漢', ' ', '\u{301}', '/'][dice.roll(6) as usize];
                    assert!(field.feed_key(key(Key::Char(c), false)));
                    plain.insert(c);
                }
                2 => {
                    assert!(field.feed_key(key(Key::Enter, dice.roll(2) == 0)));
                    plain.insert('\n');
                }
                3 => {
                    assert_eq!(field.feed_key(key(Key::Backspace, false)), plain.backspace());
                }
                4 => {
                    assert!(!field.feed_key(key(Key::Home, false)));
                    plain.col = 0;
                }
                5 => {
                    assert!(!field.feed_key(key(Key::End, false)));
                    plain.col = plain.lines[plain.row].len();
                }
                6 => {
                    field.insert("x\r\nyz\n");
                    for c in "x\nyz\n".chars() {
                        plain.insert(c);
                    }
                }
                7 => {
                    let (row, col) = (dice.roll(5) as usize, dice.roll(5) as usize);
                    field.set_cursor(row, col);
                    plain.row = row.min(plain.lines.len() - 1);
                    plain.col = col.min(plain.lines[plain.row].len());
                }
                _ => {
                    let before = field.text();
                    assert!(!field.feed_key(key(Key::Esc, false)));
                    assert_eq!(field.text(), before);
                }
            }
            assert_eq!(field.text(), plain.text());
            assert_eq!(field.cursor(), (plain.row, plain.col));
            assert_eq!(field.last_row() + 1, plain.lines.len());
            assert_eq!(field.is_empty(), plain.text().is_empty());
            assert!(!field.is_selecting());
            assert_eq!(field.selection(), None);
        }
    }
}

#[test]
fn a_selection_is_copied_cut_and_replaced() {
    let mut field = InputBuffer::default();
    field.set("one\ntwo three".to_string());
    assert!(!field.feed_key(key(Key::Home, true)));
    assert_eq!(field.selection(), Some(((1, 0), (1, 9))));
    assert_eq!(field.copy_selection().as_deref(), Some("two three"));
    assert_eq!(field.text(), "one\ntwo three");
    assert!(!field.is_selecting());

    field.feed_key(key(Key::End, true));
    assert_eq!(field.cut_selection().as_deref(), Some("two three"));
    assert_eq!(field.text(), "one\n");
    assert_eq!(field.cursor(), (1, 0));

    field.set("abc".to_string());
    field.feed_key(key(Key::Home, true));
    assert!(field.feed_key(key(Key::Char('X'), false)));
    assert_eq!(field.text(), "X", "typing takes the place of the selection");

    field.set("a\nb".to_string());
    field.set_cursor(0, 0);
    field.feed_key(key(Key::Down, true));
    assert_eq!(field.selection(), Some(((0, 0), (1, 0))));
    field.insert("p\nq");
    assert_eq!(field.text(), "p\nqb");
    assert_eq!(field.cursor(), (1, 1));

    // An empty selection hands back what was last yanked.
    field.set("abc".to_string());
    field.feed_key(key(Key::End, true));
    assert!(field.is_selecting());
    assert_eq!(field.copy_selection().as_deref(), Some("two three"));
}

#[test]
fn undo_and_redo_walk_the_edits() {
    let mut field = InputBuffer::default();
    assert!(!field.undo());
    assert!(!field.redo());
    field.insert("abc");
    assert!(field.undo());
    assert_eq!(field.text(), "");
    assert!(field.redo());
    assert_eq!(field.text(), "abc");
    // A hard replacement forgets the edits.
    field.set("new".to_string());
    assert!(!field.undo());
    assert_eq!(field.text(), "new");
}

#[test]
fn the_frame_solver_stacks_what_fits_and_stays_inside() {
    for width in [0, 1, 30, 59, 60, 99, 200] {
        for height in 0..48 {
            for input_lines in [0, 1, 3, 9] {
                for box_h in [0, 1, 7, 20] {
                    let area = Rect::new(3, 2, width, height);
                    let r = frame_layout(area, input_lines, box_h);
                    let stack = [r.header, r.transcript, r.meta, r.prompt_box, r.input, r.hint];
                    for part in stack {
                        assert!(part.x >= area.x && part.x + part.width <= area.x + area.width);
                        assert!(part.y >= area.y && part.y + part.height <= area.y + area.height);
                    }
                    if height >= 14 && box_h == 0 {
                        let editor = input_lines.clamp(1, 6);
                        assert_eq!(r.input.height, editor);
                        assert_eq!(r.meta.height, 1);
                        assert_eq!(r.meta.y + 1, r.input.y);
                    }
                }
            }
        }
    }
    let rows = modal_rows(Rect::new(0, 0, 40, 20));
    assert_eq!(rows.iter().map(|r| r.height).sum::<u16>(), 20);
}

#[test]
fn a_wide_frame_has_a_sidebar_of_its_own_width() {
    let mut renderer = Renderer::new(Highlighter::new());
    let model = Model::default();
    let s = screen(&mut renderer, Rect::new(0, 0, 140, 40), &model);
    let sidebar = s.sidebar.expect("140 columns have room for it");
    assert_eq!(sidebar.width, 35);
    assert_eq!(s.main.width + sidebar.width, 140);
    assert!(screen(&mut renderer, Rect::new(0, 0, 129, 40), &model).sidebar.is_none());
}

fn spelled(lines: &[Line]) -> Vec<String> {
    lines.iter().map(|l| l.spans.iter().map(|s| s.content.as_str()).collect()).collect()
}

#[test]
fn highlighted_pieces_spell_their_lines() {
    let highlighter = Highlighter::new();
    let lines: Vec<String> = [
        "/* a comment",
        "   over lines */ fn main() {",
        "    let s = \"text with \\\"quotes\\\" and ç漢\";",
        "",
        "}\t// done",
    ]
    .iter()
    .map(|l| l.to_string())
    .collect();
    for lang in ["rust", "python", "js", "json", "go", "unheard-of"] {
        let rows = highlight_code_block(&highlighter, &lines, &Some(lang.to_string()));
        assert_eq!(rows.len(), lines.len());
        for (row, line) in rows.iter().zip(&lines) {
            let text: String = row.iter().map(|s| s.content.as_str()).collect();
            // Each row has a cell of padding in front.
            assert_eq!(text, format!(" {line}"), "in {lang}");
        }
    }
    // A comment over two lines keeps its colour on the second.
    let rows = highlight_code_block(&highlighter, &lines, &Some("rust".to_string()));
    assert_eq!(rows[0].last().unwrap().style.fg, rows[1][0].style.fg);
}

#[test]
fn markdown_structures_come_through() {
    let mut renderer = Renderer::new(Highlighter::new());
    let md = "# Top\n\ntext ~~gone~~ and *soft* **hard** `code`\nnext\n\n> quoted\n\n1. one\n2. two\n   - deep\n\n```rust\nlet x = 1;\n```\n\n| a | b |\n|---|---|\n| 1 | 2 |\n\n---\n\n<b>html</b> and [a link](https://example.test)\n";
    let rows = renderer.render(md, TextStyle::default(), 60);
    let text = spelled(&rows).join("\n");
    for piece in ["Top", "gone", "soft", "hard", "code", "quoted", "one", "two", "deep", "let x = 1;", "a link"] {
        assert!(text.contains(piece), "{piece} is missing:\n{text}");
    }
    assert!(!text.contains("~~") && !text.contains("**") && !text.contains('`'));
    let struck = rows.iter().flat_map(|l| l.spans.iter()).find(|s| s.content == "gone").unwrap();
    assert!(struck.style.crossed_out);
    let code = rows.iter().flat_map(|l| l.spans.iter()).find(|s| s.content == "code").unwrap();
    assert_eq!(code.style.bg, Some(Ink::CodeBg.color()));
    // Smart punctuation is among the extensions.
    assert_eq!(spelled(&renderer.render("a -- b", TextStyle::default(), 20)), vec!["a  –  b"]);
}

#[test]
fn an_image_becomes_a_png_data_url() {
    let image = ClipboardImage { width: 2, height: 1, bytes: vec![255, 0, 0, 255, 0, 255, 0, 255] };
    match classify_image(&image) {
        ClipboardContent::Image(a) => {
            assert_eq!((a.width, a.height), (2, 1));
            // The PNG signature, in base64.
            assert!(a.data_url.starts_with("data:image/png;base64,iVBORw0KGgo"), "{}", a.data_url);
        }
        other => panic!("expected an image, got {other:?}"),
    }
    // Bytes that do not match the dimensions cannot be encoded.
    let short = ClipboardImage { width: 2, height: 2, bytes: vec![0; 3] };
    assert_eq!(classify_image(&short), ClipboardContent::Unreadable);
}

#[test]
fn an_edit_shows_its_diff() {
    let call = |name: &str, arguments: &str| ToolCall {
        name: name.to_string(),
        arguments: arguments.to_string(),
    };
    let diff = edit_diff(&call("edit_file", r#"{"path":"a","old_string":"x\ny","new_string":"ç"}"#)).unwrap();
    assert_eq!(diff.old, "x\ny");
    assert_eq!(diff.new, "ç");
    for broken in [r#"{"old_string":"x"}"#, r#"{"old_string":1,"new_string":"y"}"#, "[]", "not json", ""] {
        assert!(edit_diff(&call("edit_file", broken)).is_none(), "{broken}");
    }
    assert!(edit_diff(&call("read_file", r#"{"old_string":"x","new_string":"y"}"#)).is_none());
}

#[test]
fn a_search_ignores_case() {
    let options = vec!["Ação".to_string(), "beta".to_string()];
    let mut picker = Picker::new(
        PickerKind::Models,
        "modelo".to_string(),
        "Escolha:".to_string(),
        options,
        0,
    );
    picker.query.insert("AÇ");
    assert_eq!(picker.filtered_options(), vec![(0, "Ação")]);
    picker.query.set("ETA".to_string());
    assert_eq!(picker.filtered_options(), vec![(1, "beta")]);
}

#[test]
fn durations_read_as_milliseconds_or_seconds() {
    assert_eq!(fmt_dur(Duration::from_millis(0)), "0ms");
    assert_eq!(fmt_dur(Duration::from_millis(999)), "999ms");
    assert_eq!(fmt_dur(Duration::from_millis(1000)), "1.0s");
    assert_eq!(fmt_dur(Duration::from_millis(1260)), "1.3s");
    assert_eq!(fmt_dur(Duration::from_secs(90)), "90.0s");
}

#[test]
fn a_wiped_key_is_gone() {
    let mut wizard = ProviderWizard::new();
    wizard.step = WizardStep::ApiKey;
    wizard.push_str("sk-secret");
    assert_eq!(wizard.api_key, "sk-secret");
    wizard.wipe_key();
    assert_eq!(wizard.api_key, "");
}

#[test]
fn word_deletions_and_motions_reach_the_widget() {
    let chord = |code, ctrl, alt| KeyPress { code, ctrl, alt, shift: false };
    let mut model = Model::default();
    model.input.set("foo bar".to_string());
    // Option+Left jumps a word.
    on_key(&mut model, chord(Key::Left, false, true));
    assert_eq!(model.input.cursor(), (0, 4));
    // Ctrl+Delete deletes the word behind the cursor.
    on_key(&mut model, chord(Key::Delete, true, false));
    assert_eq!(model.input.text(), "foo ");
}

#[test]
fn chords_move_erase_or_do_nothing() {
    let field = || {
        let mut f = InputBuffer::default();
        f.set("one two\nthree four\nfive".to_string());
        f.set_cursor(1, 3);
        f
    };
    let before = field().text();
    let chord = |c, ctrl, alt| KeyPress { code: Key::Char(c), ctrl, alt, shift: false };
    for c in (' '..='~').chain(['ç', '\n']) {
        for (ctrl, alt) in [(true, false), (false, true), (true, true)] {
            let mut f = field();
            let changed = f.feed_key(chord(c, ctrl, alt));
            let edits = match (ctrl, alt) {
                (true, false) => "mhdkjwyur".contains(c),
                (false, true) => "hd".contains(c),
                _ => false,
            };
            let moves = match (ctrl, alt) {
                (true, false) => "aenpfbvc".contains(c),
                (false, true) => "fbnpv<>[]".contains(c),
                _ => "bfpn".contains(c),
            };
            if !edits {
                assert!(!changed, "{c:?} {ctrl} {alt}");
                assert_eq!(f.text(), before, "{c:?} {ctrl} {alt}");
            }
            if !edits && !moves {
                assert_eq!(f.cursor(), (1, 3), "{c:?} {ctrl} {alt}");
            }
        }
    }
    let after = |c, ctrl, alt| {
        let mut f = field();
        f.feed_key(chord(c, ctrl, alt));
        (f.text(), f.cursor())
    };
    assert_eq!(after('a', true, false), (before.clone(), (1, 0)));
    assert_eq!(after('e', true, false), (before.clone(), (1, 10)));
    assert_eq!(after('b', true, true), (before.clone(), (1, 0)));
    assert_eq!(after('f', true, true), (before.clone(), (1, 10)));
    assert_eq!(after('h', true, false), ("one two\nthee four\nfive".to_string(), (1, 2)));
    assert_eq!(after('d', true, false), ("one two\nthre four\nfive".to_string(), (1, 3)));
    assert_eq!(after('m', true, false), ("one two\nthr\nee four\nfive".to_string(), (2, 0)));

    // Delete joins lines at a line's end, and has nothing to do at the very end.
    let mut f = field();
    f.set_cursor(0, 7);
    assert!(f.feed_key(key(Key::Delete, false)));
    assert_eq!(f.text(), "one twothree four\nfive");
    f.set_cursor(9, 9);
    assert!(!f.feed_key(key(Key::Delete, false)));
    // Over a selection it removes just that.
    f.feed_key(key(Key::Home, true));
    assert!(f.feed_key(key(Key::Delete, false)));
    assert_eq!(f.text(), "one twothree four\n");
}
