//! Text fields: the widget behind them, the wizard's fields, and what fits where they are drawn.
use kiri_tui::application::keymap::editor_input::on_key;
use kiri_tui::application::msg::Msg;
use kiri_tui::application::update::update;
use kiri_tui::conversation::{Conversation, Message};
use kiri_tui::domain::command_menu::{CommandMenu, CustomCommandEntry, MenuEntry};
use kiri_tui::domain::input::{Key, KeyPress};
use kiri_tui::domain::input_buffer::InputBuffer;
use kiri_tui::domain::model::Model;
use kiri_tui::domain::picker::{Picker, PickerKind};
use kiri_tui::domain::wizard::{ProviderWizard, WizardStep};
use kiri_tui::infrastructure::render::cells::display_width;
use kiri_tui::infrastructure::render::layout::{regions_from, Rect};
use kiri_tui::infrastructure::render::line::Line;
use kiri_tui::infrastructure::render::markdown::cache::Renderer;
use kiri_tui::infrastructure::render::markdown::events::{MdContent, MdInline, MdMark, MdTag};
use kiri_tui::infrastructure::render::markdown::parse::{collect_blocks, Block};
use kiri_tui::infrastructure::render::markdown::render::Highlighter;
use kiri_tui::infrastructure::render::theme::Ink;
use kiri_tui::infrastructure::render::view::screen;
use kiri_tui::infrastructure::render::widgets::command_menu::truncate_blurb;
use kiri_tui::infrastructure::render::widgets::meta_rule::{fit_context, meta_line};
use kiri_tui::infrastructure::render::widgets::picker::{modal_rows, part_row, query_columns};
use kiri_tui::infrastructure::render::widgets::sidebar::fit_text;
use kiri_tui::infrastructure::render::widgets::wizard::{field_columns, text_rows};
use kiri_tui::infrastructure::runtime::bridge::{on_event, CancelToken, EngineMsg, StreamEvent};
use kiri_tui::infrastructure::runtime::clipboard::{classify_image, ClipboardContent, ClipboardImage};
use kiri_tui::infrastructure::runtime::provider_swap::{store_action, Credential, StoreAction};
use kiri_tui::infrastructure::runtime::turn::{on_turn_end, TurnError, TurnOutcome};
use kiri_tui::kernel::{ProviderKind, Secret};
use kiri_tui::style::{Color, TextStyle};

fn press(code: Key) -> KeyPress {
    KeyPress { code, ctrl: false, alt: false, shift: false }
}

fn shifted(code: Key) -> KeyPress {
    KeyPress { shift: true, ..press(code) }
}

fn chord(c: char) -> KeyPress {
    KeyPress { ctrl: true, ..press(Key::Char(c)) }
}

fn at(step: WizardStep) -> ProviderWizard {
    let mut wizard = ProviderWizard::new();
    wizard.go_to_step(step);
    wizard
}

fn spelled(line: &Line) -> String {
    line.spans.iter().map(|s| s.content.as_str()).collect()
}

// ---- the widget's history ----

#[test]
fn undo_takes_each_kind_of_edit_back() {
    let mut field = InputBuffer::default();
    field.insert("one");
    field.newline();
    assert_eq!(field.text(), "one\n");
    assert!(field.undo());
    assert_eq!(field.text(), "one");
    assert!(field.redo());
    assert_eq!(field.text(), "one\n");
    assert!(field.feed_key(press(Key::Char('x'))));
    assert_eq!(field.text(), "one\nx");
    assert!(field.undo());
    assert_eq!(field.text(), "one\n");

    let mut cut = InputBuffer::default();
    cut.insert("word");
    cut.feed_key(shifted(Key::Home));
    assert_eq!(cut.cut_selection().as_deref(), Some("word"));
    assert_eq!(cut.text(), "");
    assert!(cut.undo());
    assert_eq!(cut.text(), "word");
    assert!(cut.redo());
    assert_eq!(cut.text(), "");
}

#[test]
fn a_replaced_text_has_nothing_to_undo() {
    let mut field = InputBuffer::default();
    field.insert("typed");
    field.set("other".to_string());
    assert!(!field.undo());
    assert!(!field.redo());
    assert_eq!(field.text(), "other");
    // Nor has one that was taken.
    field.insert("!");
    assert_eq!(field.take(), "other!");
    assert!(!field.undo());
}

#[test]
fn undo_does_not_cross_a_recall() {
    let mut m = Model::default();
    m.history.record("earlier");
    m.input.insert("draft");
    on_key(&mut m, press(Key::Up));
    assert_eq!(m.input.text(), "earlier");
    on_key(&mut m, chord('z'));
    assert_eq!(m.input.text(), "earlier");
}

#[test]
fn the_composer_undoes_and_redoes_by_chords() {
    let mut m = Model::default();
    on_key(&mut m, press(Key::Char('a')));
    on_key(&mut m, press(Key::Char('b')));
    assert_eq!(m.input.text(), "ab");
    on_key(&mut m, chord('z'));
    assert_eq!(m.input.text(), "a");
    on_key(&mut m, chord('y'));
    assert_eq!(m.input.text(), "ab");
}

#[test]
fn a_drawn_field_moves_by_the_rows_on_the_screen() {
    let mut field = InputBuffer::default();
    field.insert("aaaa bbbb cccc");
    let whole = ratatui::layout::Rect::new(0, 0, 10, 6);
    let mut buffer = ratatui::buffer::Buffer::empty(whole);
    field.render(1, 1, 5, 4, &mut buffer);
    let drawn = |x: u16, y: u16| buffer[(x, y)].symbol().to_string();
    // Each word has a row of its own, where the field was put and nowhere else.
    assert_eq!(drawn(1, 1), "a");
    assert_eq!(drawn(1, 2), "b");
    assert_eq!(drawn(1, 3), "c");
    assert_eq!(drawn(0, 1), " ");
    assert_eq!(drawn(1, 0), " ");
    assert_eq!(field.text(), "aaaa bbbb cccc");
    assert_eq!(field.cursor(), (0, 14));
    // One logical row, yet the cursor goes up by a drawn one.
    field.feed_key(press(Key::Up));
    let (row, col) = field.cursor();
    assert_eq!(row, 0);
    assert!((5..10).contains(&col), "{col}");
    // Drawing is no edit.
    assert!(field.undo());
    assert_eq!(field.text(), "");
}

#[test]
fn a_drawn_field_still_edits_by_characters() {
    let text = "aaaa bbbb cc漢字漢字dddddddddd e";
    let chars: Vec<char> = text.chars().collect();
    let whole = ratatui::layout::Rect::new(0, 0, 20, 8);
    for width in 0..14 {
        for col in 0..=chars.len() {
            let mut field = InputBuffer::default();
            field.set(text.to_string());
            let mut buffer = ratatui::buffer::Buffer::empty(whole);
            field.render(2, 1, width, 5, &mut buffer);
            field.set_cursor(0, col);
            assert_eq!(field.cursor(), (0, col), "width {width}");
            field.feed_key(press(Key::Home));
            assert_eq!(field.cursor(), (0, 0));
            field.set_cursor(0, col);
            field.feed_key(press(Key::End));
            assert_eq!(field.cursor(), (0, chars.len()));
            field.set_cursor(0, col);
            assert!(field.feed_key(press(Key::Char('x'))));
            let mut expected = chars.clone();
            expected.insert(col, 'x');
            assert_eq!(field.text(), expected.iter().collect::<String>());
            assert_eq!(field.cursor(), (0, col + 1));
            assert!(field.feed_key(press(Key::Backspace)));
            assert_eq!(field.text(), text);
            assert_eq!(field.cursor(), (0, col));
            field.render(2, 1, width, 5, &mut buffer);
            for code in [Key::Up, Key::PageDown, Key::Down, Key::PageUp, Key::Left, Key::Right] {
                assert!(!field.feed_key(press(code)));
                assert_eq!(field.text(), text);
                let (row, at) = field.cursor();
                assert!(row == 0 && at <= chars.len());
            }
            assert!(field.undo());
            assert_eq!(field.text(), expected.iter().collect::<String>());
        }
    }
}

#[test]
fn a_field_is_drawn_where_its_rows_can_be_counted() {
    let mut field = InputBuffer::default();
    assert!(field.drawable_at(0));
    assert!(field.drawable_at(0x7fff));
    assert!(!field.drawable_at(0x8000));
    field.set("a".repeat(0xffff - 1 - 10));
    assert!(field.drawable_at(10));
    assert!(!field.drawable_at(11));
    // As narrow as can be, each character has a row.
    let whole = ratatui::layout::Rect::new(0, 0, 4, 10);
    let mut buffer = ratatui::buffer::Buffer::empty(whole);
    field.render(0, 0, 1, 10, &mut buffer);
    field.render(0, 0, 2, 10, &mut buffer);
    assert_eq!(buffer[(0, 0)].symbol(), "a");
}

#[test]
fn the_styles_reach_the_drawn_field() {
    let red = Color { r: 200, g: 10, b: 20 };
    let mut field = InputBuffer::default();
    field.insert("ab");
    field.set_styles(TextStyle { fg: Some(red), ..TextStyle::default() }, TextStyle::default(), TextStyle::default());
    let whole = ratatui::layout::Rect::new(0, 0, 8, 2);
    let mut buffer = ratatui::buffer::Buffer::empty(whole);
    field.render(0, 0, 8, 2, &mut buffer);
    assert_eq!(buffer[(0, 0)].fg, ratatui::style::Color::Rgb(200, 10, 20));
}

#[test]
fn a_fresh_field_shows_its_caret_and_no_numbers() {
    let whole = ratatui::layout::Rect::new(0, 0, 8, 2);
    let mut buffer = ratatui::buffer::Buffer::empty(whole);
    let mut field = InputBuffer::default();
    field.insert("a");
    field.render(0, 0, 8, 2, &mut buffer);
    assert_eq!(buffer[(0, 0)].symbol(), "a");
    assert!(buffer[(1, 0)].modifier.contains(ratatui::style::Modifier::REVERSED));
    assert!(!buffer[(0, 0)].modifier.contains(ratatui::style::Modifier::REVERSED));
}

#[test]
fn each_style_reaches_its_own_part() {
    let shade = |n: u8| Color { r: n, g: n, b: n };
    let back = |n: u8| TextStyle { bg: Some(shade(n)), ..TextStyle::default() };
    let rgb = |n: u8| ratatui::style::Color::Rgb(n, n, n);
    let mut field = InputBuffer::default();
    field.set("abcd".to_string());
    field.set_styles(back(10), back(20), back(30));
    field.set_cursor(0, 0);
    field.feed_key(shifted(Key::Right));
    field.feed_key(shifted(Key::Right));
    let mut buffer = ratatui::buffer::Buffer::empty(ratatui::layout::Rect::new(0, 0, 8, 1));
    field.render(0, 0, 8, 1, &mut buffer);
    assert_eq!(buffer[(0, 0)].bg, rgb(30));
    assert_eq!(buffer[(2, 0)].bg, rgb(20));
    assert_eq!(buffer[(3, 0)].bg, rgb(10));
}

#[test]
fn copying_keeps_the_edits_and_a_line_break_is_one() {
    let mut field = InputBuffer::default();
    field.insert("ab");
    field.feed_key(shifted(Key::Home));
    assert_eq!(field.copy_selection().as_deref(), Some("ab"));
    assert!(field.undo());
    assert_eq!(field.text(), "");
    assert!(field.redo());
    assert_eq!(field.text(), "ab");

    let mut m = Model::default();
    on_key(&mut m, press(Key::Char('a')));
    on_key(&mut m, shifted(Key::Enter));
    assert_eq!(m.input.text(), "a\n");
    on_key(&mut m, chord('z'));
    assert_eq!(m.input.text(), "a");
    on_key(&mut m, chord('y'));
    assert_eq!(m.input.text(), "a\n");
    on_key(&mut m, chord('y'));
    assert_eq!(m.input.text(), "a\n");
    // A typed character takes the place of the selection, and undoing it does not bring that back.
    let mut m = Model::default();
    m.input.set("word".to_string());
    on_key(&mut m, shifted(Key::Home));
    on_key(&mut m, press(Key::Char('x')));
    assert_eq!(m.input.text(), "x");
    on_key(&mut m, chord('z'));
    assert_eq!(m.input.text(), "");
    on_key(&mut m, chord('z'));
    assert_eq!(m.input.text(), "word");
}

// ---- the wizard's fields ----

#[test]
fn a_paste_appends_to_the_field() {
    let mut wizard = at(WizardStep::Model);
    wizard.model = "abc".to_string();
    wizard.push_str("x\ny");
    assert_eq!(wizard.model, "abcxy");
    assert_eq!(wizard.draft.text(), "abcxy");
    wizard.push_str("");
    assert_eq!(wizard.model, "abcxy");
    // Also where the cursor stands elsewhere.
    wizard.feed_key(press(Key::Home));
    wizard.push_str("z");
    assert_eq!(wizard.model, "abcxyz");
}

#[test]
fn typing_and_erasing_comes_back_to_the_field() {
    for step in [WizardStep::Model, WizardStep::ApiKey, WizardStep::BaseUrl, WizardStep::ProviderId] {
        let mut wizard = at(step);
        wizard.push_str("ab");
        let before = wizard.draft.text();
        wizard.push_char('漢');
        assert_eq!(wizard.draft.text(), format!("{before}漢"));
        wizard.backspace();
        assert_eq!(wizard.draft.text(), before);
    }
    let mut wizard = at(WizardStep::ApiKey);
    wizard.api_key = "sk".to_string();
    wizard.backspace();
    assert_eq!(wizard.api_key, "s");
    wizard.backspace();
    wizard.backspace();
    assert_eq!(wizard.api_key, "");
}

#[test]
fn a_typed_and_erased_character_gives_the_wizard_back() {
    for step in [
        WizardStep::Kind,
        WizardStep::ProviderId,
        WizardStep::BaseUrl,
        WizardStep::Model,
        WizardStep::ExtraModels,
        WizardStep::Thinking,
        WizardStep::ApiKey,
    ] {
        let mut wizard = ProviderWizard::new();
        wizard.step = step;
        wizard.id = "abc".to_string();
        wizard.model = "m".to_string();
        let before = wizard.clone();
        wizard.backspace();
        wizard = before.clone();
        for c in ['x', '漢', '\n'] {
            wizard.push_char(c);
            assert_eq!(wizard == before, matches!(step, WizardStep::Kind | WizardStep::Thinking));
            wizard.backspace();
            assert!(wizard == before, "{step:?}");
        }
    }
    // There is nothing to erase in an empty field.
    let mut empty = at(WizardStep::BaseUrl);
    let before = empty.clone();
    empty.backspace();
    assert!(empty == before);
}

#[test]
fn a_cloned_field_goes_its_own_way() {
    let mut field = InputBuffer::default();
    field.insert("ab");
    let mut copy = field.clone();
    assert!(field.undo());
    assert_eq!((field.text().as_str(), copy.text().as_str()), ("", "ab"));
    assert!(copy.undo());
    assert_eq!(copy.text(), "");

    let picker = Picker::new(
        PickerKind::Models,
        "modelo".to_string(),
        "Escolha:".to_string(),
        vec!["one".to_string(), "two".to_string()],
        0,
    );
    let mut other = picker.clone();
    other.query.insert("t");
    assert_eq!(picker.query.text(), "");
    assert_eq!(other.options, picker.options);
}

#[test]
fn a_key_goes_to_the_field_as_it_stands() {
    let mut wizard = at(WizardStep::BaseUrl);
    wizard.base_url = "http://h".to_string();
    wizard.feed_key(press(Key::Char('o')));
    assert_eq!(wizard.base_url, "http://ho");
    assert_eq!(wizard.draft.text(), "http://ho");
}

#[test]
fn a_pasted_text_lands_in_the_open_wizard() {
    let mut m = Model::default();
    let mut wizard = at(WizardStep::ApiKey);
    wizard.api_key = "sk-".to_string();
    m.wizard = Some(wizard);
    update(&mut m, Msg::Paste("12\r\n34".to_string()));
    assert_eq!(m.wizard.as_ref().unwrap().api_key, "sk-1234");
    assert_eq!(m.input.text(), "");
}

#[test]
fn a_wiped_wizard_holds_no_key() {
    let mut wizard = at(WizardStep::ApiKey);
    wizard.push_str("sk-very-private");
    wizard.wipe_key();
    assert_eq!(wizard.api_key, "");
    assert_eq!(wizard.draft.text(), "");
    assert!(!wizard.draft.undo());
}

#[test]
fn no_kind_thinks_by_default() {
    for kind in [ProviderKind::Nvidia, ProviderKind::Anthropic, ProviderKind::OpenAiCompatible] {
        assert!(!kind.thinking_default());
    }
}

// ---- what fits ----

#[test]
fn a_context_of_wide_glyphs_fits_in_its_cells() {
    assert_eq!(display_width("…"), 1);
    let workspace = "/漢字漢字漢字漢字漢字漢字";
    for width in 0..60 {
        let fitted = fit_context(&format!("m · {workspace}"), workspace, width, 0, "AUTO");
        assert!(display_width(&fitted) <= width, "{width}: {fitted}");
        if !fitted.is_empty() {
            assert!(fitted.ends_with('字') || fitted == "…", "{width}: {fitted}");
        }
    }
}

#[test]
fn a_blurb_of_wide_glyphs_fits_in_its_cells() {
    assert_eq!(truncate_blurb("漢字漢字", 8), "漢字漢字");
    assert_eq!(truncate_blurb("漢字漢字", 7), "漢字漢…");
    assert_eq!(truncate_blurb("漢字漢字", 6), "漢字…");
    assert_eq!(truncate_blurb("漢字漢字", 1), "…");
    assert_eq!(truncate_blurb("漢字漢字", 0), "");
    assert_eq!(truncate_blurb("abcdef", 4), "abc…");
}

#[test]
fn the_sidebar_counts_bytes_and_cuts_no_character() {
    // Six bytes in four characters.
    assert_eq!(fit_text("ação", 6), "ação");
    assert_eq!(fit_text("ação", 5), "...o");
    assert_eq!(fit_text("xação", 6), "...ão");
}

#[test]
fn a_row_is_parted_where_it_is_told_to() {
    let row = Rect::new(4, 2, 40, 1);
    assert_eq!(part_row(row, 7), (Rect::new(4, 2, 7, 1), Rect::new(11, 2, 33, 1)));
    assert_eq!(query_columns(row), (Rect::new(4, 2, 11, 1), Rect::new(15, 2, 29, 1)));
    let (gutter, field) = field_columns(row);
    assert_eq!(gutter.x, 4);
    assert_eq!(gutter.x + gutter.width, field.x);
    assert_eq!(field.x + field.width, 44);
}

#[test]
fn the_wizard_stacks_its_rows() {
    let rows = text_rows(Rect::new(1, 3, 30, 12), 2);
    let tops: Vec<u16> = rows.iter().map(|r| r.y).collect();
    let heights: Vec<u16> = rows.iter().map(|r| r.height).collect();
    assert_eq!(tops[..4], [3, 4, 5, 6]);
    assert_eq!(heights[2..4], [1, 2]);
    assert_eq!((tops[5], heights[5]), (9, 1));
    let squeezed = text_rows(Rect::new(0, 0, 30, 3), 2);
    assert!(squeezed.iter().all(|r| r.y + r.height <= 3));
}

#[test]
fn the_modal_gives_the_list_what_is_left() {
    let rows = modal_rows(Rect::new(2, 1, 20, 9));
    assert_eq!(rows[0], Rect::new(2, 1, 20, 1));
    assert_eq!(rows[1], Rect::new(2, 2, 20, 1));
    assert_eq!(rows[2], Rect::new(2, 3, 20, 6));
    assert_eq!(rows[3], Rect::new(2, 9, 20, 1));
}

#[test]
fn the_regions_are_the_rows_but_the_gap() {
    let rows: Vec<Rect> = (0..7).map(|i| Rect::new(0, i, 9, 1)).collect();
    let r = regions_from(&rows);
    let tops = [r.header.y, r.transcript.y, r.meta.y, r.prompt_box.y, r.input.y, r.hint.y];
    assert_eq!(tops, [0, 1, 3, 4, 5, 6]);
}

#[test]
fn a_wide_frame_parts_at_the_sidebar() {
    let mut renderer = Renderer::new(Highlighter::new());
    let s = screen(&mut renderer, Rect::new(0, 0, 150, 40), &Model::default());
    // The first row stays free.
    assert_eq!(s.main, Rect::new(0, 1, 115, 39));
    assert_eq!(s.sidebar, Some(Rect::new(115, 1, 35, 39)));
}

// ---- markdown events ----

fn paragraph(events: Vec<(MdInline, MdContent)>) -> Vec<Block> {
    let mut marks = vec![MdMark::Start(MdTag::Paragraph)];
    let mut inlines = vec![MdInline::Structure];
    let mut contents = vec![MdContent::Nothing];
    for (inline, content) in events {
        marks.push(MdMark::Inline);
        inlines.push(inline);
        contents.push(content);
    }
    marks.push(MdMark::End(MdTag::Paragraph));
    inlines.push(MdInline::Structure);
    contents.push(MdContent::Nothing);
    collect_blocks(TextStyle::default(), &marks, &inlines, &contents)
}

fn words(blocks: &[Block]) -> Vec<Vec<String>> {
    match blocks {
        [Block::Text { lines }] => {
            lines.iter().map(|l| l.spans.iter().map(|s| s.content.clone()).collect()).collect()
        }
        other => panic!("expected one text block, got {other:?}"),
    }
}

#[test]
fn every_inline_event_is_decided() {
    let text = || MdContent::Text("x".to_string());
    for kind in [
        MdInline::Text,
        MdInline::Html,
        MdInline::InlineHtml,
        MdInline::InlineMath,
        MdInline::DisplayMath,
        MdInline::FootnoteReference,
    ] {
        let blocks = paragraph(vec![(kind, text())]);
        assert_eq!(words(&blocks), vec![vec!["x".to_string()]], "{kind:?}");
    }
    for kind in [MdInline::SoftBreak, MdInline::HardBreak] {
        let blocks = paragraph(vec![
            (MdInline::Text, text()),
            (kind, MdContent::Nothing),
            (MdInline::Text, text()),
        ]);
        assert_eq!(words(&blocks), vec![vec!["x".to_string()], vec!["x".to_string()]], "{kind:?}");
    }
    for kind in [MdInline::Rule, MdInline::TaskListMarker] {
        let blocks = paragraph(vec![(MdInline::Text, text()), (kind, MdContent::Nothing)]);
        assert_eq!(words(&blocks), vec![vec!["x".to_string()]], "{kind:?}");
    }
    match paragraph(vec![(MdInline::Code, text())]).as_slice() {
        [Block::Text { lines }] => {
            assert_eq!(lines[0].spans[0].content, "x");
            assert_eq!(lines[0].spans[0].style.bg, Some(Ink::CodeBg.color()));
        }
        other => panic!("expected one text block, got {other:?}"),
    }
}

#[test]
fn html_breaks_and_task_markers_come_through_the_parser() {
    let mut renderer = Renderer::new(Highlighter::new());
    let rows = renderer.render("a <b>x</b>\nsoft\\\nhard\n\n- [x] done", TextStyle::default(), 60);
    let lines: Vec<String> = rows.iter().map(spelled).collect();
    // Each piece of text is a run of its own, and runs stand a blank apart.
    assert_eq!(lines[0], "a  <b> x </b>", "{lines:?}");
    assert_eq!(lines[1].trim_end(), "soft");
    assert_eq!(lines[2].trim_end(), "hard");
    assert!(lines.last().unwrap().contains("done"));
    assert!(!lines.last().unwrap().contains("[x]"));
}

// ---- the rest of the loop ----

#[test]
fn a_menu_row_tells_its_catalog() {
    let custom = vec![CustomCommandEntry { name: "/helper".to_string(), blurb: "b".to_string() }];
    let menu = CommandMenu::open("/help", &custom);
    assert!(matches!(menu.row(0), Some(MenuEntry::Static(_))));
    assert!(matches!(menu.row(1), Some(MenuEntry::Custom(_))));
    assert!(menu.row(2).is_none());
}

#[test]
fn an_image_of_the_wrong_size_is_unreadable() {
    for (width, height, bytes) in [
        (2, 2, 15),
        (2, 2, 17),
        (0, 2, 0),
        (u32::MAX as usize, u32::MAX as usize, 4),
        (u32::MAX as usize + 1, 1, 4),
        (usize::MAX, usize::MAX, 4),
    ] {
        let image = ClipboardImage { width, height, bytes: vec![0; bytes] };
        assert_eq!(classify_image(&image), ClipboardContent::Unreadable, "{width}x{height}, {bytes}");
    }
}

#[test]
fn only_a_built_provider_stores_its_key() {
    let key = Credential::ApiKey(Secret::new("sk".to_string()));
    assert_eq!(store_action(false, &key), StoreAction::Leave);
    assert_eq!(store_action(false, &Credential::Keyless), StoreAction::Leave);
    assert_eq!(store_action(true, &key), StoreAction::Store);
    assert_eq!(store_action(true, &Credential::Keyless), StoreAction::Forget);
}

fn broke() -> TurnError {
    TurnError { message: "boom".to_string(), rejected: false }
}

#[test]
fn a_failed_turn_wears_its_badge_until_the_next() {
    let mut conversation = Conversation::new("s".to_string());
    conversation.push(Message::user("go".to_string()));
    let mut m = Model::default();
    on_turn_end(Err(broke()), false, &mut m, &conversation);
    assert!(m.status.turn_failed);
    assert!(spelled(&meta_line(&m, 120)).contains("✗ erro"));
    update(&mut m, Msg::TurnBegan);
    assert!(!m.status.turn_failed);
    // One that the user cancelled did not fail.
    on_turn_end(Err(broke()), true, &mut m, &conversation);
    assert!(!m.status.turn_failed);
    conversation.push(Message::assistant_text("  ".to_string()));
    on_turn_end(Ok(TurnOutcome::Completed), false, &mut m, &conversation);
    assert!(m.status.turn_failed, "nothing came back");
}

#[test]
fn a_cancelled_token_refuses_what_streams() {
    let mut token = CancelToken::new();
    let event = || StreamEvent::Content("x".to_string());
    assert_eq!(on_event(&token, event()), Some(EngineMsg::Content("x".to_string())));
    token.cancel();
    assert_eq!(on_event(&token, event()), None);
    token.reset();
    assert!(!token.is_cancelled());
    assert!(on_event(&token, event()).is_some());
}
