//! Markdown, from text to styled rows.
use kiri_tui::infrastructure::render::line::{Line, Span};
use kiri_tui::infrastructure::render::markdown::cache::Renderer;
use kiri_tui::infrastructure::render::markdown::render::{highlight_code_block, Highlighter, MAX_HIGHLIGHT_BYTES};
use kiri_tui::infrastructure::render::theme::Ink;
use kiri_tui::style::TextStyle;

fn renderer() -> Renderer {
    Renderer::new(Highlighter::new())
}

fn render(renderer: &mut Renderer, markdown: &str, base: TextStyle, width: usize) -> Vec<Line> {
    renderer.render(markdown, base, width)
}

/// Bold and nothing else.
fn is_bold(span: &Span) -> bool {
    let s = span.style;
    s.bold && !s.italic && !s.crossed_out && !s.reversed
}

/// Italic and nothing else.
fn is_italic(span: &Span) -> bool {
    let s = span.style;
    s.italic && !s.bold && !s.crossed_out && !s.reversed
}

#[test]
fn markdown_renders_bold_and_italic_as_styled_spans() {
    let mut renderer = renderer();
    let lines = render(&mut renderer, "**bold** and *italic*", TextStyle::default(), 40);
    assert_eq!(lines.len(), 1);
    let spans = &lines[0].spans;
    assert!(
        spans
            .iter()
            .any(|s| s.content == "bold" && is_bold(s))
    );
    assert!(
        spans
            .iter()
            .any(|s| s.content == "italic" && is_italic(s))
    );
}

#[test]
fn markdown_honors_base_style_for_paragraph_text() {
    let mut renderer = renderer();
    // Paragraph text must inherit the caller's base style (this is how reasoning stays dim and the
    // approval action stays bold) — not a hardcoded color.
    let base = TextStyle::default().fg(Ink::Highlight.color());
    let lines = render(&mut renderer, "plain words here", base, 40);
    assert!(
        lines[0]
            .spans
            .iter()
            .any(|s| s.content == "plain" && s.style.fg == Some(Ink::Highlight.color())),
        "paragraph text should inherit the base fg: {:?}",
        lines[0].spans
    );
}

#[test]
fn markdown_renders_inline_code_with_code_style() {
    let mut renderer = renderer();
    let lines = render(&mut renderer, "use `cat` now", TextStyle::default(), 40);
    assert_eq!(lines.len(), 1);
    assert!(
        lines[0]
            .spans
            .iter()
            .any(|s| s.content == "cat" && s.style.fg == Some(Ink::CodeFg.color()))
    );
}

#[test]
fn markdown_wraps_long_lines_preserving_styles() {
    let mut renderer = renderer();
    let md = "this is **a very long bold** line that must wrap to fit a narrow width";
    let lines = render(&mut renderer, md, TextStyle::default(), 10);
    assert!(lines.len() > 1);
    // The bold run survives wrapping onto a wrapped line.
    assert!(lines.iter().any(|l| {
        l.spans
            .iter()
            .any(|s| s.content == "bold" && is_bold(s))
    }));
}

#[test]
fn markdown_heading_is_bold_and_colored() {
    let mut renderer = renderer();
    let lines = render(&mut renderer, "# Title", TextStyle::default(), 40);
    assert_eq!(lines.len(), 1);
    let span = &lines[0].spans[0];
    assert_eq!(span.content, "Title");
    assert_eq!(span.style.fg, Some(Ink::Heading.color()));
    assert!(is_bold(span));
}

#[test]
fn markdown_unordered_list_items_get_dash_prefix() {
    let mut renderer = renderer();
    let lines = render(&mut renderer, "- one\n- two\n", TextStyle::default(), 40);
    assert!(lines.iter().any(|l| {
        l.spans
            .first()
            .is_some_and(|s| s.content == "- " || s.content == "-")
    }));
}

#[test]
fn markdown_fenced_code_block_is_kept_verbatim_with_code_style() {
    let mut renderer = renderer();
    let md = "```\nlet x = 1;\n```\n";
    let lines = render(&mut renderer, md, TextStyle::default(), 40);
    assert!(
        lines
            .iter()
            .any(|l| l.spans.iter().any(|s| s.style.fg == Some(Ink::CodeFg.color()))),
        "no code-styled line: {lines:?}"
    );
}

#[test]
fn markdown_fenced_code_block_fills_the_width_with_background() {
    let mut renderer = renderer();
    let lines = render(&mut renderer, "```\nx\n```\n", TextStyle::default(), 12);
    let code = lines
        .iter()
        .find(|l| l.spans.iter().any(|s| s.style.fg == Some(Ink::CodeFg.color())))
        .expect("a code line");
    let len: usize = code.spans.iter().map(|s| s.content.chars().count()).sum();
    assert_eq!(len, 12, "code row should be padded to the full width");
}

#[test]
fn a_tagged_fence_gets_real_per_token_syntax_highlighting() {
    let mut renderer = renderer();
    // A keyword and a string literal must render in genuinely different colors, syntect's
    // real tokenization — not the flat single-color style an untagged/unrecognized fence still gets
    // (proven separately by the two tests above).
    let md = "```rust\nlet s = \"hi\";\n```\n";
    let lines = render(&mut renderer, md, TextStyle::default(), 40);
    let colors: std::collections::HashSet<_> = lines
        .iter()
        .flat_map(|l| l.spans.iter())
        .filter_map(|s| s.style.fg)
        .collect();
    assert!(
        colors.len() > 1,
        "a tagged code block must show more than one distinct token color: {colors:?}"
    );
    // Every span still keeps the app's own code background, not syntect's bundled theme background.
    assert!(
        lines
            .iter()
            .flat_map(|l| l.spans.iter())
            .all(|s| s.style.bg == Some(Ink::CodeBg.color()) || s.content.trim().is_empty()),
        "every code span must stay on this app's own CODE_BG"
    );
}

#[test]
fn an_unrecognized_language_tag_keeps_the_flat_code_style() {
    let mut renderer = renderer();
    // No regression for a fence whose language syntect doesn't recognize: same flat CODE_FG/CODE_BG
    // as an untagged fence, not a broken/empty render.
    let md = "```not-a-real-language\nx\n```\n";
    let lines = render(&mut renderer, md, TextStyle::default(), 40);
    assert!(
        lines
            .iter()
            .any(|l| l.spans.iter().any(|s| s.style.fg == Some(Ink::CodeFg.color()))),
        "an unrecognized language tag must keep the flat code style: {lines:?}"
    );
}

#[test]
fn markdown_empty_input_yields_one_blank_line() {
    let mut renderer = renderer();
    let lines = render(&mut renderer, "", TextStyle::default(), 40);
    assert_eq!(lines.len(), 1);
}

#[test]
fn markdown_render_is_memoized_and_stays_consistent() {
    let mut renderer = renderer();
    let md = "**bold** and `code` and a list:\n- one\n- two";
    let first = render(&mut renderer, md, TextStyle::default(), 40);
    let cached = render(&mut renderer, md, TextStyle::default(), 40);
    assert_eq!(first, cached, "a cache hit must match a fresh render");
    // The width is part of the key: a narrower width wraps to more rows.
    let narrow = render(&mut renderer, "a b c d e f g h i j", TextStyle::default(), 5);
    let wide = render(&mut renderer, "a b c d e f g h i j", TextStyle::default(), 40);
    assert_ne!(narrow.len(), wide.len());
}

#[test]
fn markdown_blank_line_count_matches_raw_wrap_for_scroll_stability() {
    let mut renderer = renderer();
    // Same visible text, with vs without bold: the wrapped row count must be identical.
    let raw = "the quick brown fox jumps over the lazy dog repeatedly";
    let bold = "**the quick brown fox jumps over the lazy dog repeatedly**";
    let a = render(&mut renderer, raw, TextStyle::default(), 12);
    let b = render(&mut renderer, bold, TextStyle::default(), 12);
    assert_eq!(a.len(), b.len());
}

#[test]
fn bundled_syntax_coverage_matches_the_known_gap() {
    let highlighter = Highlighter::new();
    // Locks the exact language-token coverage of the bundled definitions, so a
    // future syntect upgrade that silently changes this set is caught here instead of just quietly
    // degrading more (or fewer) language tags to the flat fallback.
    for recognized in [
        "rust",
        "rs",
        "python",
        "py",
        "go",
        "javascript",
        "js",
        "json",
    ] {
        assert!(
            highlighter.recognizes(recognized),
            "{recognized} was expected to be recognized by the bundled syntax set"
        );
    }
    for unrecognized in ["typescript", "ts", "toml"] {
        assert!(
            !highlighter.recognizes(unrecognized),
            "{unrecognized} was expected to be the known, documented gap — if this now fails, \
             syntect gained coverage: update the doc comment on highlight_code_block instead of \
             just this test"
        );
    }
}

#[test]
fn a_block_over_the_size_cap_skips_syntect_even_with_a_recognized_language() {
    let highlighter = Highlighter::new();
    // An oversized block (however it got that large — a verbose model
    // reply, or an uncapped upstream source) must never reach syntect's regex-driven grammar matching
    // on the render thread; it degrades to the flat style instead, same as an unrecognized language.
    let huge_line = "x".repeat(MAX_HIGHLIGHT_BYTES + 1);
    let lines = vec![huge_line];
    let spans = highlight_code_block(&highlighter, &lines, &Some("rust".to_string()));
    assert_eq!(spans.len(), 1);
    assert_eq!(
        spans[0].len(),
        1,
        "flat fallback is exactly one span per line"
    );
    assert_eq!(
        spans[0][0].style.fg,
        Some(Ink::CodeFg.color()),
        "an oversized block must fall back to the flat code style, never syntect"
    );
}

#[test]
fn a_recognized_language_under_the_cap_still_gets_real_highlighting() {
    let highlighter = Highlighter::new();
    // Companion to the size-cap test above: confirms the cap doesn't accidentally disable
    // highlighting for ordinary, well-under-the-limit code.
    let lines = vec!["let s = \"hi\";".to_string()];
    let spans = highlight_code_block(&highlighter, &lines, &Some("rust".to_string()));
    let colors: std::collections::HashSet<_> =
        spans.iter().flatten().filter_map(|s| s.style.fg).collect();
    assert!(
        colors.len() > 1,
        "a small, recognized-language block must still get real per-token highlighting"
    );
}
