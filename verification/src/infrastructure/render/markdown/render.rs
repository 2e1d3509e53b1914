//! From blocks to wrapped, styled rows.
//!
//! Styling is already baked into each span by the parse layer, so this layer only handles layout: word-wrapping,
//! code framing, and quote/list prefixes.
use vstd::prelude::*;
use vstd::string::*;
use syntect::easy::HighlightLines;
use syntect::highlighting::{Theme, ThemeSet};
use syntect::parsing::{SyntaxReference, SyntaxSet};
use crate::infrastructure::render::cells::{cells, chunk_by_width, chunks, display_width, glued};
use crate::infrastructure::render::line::{
    append_lines, clone_spans, line_views, push_line, push_span, row_text, span_views, styled_row, styled_run, Line,
    Span, SpanView,
};
use crate::infrastructure::render::markdown::laws::{flat_shows_the_text, highlighting_keeps_the_text};
use crate::infrastructure::render::markdown::parse::{
    block_view, block_views, block_views_index, Block, BlockView,
};
use crate::infrastructure::render::theme::{ink, inked, Ink};
use crate::style::{Color, TextStyle};
use crate::text::{cat2, cat3, repeat_char, repeated, strip_tail, trim_end_char, views};

verus! {

/// The syntax definitions of `syntect`.
#[verifier::external_type_specification]
#[verifier::external_body]
pub struct ExSyntaxSet(syntect::parsing::SyntaxSet);

/// A syntax definition of `syntect`.
#[verifier::external_type_specification]
#[verifier::external_body]
pub struct ExSyntaxReference(syntect::parsing::SyntaxReference);

/// A highlighter of `syntect` in the middle of a text.
#[verifier::external_type_specification]
#[verifier::external_body]
pub struct ExHighlightLines<'a>(syntect::easy::HighlightLines<'a>);

/// A highlighting theme of `syntect`.
#[verifier::external_type_specification]
#[verifier::external_body]
pub struct ExTheme(syntect::highlighting::Theme);

/// Above this many bytes, a code block skips highlighting entirely and keeps the flat code style: grammar matching
/// runs synchronously with no cancellation, and an unbounded block could otherwise stall the whole front-end.
pub const MAX_HIGHLIGHT_BYTES: usize = 65536;

/// A highlighted piece of a line: its foreground colour and its text.
pub type Piece = (Color, String);

/// The contents of the pieces of a line.
pub open spec fn piece_views(v: Seq<Piece>) -> Seq<(Color, Seq<char>)> {
    Seq::new(v.len(), |i: int| (v[i].0, v[i].1@))
}

/// The contents of the pieces of a line; nothing where it failed to highlight.
pub open spec fn opt_pieces(v: Option<Vec<Piece>>) -> Option<Seq<(Color, Seq<char>)>> {
    match v {
        Some(p) => Some(piece_views(p@)),
        None => None,
    }
}

/// The contents of the pieces of each line; nothing for a line that failed to highlight.
pub open spec fn token_views(v: Seq<Option<Vec<Piece>>>) -> Seq<Option<Seq<(Color, Seq<char>)>>> {
    Seq::new(v.len(), |i: int| opt_pieces(v[i]))
}

/// The contents of the pieces of each line, where the block highlights.
pub open spec fn opt_tokens(v: Option<Vec<Option<Vec<Piece>>>>) -> Option<Seq<Option<Seq<(Color, Seq<char>)>>>> {
    match v {
        Some(t) => Some(token_views(t@)),
        None => None,
    }
}

/// The texts of the pieces of a line.
pub open spec fn piece_texts(v: Seq<(Color, Seq<char>)>) -> Seq<Seq<char>> {
    Seq::new(v.len(), |i: int| v[i].1)
}

/// The syntax that a set of definitions knows by a token.
pub uninterp spec fn syntax_by_token(set: SyntaxSet, token: Seq<char>) -> Option<SyntaxReference>;

/// What a highlighter was made of, a syntax and a theme, and the lines that it was fed since.
pub uninterp spec fn lines_fed(h: HighlightLines<'_>) -> (SyntaxReference, Theme, Seq<Seq<char>>);

/// The highlighted pieces of the last of the lines that a highlighter was fed; nothing where it failed on that line.
pub uninterp spec fn highlighted(
    set: SyntaxSet,
    syntax: SyntaxReference,
    theme: Theme,
    fed: Seq<Seq<char>>,
) -> Option<Seq<(Color, Seq<char>)>>;

/// The syntax is one of the set.
pub open spec fn of_set(set: SyntaxSet, syntax: SyntaxReference) -> bool {
    exists|token: Seq<char>| #[trigger] syntax_by_token(set, token) == Some(syntax)
}

/// The bundled theme of a name, where there is one.
pub uninterp spec fn bundled_theme(name: Seq<char>) -> Option<Theme>;

/// A language is known by a token to the syntax definitions.
pub open spec fn token_known(set: SyntaxSet, token: Seq<char>) -> bool {
    syntax_by_token(set, token) is Some
}

/// The languages that the bundled syntax definitions are relied upon to know, and those that they are known to lack.
pub open spec fn documented_coverage(set: SyntaxSet) -> bool {
    &&& token_known(set, "rust"@)
    &&& token_known(set, "rs"@)
    &&& token_known(set, "python"@)
    &&& token_known(set, "py"@)
    &&& token_known(set, "go"@)
    &&& token_known(set, "javascript"@)
    &&& token_known(set, "js"@)
    &&& token_known(set, "json"@)
    &&& !token_known(set, "typescript"@)
    &&& !token_known(set, "ts"@)
    &&& !token_known(set, "toml"@)
}

/// `SyntaxSet::load_defaults_newlines`: the bundled syntax definitions. They know Rust, Python, Go, JavaScript and
/// JSON by name and by extension, and know neither TypeScript nor TOML. What else they know is left unsaid.
#[verifier::external_body]
fn load_syntaxes() -> (r: SyntaxSet)
    ensures
        documented_coverage(r),
{
    SyntaxSet::load_defaults_newlines()
}

/// `ThemeSet::load_defaults`: the bundled theme of the given name, where there is one, as there is for the dark
/// ocean. What it looks like is not spelled out: it is named.
#[verifier::external_body]
fn load_theme(name: &str) -> (r: Option<Theme>)
    ensures
        r == bundled_theme(name@),
        name@ == "base16-ocean.dark"@ ==> r is Some,
{
    ThemeSet::load_defaults().themes.remove(name)
}

/// `Theme::default`: a theme without any rule.
#[verifier::external_body]
fn unstyled_theme() -> Theme {
    Theme::default()
}

/// `SyntaxSet::find_syntax_by_token`: the syntax that is known by a token. Which one that is is not spelled out: it is
/// named.
#[verifier::external_body]
fn find_syntax<'a>(set: &'a SyntaxSet, token: &str) -> (r: Option<&'a SyntaxReference>)
    ensures
        match r {
            Some(syntax) => syntax_by_token(*set, token@) == Some(*syntax),
            None => syntax_by_token(*set, token@) is None,
        },
{
    set.find_syntax_by_token(token)
}

/// `HighlightLines::new`: a highlighter at the start of a text.
#[verifier::external_body]
fn start_lines<'a>(syntax: &SyntaxReference, theme: &'a Theme) -> (r: HighlightLines<'a>)
    ensures
        lines_fed(r) == (*syntax, *theme, Seq::<Seq<char>>::empty()),
{
    HighlightLines::new(syntax, theme)
}

/// `HighlightLines::highlight_line`: feeds one more line, whose pieces spell it; or fails on it, and goes on behind it.
/// The set has to be the one that the syntax is from. Which colours the pieces get is not spelled out: the result is
/// named, and depends on every line fed so far.
#[verifier::external_body]
fn feed_line(h: &mut HighlightLines<'_>, line: &str, set: &SyntaxSet) -> (r: Option<Vec<Piece>>)
    requires
        of_set(*set, lines_fed(*old(h)).0),
    ensures
        lines_fed(*final(h)) == (lines_fed(*old(h)).0, lines_fed(*old(h)).1, lines_fed(*old(h)).2.push(line@)),
        opt_pieces(r) == highlighted(
            *set,
            lines_fed(*old(h)).0,
            lines_fed(*old(h)).1,
            lines_fed(*old(h)).2.push(line@),
        ),
        r matches Some(p) ==> glued(piece_texts(piece_views(p@))) == line@,
{
    let piece = |(style, text): (syntect::highlighting::Style, &str)| {
        let fg = style.foreground;
        (Color { r: fg.r, g: fg.g, b: fg.b }, text.to_string())
    };
    Some(h.highlight_line(line, set).ok()?.into_iter().map(piece).collect())
}

/// The syntax definitions and the theme that code blocks are highlighted with.
pub struct Highlighter {
    pub set: SyntaxSet,
    pub theme: Theme,
}

impl Highlighter {
    /// The bundled syntax definitions and dark theme; an unstyled one where that is missing.
    pub fn new() -> (r: Highlighter)
        ensures
            bundled_theme("base16-ocean.dark"@) == Some(r.theme),
            documented_coverage(r.set),
    {
        let theme: Theme = match load_theme("base16-ocean.dark") {
            Some(theme) => theme,
            None => unstyled_theme(),
        };
        Highlighter { set: load_syntaxes(), theme }
    }

    /// Whether the bundled syntax definitions know a language token.
    pub fn recognizes(&self, token: &str) -> (r: bool)
        ensures
            r == token_known(self.set, token@),
    {
        find_syntax(&self.set, token).is_some()
    }
}

/// The style of a flat code line.
pub open spec fn code_style() -> TextStyle {
    inked(Ink::CodeFg).with_bg(Ink::CodeBg.rgb())
}

/// The bytes that the lines of a code block take in UTF-8.
pub open spec fn byte_total(lines: Seq<Seq<char>>) -> int
    decreases lines.len(),
{
    if lines.len() == 0 {
        0
    } else {
        byte_total(lines.drop_last()) + vstd::utf8::encode_utf8(lines.last()).len()
    }
}

/// A flat code line: indented by a blank, in the code style.
pub open spec fn flat_line(line: Seq<char>) -> Seq<SpanView> {
    styled_row(" "@ + line, code_style())
}

/// The runs of a highlighted line. Only the foreground is the highlighter's: the background stays the code
/// background, so every code block reads as part of the palette.
pub open spec fn piece_runs(pieces: Seq<(Color, Seq<char>)>) -> Seq<SpanView> {
    Seq::new(
        pieces.len(),
        |i: int|
            styled_run(
                strip_tail(pieces[i].1, '\n'),
                TextStyle::plain().with_fg(pieces[i].0).with_bg(Ink::CodeBg.rgb()),
            ),
    )
}

/// The rows of a code block whose lines highlight to `tokens`; a line that failed, and every line of a block that
/// does not highlight at all, is flat.
pub open spec fn code_lines(
    lines: Seq<Seq<char>>,
    tokens: Option<Seq<Option<Seq<(Color, Seq<char>)>>>>,
) -> Seq<Seq<SpanView>> {
    Seq::new(
        lines.len(),
        |i: int|
            match tokens {
                Some(t) => match t[i] {
                    Some(pieces) => piece_runs(pieces),
                    None => flat_line(lines[i]),
                },
                None => flat_line(lines[i]),
            },
    )
}

/// The lines as the highlighter reads them: indented by a blank and ended by a line break.
pub open spec fn fed_lines(lines: Seq<Seq<char>>) -> Seq<Seq<char>> {
    Seq::new(lines.len(), |i: int| " "@ + lines[i] + "\n"@)
}

/// How the lines of a code block highlight under a syntax. One highlighter reads them all, so that a construct over
/// several lines keeps its colours: the pieces of a line depend on every line before it.
pub open spec fn line_tokens(h: Highlighter, syntax: SyntaxReference, lines: Seq<Seq<char>>) -> Seq<
    Option<Seq<(Color, Seq<char>)>>,
> {
    Seq::new(lines.len(), |i: int| highlighted(h.set, syntax, h.theme, fed_lines(lines).take(i + 1)))
}

/// The pieces of each line that highlighted spell it.
pub open spec fn spelled(tokens: Seq<Option<Seq<(Color, Seq<char>)>>>, lines: Seq<Seq<char>>) -> bool {
    forall|i: int|
        0 <= i < tokens.len() ==> (#[trigger] tokens[i] matches Some(p) ==> glued(piece_texts(p)) == lines[i])
}

/// How a code block highlights: not at all without a language, in an unknown one, or above the size limit.
pub open spec fn block_tokens(
    h: Highlighter,
    lines: Seq<Seq<char>>,
    lang: Option<Seq<char>>,
) -> Option<Seq<Option<Seq<(Color, Seq<char>)>>>> {
    match lang {
        Some(l) => match syntax_by_token(h.set, l) {
            Some(syntax) if byte_total(lines) <= MAX_HIGHLIGHT_BYTES => Some(line_tokens(h, syntax, lines)),
            _ => None,
        },
        None => None,
    }
}

fn within_limit(lines: &Vec<String>) -> (r: bool)
    ensures
        r == (byte_total(views(lines@)) <= MAX_HIGHLIGHT_BYTES),
{
    let ghost v = views(lines@);
    let mut total: usize = 0;
    let mut i: usize = 0;
    assert(v.take(0) =~= Seq::<Seq<char>>::empty());
    while i < lines.len()
        invariant
            i <= lines@.len(),
            v == views(lines@),
            total <= MAX_HIGHLIGHT_BYTES,
            total == byte_total(v.take(i as int)),
        decreases lines@.len() - i,
    {
        let ghost next = v.take(i as int + 1);
        assert(next.drop_last() =~= v.take(i as int));
        assert(next.last() == lines@[i as int]@);
        let n: usize = lines[i].as_str().as_bytes().len();
        if n > MAX_HIGHLIGHT_BYTES - total {
            proof {
                more_bytes(v, i as int + 1);
            }
            return false;
        }
        total = total + n;
        i = i + 1;
    }
    assert(v.take(v.len() as int) =~= v);
    true
}

proof fn more_bytes(lines: Seq<Seq<char>>, n: int)
    requires
        0 <= n <= lines.len(),
    ensures
        byte_total(lines.take(n)) <= byte_total(lines),
    decreases lines.len(),
{
    if n == lines.len() {
        assert(lines.take(n) =~= lines);
    } else {
        more_bytes(lines.drop_last(), n);
        assert(lines.drop_last().take(n) =~= lines.take(n));
    }
}

fn flat(line: &str) -> (r: Vec<Span>)
    ensures
        span_views(r@) == flat_line(line@),
{
    let mut spans: Vec<Span> = Vec::new();
    spans.push(Span::styled(cat2(" ", line), ink(Ink::CodeFg).bg(Ink::CodeBg.color())));
    assert(span_views(spans@) =~= flat_line(line@));
    spans
}

fn runs_of(pieces: &Vec<Piece>) -> (r: Vec<Span>)
    ensures
        span_views(r@) == piece_runs(piece_views(pieces@)),
{
    let mut spans: Vec<Span> = Vec::new();
    let mut i: usize = 0;
    while i < pieces.len()
        invariant
            i <= pieces@.len(),
            spans@.len() == i,
            forall|k: int|
                0 <= k < i ==> (#[trigger] spans@[k])@ == piece_runs(piece_views(pieces@))[k],
        decreases pieces@.len() - i,
    {
        let style: TextStyle = TextStyle::new().fg(pieces[i].0).bg(Ink::CodeBg.color());
        spans.push(Span::styled(trim_end_char(pieces[i].1.as_str(), '\n'), style));
        i = i + 1;
    }
    assert(span_views(spans@) =~= piece_runs(piece_views(pieces@)));
    spans
}

/// The contents of rows given as lists of runs.
pub open spec fn rows_view(v: Seq<Vec<Span>>) -> Seq<Seq<SpanView>> {
    Seq::new(v.len(), |i: int| span_views(v[i]@))
}

/// The rows of a code block, given how it highlights.
pub fn code_rows(lines: &Vec<String>, tokens: &Option<Vec<Option<Vec<Piece>>>>) -> (r: Vec<Vec<Span>>)
    requires
        tokens matches Some(t) ==> t@.len() == lines@.len(),
    ensures
        rows_view(r@) == code_lines(
            views(lines@),
            opt_tokens(*tokens),
        ),
{
    let ghost want = code_lines(
        views(lines@),
        opt_tokens(*tokens),
    );
    let mut out: Vec<Vec<Span>> = Vec::new();
    let mut i: usize = 0;
    while i < lines.len()
        invariant
            i <= lines@.len(),
            tokens matches Some(t) ==> t@.len() == lines@.len(),
            want == code_lines(
                views(lines@),
                opt_tokens(*tokens),
            ),
            out@.len() == i,
            forall|k: int| 0 <= k < i ==> span_views((#[trigger] out@[k])@) == want[k],
        decreases lines@.len() - i,
    {
        let row: Vec<Span> = match tokens {
            Some(t) => match &t[i] {
                Some(pieces) => runs_of(pieces),
                None => flat(lines[i].as_str()),
            },
            None => flat(lines[i].as_str()),
        };
        assert(span_views(row@) == want[i as int]);
        out.push(row);
        i = i + 1;
    }
    assert(rows_view(out@) =~= want);
    out
}

/// Highlight the lines of a code block with one highlighter; a line on which it fails does not stop it.
fn highlight_lines(h: &Highlighter, syntax: &SyntaxReference, lines: &Vec<String>) -> (r: Vec<Option<Vec<Piece>>>)
    requires
        of_set(h.set, *syntax),
    ensures
        token_views(r@) == line_tokens(*h, *syntax, views(lines@)),
        spelled(token_views(r@), fed_lines(views(lines@))),
{
    let ghost all = fed_lines(views(lines@));
    let mut highlighter: HighlightLines<'_> = start_lines(syntax, &h.theme);
    let mut out: Vec<Option<Vec<Piece>>> = Vec::new();
    let mut i: usize = 0;
    assert(all.take(0) =~= Seq::<Seq<char>>::empty());
    while i < lines.len()
        invariant
            i <= lines@.len(),
            of_set(h.set, *syntax),
            all == fed_lines(views(lines@)),
            lines_fed(highlighter) == (*syntax, h.theme, all.take(i as int)),
            out@.len() == i,
            forall|k: int|
                0 <= k < i ==> opt_pieces(#[trigger] out@[k]) == highlighted(
                    h.set,
                    *syntax,
                    h.theme,
                    all.take(k + 1),
                ),
            forall|k: int|
                0 <= k < i ==> (opt_pieces(#[trigger] out@[k]) matches Some(p) ==> glued(piece_texts(p))
                    == all[k]),
        decreases lines@.len() - i,
    {
        let fed: String = cat3(" ", lines[i].as_str(), "\n");
        assert(all.take(i as int).push(fed@) =~= all.take(i + 1));
        out.push(feed_line(&mut highlighter, fed.as_str(), &h.set));
        i = i + 1;
    }
    assert(token_views(out@) =~= line_tokens(*h, *syntax, views(lines@)));
    out
}

/// Highlight every line of one code block. An unrecognized or missing language, or a block above the size limit,
/// keeps the flat style; so does a line on which the highlighter fails, so that no text is ever dropped.
pub fn highlight_code_block(h: &Highlighter, lines: &Vec<String>, lang: &Option<String>) -> (r: Vec<Vec<Span>>)
    ensures
        rows_view(r@) == code_lines(
            views(lines@),
            block_tokens(
                *h,
                views(lines@),
                match *lang {
                    Some(l) => Some(l@),
                    None => None,
                },
            ),
        ),
        forall|i: int|
            0 <= i < lines@.len() && !lines@[i]@.contains('\n') ==> #[trigger] row_text(rows_view(r@)[i]) == " "@
                + lines@[i]@,
{
    let mut tokens: Option<Vec<Option<Vec<Piece>>>> = None;
    if let Some(l) = lang {
        if within_limit(lines) {
            if let Some(syntax) = find_syntax(&h.set, l.as_str()) {
                let pieces: Vec<Option<Vec<Piece>>> = highlight_lines(h, syntax, lines);
                assert(token_views(pieces@).len() == lines@.len());
                tokens = Some(pieces);
            }
        }
    }
    let rows: Vec<Vec<Span>> = code_rows(lines, &tokens);
    proof {
        let v = views(lines@);
        let shown = rows_view(rows@);
        assert forall|i: int| 0 <= i < v.len() && !lines@[i]@.contains('\n') implies #[trigger] row_text(shown[i])
            == " "@ + lines@[i]@ by {
            let fed = fed_lines(v)[i];
            assert(fed_lines(seq![v[i]])[0] == fed);
            match opt_tokens(tokens) {
                Some(t) => match t[i] {
                    Some(p) => highlighting_keeps_the_text(v[i], p),
                    None => flat_shows_the_text(v[i]),
                },
                None => flat_shows_the_text(v[i]),
            }
        }
    }
    rows
}

/// The state of a wrap between two runs: the finished rows, the current one, and the cells it takes.
pub struct WrapView {
    pub rows: Seq<Seq<SpanView>>,
    pub current: Seq<SpanView>,
    pub cols: int,
}

/// The rows of a word that is wider than a row.
pub open spec fn cut_rows(run: SpanView, width: int) -> Seq<Seq<SpanView>> {
    Seq::new(chunks(run.text, width).len(), |i: int| styled_row(chunks(run.text, width)[i], run.style))
}

impl WrapView {
    pub open spec fn new() -> WrapView {
        WrapView { rows: Seq::empty(), current: Seq::empty(), cols: 0 }
    }

    /// The state with the run on a row of its own.
    pub open spec fn with_word(self, run: SpanView, width: int) -> WrapView {
        if cells(run.text) <= width {
            WrapView { current: seq![run], cols: cells(run.text), ..self }
        } else {
            WrapView {
                rows: self.rows + cut_rows(run, width),
                current: Seq::empty(),
                cols: 0,
            }
        }
    }

    /// The state with the current row finished.
    pub open spec fn broken(self) -> WrapView {
        WrapView { rows: self.rows.push(self.current), current: Seq::empty(), cols: 0 }
    }

    /// The state once a run came in. A blank run is kept inside a row and dropped at its end; a word goes on the
    /// current row behind a blank, or on a row of its own.
    pub open spec fn step(self, run: SpanView, width: int) -> WrapView {
        if run.text == " "@ {
            if self.current.len() == 0 {
                self
            } else if self.cols < width {
                WrapView { current: self.current.push(run), cols: self.cols + 1, ..self }
            } else {
                self.broken()
            }
        } else if self.current.len() == 0 {
            self.with_word(run, width)
        } else if self.cols + 1 + cells(run.text) <= width {
            WrapView {
                current: self.current.push(styled_run(" "@, TextStyle::plain())).push(run),
                cols: self.cols + 1 + cells(run.text),
                ..self
            }
        } else {
            self.broken().with_word(run, width)
        }
    }

    /// The state once the first runs came in.
    pub open spec fn after(self, runs: Seq<SpanView>, width: int) -> WrapView
        decreases runs.len(),
    {
        if runs.len() == 0 {
            self
        } else {
            self.after(runs.drop_last(), width).step(runs.last(), width)
        }
    }

    /// All rows.
    pub open spec fn finished(self) -> Seq<Seq<SpanView>> {
        if self.current.len() == 0 {
            self.rows
        } else {
            self.rows.push(self.current)
        }
    }
}

/// A width of at least one cell.
pub open spec fn one_or_more(width: int) -> int {
    if width < 1 {
        1
    } else {
        width
    }
}

/// The rows of a list of styled runs wrapped to a width.
pub open spec fn wrapped_runs(runs: Seq<SpanView>, width: int) -> Seq<Seq<SpanView>> {
    WrapView::new().after(runs, one_or_more(width)).finished()
}

/// The wrap in progress.
struct Wrap {
    rows: Vec<Line>,
    current: Vec<Span>,
    cols: usize,
}

impl View for Wrap {
    type V = WrapView;

    closed spec fn view(&self) -> WrapView {
        WrapView {
            rows: line_views(self.rows@),
            current: span_views(self.current@),
            cols: self.cols as int,
        }
    }
}

impl Wrap {
    fn break_row(&mut self)
        ensures
            final(self)@ == old(self)@.broken(),
    {
        let mut taken: Vec<Span> = Vec::new();
        taken.append(&mut self.current);
        assert(taken@ =~= old(self).current@);
        push_line(&mut self.rows, Line { spans: taken });
        self.cols = 0;
        assert(self@.current =~= Seq::empty());
    }

    fn put_word(&mut self, run: &Span, width: usize)
        requires
            old(self)@.current.len() == 0,
        ensures
            final(self)@ == old(self)@.with_word(run@, width as int),
    {
        let cols: usize = display_width(run.content.as_str());
        if cols <= width {
            let mut row: Vec<Span> = Vec::new();
            row.push(run.duplicate());
            self.current = row;
            self.cols = cols;
            assert(self@.current =~= seq![run@]);
        } else {
            let pieces: Vec<String> = chunk_by_width(run.content.as_str(), width);
            let ghost all = cut_rows(run@, width as int);
            let ghost before = self@;
            let mut i: usize = 0;
            assert(before.rows + all.take(0) =~= before.rows);
            while i < pieces.len()
                invariant
                    i <= pieces@.len(),
                    views(pieces@) == chunks(run.content@, width as int),
                    all == cut_rows(run@, width as int),
                    self@ == (WrapView { rows: before.rows + all.take(i as int), ..before }),
                decreases pieces@.len() - i,
            {
                assert(views(pieces@)[i as int] == pieces@[i as int]@);
                push_line(&mut self.rows, Line::styled(pieces[i].clone(), run.style));
                assert(self@.rows =~= before.rows + all.take(i as int + 1));
                i = i + 1;
            }
            assert(all.take(all.len() as int) =~= all);
            self.cols = 0;
            assert(self@.current =~= Seq::empty());
        }
    }

    fn take(&mut self, run: &Span, width: usize)
        requires
            old(self)@.cols <= width,
            width >= 1,
        ensures
            final(self)@ == old(self)@.step(run@, width as int),
            final(self)@.cols <= width,
    {
        let blank: bool = crate::text::same(run.content.as_str(), " ");
        if blank {
            if self.current.len() > 0 {
                if self.cols < width {
                    push_span(&mut self.current, run.duplicate());
                    self.cols = self.cols + 1;
                } else {
                    self.break_row();
                }
            }
            return ;
        }
        if self.current.len() == 0 {
            self.put_word(run, width);
            return ;
        }
        let cols: usize = display_width(run.content.as_str());
        if cols < width && self.cols <= width - 1 - cols {
            push_span(&mut self.current, Span::raw(" ".to_owned()));
            push_span(&mut self.current, run.duplicate());
            self.cols = self.cols + 1 + cols;
        } else {
            self.break_row();
            self.put_word(run, width);
        }
    }
}

/// Word-wrap a list of styled runs to `width` columns. Words are runs that are not a single blank; blanks are
/// kept as runs of their own so they rejoin naturally. A word wider than `width` is cut.
pub fn wrap_spans(runs: &Vec<Span>, width: usize) -> (r: Vec<Line>)
    ensures
        line_views(r@) == wrapped_runs(span_views(runs@), width as int),
{
    let width: usize = if width < 1 {
        1
    } else {
        width
    };
    let mut wrap: Wrap = Wrap { rows: Vec::new(), current: Vec::new(), cols: 0 };
    let ghost v = span_views(runs@);
    proof {
        assert(wrap@.rows =~= Seq::empty());
        assert(wrap@.current =~= Seq::empty());
        assert(v.take(0) =~= Seq::<SpanView>::empty());
    }
    let mut i: usize = 0;
    while i < runs.len()
        invariant
            i <= runs@.len(),
            width >= 1,
            v == span_views(runs@),
            wrap@ == WrapView::new().after(v.take(i as int), width as int),
            wrap@.cols <= width,
        decreases runs@.len() - i,
    {
        let ghost next = v.take(i as int + 1);
        assert(next.drop_last() =~= v.take(i as int));
        assert(next.last() == runs@[i as int]@);
        wrap.take(&runs[i], width);
        i = i + 1;
    }
    assert(v.take(v.len() as int) =~= v);
    if wrap.current.len() > 0 {
        push_line(&mut wrap.rows, Line { spans: wrap.current });
    }
    wrap.rows
}

/// A row with a prefix in front, its own runs unchanged.
pub open spec fn prefixed(prefix: Seq<char>, row: Seq<SpanView>) -> Seq<SpanView> {
    seq![styled_run(prefix, TextStyle::plain())] + row
}

/// Prepend a prefix to a row, preserving the styles of its runs.
fn prepend_prefix(prefix: &str, row: &Line) -> (r: Line)
    ensures
        r@ == prefixed(prefix@, row@),
{
    let mut spans: Vec<Span> = Vec::new();
    spans.push(Span::raw(prefix.to_owned()));
    let mut rest: Vec<Span> = clone_spans(&row.spans);
    let ghost tail = rest@;
    spans.append(&mut rest);
    let line: Line = Line { spans };
    assert(line@ =~= prefixed(prefix@, row@)) by {
        assert(span_views(tail) == row@);
        assert forall|i: int| 0 <= i < line@.len() implies #[trigger] line@[i] == prefixed(
            prefix@,
            row@,
        )[i] by {
            if i > 0 {
                assert(span_views(tail)[i - 1] == row@[i - 1]);
            }
        }
    }
    line
}

/// The rows of a paragraph: each line wrapped, blank lines kept.
pub open spec fn text_rows(lines: Seq<Seq<SpanView>>, width: int) -> Seq<Seq<SpanView>>
    decreases lines.len(),
{
    if lines.len() == 0 {
        Seq::empty()
    } else {
        text_rows(lines.drop_last(), width) + if lines.last().len() == 0 {
            seq![Seq::<SpanView>::empty()]
        } else {
            wrapped_runs(lines.last(), width)
        }
    }
}

/// The cells that the runs of a row take, as far as the machine counts.
pub open spec fn row_cells(row: Seq<SpanView>) -> int
    decreases row.len(),
{
    if row.len() == 0 {
        0
    } else {
        let n = row_cells(row.drop_last()) + cells(row.last().text);
        if n <= usize::MAX {
            n
        } else {
            usize::MAX as int
        }
    }
}

/// A code row filled up to the width with the code background.
pub open spec fn padded(row: Seq<SpanView>, width: int) -> Seq<SpanView> {
    if row_cells(row) < width {
        row.push(
            styled_run(
                repeated(' ', (width - row_cells(row)) as nat),
                TextStyle::plain().with_bg(Ink::CodeBg.rgb()),
            ),
        )
    } else {
        row
    }
}

/// Code rows filled up to the width.
pub open spec fn padded_rows(rows: Seq<Seq<SpanView>>, width: int) -> Seq<Seq<SpanView>> {
    Seq::new(rows.len(), |i: int| padded(rows[i], width))
}

/// A width less what a prefix takes.
pub open spec fn narrowed(width: int, by: int) -> int {
    if by < width {
        width - by
    } else {
        0
    }
}

/// The rows of a quote: each behind a bar.
pub open spec fn quote_rows(rows: Seq<Seq<SpanView>>) -> Seq<Seq<SpanView>> {
    Seq::new(rows.len(), |i: int| prefixed("│ "@, rows[i]))
}

/// The rows of a list item: the first behind the marker, the others as far in.
pub open spec fn item_rows(rows: Seq<Seq<SpanView>>, marker: Seq<char>) -> Seq<Seq<SpanView>> {
    Seq::new(
        rows.len(),
        |i: int|
            prefixed(
                if i == 0 {
                    marker
                } else {
                    repeated(' ', cells(marker) as nat)
                },
                rows[i],
            ),
    )
}

/// The rows of a block.
pub open spec fn block_rows(b: BlockView, width: int, h: Highlighter) -> Seq<Seq<SpanView>>
    decreases b,
{
    match b {
        BlockView::Text { lines } => text_rows(lines, width),
        BlockView::Code { lang, lines } => padded_rows(
            code_lines(lines, block_tokens(h, lines, lang)),
            width,
        ),
        BlockView::Quote { inner } => quote_rows(stacked_rows(inner, narrowed(width, 2), h)),
        BlockView::Item { marker, inner } => item_rows(
            stacked_rows(inner, narrowed(width, cells(marker)), h),
            marker,
        ),
    }
}

/// The rows of a list of blocks, with a blank row between each two.
pub open spec fn stacked_rows(blocks: Seq<BlockView>, width: int, h: Highlighter) -> Seq<Seq<SpanView>>
    decreases blocks,
{
    if blocks.len() == 0 {
        Seq::empty()
    } else if blocks.len() == 1 {
        block_rows(blocks[0], width, h)
    } else {
        stacked_rows(blocks.drop_last(), width, h).push(Seq::empty()) + block_rows(
            blocks.last(),
            width,
            h,
        )
    }
}

/// The rows of a whole text: one blank row where there is nothing.
pub open spec fn page_rows(blocks: Seq<BlockView>, width: int, h: Highlighter) -> Seq<Seq<SpanView>> {
    let rows = stacked_rows(blocks, width, h);
    if rows.len() == 0 {
        seq![Seq::<SpanView>::empty()]
    } else {
        rows
    }
}

fn render_text(lines: &Vec<Line>, width: usize) -> (r: Vec<Line>)
    ensures
        line_views(r@) == text_rows(line_views(lines@), width as int),
{
    let ghost v = line_views(lines@);
    let mut out: Vec<Line> = Vec::new();
    let mut i: usize = 0;
    proof {
        assert(v.take(0) =~= Seq::<Seq<SpanView>>::empty());
        assert(line_views(out@) =~= Seq::<Seq<SpanView>>::empty());
    }
    while i < lines.len()
        invariant
            i <= lines@.len(),
            v == line_views(lines@),
            line_views(out@) == text_rows(v.take(i as int), width as int),
        decreases lines@.len() - i,
    {
        let ghost next = v.take(i as int + 1);
        assert(next.drop_last() =~= v.take(i as int));
        assert(next.last() == lines@[i as int]@);
        if lines[i].spans.len() == 0 {
            push_line(&mut out, Line::blank());
            assert(line_views(out@) =~= text_rows(v.take(i as int), width as int) + seq![
                Seq::<SpanView>::empty(),
            ]);
        } else {
            append_lines(&mut out, wrap_spans(&lines[i].spans, width));
        }
        i = i + 1;
    }
    assert(v.take(v.len() as int) =~= v);
    out
}

fn width_of(row: &Vec<Span>) -> (r: usize)
    ensures
        r == row_cells(span_views(row@)),
{
    let ghost v = span_views(row@);
    let mut sum: usize = 0;
    let mut i: usize = 0;
    assert(v.take(0) =~= Seq::<SpanView>::empty());
    while i < row.len()
        invariant
            i <= row@.len(),
            v == span_views(row@),
            sum == row_cells(v.take(i as int)),
        decreases row@.len() - i,
    {
        let ghost next = v.take(i as int + 1);
        assert(next.drop_last() =~= v.take(i as int));
        assert(next.last() == row@[i as int]@);
        sum = sum.saturating_add(display_width(row[i].content.as_str()));
        i = i + 1;
    }
    assert(v.take(v.len() as int) =~= v);
    sum
}

fn render_code(h: &Highlighter, lines: &Vec<String>, lang: &Option<String>, width: usize) -> (r: Vec<Line>)
    ensures
        line_views(r@) == padded_rows(
            code_lines(
                views(lines@),
                block_tokens(
                    *h,
                    views(lines@),
                    match *lang {
                        Some(l) => Some(l@),
                        None => None,
                    },
                ),
            ),
            width as int,
        ),
{
    let rows: Vec<Vec<Span>> = highlight_code_block(h, lines, lang);
    let ghost want = padded_rows(rows_view(rows@), width as int);
    let mut out: Vec<Line> = Vec::new();
    let mut i: usize = 0;
    while i < rows.len()
        invariant
            i <= rows@.len(),
            want == padded_rows(rows_view(rows@), width as int),
            out@.len() == i,
            forall|k: int| 0 <= k < i ==> (#[trigger] out@[k])@ == want[k],
        decreases rows@.len() - i,
    {
        let mut spans: Vec<Span> = clone_spans(&rows[i]);
        let cols: usize = width_of(&spans);
        if cols < width {
            push_span(
                &mut spans,
                Span::styled(
                    repeat_char(' ', width - cols),
                    TextStyle::new().bg(Ink::CodeBg.color()),
                ),
            );
        }
        let line: Line = Line::from_spans(spans);
        assert(line@ == want[i as int]);
        out.push(line);
        i = i + 1;
    }
    assert(line_views(out@) =~= want);
    out
}

fn render_quote(rows: Vec<Line>) -> (r: Vec<Line>)
    ensures
        line_views(r@) == quote_rows(line_views(rows@)),
{
    let mut out: Vec<Line> = Vec::new();
    let mut i: usize = 0;
    while i < rows.len()
        invariant
            i <= rows@.len(),
            out@.len() == i,
            forall|k: int| 0 <= k < i ==> (#[trigger] out@[k])@ == prefixed("│ "@, rows@[k]@),
        decreases rows@.len() - i,
    {
        out.push(prepend_prefix("│ ", &rows[i]));
        i = i + 1;
    }
    assert(line_views(out@) =~= quote_rows(line_views(rows@)));
    out
}

fn render_item_rows(rows: Vec<Line>, marker: &str) -> (r: Vec<Line>)
    ensures
        line_views(r@) == item_rows(line_views(rows@), marker@),
{
    let pad: String = repeat_char(' ', display_width(marker));
    let ghost want = item_rows(line_views(rows@), marker@);
    let mut out: Vec<Line> = Vec::new();
    let mut i: usize = 0;
    while i < rows.len()
        invariant
            i <= rows@.len(),
            pad@ == repeated(' ', cells(marker@) as nat),
            want == item_rows(line_views(rows@), marker@),
            out@.len() == i,
            forall|k: int| 0 <= k < i ==> (#[trigger] out@[k])@ == want[k],
        decreases rows@.len() - i,
    {
        let line: Line = if i == 0 {
            prepend_prefix(marker, &rows[i])
        } else {
            prepend_prefix(pad.as_str(), &rows[i])
        };
        assert(line@ == want[i as int]);
        out.push(line);
        i = i + 1;
    }
    assert(line_views(out@) =~= want);
    out
}

/// Render a block into wrapped rows.
pub fn render_block(h: &Highlighter, block: &Block, width: usize) -> (r: Vec<Line>)
    ensures
        line_views(r@) == block_rows(block_view(*block), width as int, *h),
    decreases *block, 0nat,
{
    match block {
        Block::Text { lines } => render_text(lines, width),
        Block::Code { lang, lines } => render_code(h, lines, lang, width),
        Block::Quote { inner } => {
            let rows: Vec<Line> = render_stack(h, inner, width.saturating_sub(2));
            render_quote(rows)
        },
        Block::Item { marker, inner } => {
            let rows: Vec<Line> = render_stack(
                h,
                inner,
                width.saturating_sub(display_width(marker.as_str())),
            );
            render_item_rows(rows, marker.as_str())
        },
    }
}

/// Render a list of blocks into wrapped rows, with a blank row between each two.
fn render_stack(h: &Highlighter, blocks: &Vec<Block>, width: usize) -> (r: Vec<Line>)
    ensures
        line_views(r@) == stacked_rows(block_views(blocks@), width as int, *h),
    decreases *blocks, 1nat,
{
    let ghost v = block_views(blocks@);
    let mut out: Vec<Line> = Vec::new();
    let mut i: usize = 0;
    proof {
        block_views_index(blocks@);
        assert(v.take(0) =~= Seq::<BlockView>::empty());
        assert(line_views(out@) =~= Seq::<Seq<SpanView>>::empty());
    }
    while i < blocks.len()
        invariant
            i <= blocks@.len(),
            v == block_views(blocks@),
            v.len() == blocks@.len(),
            forall|k: int| 0 <= k < blocks@.len() ==> #[trigger] v[k] == block_view(blocks@[k]),
            line_views(out@) == stacked_rows(v.take(i as int), width as int, *h),
        decreases blocks@.len() - i,
    {
        let ghost next = v.take(i as int + 1);
        assert(next.drop_last() =~= v.take(i as int));
        assert(next.last() == v[i as int]);
        if i > 0 {
            push_line(&mut out, Line::blank());
        }
        let ghost before = line_views(out@);
        append_lines(&mut out, render_block(h, &blocks[i], width));
        assert(i == 0 ==> line_views(out@) =~= block_rows(next[0], width as int, *h));
        i = i + 1;
    }
    assert(v.take(v.len() as int) =~= v);
    out
}

/// Render parsed `blocks` to wrapped rows at `width` columns. Blocks are separated by a blank row; an empty result
/// yields one blank row so the transcript never collapses to nothing.
pub fn render_blocks(h: &Highlighter, blocks: &Vec<Block>, width: usize) -> (r: Vec<Line>)
    ensures
        line_views(r@) == page_rows(block_views(blocks@), width as int, *h),
        r@.len() >= 1,
{
    let mut out: Vec<Line> = render_stack(h, blocks, width);
    if out.len() == 0 {
        push_line(&mut out, Line::blank());
        assert(line_views(out@) =~= seq![Seq::<SpanView>::empty()]);
    }
    out
}

} // verus!
