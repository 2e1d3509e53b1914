//! From the event stream to blocks.
//!
//! Inline styling (bold/italic/strike/code/heading accent) is baked into each span here, from the caller's base
//! style; the render layer only lays the resulting blocks out.
use vstd::prelude::*;
use crate::infrastructure::render::line::{
    line_views, push_line, push_span, span_views, styled_run, Line, Span, SpanView,
};
use crate::infrastructure::render::markdown::events::{
    content_views, contents_of, inlines_of, marks_of, md_events, read_contents, read_inlines, read_marks, ContentView,
    MdContent, MdInline, MdMark,
    MdTag, EXTENSIONS,
};
use crate::infrastructure::render::theme::{ink, inked, Ink};
use crate::style::TextStyle;
use crate::text::{cat2, decimal, decimal_of, head_of, split, split_head, split_on, trim, trimmed, views};

verus! {

/// A parsed block with its resolved style context.
#[derive(Debug, PartialEq, Eq)]
pub enum Block {
    /// A paragraph or heading text: a list of break-separated lines, each a list of styled runs.
    Text { lines: Vec<Line> },
    /// A code block: its language where it names one, and its raw lines, no inline parsing.
    Code { lang: Option<String>, lines: Vec<String> },
    /// A blockquote: inner blocks, rendered with a `│ ` prefix.
    Quote { inner: Vec<Block> },
    /// A list item: inner blocks, prefixed with its marker.
    Item { marker: String, inner: Vec<Block> },
}

/// The contents of a block.
pub enum BlockView {
    Text { lines: Seq<Seq<SpanView>> },
    Code { lang: Option<Seq<char>>, lines: Seq<Seq<char>> },
    Quote { inner: Seq<BlockView> },
    Item { marker: Seq<char>, inner: Seq<BlockView> },
}

/// The contents of a block.
pub open spec fn block_view(b: Block) -> BlockView
    decreases b,
{
    match b {
        Block::Text { lines } => BlockView::Text { lines: line_views(lines@) },
        Block::Code { lang, lines } => BlockView::Code {
            lang: match lang {
                Some(l) => Some(l@),
                None => None,
            },
            lines: views(lines@),
        },
        Block::Quote { inner } => BlockView::Quote { inner: block_views(inner@) },
        Block::Item { marker, inner } => BlockView::Item {
            marker: marker@,
            inner: block_views(inner@),
        },
    }
}

/// The contents of each block of a list.
pub open spec fn block_views(v: Seq<Block>) -> Seq<BlockView>
    decreases v,
{
    if v.len() == 0 {
        Seq::empty()
    } else {
        block_views(v.drop_last()).push(block_view(v.last()))
    }
}

/// The contents of a list of blocks are those of its blocks.
pub proof fn block_views_index(v: Seq<Block>)
    ensures
        block_views(v).len() == v.len(),
        forall|i: int| 0 <= i < v.len() ==> #[trigger] block_views(v)[i] == block_view(v[i]),
    decreases v.len(),
{
    if v.len() > 0 {
        block_views_index(v.drop_last());
        assert forall|i: int| 0 <= i < v.len() implies #[trigger] block_views(v)[i] == block_view(
            v[i],
        ) by {
            if i < v.len() - 1 {
                assert(block_views(v.drop_last())[i] == block_view(v.drop_last()[i]));
            }
        }
    }
}

/// Appending a block appends its contents.
proof fn block_views_push(v: Seq<Block>, b: Block)
    ensures
        block_views(v.push(b)) == block_views(v).push(block_view(b)),
{
    assert(v.push(b).drop_last() =~= v);
}

/// A formatting tag that is open.
#[derive(Debug, Clone, Copy, PartialEq, Eq, Structural)]
pub enum FmtTag {
    Strong,
    Emphasis,
    Strikethrough,
    Heading,
}

/// A quote or list item whose blocks are still being collected.
enum BlockBuilder {
    Quote(Vec<Block>),
    Item(String, Vec<Block>),
}

/// The contents of an open quote or list item.
pub enum BuilderView {
    Quote(Seq<BlockView>),
    Item(Seq<char>, Seq<BlockView>),
}

spec fn builder_view(b: BlockBuilder) -> BuilderView {
    match b {
        BlockBuilder::Quote(inner) => BuilderView::Quote(block_views(inner@)),
        BlockBuilder::Item(marker, inner) => BuilderView::Item(marker@, block_views(inner@)),
    }
}

spec fn builder_views(v: Seq<BlockBuilder>) -> Seq<BuilderView> {
    Seq::new(v.len(), |i: int| builder_view(v[i]))
}

/// The state of the parse between two events: the caller's style, the line and lines of the text being collected,
/// the open formatting tags, the code block being collected, the open quotes and items, the next number of each
/// open list (0 for a bullet list), and the finished blocks.
pub struct ParseView {
    pub base: TextStyle,
    pub runs: Seq<SpanView>,
    pub lines: Seq<Seq<SpanView>>,
    pub fmt: Seq<FmtTag>,
    pub in_code: bool,
    pub lang: Option<Seq<char>>,
    pub code: Seq<Seq<char>>,
    pub stack: Seq<BuilderView>,
    pub counters: Seq<u64>,
    pub blocks: Seq<BlockView>,
}

/// The style of heading text.
pub open spec fn heading_style() -> TextStyle {
    TextStyle { bold: true, ..inked(Ink::Heading) }
}

/// The style of inline code.
pub open spec fn inline_code_style() -> TextStyle {
    TextStyle { bold: true, ..inked(Ink::CodeFg).with_bg(Ink::CodeBg.rgb()) }
}

/// The runs of a text: its words, and a blank for each blank too many.
pub open spec fn word_runs(words: Seq<Seq<char>>, style: TextStyle) -> Seq<SpanView> {
    Seq::new(
        words.len(),
        |i: int|
            if words[i].len() == 0 {
                styled_run(" "@, style)
            } else {
                styled_run(words[i], style)
            },
    )
}

/// The language that an info string names: its first word.
pub open spec fn language(info: Seq<char>) -> Option<Seq<char>> {
    let word = head_of(trim(info));
    if word.len() == 0 {
        None
    } else {
        Some(word)
    }
}

/// A number one higher, as far as the machine counts.
pub open spec fn bumped(n: u64) -> u64 {
    if n < u64::MAX {
        (n + 1) as u64
    } else {
        n
    }
}

impl ParseView {
    pub open spec fn new(base: TextStyle) -> ParseView {
        ParseView {
            base,
            runs: Seq::empty(),
            lines: Seq::empty(),
            fmt: Seq::empty(),
            in_code: false,
            lang: None,
            code: Seq::empty(),
            stack: Seq::empty(),
            counters: Seq::empty(),
            blocks: Seq::empty(),
        }
    }

    /// The style of text: the heading accent inside a heading, else the caller's base, with the open formatting.
    pub open spec fn text_style(self) -> TextStyle {
        let style = if self.fmt.contains(FmtTag::Heading) {
            heading_style()
        } else {
            self.base
        };
        TextStyle {
            bold: style.bold || self.fmt.contains(FmtTag::Strong),
            italic: style.italic || self.fmt.contains(FmtTag::Emphasis),
            crossed_out: style.crossed_out || self.fmt.contains(FmtTag::Strikethrough),
            ..style
        }
    }

    /// The state with a block added to the innermost open quote or item, else to the finished blocks.
    pub open spec fn with_block(self, b: BlockView) -> ParseView {
        if self.stack.len() == 0 {
            ParseView { blocks: self.blocks.push(b), ..self }
        } else {
            ParseView {
                stack: self.stack.drop_last().push(
                    match self.stack.last() {
                        BuilderView::Quote(inner) => BuilderView::Quote(inner.push(b)),
                        BuilderView::Item(marker, inner) => BuilderView::Item(marker, inner.push(b)),
                    },
                ),
                ..self
            }
        }
    }

    /// The state with the current line finished, unless it is empty.
    pub open spec fn line_finished(self) -> ParseView {
        if self.runs.len() == 0 {
            self
        } else {
            ParseView { lines: self.lines.push(self.runs), runs: Seq::empty(), ..self }
        }
    }

    /// The state with any pending text made a block. Needed because list items and quotes may hold loose text
    /// without a paragraph around it.
    pub open spec fn flushed(self) -> ParseView {
        let done = self.line_finished();
        if done.lines.len() == 0 {
            done
        } else {
            ParseView { lines: Seq::empty(), ..done }.with_block(BlockView::Text { lines: done.lines })
        }
    }

    /// The marker of the next list item.
    pub open spec fn marker(self) -> Seq<char> {
        if self.counters.len() == 0 || self.counters.last() == 0 {
            "- "@
        } else {
            decimal(self.counters.last() as int) + ". "@
        }
    }

    /// The state once a tag opened.
    pub open spec fn started(self, tag: MdTag, content: ContentView) -> ParseView {
        match tag {
            MdTag::Paragraph => ParseView { runs: Seq::empty(), lines: Seq::empty(), ..self },
            MdTag::Heading => ParseView {
                runs: Seq::empty(),
                lines: Seq::empty(),
                fmt: self.fmt.push(FmtTag::Heading),
                ..self
            },
            MdTag::Emphasis => ParseView { fmt: self.fmt.push(FmtTag::Emphasis), ..self },
            MdTag::Strong => ParseView { fmt: self.fmt.push(FmtTag::Strong), ..self },
            MdTag::Strikethrough => ParseView {
                fmt: self.fmt.push(FmtTag::Strikethrough),
                ..self
            },
            MdTag::CodeBlock => ParseView {
                in_code: true,
                code: Seq::empty(),
                lang: match content {
                    ContentView::Fence(info) => language(info),
                    _ => None,
                },
                ..self
            },
            MdTag::BlockQuote => ParseView {
                stack: self.stack.push(BuilderView::Quote(Seq::empty())),
                ..self
            },
            MdTag::List => ParseView {
                counters: self.counters.push(
                    match content {
                        ContentView::ListStart(n) => n,
                        _ => 0,
                    },
                ),
                ..self
            },
            MdTag::Item => ParseView {
                stack: self.stack.push(BuilderView::Item(self.marker(), Seq::empty())),
                counters: if self.counters.len() == 0 || self.counters.last() == 0 {
                    self.counters
                } else {
                    self.counters.drop_last().push(bumped(self.counters.last()))
                },
                ..self
            },
            MdTag::Other => self,
        }
    }

    /// The state with the innermost formatting tag closed.
    pub open spec fn unformatted(self) -> ParseView {
        if self.fmt.len() == 0 {
            self
        } else {
            ParseView { fmt: self.fmt.drop_last(), ..self }
        }
    }

    /// The state with the innermost open quote or item taken off.
    pub open spec fn popped(self) -> ParseView {
        if self.stack.len() == 0 {
            self
        } else {
            ParseView { stack: self.stack.drop_last(), ..self }
        }
    }

    /// The state once a tag closed.
    pub open spec fn ended(self, tag: MdTag) -> ParseView {
        match tag {
            MdTag::Paragraph => {
                let done = self.line_finished();
                ParseView { lines: Seq::empty(), ..done }.with_block(
                    BlockView::Text { lines: done.lines },
                )
            },
            MdTag::Heading => {
                let done = self.line_finished();
                ParseView { lines: Seq::empty(), ..done }.unformatted().with_block(
                    BlockView::Text { lines: done.lines },
                )
            },
            MdTag::Emphasis | MdTag::Strong | MdTag::Strikethrough => self.unformatted(),
            MdTag::CodeBlock => ParseView {
                in_code: false,
                code: Seq::empty(),
                lang: None,
                ..self
            }.with_block(BlockView::Code { lang: self.lang, lines: self.code }),
            MdTag::BlockQuote => {
                let done = self.flushed();
                if done.stack.len() > 0 && done.stack.last() is Quote {
                    done.popped().with_block(BlockView::Quote { inner: done.stack.last()->Quote_0 })
                } else {
                    done.popped()
                }
            },
            MdTag::Item => {
                let done = self.flushed();
                if done.stack.len() > 0 && done.stack.last() is Item {
                    done.popped().with_block(
                        BlockView::Item {
                            marker: done.stack.last()->Item_0,
                            inner: done.stack.last()->Item_1,
                        },
                    )
                } else {
                    done.popped()
                }
            },
            MdTag::List => if self.counters.len() == 0 {
                self
            } else {
                ParseView { counters: self.counters.drop_last(), ..self }
            },
            MdTag::Other => self,
        }
    }

    /// The state once text came in.
    pub open spec fn texted(self, t: Seq<char>) -> ParseView {
        if self.in_code {
            ParseView { code: self.code + split_on(t, '\n'), ..self }
        } else {
            ParseView {
                runs: self.runs + word_runs(split_on(t, ' '), self.text_style()),
                ..self
            }
        }
    }

    /// The state once a line broke.
    pub open spec fn broken(self) -> ParseView {
        if self.in_code {
            ParseView { code: self.code.push(Seq::empty()), ..self }
        } else {
            ParseView { lines: self.lines.push(self.runs), runs: Seq::empty(), ..self }
        }
    }

    /// The state once inline content came in. Raw HTML, mathematics and footnote references read as text, soft and
    /// hard breaks alike break the line, and rules and task markers leave nothing.
    pub open spec fn inlined(self, inline: MdInline, content: ContentView) -> ParseView {
        match inline {
            MdInline::Text
            | MdInline::Html
            | MdInline::InlineHtml
            | MdInline::InlineMath
            | MdInline::DisplayMath
            | MdInline::FootnoteReference => self.texted(carried(content)),
            MdInline::Code => ParseView {
                runs: self.runs.push(styled_run(carried(content), inline_code_style())),
                ..self
            },
            MdInline::SoftBreak | MdInline::HardBreak => self.broken(),
            MdInline::Rule | MdInline::TaskListMarker | MdInline::Structure => self,
        }
    }

    /// The state once an event came in.
    pub open spec fn step(self, mark: MdMark, inline: MdInline, content: ContentView) -> ParseView {
        match mark {
            MdMark::Start(tag) => self.started(tag, content),
            MdMark::End(tag) => self.ended(tag),
            MdMark::Inline => self.inlined(inline, content),
        }
    }

    /// The state once the first `n` events came in.
    pub open spec fn after(
        self,
        marks: Seq<MdMark>,
        inlines: Seq<MdInline>,
        contents: Seq<ContentView>,
        n: int,
    ) -> ParseView
        decreases n,
    {
        if n <= 0 {
            self
        } else {
            self.after(marks, inlines, contents, n - 1).step(
                marks[n - 1],
                inlines[n - 1],
                contents[n - 1],
            )
        }
    }
}

/// The text that inline content carries; content without text carries the empty one.
pub open spec fn carried(content: ContentView) -> Seq<char> {
    match content {
        ContentView::Text(t) => t,
        _ => Seq::empty(),
    }
}

/// The blocks of an event stream.
pub open spec fn blocks_of(
    base: TextStyle,
    marks: Seq<MdMark>,
    inlines: Seq<MdInline>,
    contents: Seq<ContentView>,
) -> Seq<BlockView> {
    ParseView::new(base).after(marks, inlines, contents, marks.len() as int).flushed().blocks
}

/// The blocks of a markdown text.
pub open spec fn parsed_blocks(markdown: Seq<char>, base: TextStyle) -> Seq<BlockView> {
    let events = md_events(markdown, EXTENSIONS);
    blocks_of(base, marks_of(events), inlines_of(events), contents_of(events))
}

struct ParseCtx {
    base: TextStyle,
    runs: Vec<Span>,
    lines: Vec<Line>,
    fmt: Vec<FmtTag>,
    in_code: bool,
    lang: Option<String>,
    code: Vec<String>,
    stack: Vec<BlockBuilder>,
    counters: Vec<u64>,
    blocks: Vec<Block>,
}

impl View for ParseCtx {
    type V = ParseView;

    closed spec fn view(&self) -> ParseView {
        ParseView {
            base: self.base,
            runs: span_views(self.runs@),
            lines: line_views(self.lines@),
            fmt: self.fmt@,
            in_code: self.in_code,
            lang: match self.lang {
                Some(l) => Some(l@),
                None => None,
            },
            code: views(self.code@),
            stack: builder_views(self.stack@),
            counters: self.counters@,
            blocks: block_views(self.blocks@),
        }
    }
}

impl ParseCtx {
    fn new(base: TextStyle) -> (r: ParseCtx)
        ensures
            r@ == ParseView::new(base),
    {
        let r = ParseCtx {
            base,
            runs: Vec::new(),
            lines: Vec::new(),
            fmt: Vec::new(),
            in_code: false,
            lang: None,
            code: Vec::new(),
            stack: Vec::new(),
            counters: Vec::new(),
            blocks: Vec::new(),
        };
        proof {
            assert(r@.runs =~= Seq::empty());
            assert(r@.lines =~= Seq::empty());
            assert(r@.fmt =~= Seq::empty());
            assert(r@.code =~= Seq::empty());
            assert(r@.stack =~= Seq::empty());
            assert(r@.counters =~= Seq::empty());
            assert(r@.blocks =~= Seq::empty());
        }
        r
    }

    fn has(&self, tag: FmtTag) -> (r: bool)
        ensures
            r == self@.fmt.contains(tag),
    {
        let mut i: usize = 0;
        while i < self.fmt.len()
            invariant
                i <= self.fmt@.len(),
                forall|k: int| 0 <= k < i ==> self.fmt@[k] != tag,
            decreases self.fmt@.len() - i,
        {
            if self.fmt[i] == tag {
                return true;
            }
            i = i + 1;
        }
        false
    }

    /// The style of text at this point.
    fn style(&self) -> (r: TextStyle)
        ensures
            r == self@.text_style(),
    {
        let mut style: TextStyle = if self.has(FmtTag::Heading) {
            ink(Ink::Heading).bold()
        } else {
            self.base
        };
        if self.has(FmtTag::Strong) {
            style = style.bold();
        }
        if self.has(FmtTag::Emphasis) {
            style = style.italic();
        }
        if self.has(FmtTag::Strikethrough) {
            style = style.crossed_out();
        }
        style
    }

    /// Push a block to the innermost open quote or item, or to the finished blocks.
    fn push_block(&mut self, block: Block)
        ensures
            final(self)@ == old(self)@.with_block(block_view(block)),
    {
        match self.stack.pop() {
            Some(BlockBuilder::Quote(mut inner)) => {
                let ghost before = inner@;
                inner.push(block);
                proof {
                    block_views_push(before, block);
                }
                self.stack.push(BlockBuilder::Quote(inner));
            },
            Some(BlockBuilder::Item(marker, mut inner)) => {
                let ghost before = inner@;
                inner.push(block);
                proof {
                    block_views_push(before, block);
                }
                self.stack.push(BlockBuilder::Item(marker, inner));
            },
            None => {
                let ghost before = self.blocks@;
                self.blocks.push(block);
                proof {
                    block_views_push(before, block);
                    assert(self@.stack =~= old(self)@.stack);
                }
            },
        }
        proof {
            if old(self).stack@.len() > 0 {
                assert(self@.stack =~= old(self)@.with_block(block_view(block)).stack);
            }
        }
    }

    fn finish_line(&mut self)
        ensures
            final(self)@ == old(self)@.line_finished(),
    {
        if self.runs.len() > 0 {
            let mut taken: Vec<Span> = Vec::new();
            taken.append(&mut self.runs);
            assert(taken@ =~= old(self).runs@);
            push_line(&mut self.lines, Line { spans: taken });
            assert(self@.runs =~= Seq::empty());
        }
    }

    fn take_lines(&mut self) -> (r: Vec<Line>)
        ensures
            final(self)@ == (ParseView { lines: Seq::empty(), ..old(self)@ }),
            line_views(r@) == old(self)@.lines,
    {
        let mut taken: Vec<Line> = Vec::new();
        taken.append(&mut self.lines);
        proof {
            assert(taken@ =~= old(self).lines@);
            assert(self@.lines =~= Seq::empty());
        }
        taken
    }

    /// Flush any pending inline content as a text block into the nearest enclosing quote or item.
    fn flush_text_block(&mut self)
        ensures
            final(self)@ == old(self)@.flushed(),
    {
        self.finish_line();
        if self.lines.len() == 0 {
            return ;
        }
        let lines: Vec<Line> = self.take_lines();
        self.push_block(Block::Text { lines });
    }

    fn clear_text(&mut self)
        ensures
            final(self)@ == (ParseView { runs: Seq::empty(), lines: Seq::empty(), ..old(self)@ }),
    {
        self.runs = Vec::new();
        self.lines = Vec::new();
        proof {
            assert(self@.runs =~= Seq::empty());
            assert(self@.lines =~= Seq::empty());
        }
    }

    fn push_builder(&mut self, b: BlockBuilder)
        ensures
            final(self)@ == (ParseView { stack: old(self)@.stack.push(builder_view(b)), ..old(self)@ }),
    {
        self.stack.push(b);
        assert(self@.stack =~= old(self)@.stack.push(builder_view(b)));
    }

    /// Number the next list item.
    fn next_marker(&mut self) -> (r: String)
        ensures
            r@ == old(self)@.marker(),
            final(self)@ == (ParseView {
                counters: if old(self)@.counters.len() == 0 || old(self)@.counters.last() == 0 {
                    old(self)@.counters
                } else {
                    old(self)@.counters.drop_last().push(bumped(old(self)@.counters.last()))
                },
                ..old(self)@
            }),
    {
        match self.counters.pop() {
            None => "- ".to_owned(),
            Some(n) => {
                if n == 0 {
                    self.counters.push(n);
                    assert(self.counters@ =~= old(self).counters@);
                    "- ".to_owned()
                } else {
                    self.counters.push(
                        if n < u64::MAX {
                            n + 1
                        } else {
                            n
                        },
                    );
                    cat2(decimal_of(n).as_str(), ". ")
                }
            },
        }
    }

    fn start(&mut self, tag: MdTag, content: &MdContent)
        ensures
            final(self)@ == old(self)@.started(tag, content@),
    {
        match tag {
            MdTag::Paragraph => self.clear_text(),
            MdTag::Heading => {
                self.clear_text();
                self.fmt.push(FmtTag::Heading);
            },
            MdTag::Emphasis => self.fmt.push(FmtTag::Emphasis),
            MdTag::Strong => self.fmt.push(FmtTag::Strong),
            MdTag::Strikethrough => self.fmt.push(FmtTag::Strikethrough),
            MdTag::CodeBlock => {
                self.in_code = true;
                self.code = Vec::new();
                self.lang = match content {
                    MdContent::Fence(info) => {
                        let t: String = trimmed(info.as_str());
                        let (word, _): (String, String) = split_head(t.as_str());
                        if word.as_str().is_empty() {
                            None
                        } else {
                            Some(word)
                        }
                    },
                    _ => None,
                };
                assert(self@.code =~= Seq::empty());
            },
            MdTag::BlockQuote => {
                let inner: Vec<Block> = Vec::new();
                assert(block_views(inner@) =~= Seq::<BlockView>::empty());
                self.push_builder(BlockBuilder::Quote(inner));
            },
            MdTag::List => {
                let start: u64 = match content {
                    MdContent::ListStart(n) => *n,
                    _ => 0,
                };
                self.counters.push(start);
            },
            MdTag::Item => {
                let marker: String = self.next_marker();
                let inner: Vec<Block> = Vec::new();
                assert(block_views(inner@) =~= Seq::<BlockView>::empty());
                self.push_builder(BlockBuilder::Item(marker, inner));
            },
            MdTag::Other => {},
        }
    }

    fn unformat(&mut self)
        ensures
            final(self)@ == old(self)@.unformatted(),
    {
        let _ = self.fmt.pop();
        assert(old(self).fmt@.len() == 0 ==> self.fmt@ =~= old(self).fmt@);
    }

    fn end(&mut self, tag: MdTag)
        ensures
            final(self)@ == old(self)@.ended(tag),
    {
        match tag {
            MdTag::Paragraph => {
                self.finish_line();
                let lines: Vec<Line> = self.take_lines();
                self.push_block(Block::Text { lines });
            },
            MdTag::Heading => {
                self.finish_line();
                let lines: Vec<Line> = self.take_lines();
                self.unformat();
                self.push_block(Block::Text { lines });
            },
            MdTag::Emphasis | MdTag::Strong | MdTag::Strikethrough => self.unformat(),
            MdTag::CodeBlock => {
                let mut lines: Vec<String> = Vec::new();
                lines.append(&mut self.code);
                let lang: Option<String> = self.lang.take();
                self.in_code = false;
                proof {
                    assert(lines@ =~= old(self).code@);
                    assert(self@.code =~= Seq::empty());
                }
                self.push_block(Block::Code { lang, lines });
            },
            MdTag::BlockQuote => {
                self.flush_text_block();
                let ghost done = self@;
                let top: Option<BlockBuilder> = self.stack.pop();
                assert(self@.stack =~= done.popped().stack);
                if let Some(BlockBuilder::Quote(inner)) = top {
                    self.push_block(Block::Quote { inner });
                }
            },
            MdTag::Item => {
                self.flush_text_block();
                let ghost done = self@;
                let top: Option<BlockBuilder> = self.stack.pop();
                assert(self@.stack =~= done.popped().stack);
                if let Some(BlockBuilder::Item(marker, inner)) = top {
                    self.push_block(Block::Item { marker, inner });
                }
            },
            MdTag::List => {
                let _ = self.counters.pop();
                assert(old(self).counters@.len() == 0 ==> self.counters@ =~= old(self).counters@);
            },
            MdTag::Other => {},
        }
    }

    /// Text outside a code block. Words and surplus blanks are runs of their own, so the wrapper can rejoin them.
    fn push_text(&mut self, text: &str)
        ensures
            final(self)@ == (ParseView {
                runs: old(self)@.runs + word_runs(split_on(text@, ' '), old(self)@.text_style()),
                ..old(self)@
            }),
    {
        let style: TextStyle = self.style();
        let words: Vec<String> = split(text, ' ');
        let ghost v = views(words@);
        let ghost all = word_runs(v, style);
        let mut i: usize = 0;
        assert(old(self)@.runs + all.take(0) =~= old(self)@.runs);
        while i < words.len()
            invariant
                i <= words@.len(),
                v == views(words@),
                all == word_runs(v, style),
                self@ == (ParseView { runs: old(self)@.runs + all.take(i as int), ..old(self)@ }),
            decreases words@.len() - i,
        {
            let ghost before = self@;
            if words[i].as_str().is_empty() {
                push_span(&mut self.runs, Span::styled(" ".to_owned(), style));
            } else {
                push_span(&mut self.runs, Span::styled(words[i].clone(), style));
            }
            assert(self@.runs =~= old(self)@.runs + all.take(i as int + 1));
            i = i + 1;
        }
        assert(all.take(all.len() as int) =~= all);
    }

    fn text(&mut self, t: &str)
        ensures
            final(self)@ == old(self)@.texted(t@),
    {
        if self.in_code {
            let mut more: Vec<String> = split(t, '\n');
            let ghost m = more@;
            self.code.append(&mut more);
            assert(self@.code =~= old(self)@.code + views(m));
        } else {
            self.push_text(t);
        }
    }

    fn break_line(&mut self)
        ensures
            final(self)@ == old(self)@.broken(),
    {
        if self.in_code {
            let blank: String = String::new();
            assert(blank@ =~= Seq::<char>::empty());
            self.code.push(blank);
            assert(self@.code =~= old(self)@.code.push(Seq::empty()));
        } else {
            let mut taken: Vec<Span> = Vec::new();
            taken.append(&mut self.runs);
            assert(taken@ =~= old(self).runs@);
            push_line(&mut self.lines, Line { spans: taken });
            assert(self@.runs =~= Seq::empty());
        }
    }

    fn inline(&mut self, inline: MdInline, content: &MdContent)
        ensures
            final(self)@ == old(self)@.inlined(inline, content@),
    {
        match inline {
            MdInline::Text
            | MdInline::Html
            | MdInline::InlineHtml
            | MdInline::InlineMath
            | MdInline::DisplayMath
            | MdInline::FootnoteReference => {
                let text: String = text_of(content);
                self.text(text.as_str());
            },
            MdInline::Code => {
                let style: TextStyle = ink(Ink::CodeFg).bg(Ink::CodeBg.color()).bold();
                push_span(&mut self.runs, Span::styled(text_of(content), style));
            },
            MdInline::SoftBreak | MdInline::HardBreak => self.break_line(),
            MdInline::Rule | MdInline::TaskListMarker | MdInline::Structure => {},
        }
    }
}

fn text_of(content: &MdContent) -> (r: String)
    ensures
        r@ == carried(content@),
{
    match content {
        MdContent::Text(t) => t.clone(),
        _ => {
            let blank: String = String::new();
            assert(blank@ =~= Seq::<char>::empty());
            blank
        },
    }
}

/// Collect the blocks of an event stream, with `base` as the default text style.
pub fn collect_blocks(
    base: TextStyle,
    marks: &Vec<MdMark>,
    inlines: &Vec<MdInline>,
    contents: &Vec<MdContent>,
) -> (r: Vec<Block>)
    requires
        marks@.len() == inlines@.len(),
        marks@.len() == contents@.len(),
    ensures
        block_views(r@) == blocks_of(base, marks@, inlines@, content_views(contents@)),
{
    let mut ctx: ParseCtx = ParseCtx::new(base);
    let ghost c = content_views(contents@);
    let mut i: usize = 0;
    while i < marks.len()
        invariant
            i <= marks@.len(),
            marks@.len() == inlines@.len(),
            marks@.len() == contents@.len(),
            c == content_views(contents@),
            ctx@ == ParseView::new(base).after(marks@, inlines@, c, i as int),
        decreases marks@.len() - i,
    {
        assert(c[i as int] == contents@[i as int]@);
        match marks[i] {
            MdMark::Start(tag) => ctx.start(tag, &contents[i]),
            MdMark::End(tag) => ctx.end(tag),
            MdMark::Inline => ctx.inline(inlines[i], &contents[i]),
        }
        i = i + 1;
    }
    ctx.flush_text_block();
    ctx.blocks
}

/// Parse `markdown` into blocks with `base` as the default text style.
pub fn parse(markdown: &str, base: TextStyle) -> (r: Vec<Block>)
    ensures
        block_views(r@) == parsed_blocks(markdown@, base),
{
    let marks: Vec<MdMark> = read_marks(markdown, EXTENSIONS);
    let inlines: Vec<MdInline> = read_inlines(markdown, EXTENSIONS);
    let contents: Vec<MdContent> = read_contents(markdown, EXTENSIONS);
    assert(content_views(contents@).len() == contents@.len());
    collect_blocks(base, &marks, &inlines, &contents)
}

} // verus!
