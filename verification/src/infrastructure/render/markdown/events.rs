//! The event stream of a markdown text.
use vstd::prelude::*;
use pulldown_cmark::{CodeBlockKind, Event, Options, Parser, Tag, TagEnd};

verus! {

/// The markdown extensions in use: tables, strikethrough, task lists and smart punctuation, as the bits by which
/// the parser knows them.
pub const EXTENSIONS: u32 = 0b111010;

/// The tags that the front-end tells apart.
#[derive(Debug, Clone, Copy, PartialEq, Eq, Structural)]
pub enum MdTag {
    Paragraph,
    Heading,
    Emphasis,
    Strong,
    Strikethrough,
    CodeBlock,
    BlockQuote,
    List,
    Item,
    Other,
}

/// Where an event stands in the structure: it opens a tag, closes one, or is inline content.
#[derive(Debug, Clone, Copy, PartialEq, Eq, Structural)]
pub enum MdMark {
    Start(MdTag),
    End(MdTag),
    Inline,
}

/// Which inline content an event is.
#[derive(Debug, Clone, Copy, PartialEq, Eq, Structural)]
pub enum MdInline {
    Text,
    Code,
    Html,
    InlineHtml,
    InlineMath,
    DisplayMath,
    FootnoteReference,
    SoftBreak,
    HardBreak,
    Rule,
    TaskListMarker,
    /// A tag opens or closes.
    Structure,
}

/// What an event carries.
#[derive(Debug, Clone, PartialEq, Eq)]
pub enum MdContent {
    /// The info string of a fenced code block that opens; it names the language.
    Fence(String),
    /// The first number of an ordered list that opens.
    ListStart(u64),
    /// The text of inline content.
    Text(String),
    Nothing,
}

/// What an event carries, as plain text.
pub enum ContentView {
    Fence(Seq<char>),
    ListStart(u64),
    Text(Seq<char>),
    Nothing,
}

impl View for MdContent {
    type V = ContentView;

    open spec fn view(&self) -> ContentView {
        match *self {
            MdContent::Fence(t) => ContentView::Fence(t@),
            MdContent::ListStart(n) => ContentView::ListStart(n),
            MdContent::Text(t) => ContentView::Text(t@),
            MdContent::Nothing => ContentView::Nothing,
        }
    }
}

/// What each event of a list carries.
pub open spec fn content_views(v: Seq<MdContent>) -> Seq<ContentView> {
    Seq::new(v.len(), |i: int| v[i]@)
}

/// The event stream of a markdown text under some extensions: of each event where it stands in the structure, which
/// inline content it is, and what it carries.
pub uninterp spec fn md_events(markdown: Seq<char>, extensions: u32) -> Seq<(MdMark, MdInline, ContentView)>;

/// Where each event stands in the structure.
pub open spec fn marks_of(events: Seq<(MdMark, MdInline, ContentView)>) -> Seq<MdMark> {
    Seq::new(events.len(), |i: int| events[i].0)
}

/// Which inline content each event is.
pub open spec fn inlines_of(events: Seq<(MdMark, MdInline, ContentView)>) -> Seq<MdInline> {
    Seq::new(events.len(), |i: int| events[i].1)
}

/// What each event carries.
pub open spec fn contents_of(events: Seq<(MdMark, MdInline, ContentView)>) -> Seq<ContentView> {
    Seq::new(events.len(), |i: int| events[i].2)
}

/// `pulldown_cmark::Parser::new_ext`, of each event its place in the structure. How markdown parses is not spelled
/// out: the stream is named.
#[verifier::external_body]
pub(crate) fn read_marks(markdown: &str, extensions: u32) -> (r: Vec<MdMark>)
    ensures
        r@ == marks_of(md_events(markdown@, extensions)),
{
    let tag = |end| match end {
        TagEnd::Paragraph => MdTag::Paragraph, TagEnd::Heading(_) => MdTag::Heading,
        TagEnd::Emphasis => MdTag::Emphasis, TagEnd::Strong => MdTag::Strong,
        TagEnd::Strikethrough => MdTag::Strikethrough, TagEnd::CodeBlock => MdTag::CodeBlock,
        TagEnd::BlockQuote(_) => MdTag::BlockQuote, TagEnd::List(_) => MdTag::List,
        TagEnd::Item => MdTag::Item, _ => MdTag::Other,
    };
    let mark = |event| match event {
        Event::Start(start) => MdMark::Start(tag(Tag::to_end(&start))),
        Event::End(end) => MdMark::End(tag(end)),
        _ => MdMark::Inline,
    };
    Parser::new_ext(markdown, Options::from_bits_truncate(extensions)).map(mark).collect()
}

/// `pulldown_cmark::Parser::new_ext`, of each event which inline content it is. How markdown parses is not spelled
/// out: the stream is named.
#[verifier::external_body]
pub(crate) fn read_inlines(markdown: &str, extensions: u32) -> (r: Vec<MdInline>)
    ensures
        r@ == inlines_of(md_events(markdown@, extensions)),
{
    let inline = |event| match event {
        Event::Text(_) => MdInline::Text, Event::Code(_) => MdInline::Code,
        Event::Html(_) => MdInline::Html, Event::InlineHtml(_) => MdInline::InlineHtml,
        Event::InlineMath(_) => MdInline::InlineMath, Event::DisplayMath(_) => MdInline::DisplayMath,
        Event::FootnoteReference(_) => MdInline::FootnoteReference,
        Event::SoftBreak => MdInline::SoftBreak, Event::HardBreak => MdInline::HardBreak,
        Event::Rule => MdInline::Rule, Event::TaskListMarker(_) => MdInline::TaskListMarker,
        Event::Start(_) | Event::End(_) => MdInline::Structure,
    };
    Parser::new_ext(markdown, Options::from_bits_truncate(extensions)).map(inline).collect()
}

/// `pulldown_cmark::Parser::new_ext`, of each event what it carries. How markdown parses is not spelled
/// out: the stream is named.
#[verifier::external_body]
pub(crate) fn read_contents(markdown: &str, extensions: u32) -> (r: Vec<MdContent>)
    ensures
        content_views(r@) == contents_of(md_events(markdown@, extensions)),
{
    let content = |event| match event {
        Event::Start(Tag::CodeBlock(CodeBlockKind::Fenced(s))) => MdContent::Fence(s.to_string()),
        Event::Start(Tag::List(Some(n))) => MdContent::ListStart(n),
        Event::Text(s) | Event::Code(s) | Event::Html(s) | Event::InlineHtml(s) | Event::InlineMath(s)
        | Event::DisplayMath(s) | Event::FootnoteReference(s) => MdContent::Text(s.to_string()),
        _ => MdContent::Nothing,
    };
    Parser::new_ext(markdown, Options::from_bits_truncate(extensions)).map(content).collect()
}

} // verus!
