//! Styled text rows, as plain values.
use vstd::prelude::*;
use crate::style::TextStyle;

verus! {

/// A run of text in one style.
#[derive(Debug, Clone, PartialEq, Eq)]
pub struct Span {
    pub content: String,
    pub style: TextStyle,
}

/// One visual row.
#[derive(Debug, Clone, PartialEq, Eq)]
pub struct Line {
    pub spans: Vec<Span>,
}

/// The contents of a run.
pub struct SpanView {
    pub text: Seq<char>,
    pub style: TextStyle,
}

impl View for Span {
    type V = SpanView;

    open spec fn view(&self) -> SpanView {
        SpanView { text: self.content@, style: self.style }
    }
}

/// The contents of each run of a list.
pub open spec fn span_views(v: Seq<Span>) -> Seq<SpanView> {
    Seq::new(v.len(), |i: int| v[i]@)
}

impl View for Line {
    type V = Seq<SpanView>;

    open spec fn view(&self) -> Seq<SpanView> {
        span_views(self.spans@)
    }
}

/// The contents of each row of a list.
pub open spec fn line_views(v: Seq<Line>) -> Seq<Seq<SpanView>> {
    Seq::new(v.len(), |i: int| v[i]@)
}

/// A run of a text in a style.
pub open spec fn styled_run(text: Seq<char>, style: TextStyle) -> SpanView {
    SpanView { text, style }
}

/// A row of one run.
pub open spec fn styled_row(text: Seq<char>, style: TextStyle) -> Seq<SpanView> {
    seq![SpanView { text, style }]
}

/// The text of a row.
pub open spec fn row_text(row: Seq<SpanView>) -> Seq<char>
    decreases row.len(),
{
    if row.len() == 0 {
        Seq::empty()
    } else {
        row_text(row.drop_last()) + row.last().text
    }
}

impl Span {
    pub fn styled(content: String, style: TextStyle) -> (r: Span)
        ensures
            r@ == styled_run(content@, style),
    {
        Span { content, style }
    }

    /// A run without a style of its own.
    pub fn raw(content: String) -> (r: Span)
        ensures
            r@ == styled_run(content@, TextStyle::plain()),
    {
        Span { content, style: TextStyle::new() }
    }

    /// A copy of the run.
    pub fn duplicate(&self) -> (r: Span)
        ensures
            r@ == self@,
    {
        Span { content: self.content.clone(), style: self.style }
    }
}

/// A copy of a list of runs.
pub fn clone_spans(v: &Vec<Span>) -> (r: Vec<Span>)
    ensures
        span_views(r@) == span_views(v@),
{
    let mut out: Vec<Span> = Vec::new();
    let mut i: usize = 0;
    while i < v.len()
        invariant
            i <= v@.len(),
            out@.len() == i,
            forall|k: int| 0 <= k < i ==> (#[trigger] out@[k])@ == v@[k]@,
        decreases v@.len() - i,
    {
        out.push(v[i].duplicate());
        i = i + 1;
    }
    assert(span_views(out@) =~= span_views(v@));
    out
}

/// A copy of a list of rows.
pub fn clone_lines(v: &Vec<Line>) -> (r: Vec<Line>)
    ensures
        line_views(r@) == line_views(v@),
{
    let mut out: Vec<Line> = Vec::new();
    let mut i: usize = 0;
    while i < v.len()
        invariant
            i <= v@.len(),
            out@.len() == i,
            forall|k: int| 0 <= k < i ==> (#[trigger] out@[k])@ == v@[k]@,
        decreases v@.len() - i,
    {
        out.push(Line { spans: clone_spans(&v[i].spans) });
        i = i + 1;
    }
    assert(line_views(out@) =~= line_views(v@));
    out
}

impl Line {
    /// An empty row.
    pub fn blank() -> (r: Line)
        ensures
            r@ == Seq::<SpanView>::empty(),
    {
        let r = Line { spans: Vec::new() };
        assert(r@ =~= Seq::<SpanView>::empty());
        r
    }

    /// A row of one run.
    pub fn styled(content: String, style: TextStyle) -> (r: Line)
        ensures
            r@ == styled_row(content@, style),
    {
        let mut spans: Vec<Span> = Vec::new();
        spans.push(Span { content, style });
        let r = Line { spans };
        assert(r@ =~= styled_row(content@, style));
        r
    }

    /// A row of several runs.
    pub fn from_spans(spans: Vec<Span>) -> (r: Line)
        ensures
            r@ == span_views(spans@),
    {
        Line { spans }
    }
}

/// Append a row.
pub fn push_line(out: &mut Vec<Line>, line: Line)
    ensures
        line_views(final(out)@) == line_views(old(out)@).push(line@),
{
    out.push(line);
    assert(line_views(out@) =~= line_views(old(out)@).push(line@));
}

/// Append a run.
pub fn push_span(out: &mut Vec<Span>, span: Span)
    ensures
        span_views(final(out)@) == span_views(old(out)@).push(span@),
{
    out.push(span);
    assert(span_views(out@) =~= span_views(old(out)@).push(span@));
}

/// Append rows.
pub fn append_lines(out: &mut Vec<Line>, more: Vec<Line>)
    ensures
        line_views(final(out)@) == line_views(old(out)@) + line_views(more@),
{
    let mut more: Vec<Line> = more;
    let ghost m = more@;
    out.append(&mut more);
    assert(line_views(out@) =~= line_views(old(out)@) + line_views(m));
}

} // verus!
