//! The memoized entry point of the markdown renderer.
use vstd::prelude::*;
use crate::infrastructure::render::line::{clone_lines, line_views, Line, SpanView};
use crate::infrastructure::render::markdown::parse::{parse, parsed_blocks, Block};
use crate::infrastructure::render::markdown::render::{
    one_or_more, page_rows, render_blocks, Highlighter,
};
use crate::style::TextStyle;

verus! {

/// Upper bound on memoized renders before the cache is cleared. Transcript items are immutable once past, so they
/// hit the cache every frame; only the streaming item and width changes miss. Cleared wholesale on overflow (cheap,
/// re-warms in one frame) rather than evicting per entry.
pub const MAX_RENDER_CACHE: usize = 512;

/// The rows of a markdown text at a width, with `base` as the default text style.
pub open spec fn rendered(
    h: Highlighter,
    markdown: Seq<char>,
    base: TextStyle,
    width: int,
) -> Seq<Seq<SpanView>> {
    page_rows(parsed_blocks(markdown, base), one_or_more(width), h)
}

/// A memoized render. The key is the inputs themselves, so that no entry can answer for another text.
struct Entry {
    markdown: String,
    base: TextStyle,
    width: usize,
    lines: Vec<Line>,
}

/// The markdown renderer: the highlighter, and the renders it remembers.
pub struct Renderer {
    highlighter: Highlighter,
    entries: Vec<Entry>,
}

impl Renderer {
    /// What the renderer highlights code with.
    pub closed spec fn highlighter(self) -> Highlighter {
        self.highlighter
    }

    /// Every remembered render is what rendering its key gives, and there are not too many of them.
    pub closed spec fn wf(self) -> bool {
        &&& self.entries@.len() <= MAX_RENDER_CACHE
        &&& forall|i: int|
            0 <= i < self.entries@.len() ==> line_views((#[trigger] self.entries@[i]).lines@) == rendered(
                self.highlighter,
                self.entries@[i].markdown@,
                self.entries@[i].base,
                self.entries@[i].width as int,
            )
    }

    /// The number of remembered renders.
    pub closed spec fn remembered(self) -> nat {
        self.entries@.len()
    }

    /// A renderer that remembers nothing yet.
    pub fn new(highlighter: Highlighter) -> (r: Renderer)
        ensures
            r.wf(),
            r.highlighter() == highlighter,
            r.remembered() == 0,
    {
        Renderer { highlighter, entries: Vec::new() }
    }

    /// Whether a fenced block tagged with `token` gets highlighted.
    pub fn recognizes(&self, token: &str) -> (r: bool)
        ensures
            r == crate::infrastructure::render::markdown::render::token_known(
                self.highlighter().set,
                token@,
            ),
    {
        self.highlighter.recognizes(token)
    }

    fn render_uncached(&self, markdown: &str, base: TextStyle, width: usize) -> (r: Vec<Line>)
        ensures
            line_views(r@) == rendered(self.highlighter, markdown@, base, width as int),
            r@.len() >= 1,
    {
        let blocks: Vec<Block> = parse(markdown, base);
        render_blocks(
            &self.highlighter,
            &blocks,
            if width < 1 {
                1
            } else {
                width
            },
        )
    }

    /// Render `markdown` to a wrapped, styled list of rows at `width` columns, with `base` as the default text
    /// style. Memoized: a re-render of unchanged content at the same width returns the remembered rows instead of
    /// parsing again.
    pub fn render(&mut self, markdown: &str, base: TextStyle, width: usize) -> (r: Vec<Line>)
        requires
            old(self).wf(),
        ensures
            line_views(r@) == rendered(old(self).highlighter(), markdown@, base, width as int),
            final(self).wf(),
            final(self).highlighter() == old(self).highlighter(),
    {
        let key: String = markdown.to_owned();
        let mut i: usize = 0;
        while i < self.entries.len()
            invariant
                i <= self.entries@.len(),
                key@ == markdown@,
                self.wf(),
                *self == *old(self),
            decreases self.entries@.len() - i,
        {
            let entry = &self.entries[i];
            if entry.width == width && entry.base == base && entry.markdown == key {
                return clone_lines(&entry.lines);
            }
            i = i + 1;
        }
        let lines: Vec<Line> = self.render_uncached(markdown, base, width);
        if self.entries.len() >= MAX_RENDER_CACHE {
            self.entries = Vec::new();
        }
        let kept: Vec<Line> = clone_lines(&lines);
        let ghost before = self.entries@;
        self.entries.push(Entry { markdown: key, base, width, lines: kept });
        assert forall|k: int| 0 <= k < self.entries@.len() implies line_views(
            (#[trigger] self.entries@[k]).lines@,
        ) == rendered(
            self.highlighter,
            self.entries@[k].markdown@,
            self.entries@[k].base,
            self.entries@[k].width as int,
        ) by {
            if k < before.len() {
                assert(self.entries@[k] == before[k]);
            }
        }
        lines
    }
}

} // verus!
