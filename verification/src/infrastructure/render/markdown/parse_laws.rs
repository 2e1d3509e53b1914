//! What the markdown parser keeps: the numbers of a list, the text of a paragraph, and what stands inside what.
use vstd::prelude::*;
use crate::infrastructure::render::cells::{glued, glued_adds_up, unspaced, unspaced_adds_up};
use crate::infrastructure::render::line::SpanView;
use crate::infrastructure::render::markdown::events::{ContentView, MdInline, MdMark, MdTag};
use crate::infrastructure::render::markdown::parse::{
    blocks_of, carried, word_runs, BlockView, BuilderView, FmtTag, ParseView,
};
use crate::infrastructure::render::theme::Ink;
use crate::style::TextStyle;
use crate::text::{decimal, decimal_reads_back, head_of, split_on, trim};

verus! {

// ---- lists ----

/// The lists that are open behind the first `n` events, from the outermost: the number each began with, 0 for bullets,
/// and how many items it has had.
pub open spec fn open_lists(marks: Seq<MdMark>, contents: Seq<ContentView>, n: int) -> Seq<(int, int)>
    decreases n,
{
    if n <= 0 {
        Seq::empty()
    } else {
        let before = open_lists(marks, contents, n - 1);
        match marks[n - 1] {
            MdMark::Start(MdTag::List) => before.push(
                (
                    match contents[n - 1] {
                        ContentView::ListStart(k) => k as int,
                        _ => 0,
                    },
                    0int,
                ),
            ),
            MdMark::Start(MdTag::Item) => if before.len() == 0 {
                before
            } else {
                before.drop_last().push((before.last().0, before.last().1 + 1))
            },
            MdMark::End(MdTag::List) => if before.len() == 0 {
                before
            } else {
                before.drop_last()
            },
            _ => before,
        }
    }
}

/// The next number of a list: bullets have none.
spec fn due(list: (int, int)) -> int {
    if list.0 == 0 {
        0
    } else if list.0 + list.1 <= u64::MAX {
        list.0 + list.1
    } else {
        u64::MAX as int
    }
}

proof fn flushing_keeps_the_counters(s: ParseView)
    ensures
        s.flushed().counters == s.counters,
        s.line_finished().counters == s.counters,
{
}

proof fn counters_count(base: TextStyle, marks: Seq<MdMark>, inlines: Seq<MdInline>, contents: Seq<ContentView>, n: int)
    requires
        0 <= n <= marks.len(),
    ensures
        ({
            let s = ParseView::new(base).after(marks, inlines, contents, n);
            let lists = open_lists(marks, contents, n);
            &&& s.counters.len() == lists.len()
            &&& forall|i: int|
                0 <= i < lists.len() ==> (#[trigger] lists[i]).0 >= 0 && lists[i].1 >= 0 && s.counters[i] == due(lists[i])
        }),
    decreases n,
{
    if n > 0 {
        counters_count(base, marks, inlines, contents, n - 1);
        let s = ParseView::new(base).after(marks, inlines, contents, n - 1);
        let t = ParseView::new(base).after(marks, inlines, contents, n);
        let before = open_lists(marks, contents, n - 1);
        let lists = open_lists(marks, contents, n);
        flushing_keeps_the_counters(s);
        assert(t == s.step(marks[n - 1], inlines[n - 1], contents[n - 1]));
        assert forall|i: int| 0 <= i < lists.len() implies (#[trigger] lists[i]).0 >= 0 && lists[i].1 >= 0
            && t.counters[i] == due(lists[i]) by {
            if i < before.len() {
                assert(before[i].0 >= 0);
            }
        }
    }
}

/// List items are numbered. The item that opens behind `p` events gets the number that its own list began with plus the
/// items that this list has had before it, however lists are nested in it or around it; an item of a bullet list, or
/// outside of any list, gets a dash.
pub proof fn items_are_numbered(
    base: TextStyle,
    marks: Seq<MdMark>,
    inlines: Seq<MdInline>,
    contents: Seq<ContentView>,
    p: int,
)
    requires
        0 <= p < marks.len(),
        marks[p] == MdMark::Start(MdTag::Item),
    ensures
        ({
            let lists = open_lists(marks, contents, p);
            let s = ParseView::new(base).after(marks, inlines, contents, p + 1);
            &&& s.stack.len() > 0 && s.stack.last() is Item && s.stack.last()->Item_1.len() == 0
            &&& (lists.len() == 0 || lists.last().0 == 0) ==> s.stack.last()->Item_0 == "- "@
            &&& lists.len() > 0 && lists.last().0 > 0 && lists.last().0 + lists.last().1 <= u64::MAX
                ==> s.stack.last()->Item_0 == decimal(lists.last().0 + lists.last().1) + ". "@
        }),
{
    counters_count(base, marks, inlines, contents, p);
    let s = ParseView::new(base).after(marks, inlines, contents, p);
    let lists = open_lists(marks, contents, p);
    if lists.len() > 0 {
        assert(s.counters.last() == due(lists[lists.len() - 1]));
    }
}

/// The items that open among the first `n` events.
pub open spec fn items_begun(marks: Seq<MdMark>, n: int) -> int
    decreases n,
{
    if n <= 0 {
        0
    } else {
        items_begun(marks, n - 1) + if marks[n - 1] == MdMark::Start(MdTag::Item) {
            1int
        } else {
            0
        }
    }
}

/// The items that close among the first `n` events.
pub open spec fn items_done(marks: Seq<MdMark>, n: int) -> int
    decreases n,
{
    if n <= 0 {
        0
    } else {
        items_done(marks, n - 1) + if marks[n - 1] == MdMark::End(MdTag::Item) {
            1int
        } else {
            0
        }
    }
}

/// The events are one ordered list from the number `n`: items one after the other, with no list or quote inside them.
pub open spec fn is_ordered_list(marks: Seq<MdMark>, contents: Seq<ContentView>, n: u64) -> bool {
    let len = marks.len();
    &&& len >= 2
    &&& marks[0] == MdMark::Start(MdTag::List) && contents[0] == ContentView::ListStart(n)
    &&& marks[len - 1] == MdMark::End(MdTag::List)
    &&& items_begun(marks, len as int) == items_done(marks, len as int)
    &&& forall|i: int|
        0 < i < len - 1 ==> match #[trigger] marks[i] {
            MdMark::Start(MdTag::Item) => items_begun(marks, i) == items_done(marks, i),
            MdMark::Start(tag) => items_begun(marks, i) == items_done(marks, i) + 1 && tag != MdTag::List && tag
                != MdTag::BlockQuote,
            MdMark::End(tag) => items_begun(marks, i) == items_done(marks, i) + 1 && tag != MdTag::List && tag
                != MdTag::BlockQuote,
            MdMark::Inline => items_begun(marks, i) == items_done(marks, i) + 1,
        }
}

/// The finished blocks are items, numbered from `n` on.
pub open spec fn numbered_from(blocks: Seq<BlockView>, n: int) -> bool {
    forall|k: int|
        0 <= k < blocks.len() ==> (#[trigger] blocks[k] matches BlockView::Item { marker, inner } && marker == decimal(
            n + k,
        ) + ". "@)
}

spec fn list_state(s: ParseView, marks: Seq<MdMark>, n: u64, i: int) -> bool {
    let begun = items_begun(marks, i);
    let done = items_done(marks, i);
    &&& s.blocks.len() == done
    &&& numbered_from(s.blocks, n as int)
    &&& s.counters.len() == 1 && s.counters[0] == n + begun
    &&& if begun == done {
        s.stack.len() == 0 && s.runs.len() == 0 && s.lines.len() == 0
    } else {
        begun == done + 1 && s.stack.len() == 1 && (s.stack[0] matches BuilderView::Item(marker, inner) && marker
            == decimal(n + done) + ". "@)
    }
}

proof fn begun_grows(marks: Seq<MdMark>, i: int, j: int)
    requires
        0 <= i <= j,
    ensures
        0 <= items_begun(marks, i) <= items_begun(marks, j),
        0 <= items_done(marks, i) <= items_done(marks, j),
    decreases j,
{
    if j > 0 {
        if i < j {
            begun_grows(marks, i, j - 1);
        } else {
            begun_grows(marks, i - 1, j - 1);
        }
    }
}

proof fn list_step(
    base: TextStyle,
    marks: Seq<MdMark>,
    inlines: Seq<MdInline>,
    contents: Seq<ContentView>,
    n: u64,
    i: int,
)
    requires
        is_ordered_list(marks, contents, n),
        n > 0,
        n + items_begun(marks, marks.len() as int) <= u64::MAX,
        1 <= i <= marks.len() - 1,
    ensures
        list_state(ParseView::new(base).after(marks, inlines, contents, i), marks, n, i),
    decreases i,
{
    reveal_with_fuel(ParseView::after, 2);
    if i == 1 {
        reveal_with_fuel(items_begun, 2);
        reveal_with_fuel(items_done, 2);
        assert(marks[0] == MdMark::Start(MdTag::List));
    } else {
        list_step(base, marks, inlines, contents, n, i - 1);
        begun_grows(marks, i, marks.len() as int);
        begun_grows(marks, i - 1, marks.len() as int);
        let s = ParseView::new(base).after(marks, inlines, contents, i - 1);
        let t = ParseView::new(base).after(marks, inlines, contents, i);
        assert(t == s.step(marks[i - 1], inlines[i - 1], contents[i - 1]));
        match marks[i - 1] {
            MdMark::Start(MdTag::Item) => {
                assert(t.counters =~= seq![(n + items_begun(marks, i)) as u64]);
            },
            MdMark::End(MdTag::Item) => {
                let f = s.flushed();
                assert(f.stack.len() == 1 && f.stack[0] is Item && f.stack[0]->Item_0 == s.stack[0]->Item_0);
                assert(t.blocks.drop_last() =~= s.blocks);
                assert forall|k: int| 0 <= k < t.blocks.len() implies (#[trigger] t.blocks[k] matches BlockView::Item {
                    marker,
                    inner,
                } && marker == decimal(n + k) + ". "@) by {
                    if k < s.blocks.len() {
                        assert(t.blocks[k] == s.blocks[k]);
                    }
                }
            },
            _ => {
                assert(t.blocks == s.blocks);
                assert(t.stack.len() == 1 && t.stack[0] is Item && t.stack[0]->Item_0 == s.stack[0]->Item_0);
            },
        }
    }
}

/// An ordered list comes out as its items, in order and numbered: the list that begins at `n` is one block per item, and
/// the marker of its `k`th item is the number `n + k` and a full stop. No two items share a marker.
pub proof fn an_ordered_list_counts_its_items(
    base: TextStyle,
    marks: Seq<MdMark>,
    inlines: Seq<MdInline>,
    contents: Seq<ContentView>,
    n: u64,
)
    requires
        is_ordered_list(marks, contents, n),
        n > 0,
        n + items_begun(marks, marks.len() as int) <= u64::MAX,
    ensures
        blocks_of(base, marks, inlines, contents).len() == items_begun(marks, marks.len() as int),
        numbered_from(blocks_of(base, marks, inlines, contents), n as int),
        forall|j: int, k: int|
            #![trigger blocks_of(base, marks, inlines, contents)[j], blocks_of(base, marks, inlines, contents)[k]]
            0 <= j < k < blocks_of(base, marks, inlines, contents).len() ==> blocks_of(
                base,
                marks,
                inlines,
                contents,
            )[j]->marker != blocks_of(base, marks, inlines, contents)[k]->marker,
{
    let len = marks.len() as int;
    list_step(base, marks, inlines, contents, n, len - 1);
    let s = ParseView::new(base).after(marks, inlines, contents, len - 1);
    let t = ParseView::new(base).after(marks, inlines, contents, len);
    assert(t == s.step(marks[len - 1], inlines[len - 1], contents[len - 1]));
    assert(items_begun(marks, len) == items_begun(marks, len - 1));
    assert(items_done(marks, len) == items_done(marks, len - 1));
    let blocks = blocks_of(base, marks, inlines, contents);
    assert(blocks == s.blocks);
    assert forall|j: int, k: int|
        #![trigger blocks[j], blocks[k]]
        0 <= j < k < blocks.len() implies blocks[j]->marker != blocks[k]->marker by {
        decimal_reads_back(n + j);
        decimal_reads_back(n + k);
        let a = blocks[j]->marker;
        let b = blocks[k]->marker;
        if a == b {
            assert(a.take(a.len() - 2) =~= decimal(n + j)) by {
                reveal_strlit(". ");
            }
            assert(b.take(b.len() - 2) =~= decimal(n + k)) by {
                reveal_strlit(". ");
            }
        }
    }
}

// ---- paragraphs ----

/// The texts of a list of runs, one behind the other.
pub open spec fn runs_text(runs: Seq<SpanView>) -> Seq<char> {
    glued(Seq::new(runs.len(), |i: int| runs[i].text))
}

/// The texts of lines of runs, one behind the other.
pub open spec fn lines_text(lines: Seq<Seq<SpanView>>) -> Seq<char> {
    glued(Seq::new(lines.len(), |i: int| runs_text(lines[i])))
}

proof fn runs_text_adds_up(a: Seq<SpanView>, b: Seq<SpanView>)
    ensures
        runs_text(a + b) == runs_text(a) + runs_text(b),
{
    let x = Seq::new(a.len(), |i: int| a[i].text);
    let y = Seq::new(b.len(), |i: int| b[i].text);
    assert(Seq::new((a + b).len(), |i: int| (a + b)[i].text) =~= x + y);
    glued_adds_up(x, y);
}

proof fn lines_text_grows(lines: Seq<Seq<SpanView>>, more: Seq<SpanView>)
    ensures
        lines_text(lines.push(more)) == lines_text(lines) + runs_text(more),
{
    let x = Seq::new(lines.len(), |i: int| runs_text(lines[i]));
    let y = Seq::new(lines.push(more).len(), |i: int| runs_text(lines.push(more)[i]));
    assert(y.drop_last() =~= x);
}

proof fn words_say_the_text(words: Seq<Seq<char>>, style: TextStyle)
    ensures
        unspaced(runs_text(word_runs(words, style))) == unspaced(glued(words)),
    decreases words.len(),
{
    let runs = word_runs(words, style);
    if words.len() == 0 {
        assert(Seq::new(runs.len(), |i: int| runs[i].text) =~= words);
    } else {
        words_say_the_text(words.drop_last(), style);
        assert(runs =~= word_runs(words.drop_last(), style) + seq![runs.last()]);
        runs_text_adds_up(word_runs(words.drop_last(), style), seq![runs.last()]);
        reveal_with_fuel(glued, 2);
        let one = Seq::new(1, |i: int| seq![runs.last()][i].text);
        assert(one.drop_last() =~= Seq::<Seq<char>>::empty());
        assert(runs_text(seq![runs.last()]) =~= runs.last().text);
        unspaced_adds_up(runs_text(word_runs(words.drop_last(), style)), runs.last().text);
        unspaced_adds_up(glued(words.drop_last()), words.last());
        reveal_strlit(" ");
        reveal_with_fuel(unspaced, 2);
        assert(" "@.drop_last() =~= Seq::<char>::empty());
        if words.last().len() == 0 {
            assert(unspaced(" "@) =~= Seq::<char>::empty());
            assert(unspaced(words.last()) =~= Seq::<char>::empty());
        }
    }
}

proof fn split_says_the_text(s: Seq<char>)
    ensures
        unspaced(glued(split_on(s, ' '))) == unspaced(s),
    decreases s.len(),
{
    crate::infrastructure::render::cells::splitting_loses_blanks_only(s);
}

/// What the inline events from `from` up to `n` say: the text of all but breaks, rules and task markers.
pub open spec fn said(marks: Seq<MdMark>, inlines: Seq<MdInline>, contents: Seq<ContentView>, from: int, n: int) -> Seq<
    char,
>
    decreases n - from,
{
    if n <= from {
        Seq::empty()
    } else {
        said(marks, inlines, contents, from, n - 1) + if marks[n - 1] is Inline && !(inlines[n - 1] is SoftBreak
            || inlines[n - 1] is HardBreak || inlines[n - 1] is Rule || inlines[n - 1] is TaskListMarker
            || inlines[n - 1] is Structure) {
            carried(contents[n - 1])
        } else {
            Seq::empty()
        }
    }
}

/// The event is text, or opens or closes formatting of text.
pub open spec fn is_inside_a_paragraph(mark: MdMark) -> bool {
    match mark {
        MdMark::Inline => true,
        MdMark::Start(tag) => tag is Emphasis || tag is Strong || tag is Strikethrough || tag is Other,
        MdMark::End(tag) => tag is Emphasis || tag is Strong || tag is Strikethrough || tag is Other,
    }
}

spec fn collects(s: ParseView, t: ParseView, text: Seq<char>) -> bool {
    &&& t == (ParseView { runs: t.runs, lines: t.lines, fmt: t.fmt, ..s })
    &&& unspaced(lines_text(t.lines) + runs_text(t.runs)) == unspaced(text)
}

proof fn collecting(
    s: ParseView,
    marks: Seq<MdMark>,
    inlines: Seq<MdInline>,
    contents: Seq<ContentView>,
    n: int,
)
    requires
        !s.in_code,
        s.runs.len() == 0,
        s.lines.len() == 0,
        0 <= n <= marks.len(),
        forall|i: int| 0 <= i < marks.len() ==> is_inside_a_paragraph(#[trigger] marks[i]),
    ensures
        collects(s, s.after(marks, inlines, contents, n), said(marks, inlines, contents, 0, n)),
    decreases n,
{
    let t = s.after(marks, inlines, contents, n);
    if n == 0 {
        assert(Seq::new(s.runs.len(), |i: int| s.runs[i].text) =~= Seq::<Seq<char>>::empty());
        assert(Seq::new(s.lines.len(), |i: int| runs_text(s.lines[i])) =~= Seq::<Seq<char>>::empty());
        assert(lines_text(t.lines) + runs_text(t.runs) =~= Seq::<char>::empty());
    } else {
        collecting(s, marks, inlines, contents, n - 1);
        let p = s.after(marks, inlines, contents, n - 1);
        let before = said(marks, inlines, contents, 0, n - 1);
        let text = carried(contents[n - 1]);
        assert(t == p.step(marks[n - 1], inlines[n - 1], contents[n - 1]));
        assert(is_inside_a_paragraph(marks[n - 1]));
        assert(before + Seq::<char>::empty() =~= before);
        unspaced_adds_up(before, text);
        if marks[n - 1] is Inline {
            match inlines[n - 1] {
                MdInline::Text
                | MdInline::Html
                | MdInline::InlineHtml
                | MdInline::InlineMath
                | MdInline::DisplayMath
                | MdInline::FootnoteReference => {
                    let words = split_on(text, ' ');
                    let more = word_runs(words, p.text_style());
                    words_say_the_text(words, p.text_style());
                    split_says_the_text(text);
                    runs_text_adds_up(p.runs, more);
                    let old = lines_text(p.lines) + runs_text(p.runs);
                    assert(lines_text(t.lines) + runs_text(t.runs) =~= old + runs_text(more));
                    unspaced_adds_up(old, runs_text(more));
                },
                MdInline::Code => {
                    let run = t.runs.last();
                    assert(t.runs =~= p.runs + seq![run]);
                    runs_text_adds_up(p.runs, seq![run]);
                    reveal_with_fuel(glued, 2);
                    let one = Seq::new(1, |i: int| seq![run][i].text);
                    assert(one.drop_last() =~= Seq::<Seq<char>>::empty());
                    assert(runs_text(seq![run]) =~= text);
                    let old = lines_text(p.lines) + runs_text(p.runs);
                    assert(lines_text(t.lines) + runs_text(t.runs) =~= old + text);
                    unspaced_adds_up(old, text);
                },
                MdInline::SoftBreak | MdInline::HardBreak => {
                    lines_text_grows(p.lines, p.runs);
                    assert(Seq::new(t.runs.len(), |i: int| t.runs[i].text) =~= Seq::<Seq<char>>::empty());
                    assert(lines_text(t.lines) + runs_text(t.runs) =~= lines_text(p.lines) + runs_text(p.runs));
                },
                _ => {},
            }
        }
    }
}

/// The events of a paragraph add one block where the paragraph stands, inside the innermost open quote or item or at the
/// top, and this block says all that the events said: words, inline code, raw HTML, formulas and footnote marks, in
/// order, with nothing lost but blanks. Nothing else of what was parsed changes.
pub proof fn a_paragraph_keeps_its_text(
    s: ParseView,
    marks: Seq<MdMark>,
    inlines: Seq<MdInline>,
    contents: Seq<ContentView>,
    content: ContentView,
)
    requires
        !s.in_code,
        forall|i: int| 0 <= i < marks.len() ==> is_inside_a_paragraph(#[trigger] marks[i]),
    ensures
        ({
            let end = s.started(MdTag::Paragraph, content).after(
                marks,
                inlines,
                contents,
                marks.len() as int,
            ).ended(MdTag::Paragraph);
            exists|lines: Seq<Seq<SpanView>>|
                {
                    &&& end.blocks == s.with_block(BlockView::Text { lines }).blocks
                    &&& end.stack == #[trigger] s.with_block(BlockView::Text { lines }).stack
                    &&& end.counters == s.counters
                    &&& unspaced(lines_text(lines)) == unspaced(
                        said(marks, inlines, contents, 0, marks.len() as int),
                    )
                }
        }),
{
    let n = marks.len() as int;
    let open = s.started(MdTag::Paragraph, content);
    collecting(open, marks, inlines, contents, n);
    let t = open.after(marks, inlines, contents, n);
    let done = t.line_finished();
    lines_text_grows(t.lines, t.runs);
    if t.runs.len() == 0 {
        assert(Seq::new(t.runs.len(), |i: int| t.runs[i].text) =~= Seq::<Seq<char>>::empty());
        assert(lines_text(t.lines) + runs_text(t.runs) =~= lines_text(t.lines));
    }
    let end = t.ended(MdTag::Paragraph);
    let lines = done.lines;
    assert(end.stack == s.with_block(BlockView::Text { lines }).stack);
    assert(end.blocks == s.with_block(BlockView::Text { lines }).blocks);
}

/// A block lands in the innermost quote or item that is open, behind what that holds already, or at the top where none
/// is; everything around it stays.
pub proof fn blocks_land_in_the_innermost(s: ParseView, b: BlockView)
    ensures
        s.stack.len() == 0 ==> s.with_block(b).blocks == s.blocks.push(b) && s.with_block(b).stack == s.stack,
        s.stack.len() > 0 ==> {
            let t = s.with_block(b);
            &&& t.blocks == s.blocks
            &&& t.stack.len() == s.stack.len()
            &&& t.stack.drop_last() == s.stack.drop_last()
            &&& s.stack.last() matches BuilderView::Quote(inner) ==> t.stack.last() == BuilderView::Quote(inner.push(b))
            &&& s.stack.last() matches BuilderView::Item(marker, inner) ==> t.stack.last() == BuilderView::Item(
                marker,
                inner.push(b),
            )
        },
{
    assert(s.with_block(b).stack.drop_last() =~= s.stack.drop_last() || s.stack.len() == 0);
}

/// A quote or item that closes becomes a block of what it held, in the order in which it came; text that was still loose
/// in it comes last. A quote stays a quote, and an item keeps its marker.
pub proof fn what_closes_keeps_what_it_held(s: ParseView)
    requires
        s.stack.len() > 0,
    ensures
        ({
            let outer = ParseView { stack: s.stack.drop_last(), ..s };
            let loose = s.runs.len() > 0 || s.lines.len() > 0;
            let lines = if s.runs.len() > 0 {
                s.lines.push(s.runs)
            } else {
                s.lines
            };
            let last = if loose {
                seq![BlockView::Text { lines }]
            } else {
                Seq::empty()
            };
            &&& s.stack.last() matches BuilderView::Quote(inner) ==> {
                let block = BlockView::Quote { inner: inner + last };
                let t = s.ended(MdTag::BlockQuote);
                t.blocks == outer.with_block(block).blocks && t.stack == outer.with_block(block).stack
                    && t.runs.len() == 0 && t.lines.len() == 0
            }
            &&& s.stack.last() matches BuilderView::Item(marker, inner) ==> {
                let block = BlockView::Item { marker, inner: inner + last };
                let t = s.ended(MdTag::Item);
                t.blocks == outer.with_block(block).blocks && t.stack == outer.with_block(block).stack
                    && t.runs.len() == 0 && t.lines.len() == 0
            }
        }),
{
    let f = s.flushed();
    assert(f.stack.drop_last() =~= s.stack.drop_last());
    match s.stack.last() {
        BuilderView::Quote(inner) => {
            assert(inner + Seq::<BlockView>::empty() =~= inner);
            if s.runs.len() > 0 || s.lines.len() > 0 {
                let lines = s.line_finished().lines;
                assert(inner + seq![BlockView::Text { lines }] =~= inner.push(BlockView::Text { lines }));
            }
        },
        BuilderView::Item(marker, inner) => {
            assert(inner + Seq::<BlockView>::empty() =~= inner);
            if s.runs.len() > 0 || s.lines.len() > 0 {
                let lines = s.line_finished().lines;
                assert(inner + seq![BlockView::Text { lines }] =~= inner.push(BlockView::Text { lines }));
            }
        },
    }
}

/// A fenced block keeps its lines as they are, blank ones too, under the first word of its info string; text in it is
/// never taken for markup.
pub proof fn a_code_block_keeps_its_lines(s: ParseView, info: Seq<char>, text: Seq<char>)
    ensures
        ({
            let open = s.started(MdTag::CodeBlock, ContentView::Fence(info));
            let end = open.inlined(MdInline::Text, ContentView::Text(text)).ended(MdTag::CodeBlock);
            let lang = if head_of(trim(info)).len() == 0 {
                None
            } else {
                Some(head_of(trim(info)))
            };
            let block = BlockView::Code { lang, lines: split_on(text, '\n') };
            &&& end.blocks == s.with_block(block).blocks
            &&& end.stack == s.with_block(block).stack
            &&& end.runs == s.runs && end.lines == s.lines
            &&& !end.in_code
        }),
{
    assert(Seq::<Seq<char>>::empty() + split_on(text, '\n') =~= split_on(text, '\n'));
}

// ---- formatting ----

/// The text of a run does not depend on how it is formatted, and its style is that of the text around it with what is
/// open added: strong is bold, emphasis slanted, strikethrough crossed out, a heading bold in the heading colour. Closing
/// what was opened leaves the text behind it as it was before.
pub proof fn formatting_adds_to_the_style(s: ParseView, tag: MdTag, content: ContentView, t: Seq<char>)
    requires
        !s.in_code,
        tag is Strong || tag is Emphasis || tag is Strikethrough,
    ensures
        ({
            let plain = s.inlined(MdInline::Text, ContentView::Text(t));
            let open = s.started(tag, content);
            let marked = open.inlined(MdInline::Text, ContentView::Text(t));
            let closed = marked.ended(tag);
            &&& marked.runs.len() == plain.runs.len()
            &&& marked.runs.take(s.runs.len() as int) == s.runs
            &&& forall|i: int|
                s.runs.len() <= i < marked.runs.len() ==> {
                    let a = plain.runs[i].style;
                    let b = (#[trigger] marked.runs[i]).style;
                    &&& marked.runs[i].text == plain.runs[i].text
                    &&& b.fg == a.fg && b.bg == a.bg
                    &&& b.bold == (a.bold || tag is Strong)
                    &&& b.italic == (a.italic || tag is Emphasis)
                    &&& b.crossed_out == (a.crossed_out || tag is Strikethrough)
                }
            &&& closed.fmt == s.fmt
            &&& closed.text_style() == s.text_style()
        }),
{
    let open = s.started(tag, content);
    let f = open.fmt.last();
    assert(open.fmt.drop_last() =~= s.fmt);
    assert forall|x: FmtTag| open.fmt.contains(x) == (s.fmt.contains(x) || x == f) by {
        if s.fmt.contains(x) {
            let k = choose|k: int| 0 <= k < s.fmt.len() && s.fmt[k] == x;
            assert(open.fmt[k] == x);
        }
        if x == f {
            assert(open.fmt[open.fmt.len() - 1] == x);
        }
    }
    let marked = open.inlined(MdInline::Text, ContentView::Text(t));
    assert(marked.runs.take(s.runs.len() as int) =~= s.runs);
}

/// The text of a heading is bold in the heading colour whatever the text around it looks like; other text has the
/// caller's colours.
pub proof fn headings_stand_out(s: ParseView, content: ContentView, t: Seq<char>)
    requires
        !s.in_code,
    ensures
        ({
            let open = s.started(MdTag::Heading, content).inlined(MdInline::Text, ContentView::Text(t));
            let closed = open.ended(MdTag::Heading);
            &&& open.runs.len() == split_on(t, ' ').len()
            &&& forall|i: int|
                0 <= i < open.runs.len() ==> (#[trigger] open.runs[i]).style.fg == Some(Ink::Heading.rgb())
                    && open.runs[i].style.bold
            &&& closed.fmt == s.fmt
        }),
        ({
            let plain = s.inlined(MdInline::Text, ContentView::Text(t));
            !s.fmt.contains(FmtTag::Heading) ==> forall|i: int|
                s.runs.len() <= i < plain.runs.len() ==> (#[trigger] plain.runs[i]).style.fg == s.base.fg
                    && plain.runs[i].style.bg == s.base.bg
        }),
{
    let open = s.started(MdTag::Heading, content);
    assert(open.fmt[open.fmt.len() - 1] == FmtTag::Heading);
    assert(open.fmt.contains(FmtTag::Heading));
    assert(open.fmt.drop_last() =~= s.fmt);
}

/// Inline code stays in one piece, blanks and all, on the code background.
pub proof fn inline_code_stays_whole(s: ParseView, t: Seq<char>)
    ensures
        ({
            let after = s.inlined(MdInline::Code, ContentView::Text(t));
            &&& after.runs.len() == s.runs.len() + 1
            &&& after.runs.drop_last() == s.runs
            &&& after.runs.last().text == t
            &&& after.runs.last().style.bg == Some(Ink::CodeBg.rgb())
            &&& after.runs.last().style.fg == Some(Ink::CodeFg.rgb())
        }),
{
    assert(s.inlined(MdInline::Code, ContentView::Text(t)).runs.drop_last() =~= s.runs);
}

/// A break ends the line, soft or hard: what came before it stands on a line of its own, and what comes behind it begins
/// the next.
pub proof fn a_break_ends_the_line(s: ParseView, inline: MdInline, content: ContentView)
    requires
        inline is SoftBreak || inline is HardBreak,
        !s.in_code,
    ensures
        s.inlined(inline, content).lines == s.lines.push(s.runs),
        s.inlined(inline, content).runs.len() == 0,
{
}

} // verus!
