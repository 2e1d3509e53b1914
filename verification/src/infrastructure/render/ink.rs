//! What rows show, whatever they are made of.
use vstd::prelude::*;
use crate::infrastructure::render::cells::{glued, glued_adds_up, unspaced, unspaced_adds_up};
use crate::infrastructure::render::line::{row_text, styled_row, SpanView};
use crate::style::{Color, TextStyle};

verus! {

/// The text of each row.
pub open spec fn row_texts(rows: Seq<Seq<SpanView>>) -> Seq<Seq<char>> {
    Seq::new(rows.len(), |i: int| row_text(rows[i]))
}

/// All that rows show: their characters in reading order, but for the blanks.
pub open spec fn ink_of(rows: Seq<Seq<SpanView>>) -> Seq<char> {
    unspaced(glued(row_texts(rows)))
}

/// Every run of the row is in a colour.
pub open spec fn in_color(row: Seq<SpanView>, color: Color) -> bool {
    forall|i: int| 0 <= i < row.len() ==> (#[trigger] row[i]).style.fg == Some(color)
}

/// A row of one run shows its text.
pub proof fn one_run(text: Seq<char>, style: TextStyle)
    ensures
        row_text(styled_row(text, style)) == text,
{
    reveal_with_fuel(row_text, 2);
    assert(styled_row(text, style).drop_last() =~= Seq::<SpanView>::empty());
    assert(row_text(styled_row(text, style)) =~= text);
}

/// A row of two runs shows their texts one behind the other.
pub proof fn two_runs(row: Seq<SpanView>)
    requires
        row.len() == 2,
    ensures
        row_text(row) == row[0].text + row[1].text,
{
    reveal_with_fuel(row_text, 3);
    assert(row.drop_last().drop_last() =~= Seq::<SpanView>::empty());
    assert(row.drop_last().last() == row[0]);
    assert(row_text(row) =~= row[0].text + row[1].text);
}

/// A row of three runs shows their texts one behind the other.
pub proof fn three_runs(row: Seq<SpanView>)
    requires
        row.len() == 3,
    ensures
        row_text(row) == row[0].text + row[1].text + row[2].text,
{
    two_runs(row.drop_last());
    assert(row.drop_last()[0] == row[0] && row.drop_last()[1] == row[1]);
}

/// Runs put behind each other show their texts behind each other.
pub proof fn row_text_adds_up(a: Seq<SpanView>, b: Seq<SpanView>)
    ensures
        row_text(a + b) == row_text(a) + row_text(b),
    decreases b.len(),
{
    if b.len() == 0 {
        assert(a + b =~= a);
        assert(row_text(a) + row_text(b) =~= row_text(a));
    } else {
        assert((a + b).drop_last() =~= a + b.drop_last());
        row_text_adds_up(a, b.drop_last());
        assert(row_text(a) + (row_text(b.drop_last()) + b.last().text) =~= (row_text(a) + row_text(b.drop_last()))
            + b.last().text);
    }
}

/// Rows put below each other show what they showed, from top to bottom.
pub proof fn ink_adds_up(a: Seq<Seq<SpanView>>, b: Seq<Seq<SpanView>>)
    ensures
        ink_of(a + b) == ink_of(a) + ink_of(b),
{
    assert(row_texts(a + b) =~= row_texts(a) + row_texts(b));
    glued_adds_up(row_texts(a), row_texts(b));
    unspaced_adds_up(glued(row_texts(a)), glued(row_texts(b)));
}

/// A single row shows its text but for the blanks.
pub proof fn ink_of_a_row(row: Seq<SpanView>)
    ensures
        ink_of(seq![row]) == unspaced(row_text(row)),
{
    let texts = row_texts(seq![row]);
    assert(texts =~= seq![row_text(row)]);
    reveal_with_fuel(glued, 2);
    assert(texts.drop_last() =~= Seq::<Seq<char>>::empty());
    assert(glued(texts) =~= row_text(row));
}

} // verus!
