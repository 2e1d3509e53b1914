//! The search bar above the editor.
use vstd::prelude::*;
use crate::domain::model::Model;
use crate::infrastructure::render::layout::{
    fixed_total, least_upto, lined_up, sized, split_columns, PartSize, Rect,
};
use crate::text::{cat5, char_count, decimal, decimal_of};

verus! {

/// What the bar says of the hits.
pub open spec fn hits_text(query: Seq<char>, hits: int, active: int) -> Seq<char> {
    if hits == 0 {
        if query.len() == 0 {
            " (digite para buscar)"@
        } else {
            " (nenhuma correspondência)"@
        }
    } else {
        " (correspondência "@ + decimal(active + 1) + " de "@ + decimal(hits) + ")"@
    }
}

/// What the bar says of the hits of a search.
pub fn hits_label(query: &str, hits: usize, active: usize) -> (r: String)
    requires
        hits > 0 ==> active < hits,
    ensures
        r@ == hits_text(query@, hits as int, active as int),
{
    if hits == 0 {
        if query.is_empty() {
            " (digite para buscar)".to_owned()
        } else {
            " (nenhuma correspondência)".to_owned()
        }
    } else {
        cat5(
            " (correspondência ",
            decimal_of(active as u64 + 1).as_str(),
            " de ",
            decimal_of(hits as u64).as_str(),
            ")",
        )
    }
}

/// Where the bar stands: one row just above the editor, at most 64 cells wide.
pub fn bar_rect(anchor: Rect) -> (r: Rect)
    ensures
        r.x == anchor.x,
        r.y == if anchor.y > 0 {
            anchor.y - 1
        } else {
            0
        },
        r.width == if anchor.width < 64 {
            anchor.width
        } else {
            64
        },
        r.height == 1,
{
    Rect {
        x: anchor.x,
        y: anchor.y.saturating_sub(1),
        width: if anchor.width < 64 {
            anchor.width
        } else {
            64
        },
        height: 1,
    }
}

/// The columns that the label of the bar takes.
pub const PREFIX_COLS: u16 = 11;

/// The columns that the hits are shown in: one per character, as far as the label leaves any.
pub open spec fn suffix_cols(bar: Rect, hits: Seq<char>) -> int {
    let left = if bar.width < PREFIX_COLS {
        0
    } else {
        bar.width - PREFIX_COLS
    };
    if hits.len() < left {
        hits.len() as int
    } else {
        left
    }
}

/// The columns of the bar: the label, the query, and the hits.
pub open spec fn bar_parts(bar: Rect, hits: Seq<char>) -> Seq<PartSize> {
    seq![
        PartSize::Length(PREFIX_COLS),
        PartSize::AtLeast(1),
        PartSize::Length(suffix_cols(bar, hits) as u16),
    ]
}

/// Part the bar into the label, the query, and the hits. The query keeps a column where there is one.
pub fn bar_columns(bar: Rect, hits: &str) -> (r: (Rect, Rect, Rect))
    requires
        bar.wf(),
    ensures
        lined_up(bar, bar_parts(bar, hits@), seq![r.0, r.1, r.2]),
        r.0.x == bar.x && r.1.x == bar.x + r.0.width && r.2.x == r.1.x + r.1.width,
        r.2.x + r.2.width == bar.x + bar.width,
        bar.width > 0 ==> r.1.width >= 1,
        PREFIX_COLS + 1 + hits@.len() <= bar.width ==> {
            &&& r.0.width == PREFIX_COLS
            &&& r.1.width == bar.width - PREFIX_COLS - hits@.len()
            &&& r.2.width == hits@.len()
        },
{
    let left: u16 = bar.width.saturating_sub(PREFIX_COLS);
    let count: usize = char_count(hits);
    let suffix: u16 = if count < left as usize {
        count as u16
    } else {
        left
    };
    let columns: Vec<PartSize> = vec![
        PartSize::Length(PREFIX_COLS),
        PartSize::AtLeast(1),
        PartSize::Length(suffix),
    ];
    assert(columns@ =~= bar_parts(bar, hits@));
    let split: Vec<Rect> = split_columns(bar, &columns);
    proof {
        reveal_with_fuel(fixed_total, 4);
        reveal_with_fuel(least_upto, 4);
        let c = columns@;
        assert(c.drop_last() =~= seq![c[0], c[1]]);
        assert(c.drop_last().drop_last() =~= seq![c[0]]);
        assert(c[1] is AtLeast);
        let s = split@;
        assert(s =~= seq![s[0], s[1], s[2]]);
        assert(s.last() == s[2]);
        assert(sized(c, bar.width as int, 0, s[0].width as int));
        assert(sized(c, bar.width as int, 1, s[1].width as int));
        assert(sized(c, bar.width as int, 2, s[2].width as int));
        assert(s[1].x == s[0].x + s[0].width && s[2].x == s[1].x + s[1].width);
    }
    (split[0], split[1], split[2])
}

/// What the search bar of a model shows: the query and the hits; nothing without a search.
pub fn bar_text(model: &Model) -> (r: Option<(String, String)>)
    requires
        model.wf(),
    ensures
        r is Some == model.search_query is Some,
        r matches Some(t) ==> t.0@ == (model.search_query->0)@ && t.1@ == hits_text(
            (model.search_query->0)@,
            model.search_results@.len() as int,
            model.active_search_match as int,
        ),
{
    match &model.search_query {
        Some(q) => {
            let label: String = hits_label(
                q.as_str(),
                model.search_results.len(),
                model.active_search_match,
            );
            Some((q.clone(), label))
        },
        None => None,
    }
}

} // verus!
