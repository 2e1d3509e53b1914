//! The brand line.
use vstd::prelude::*;
use crate::infrastructure::render::cells::{cells, display_width};
use crate::infrastructure::render::line::{styled_row, styled_run, Line, Span, SpanView};
use crate::infrastructure::render::theme::{ink, inked, Ink, STEEL_RAMP};
use crate::style::TextStyle;
use crate::text::cat2;

verus! {

/// The seal.
pub const SEAL: &'static str = " ⬢ kiri ";

/// The tagline.
pub const TAGLINE: &'static str = " Engineering-Grade Code Harness";

/// The brand line: the seal and the tagline, or the seal alone where both do not fit with a cell to spare.
pub open spec fn brand_row(has_modal: bool, width: int) -> Seq<SpanView> {
    let style = inked(
        if has_modal {
            STEEL_RAMP@[4]
        } else {
            Ink::Brand
        },
    );
    if cells(SEAL@ + TAGLINE@) < width {
        seq![styled_run(SEAL@, style), styled_run(TAGLINE@, style)]
    } else {
        styled_row(SEAL@, style)
    }
}

/// The slim top brand line: the seal and the tagline. On narrow terminals the tagline is dropped so the seal never
/// overflows. While a confirmation is up the seal recedes one further ramp step, sinking behind the decision.
pub fn header_line(has_modal: bool, width: u16) -> (r: Line)
    ensures
        r@ == brand_row(has_modal, width as int),
{
    let style: TextStyle = ink(
        if has_modal {
            STEEL_RAMP[4]
        } else {
            Ink::Brand
        },
    );
    // One cell of slack, so the seal never overflows on terminals that render the brand glyph wider than nominal.
    if display_width(cat2(SEAL, TAGLINE).as_str()) < width as usize {
        let mut spans: Vec<Span> = Vec::new();
        spans.push(Span::styled(SEAL.to_owned(), style));
        spans.push(Span::styled(TAGLINE.to_owned(), style));
        let line: Line = Line { spans };
        assert(line@ =~= seq![styled_run(SEAL@, style), styled_run(TAGLINE@, style)]);
        line
    } else {
        Line::styled(SEAL.to_owned(), style)
    }
}

} // verus!
