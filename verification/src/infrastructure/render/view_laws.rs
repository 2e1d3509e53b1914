//! What is reserved on the screen is what is drawn there.
use vstd::prelude::*;
use crate::domain::modal::PendingApproval;
use crate::domain::model::Model;
use crate::infrastructure::render::cells::{cells, fitting_texts_stay_whole};
use crate::infrastructure::render::layout::{chrome_height, inner_area, Rect, Regions};
use crate::infrastructure::render::markdown::cache::rendered;
use crate::infrastructure::render::markdown::render::Highlighter;
use crate::infrastructure::render::theme::{inked, Ink};
use crate::infrastructure::render::view::{content_area, editor_rows, regions_for, wrap_width};
use crate::infrastructure::render::widgets::approval::{
    approval_labels, plan_labels, stanza_fills_its_region, stanza_rows, stanza_width, PLAN_ACTION,
};
use crate::infrastructure::render::widgets::widget_laws::a_chooser_fills_its_region;
use crate::infrastructure::render::widgets::wizard::chooser_rows;
use crate::text::{split_on, split_on_nonempty};

verus! {

/// A confirmation of so many rows has room for them, next to the fixed rows of the frame.
pub open spec fn has_room(m: Model, area: Rect, rows: int) -> bool {
    rows > 0 && rows + chrome_height(area, editor_rows(m, area), rows) <= inner_area(area, rows).height
}

/// A tool call that waits for an answer gets a box of exactly the rows that its question and its options take.
pub proof fn an_approval_gets_its_rows(m: Model, area: Rect, h: Highlighter, r: Regions)
    requires
        regions_for(m, area, h, r),
        area.wf(),
        m.pending_plan is None,
        m.pending_approval is Some,
        ({
            let question = PendingApproval::question((m.pending_approval->0).prompt@);
            has_room(m, area, 6 + rendered(h, question, inked(Ink::Steel), stanza_width(content_area(area))).len() as int)
        }),
    ensures
        r.prompt_box.height == stanza_rows(
            h,
            "aprovação"@,
            PendingApproval::question((m.pending_approval->0).prompt@),
            approval_labels(),
            (m.pending_approval->0).selected as int,
            stanza_width(r.prompt_box),
        ).len(),
{
    let p = m.pending_approval->0;
    let question = PendingApproval::question(p.prompt@);
    let content = content_area(area);
    assert(stanza_width(r.prompt_box) == stanza_width(content));
    stanza_fills_its_region(h, "aprovação"@, question, approval_labels(), p.selected as int, content);
}

/// A plan that waits for a decision gets a box of exactly the rows that its options take.
pub proof fn a_plan_gets_its_rows(m: Model, area: Rect, h: Highlighter, r: Regions)
    requires
        regions_for(m, area, h, r),
        area.wf(),
        m.pending_plan is Some,
        has_room(m, area, 7 + rendered(h, PLAN_ACTION@, inked(Ink::Steel), stanza_width(content_area(area))).len() as int),
    ensures
        forall|label: Seq<char>, selected: int|
            r.prompt_box.height == #[trigger] stanza_rows(
                h,
                label,
                PLAN_ACTION@,
                plan_labels(),
                selected,
                stanza_width(r.prompt_box),
            ).len(),
{
    let content = content_area(area);
    assert(stanza_width(r.prompt_box) == stanza_width(content));
    assert forall|label: Seq<char>, selected: int|
        r.prompt_box.height == #[trigger] stanza_rows(
            h,
            label,
            PLAN_ACTION@,
            plan_labels(),
            selected,
            stanza_width(r.prompt_box),
        ).len() by {
        stanza_fills_its_region(h, label, PLAN_ACTION@, plan_labels(), selected, content);
    }
}

/// The wizard's choosers get a box of exactly their rows.
pub proof fn a_chooser_gets_its_rows(m: Model, area: Rect, h: Highlighter, r: Regions)
    requires
        regions_for(m, area, h, r),
        area.wf(),
        m.pending_plan is None && m.pending_approval is None && m.picker is None,
        m.wizard is Some,
        !(m.wizard->0)@.step.edits_text(),
        area.height > 10,
        has_room(m, area, chooser_rows((m.wizard->0)@).len() as int),
    ensures
        r.prompt_box.height == chooser_rows((m.wizard->0)@).len(),
{
    a_chooser_fills_its_region((m.wizard->0)@, content_area(area));
}

/// Nothing is reserved where nothing waits, nor for a picker, which floats.
pub proof fn nothing_is_reserved_for_nothing(m: Model, area: Rect, h: Highlighter, r: Regions)
    requires
        regions_for(m, area, h, r),
        m.pending_plan is None && m.pending_approval is None,
        m.wizard is None || m.picker is Some,
        crate::infrastructure::render::layout::frame_fits(area, editor_rows(m, area), 0),
    ensures
        r.prompt_box.height == 0,
        r.transcript.height >= 1,
{
}

/// The editor counts a row for each line of its text, where every line fits beside the prompt; the editor is that tall, up to
/// six rows.
pub proof fn the_editor_has_a_row_per_line(m: Model, area: Rect, h: Highlighter, r: Regions)
    requires
        regions_for(m, area, h, r),
        cells(" "@) == 1,
        forall|i: int|
            0 <= i < split_on(m.input@.text(), '\n').len() ==> cells(#[trigger] split_on(m.input@.text(), '\n')[i])
                <= wrap_width(area),
        split_on(m.input@.text(), '\n').len() <= u16::MAX,
    ensures
        editor_rows(m, area) == split_on(m.input@.text(), '\n').len(),
        !m.modal_open() && crate::infrastructure::render::layout::frame_fits(area, editor_rows(m, area), 0)
            ==> r.input.height == if split_on(m.input@.text(), '\n').len() > 6 {
            6
        } else {
            split_on(m.input@.text(), '\n').len() as int
        },
{
    split_on_nonempty(m.input@.text(), '\n');
    fitting_texts_stay_whole(m.input@.text(), wrap_width(area));
}

} // verus!
