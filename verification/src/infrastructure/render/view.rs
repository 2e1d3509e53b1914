//! How the model is laid out on the frame.
use vstd::prelude::*;
use crate::domain::input_buffer::InputBuffer;
use crate::domain::modal::{ApprovalOption, PendingApproval};
use crate::domain::model::{ActiveModal, Model, Motion};
use crate::domain::transcript::{NoticeLevel, TranscriptItem, ItemView};
use crate::infrastructure::render::cells::{hard_wrap, hard_wrapped};
use crate::infrastructure::render::layout::{
    asked_upto, box_height, excess, fits, fitted_above, fitted_regions, fixed_total, frame_fits, frame_layout, framed,
    h_pad_total, inner_area, is_roomy, least_upto, lined_up, regions_in_order, regions_within, sized, split_columns,
    PartSize, Rect, Regions, LEFT_GUTTER, RIGHT_GUTTER,
};
use crate::infrastructure::render::markdown::cache::{rendered, Renderer};
use crate::infrastructure::render::markdown::render::Highlighter;
use crate::infrastructure::render::theme::{inked, GateState, Ink};
use crate::infrastructure::render::widgets::approval::{
    box_dims, plan_options_len, stanza_height, stanza_width, PLAN_ACTION,
};
use crate::infrastructure::render::widgets::wizard::wizard_height;

verus! {

/// Columns of the prompt gutter: its glyph and a blank.
pub const PROMPT_COLS: u16 = 2;

/// From this height on, the frame has a top margin.
pub const MARGIN_HEIGHT: u16 = 12;

/// From this width on, the frame has a sidebar.
pub const SIDEBAR_WIDTH: u16 = 130;

/// From this width on, a proposed plan stands beside the transcript.
pub const SPLIT_WIDTH: u16 = 100;

/// A number as far as 16 bits count.
pub open spec fn short(n: int) -> int {
    if n <= u16::MAX {
        n
    } else {
        u16::MAX as int
    }
}

/// The rows that a buffer takes when wrapped to a width.
pub fn wrapped_line_count(buf: &InputBuffer, width: usize) -> (r: usize)
    requires
        width < usize::MAX,
    ensures
        r == hard_wrapped(buf@.text(), width as int).len(),
        r >= 1,
{
    hard_wrap(buf.text().as_str(), width).len()
}

/// The columns of the side gutters.
pub open spec fn gutters(area: Rect) -> int {
    if is_roomy(area) {
        LEFT_GUTTER + RIGHT_GUTTER
    } else {
        0
    }
}

/// The width that the editor's text wraps at.
pub open spec fn wrap_width(area: Rect) -> int {
    let left = area.width - gutters(area) - PROMPT_COLS;
    if left < 1 {
        1
    } else {
        left
    }
}

/// The rows of the editor.
pub open spec fn editor_rows(m: Model, area: Rect) -> int {
    short(hard_wrapped(m.input@.text(), wrap_width(area)).len() as int)
}

/// The area that a stanza is sized against: as wide as it will be rendered.
pub open spec fn content_area(area: Rect) -> Rect {
    Rect {
        width: if area.width < gutters(area) {
            0
        } else {
            (area.width - gutters(area)) as u16
        },
        ..area
    }
}

/// The rows that the modal on top asks for; a picker floats and asks for none.
pub open spec fn modal_rows(m: Model, content: Rect, h: Highlighter) -> int {
    if m.pending_plan is Some {
        stanza_height(
            rendered(h, PLAN_ACTION@, inked(Ink::Steel), stanza_width(content)).len() as int,
            4,
            content,
        )
    } else if m.pending_approval is Some {
        stanza_height(
            rendered(
                h,
                PendingApproval::question((m.pending_approval->0).prompt@),
                inked(Ink::Steel),
                stanza_width(content),
            ).len() as int,
            3,
            content,
        )
    } else if m.picker is Some {
        0
    } else if m.wizard is Some {
        wizard_height((m.wizard->0)@, content)
    } else {
        0
    }
}

/// The regions of a frame: inside it, one under the other, stacked in full where they fit, with a row for the transcript
/// unless a box is up.
pub open spec fn regions_for(m: Model, area: Rect, h: Highlighter, r: Regions) -> bool {
    let rows = editor_rows(m, area);
    let box_h = modal_rows(m, content_area(area), h);
    &&& framed(area, rows, box_h, r)
    &&& regions_within(inner_area(area, box_h), r)
    &&& regions_in_order(inner_area(area, box_h), r)
    &&& box_height(area, rows, box_h) == 0 && inner_area(area, box_h).height >= 1 ==> r.transcript.height >= 1
    &&& frame_fits(area, rows, box_h) ==> fitted_regions(area, rows, box_h, r)
}

/// Resolve the frame's stacked regions for the current model: the input height grows with the wrapped buffer, and a
/// pending plan/approval box reserves its slot directly above the input. Shared by the drawing and by the mapping of
/// a composer click back to a cursor position, so both agree on the geometry.
pub fn frame_regions(renderer: &mut Renderer, area: Rect, model: &Model) -> (r: Regions)
    requires
        old(renderer).wf(),
        area.wf(),
    ensures
        final(renderer).wf(),
        final(renderer).highlighter() == old(renderer).highlighter(),
        regions_for(*model, area, old(renderer).highlighter(), r),
{
    let pad: u16 = h_pad_total(area);
    let inner: u16 = area.width.saturating_sub(pad).saturating_sub(PROMPT_COLS);
    let wrap_w: usize = if inner < 1 {
        1
    } else {
        inner as usize
    };
    let rows: usize = wrapped_line_count(&model.input, wrap_w);
    let max: usize = 0xffff;
    let input_lines: u16 = if rows <= max {
        rows as u16
    } else {
        u16::MAX
    };
    let content: Rect = Rect { width: area.width.saturating_sub(pad), ..area };
    let box_h: u16 = match model.active_modal() {
        Some(ActiveModal::Plan(_)) => box_dims(renderer, content, PLAN_ACTION, plan_options_len()).1,
        Some(ActiveModal::Approval(pending)) => box_dims(
            renderer,
            content,
            pending.action().as_str(),
            ApprovalOption::ALL.len(),
        ).1,
        Some(ActiveModal::Picker(_)) => 0,
        Some(ActiveModal::Wizard(wizard)) => {
            crate::infrastructure::render::widgets::wizard::box_dims(content, wizard).1
        },
        None => 0,
    };
    frame_layout(area, input_lines, box_h)
}

/// Where everything stands on the screen, and whether it moves.
#[derive(Debug, Clone, Copy)]
pub struct Screen {
    pub main: Rect,
    pub sidebar: Option<Rect>,
    pub motion: Motion,
    pub regions: Regions,
    /// The transcript, unless a plan took its place.
    pub transcript: Option<Rect>,
    /// The proposed plan, where there is one.
    pub plan: Option<Rect>,
}

/// The frame less its top margin.
pub open spec fn below_margin(frame: Rect) -> Rect {
    if frame.height >= MARGIN_HEIGHT {
        Rect { y: (frame.y + 1) as u16, height: (frame.height - 1) as u16, ..frame }
    } else {
        frame
    }
}

/// The columns of a frame with a sidebar.
pub open spec fn sidebar_columns() -> Seq<PartSize> {
    seq![PartSize::AtLeast(90), PartSize::Length(SIDEBAR_COLS)]
}

/// The columns of a transcript with a plan beside it.
pub open spec fn plan_columns() -> Seq<PartSize> {
    seq![PartSize::Percent(40), PartSize::AtLeast(2), PartSize::Percent(60)]
}

/// The columns of a frame with a sidebar.
fn sidebar_parts() -> (r: Vec<PartSize>)
    ensures
        r@ == sidebar_columns(),
{
    let r: Vec<PartSize> = vec![PartSize::AtLeast(90), PartSize::Length(SIDEBAR_COLS)];
    assert(r@ =~= sidebar_columns());
    r
}

/// The columns of a transcript with a plan beside it: two fifths, a spacer, and three fifths.
pub fn plan_parts() -> (r: Vec<PartSize>)
    ensures
        r@ == plan_columns(),
{
    let r: Vec<PartSize> = vec![PartSize::Percent(40), PartSize::AtLeast(2), PartSize::Percent(60)];
    assert(r@ =~= plan_columns());
    r
}

/// The width of the sidebar.
pub const SIDEBAR_COLS: u16 = 35;

/// The main area of the frame: all of it but the sidebar.
pub open spec fn main_area(frame: Rect) -> Rect {
    let area = below_margin(frame);
    if area.width >= SIDEBAR_WIDTH {
        Rect { width: (area.width - SIDEBAR_COLS) as u16, ..area }
    } else {
        area
    }
}

/// The sidebar, at the right end of a frame that is wide enough.
pub open spec fn sidebar_area(frame: Rect) -> Option<Rect> {
    let area = below_margin(frame);
    if area.width >= SIDEBAR_WIDTH {
        Some(
            Rect { x: (area.x + area.width - SIDEBAR_COLS) as u16, width: SIDEBAR_COLS, ..area },
        )
    } else {
        None
    }
}

/// Part a frame into the main area, which the regions are stacked in, and the sidebar. What is drawn and where a click
/// points both go by the main area.
pub fn frame_columns(frame: Rect) -> (r: (Rect, Option<Rect>))
    requires
        frame.wf(),
    ensures
        r == (main_area(frame), sidebar_area(frame)),
        r.0.within(frame),
        r.0.wf(),
        r.1 matches Some(sidebar) ==> sidebar.within(frame),
{
    let area: Rect = if frame.height >= MARGIN_HEIGHT {
        Rect { y: frame.y + 1, height: frame.height - 1, ..frame }
    } else {
        frame
    };
    if area.width >= SIDEBAR_WIDTH {
        let columns: Vec<PartSize> = sidebar_parts();
        let split: Vec<Rect> = split_columns(area, &columns);
        proof {
            reveal_with_fuel(fixed_total, 3);
            reveal_with_fuel(fitted_above, 3);
            assert(columns@.drop_last() =~= seq![PartSize::AtLeast(90)]);
            assert(fits(columns@, 0, area.width as int));
            assert(split@[0].x == area.x + fitted_above(columns@, 0, area.width as int));
            assert(split@[1].x == area.x + fitted_above(columns@, 1, area.width as int));
        }
        (split[0], Some(split[1]))
    } else {
        (area, None)
    }
}

/// The layout of a model on a frame.
pub open spec fn screen_for(m: Model, frame: Rect, h: Highlighter, s: Screen) -> bool {
    &&& s.main == main_area(frame)
    &&& s.sidebar == sidebar_area(frame)
    &&& s.motion == if s.main.height < 8 || s.main.width < 60 {
        Motion::Reduced
    } else {
        m.timeline.motion
    }
    &&& regions_for(m, s.main, h, s.regions)
    &&& if m.pending_plan is None {
        s.transcript == Some(s.regions.transcript) && s.plan is None
    } else if s.regions.transcript.width >= SPLIT_WIDTH {
        exists|columns: Seq<Rect>| #[trigger]
            lined_up(s.regions.transcript, plan_columns(), columns) && s.transcript == Some(columns[0])
                && s.plan == Some(columns[2])
    } else {
        s.transcript is None && s.plan == Some(s.regions.transcript)
    }
}

/// Lay the model out on the frame. A top margin keeps a roomy terminal from being glued to its edge; a wide one has a
/// sidebar; a short or narrow one freezes motion (the layout stays identical, just steady); and a proposed plan
/// stands beside the transcript, or in its place.
pub fn screen(renderer: &mut Renderer, frame: Rect, model: &Model) -> (r: Screen)
    requires
        old(renderer).wf(),
        frame.wf(),
    ensures
        final(renderer).wf(),
        final(renderer).highlighter() == old(renderer).highlighter(),
        screen_for(*model, frame, old(renderer).highlighter(), r),
        r.main.within(frame),
{
    let (main, sidebar): (Rect, Option<Rect>) = frame_columns(frame);
    let motion: Motion = model.timeline.motion.and_reduce_if(main.height < 8 || main.width < 60);
    let regions: Regions = frame_regions(renderer, main, model);
    let (transcript, plan): (Option<Rect>, Option<Rect>) = if model.pending_plan.is_none() {
        (Some(regions.transcript), None)
    } else if regions.transcript.width >= SPLIT_WIDTH {
        let split: Vec<Rect> = split_columns(regions.transcript, &plan_parts());
        assert(lined_up(regions.transcript, plan_columns(), split@));
        (Some(split[0]), Some(split[2]))
    } else {
        (None, Some(regions.transcript))
    };
    Screen { main, sidebar, motion, regions, transcript, plan }
}

/// A plan beside the transcript stands to its right with two columns between them, and together they take the whole
/// width: two fifths and three fifths of it, up to a rounded cell and the two columns.
pub proof fn a_plan_stands_beside_the_transcript(m: Model, frame: Rect, h: Highlighter, s: Screen)
    requires
        screen_for(m, frame, h, s),
        m.pending_plan is Some,
        s.regions.transcript.width >= SPLIT_WIDTH,
    ensures
        s.transcript is Some && s.plan is Some,
        ({
            let whole = s.regions.transcript;
            let left = s.transcript->0;
            let right = s.plan->0;
            &&& left.within(whole) && right.within(whole)
            &&& left.x == whole.x && left.x + left.width + 2 == right.x
            &&& right.x + right.width == whole.x + whole.width
            &&& 40 * whole.width - 300 <= 100 * left.width <= 40 * whole.width + 100
            &&& 60 * whole.width - 300 <= 100 * right.width <= 60 * whole.width + 100
        }),
{
    let whole = s.regions.transcript;
    let p = plan_columns();
    let columns = choose|columns: Seq<Rect>| #[trigger]
        lined_up(whole, p, columns) && s.transcript == Some(columns[0]) && s.plan == Some(columns[2]);
    reveal_with_fuel(least_upto, 4);
    reveal_with_fuel(asked_upto, 4);
    reveal_with_fuel(fixed_total, 4);
    assert(p.drop_last() =~= seq![p[0], p[1]]);
    assert(p.drop_last().drop_last() =~= seq![p[0]]);
    assert(excess(p, whole.width as int) == 200);
    assert(sized(p, whole.width as int, 1, columns[1].width as int));
    assert(columns.last() == columns[2]);
}

/// With no modal that reserves a box, the transcript keeps a row on every frame that has one inside its padding.
pub proof fn the_transcript_is_always_on_screen(m: Model, frame: Rect, h: Highlighter, s: Screen)
    requires
        screen_for(m, frame, h, s),
        modal_rows(m, content_area(s.main), h) == 0,
        s.main.height >= 1,
    ensures
        s.regions.transcript.height >= 1,
{
}

/// The state that the prompt gate shows: an awaited approval, a running turn, a trailing error, or the editor's own.
pub open spec fn gate_for(m: Model) -> GateState {
    if m.pending_approval is Some {
        GateState::Approval
    } else if m.busy {
        GateState::Busy(m.status.spinner_frame)
    } else if m.transcript@.len() > 0 && (m.transcript@.last() matches ItemView::Notice(
        NoticeLevel::Error,
        _,
    )) {
        GateState::Error
    } else if m.input@.text().len() == 0 {
        GateState::Idle
    } else {
        GateState::Typing
    }
}

/// The state that the prompt gate shows.
pub fn gate_state(model: &Model) -> (r: GateState)
    requires
        model.wf(),
    ensures
        r == gate_for(*model),
{
    if model.pending_approval.is_some() {
        return GateState::Approval;
    }
    if model.busy {
        return GateState::Busy(model.status.spinner_frame);
    }
    let n: usize = model.transcript.items().len();
    if n > 0 {
        if let TranscriptItem::Notice(NoticeLevel::Error, _) = &model.transcript.items()[n - 1] {
            return GateState::Error;
        }
    }
    if model.input.is_empty() {
        GateState::Idle
    } else {
        GateState::Typing
    }
}

/// A wide frame has a sidebar of thirty-five columns at its right end and the main area beside it; a narrower one is the main
/// area alone. A tall frame keeps its first row free.
pub proof fn a_wide_frame_has_a_sidebar(m: Model, frame: Rect, h: Highlighter, s: Screen)
    requires
        screen_for(m, frame, h, s),
        frame.wf(),
    ensures
        s.main.x == frame.x,
        frame.width >= 130 ==> {
            &&& s.sidebar is Some
            &&& (s.sidebar->0).width == 35
            &&& s.main.x + s.main.width == (s.sidebar->0).x
            &&& (s.sidebar->0).x + 35 == frame.x + frame.width
            &&& (s.sidebar->0).y == s.main.y && (s.sidebar->0).height == s.main.height
        },
        frame.width < 130 ==> s.sidebar is None && s.main.width == frame.width,
        frame.height >= 12 ==> s.main.y == frame.y + 1 && s.main.height == frame.height - 1,
        frame.height < 12 ==> s.main.y == frame.y && s.main.height == frame.height,
{
}

/// A small screen holds still, and any other moves as was asked for.
pub proof fn a_small_screen_holds_still(m: Model, frame: Rect, h: Highlighter, s: Screen)
    requires
        screen_for(m, frame, h, s),
    ensures
        s.main.height < 8 || s.main.width < 60 ==> s.motion == Motion::Reduced,
        s.main.height >= 8 && s.main.width >= 60 ==> s.motion == m.timeline.motion,
{
}

/// Without a plan the transcript has its region to itself; with one on a narrow screen the plan takes its place.
pub proof fn a_plan_takes_the_place_of_the_transcript(m: Model, frame: Rect, h: Highlighter, s: Screen)
    requires
        screen_for(m, frame, h, s),
    ensures
        m.pending_plan is None ==> s.transcript == Some(s.regions.transcript) && s.plan is None,
        m.pending_plan is Some && s.regions.transcript.width < 100 ==> s.transcript is None && s.plan == Some(
            s.regions.transcript,
        ),
{
}

} // verus!
