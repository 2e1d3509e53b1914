//! Around a frame: the copy that a selection waits for, the clipboard's contents, a click in the composer, and the
//! motion preference.
use vstd::prelude::*;
use crate::application::effect::nothing;
use crate::application::msg::Msg;
use crate::application::update::{update, updated};
use crate::domain::input_buffer::{jumped, EditorView};
use crate::domain::model::{Model, Motion, Selection};
use crate::domain::selection::{ScreenSelection, SelectionState};
use crate::domain::transcript::NoticeLevel;
use crate::infrastructure::render::layout::{Rect, Regions};
use crate::infrastructure::render::markdown::cache::Renderer;
use crate::infrastructure::render::view::{frame_regions, regions_for};
use crate::infrastructure::render::widgets::editor::{
    at_cell, click_to_cursor, content_rect, laid_out_plainly, on_the_text, text_area,
};
use crate::infrastructure::runtime::clipboard::ClipboardContent;
use crate::text::cat2;

verus! {

/// The selection that waits to be copied off the next frame.
pub open spec fn waiting(m: Model) -> Option<ScreenSelection> {
    match m.selection.active {
        Some(s) if s.state != SelectionState::Idle => Some(s),
        _ => None,
    }
}

/// The selection that waits to be copied off the next frame.
pub fn pending_copy(model: &Model) -> (r: Option<ScreenSelection>)
    ensures
        r == waiting(*model),
{
    match model.selection.active {
        Some(selection) => {
            if selection.state != SelectionState::Idle {
                Some(selection)
            } else {
                None
            }
        },
        None => None,
    }
}

/// The model once a selection was copied.
pub open spec fn settled(m: Model, copied: ScreenSelection) -> Model {
    Model {
        selection: Selection {
            active: if copied.state == SelectionState::CopyAndClear {
                None
            } else {
                match m.selection.active {
                    Some(s) => Some(ScreenSelection { state: SelectionState::Idle, ..s }),
                    None => None,
                }
            },
            ..m.selection
        },
        ..m
    }
}

/// Settle a selection once it was copied: a mouse release keeps the highlight, Ctrl+C drops it so that the next
/// Ctrl+C is free to cancel or quit. Either way the request is consumed exactly once.
pub fn settle_copy(model: &mut Model, copied: ScreenSelection)
    requires
        old(model).wf(),
    ensures
        *final(model) == settled(*old(model), copied),
        final(model).wf(),
{
    if copied.state == SelectionState::CopyAndClear {
        model.selection.active = None;
    } else if let Some(selection) = model.selection.active {
        model.selection.active = Some(ScreenSelection { state: SelectionState::Idle, ..selection });
    }
}

/// Map a copy attempt to a notice: a copy is a direct intent of the user, so it is never silent in success or in
/// failure. Copying nothing leaves the clipboard alone and says nothing.
pub fn notify_copy_result(model: &mut Model, result: Result<(), String>, copied_something: bool)
    requires
        old(model).wf(),
    ensures
        match result {
            Ok(_) => if copied_something {
                old(model).posted(
                    *final(model),
                    NoticeLevel::Info,
                    "copiado para a área de transferência"@,
                )
            } else {
                *final(model) == *old(model)
            },
            Err(e) => old(model).posted(
                *final(model),
                NoticeLevel::Error,
                "falha ao copiar para a área de transferência: "@ + e@,
            ),
        },
        final(model).wf(),
{
    match result {
        Ok(_) => {
            if copied_something {
                model.notify_info("copiado para a área de transferência".to_owned());
            }
        },
        Err(failure) => {
            model.notify_error(
                cat2("falha ao copiar para a área de transferência: ", failure.as_str()),
            );
        },
    }
}

/// What pasting the clipboard does.
pub open spec fn clipboard_pasted(old: Model, content: ClipboardContent, new: Model) -> bool {
    match content {
        ClipboardContent::Image(image) => updated(old, Msg::ImageAttached(image), new, nothing()),
        ClipboardContent::Text(text) => updated(old, Msg::Paste(text), new, nothing()),
        ClipboardContent::Unreadable => old.posted(
            new,
            NoticeLevel::Error,
            "não consegui ler a imagem da área de transferência"@,
        ),
        ClipboardContent::Empty => new == old,
    }
}

/// Route the clipboard's contents: an image becomes a staged attachment, text is inserted at the cursor. An empty
/// clipboard is a silent no-op, but an image that could not be encoded is announced: a paste the user intended must
/// not vanish silently.
pub fn paste_from_clipboard(model: &mut Model, content: ClipboardContent)
    requires
        old(model).wf(),
    ensures
        clipboard_pasted(*old(model), content, *final(model)),
        final(model).wf(),
{
    match content {
        ClipboardContent::Image(attachment) => {
            update(model, Msg::ImageAttached(attachment));
        },
        ClipboardContent::Text(text) => {
            update(model, Msg::Paste(text));
        },
        ClipboardContent::Unreadable => {
            model.notify_error("não consegui ler a imagem da área de transferência".to_owned());
        },
        ClipboardContent::Empty => {},
    }
}

/// What a composer click does, given the frame's regions: the cursor goes to the character under it, or stays put.
pub open spec fn clicked(old: EditorView, regions: Regions, col: u16, row: u16, new: EditorView) -> bool {
    let area = text_area(regions.input);
    if laid_out_plainly(old, area) && on_the_text(old, area, col, row) {
        exists|k: int| #[trigger]
            at_cell(old.lines[row - area.y], col - area.x, k) && new == jumped(
                old,
                row - area.y,
                if k <= u16::MAX {
                    k
                } else {
                    u16::MAX as int
                },
            )
    } else {
        new == old
    }
}

/// Resolve a composer click to a cursor move, against the geometry of the frame as it was drawn. A click that
/// cannot be mapped leaves the cursor put.
pub fn place_cursor(renderer: &mut Renderer, model: &mut Model, area: Rect, col: u16, row: u16)
    requires
        old(renderer).wf(),
        old(model).wf(),
        area.wf(),
    ensures
        final(renderer).wf(),
        final(renderer).highlighter() == old(renderer).highlighter(),
        exists|regions: Regions| #[trigger]
            regions_for(*old(model), area, old(renderer).highlighter(), regions) && clicked(
                old(model).input@,
                regions,
                col,
                row,
                final(model).input@,
            ),
        *final(model) == (Model { input: final(model).input, ..*old(model) }),
        final(model).wf(),
{
    let regions: Regions = frame_regions(renderer, area, model);
    let text: Rect = content_rect(regions.input);
    if let Some((r, c)) = click_to_cursor(&model.input, text, col, row) {
        assert(at_cell(model.input@.lines[row - text.y], col - text.x, c as int));
        model.input.set_cursor(r, c);
    }
    assert(clicked(old(model).input@, regions, col, row, model.input@));
}

/// Resolve the session-wide motion preference: any non-empty `KIRI_REDUCED_MOTION` or `NO_COLOR` freezes motion to
/// a steady, layout-identical front-end.
pub fn resolve_motion(reduced_motion_set: bool, no_color_set: bool) -> (r: Motion)
    ensures
        r == if reduced_motion_set || no_color_set {
            Motion::Reduced
        } else {
            Motion::Full
        },
{
    if reduced_motion_set || no_color_set {
        Motion::Reduced
    } else {
        Motion::Full
    }
}

/// A copy happens once: after it is settled, nothing waits to be copied.
pub proof fn a_copy_happens_once(m: Model, copied: ScreenSelection)
    requires
        waiting(m) == Some(copied),
    ensures
        waiting(settled(m, copied)) is None,
{
}

/// Pasting from the clipboard never reaches the composer while the wizard is open.
pub proof fn clipboard_stays_out_of_the_composer(old: Model, content: ClipboardContent, new: Model)
    requires
        clipboard_pasted(old, content, new),
        old.wizard is Some,
    ensures
        new.input == old.input,
{
}

} // verus!
