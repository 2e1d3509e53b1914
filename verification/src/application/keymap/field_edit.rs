//! Clipboard/undo chords shared by every free-text field: the composer, the wizard draft, and the picker
//! search.
use vstd::prelude::*;
use crate::application::effect::{effect_views, no_effects, nothing, one_effect, Effect, EffectView};
use crate::domain::input::{Key, KeyPress};
use crate::domain::input_buffer::{EditorView, InputBuffer};

verus! {

/// The contents of the effects, where the key was consumed.
pub open spec fn consumed_views(r: Option<Vec<Effect>>) -> Option<Seq<EffectView>> {
    match r {
        Some(v) => Some(effect_views(v@)),
        None => None,
    }
}

/// The key is Ctrl (without Alt) and the letter `c`.
pub open spec fn chord(key: KeyPress, c: char) -> bool {
    key.ctrl && !key.alt && key.code == Key::Char(c)
}

/// What a selection hands to the clipboard: the yanked text, unless nothing was selected or it is empty.
pub open spec fn clipped(before: EditorView) -> Option<Seq<char>> {
    if before.anchor is Some && before.copied().yank.len() > 0 {
        Some(before.copied().yank)
    } else {
        None
    }
}

/// The editor after a copy.
pub open spec fn after_copy(before: EditorView) -> EditorView {
    if before.anchor is Some {
        before.copied()
    } else {
        before
    }
}

/// The editor after a cut.
pub open spec fn after_cut(before: EditorView) -> EditorView {
    if before.anchor is Some {
        before.cut()
    } else {
        before
    }
}

/// What a chord does to a field, and the effects where it consumes the key.
pub open spec fn chorded(
    before: InputBuffer,
    key: KeyPress,
    after: InputBuffer,
    r: Option<Seq<EffectView>>,
) -> bool {
    if chord(key, 'v') {
        after == before && r == Some(seq![EffectView::PasteClipboard])
    } else if chord(key, 'c') {
        after.copied_from(before) && r == match clipped(before@) {
            Some(t) => Some(seq![EffectView::CopyToClipboard(t)]),
            None => None,
        }
    } else if chord(key, 'x') {
        after.cut_from(before) && r == match clipped(before@) {
            Some(t) => Some(seq![EffectView::CopyToClipboard(t)]),
            None => Some(nothing()),
        }
    } else if chord(key, 'z') {
        after.undone_from(before) && r == Some(nothing())
    } else if chord(key, 'y') {
        after.redone_from(before) && r == Some(nothing())
    } else {
        after == before && r is None
    }
}

/// Handle Ctrl chords that edit a field buffer. Returns the effects when the key was consumed (also by a cut
/// with no selection); `None` when the key should fall through. Ctrl+C without a selection falls through, so
/// that the caller decides what it means.
pub fn field_chords(buf: &mut InputBuffer, key: KeyPress) -> (r: Option<Vec<Effect>>)
    requires
        old(buf)@.wf(),
    ensures
        final(buf)@.wf(),
        chorded(*old(buf), key, *final(buf), consumed_views(r)),
{
    if !key.ctrl || key.alt {
        return None;
    }
    match key.code {
        Key::Char('v') => Some(one_effect(Effect::PasteClipboard)),
        Key::Char('c') => match buf.copy_selection() {
            Some(text) => Some(one_effect(Effect::CopyToClipboard(text))),
            None => None,
        },
        Key::Char('x') => match buf.cut_selection() {
            Some(text) => Some(one_effect(Effect::CopyToClipboard(text))),
            None => Some(no_effects()),
        },
        Key::Char('z') => {
            buf.undo();
            Some(no_effects())
        },
        Key::Char('y') => {
            buf.redo();
            Some(no_effects())
        },
        _ => None,
    }
}

} // verus!
