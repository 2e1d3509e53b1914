//! The keymap: pure reducers that interpret input against the `Model`, split by responsibility into
//! `editor_input` (key/mouse dispatch and the editor), `menu` (the slash-command preview), `submit` (submit,
//! command routing and picker openers), `modals` and `pickers` (approval/plan/picker handlers), `wizard` (the
//! add-provider flow), and `transcript_pane` and `search` (reading and searching the conversation).
use vstd::prelude::*;

pub mod editor_input;
pub mod field_edit;
pub mod key_laws;
pub mod menu;
pub mod modals;
pub mod picker_laws;
pub mod pickers;
pub mod search;
pub mod submit;
pub mod submit_laws;
pub mod transcript_pane;
pub mod wizard;
pub mod wizard_laws;

verus! {

/// Transcript scroll amount of a key step, in lines.
pub const SCROLL_STEP: u16 = 5;

/// A "page" scroll step, used for Shift+PageUp/PageDown. The transcript viewport height is not stored on the
/// model, so a fixed large step stands in; the view clamps to the available history.
pub const SCROLL_PAGE: u16 = 20;

/// A mouse-wheel notch: gentler than a key step, since a wheel emits several events per physical notch.
pub const WHEEL_STEP: u16 = 3;

} // verus!
