//! Key and mouse dispatch, and the composer.
use vstd::prelude::*;
use crate::application::effect::{effect_views, no_effects, nothing, one_effect, Effect, EffectView};
use crate::application::keymap::field_edit::{chord, clipped};
use crate::application::keymap::menu::{menu_follows, menu_keyed, on_menu_key, sync_menu};
use crate::application::keymap::modals::{approval_keyed, on_approval_key, on_plan_key, plan_keyed};
use crate::application::keymap::pickers::{on_picker_key, picker_keyed};
use crate::application::keymap::search::{on_search_key, search_keyed};
use crate::application::keymap::submit::{submit, submitted};
use crate::application::keymap::transcript_pane::{on_transcript_key, transcript_keyed};
use crate::application::keymap::wizard::{on_wizard_key, wizard_keyed};
use crate::application::keymap::{SCROLL_PAGE, SCROLL_STEP};
use crate::clock::Instant;
use crate::domain::input::{Key, KeyPress, MouseKind};
use crate::domain::input_buffer::{translated, types};
use crate::domain::model::{Model, PaneFocus, Selection, Timeline};
use crate::domain::scroll::Scroll;
use crate::domain::selection::{Granularity, ScreenSelection, SelectionState};

verus! {

/// Double-tap window for Ctrl+C (quit) and Esc (cancel), in nanoseconds: two presses within it count as a
/// double.
pub const DOUBLE_TAP_WINDOW: u64 = 500_000_000;

/// Multi-click window, in nanoseconds: presses on the same cell within it escalate the selection granularity
/// (char → word → line).
pub const MULTI_CLICK_WINDOW: u64 = 400_000_000;

/// A press at `now` is the second of a double tap.
pub open spec fn double_tapped(last: Option<Instant>, now: Instant) -> bool {
    last matches Some(t) && now.nanos_since(t) < DOUBLE_TAP_WINDOW
}

fn is_double_tap(last: Option<Instant>, now: Instant) -> (r: bool)
    ensures
        r == double_tapped(last, now),
{
    match last {
        Some(t) => now.saturating_duration_since(t).nanos < DOUBLE_TAP_WINDOW,
        None => false,
    }
}

/// `new` is `m` with only the composer and its preview changed, the preview following the composer.
pub open spec fn edited(m: Model, new: Model) -> bool {
    &&& new == (Model { input: new.input, command_menu: new.command_menu, ..m })
    &&& menu_follows(m.command_menu, new)
}

/// The transcript takes the focus, at its last item unless one is selected.
pub open spec fn transcript_focused(m: Model) -> Model {
    Model {
        focused_pane: PaneFocus::Transcript,
        selected_item: if m.selected_item is None && m.transcript@.len() > 0 {
            Some((m.transcript@.len() - 1) as usize)
        } else {
            m.selected_item
        },
        ..m
    }
}

/// A session chord: Ctrl (without Alt) and one of the letters that the composer acts on.
pub open spec fn session_chord(m: Model, key: KeyPress) -> bool {
    chord(key, 'c') || chord(key, 'x') || chord(key, 'v') || chord(key, 'z') || chord(key, 'y')
        || chord(key, 'o') || (chord(key, 'd') && m.input@.text().len() == 0) || chord(key, 'p')
        || chord(key, 'f')
}

/// What Ctrl+C does in the composer: copy the selection; else quit on the second tap, or cancel a running turn.
pub open spec fn interrupted(m: Model, new: Model, effects: Seq<EffectView>) -> bool {
    &&& new.input.copied_from(m.input)
    &&& match clipped(m.input@) {
        Some(t) => {
            &&& new == (Model { input: new.input, ..m })
            &&& effects == seq![EffectView::CopyToClipboard(t)]
        },
        None => {
            let now = m.timeline.event_clock();
            let double = double_tapped(m.timeline.last_ctrl_c, now);
            &&& new == (Model {
                input: new.input,
                timeline: Timeline { last_ctrl_c: Some(now), ..m.timeline },
                should_quit: m.should_quit || double,
                ..m
            })
            &&& effects == if double {
                seq![EffectView::Quit]
            } else if m.busy {
                seq![EffectView::CancelTurn]
            } else {
                nothing()
            }
        },
    }
}

/// What a session chord does.
pub open spec fn chord_keyed(m: Model, key: KeyPress, new: Model, effects: Seq<EffectView>) -> bool {
    match key.code {
        Key::Char('c') => interrupted(m, new, effects),
        Key::Char('x') => {
            &&& new.input.cut_from(m.input)
            &&& match clipped(m.input@) {
                Some(t) => edited(m, new) && effects == seq![EffectView::CopyToClipboard(t)],
                None => new == (Model { input: new.input, ..m }) && effects == nothing(),
            }
        },
        Key::Char('v') => new == m && effects == seq![EffectView::PasteClipboard],
        Key::Char('z') => {
            edited(m, new) && new.input.undone_from(m.input) && effects == nothing()
        },
        Key::Char('y') => {
            edited(m, new) && new.input.redone_from(m.input) && effects == nothing()
        },
        Key::Char('o') => new == (Model { expand_tools: !m.expand_tools, ..m }) && effects == nothing(),
        Key::Char('d') => {
            new == (Model { should_quit: true, ..m }) && effects == seq![EffectView::Quit]
        },
        Key::Char('p') => {
            &&& effects == nothing()
            &&& new == if m.focused_pane == PaneFocus::Input {
                transcript_focused(m)
            } else {
                Model { focused_pane: PaneFocus::Input, ..m }
            }
        },
        _ => {
            // Ctrl+F opens the search, or ends it.
            &&& effects == nothing()
            &&& new.search_results@.len() == 0
            &&& if m.search_query is Some {
                new == (Model { search_query: None, search_results: new.search_results, ..m })
            } else {
                &&& new == (Model {
                    search_query: new.search_query,
                    search_results: new.search_results,
                    active_search_match: 0,
                    ..m
                })
                &&& new.search_query matches Some(q) && q@.len() == 0
            }
        },
    }
}

/// Up recalls history: no Shift, nothing selected, and the cursor on the first row.
pub open spec fn recalls_older(m: Model, key: KeyPress) -> bool {
    key.code == Key::Up && !key.shift && m.input@.anchor is None && m.input@.row == 0
}

/// Down recalls history: no Shift, nothing selected, and the cursor on the last row.
pub open spec fn recalls_newer(m: Model, key: KeyPress) -> bool {
    key.code == Key::Down && !key.shift && m.input@.anchor is None && m.input@.row
        == m.input@.lines.len() - 1
}

/// The composer holds a recalled line.
pub open spec fn recalled(m: Model, new: Model, line: Seq<char>) -> bool {
    &&& new == (Model {
        input: new.input,
        history: new.history,
        command_menu: new.command_menu,
        ..m
    })
    &&& new.input.replaced_from(m.input, line)
    &&& menu_follows(m.command_menu, new)
}

/// What Up or Down does where it recalls history.
pub open spec fn recall_keyed(m: Model, older: bool, new: Model) -> bool {
    if older {
        if m.history@.entries.len() == 0 {
            new == (Model { history: new.history, ..m }) && new.history@ == m.history@
        } else {
            let h = m.history@.stepped_back(m.input@.text());
            new.history@ == h && recalled(m, new, h.entries[h.cursor->0])
        }
    } else {
        match m.history@.forward_text() {
            Some(line) => new.history@ == m.history@.stepped_forward() && recalled(m, new, line),
            None => new == (Model { history: new.history, ..m }) && new.history@ == m.history@,
        }
    }
}

/// What the keys of the composer do once the chords are handled.
pub open spec fn plain_keyed(m: Model, key: KeyPress, new: Model, effects: Seq<EffectView>) -> bool {
    if key.code == Key::Esc && m.busy {
        let now = m.timeline.event_clock();
        &&& new == (Model { timeline: Timeline { last_esc: Some(now), ..m.timeline }, ..m })
        &&& effects == if double_tapped(m.timeline.last_esc, now) {
            seq![EffectView::CancelTurn]
        } else {
            nothing()
        }
    } else if key.code == Key::Esc && m.input@.text().len() == 0 {
        &&& effects == nothing()
        &&& new == if m.transcript@.len() > 0 {
            transcript_focused(m)
        } else {
            m
        }
    } else if key.code == Key::Enter && (key.shift || key.alt) {
        &&& edited(m, new)
        &&& new.input@ == m.input@.with_newline()
        &&& new.input.edited_from(m.input)
        &&& effects == nothing()
    } else if key.code == Key::Enter {
        submitted(m, new, effects)
    } else if key.code == Key::BackTab {
        &&& effects == nothing()
        &&& new == if m.busy {
            m
        } else {
            Model { approval_mode: m.approval_mode.following(), ..m }
        }
    } else if key.code == Key::Home && key.ctrl {
        new == (Model { scroll: Scroll { scrollback: u16::MAX }, ..m }) && effects == nothing()
    } else if key.code == Key::End && key.ctrl {
        new == (Model { scroll: Scroll { scrollback: 0 }, ..m }) && effects == nothing()
    } else if recalls_older(m, key) || recalls_newer(m, key) {
        effects == nothing() && recall_keyed(m, key.code == Key::Up, new)
    } else if key.code == Key::PageUp {
        &&& effects == nothing()
        &&& new == (Model {
            scroll: m.scroll.raised(
                if key.shift {
                    SCROLL_PAGE
                } else {
                    SCROLL_STEP
                },
            ),
            ..m
        })
    } else if key.code == Key::PageDown {
        &&& effects == nothing()
        &&& new == (Model {
            scroll: m.scroll.lowered(
                if key.shift {
                    SCROLL_PAGE
                } else {
                    SCROLL_STEP
                },
            ),
            ..m
        })
    } else {
        // Typing, deletion, cursor motion, word motion and Shift-selection are the editor's.
        &&& edited(m, new)
        &&& effects == nothing()
        &&& new.input.fed_from(m.input, translated(key))
    }
}

/// The screen highlight dropped.
pub open spec fn unselected(m: Model) -> Model {
    Model { selection: Selection { active: None, ..m.selection }, ..m }
}

/// Ctrl+C takes a live screen selection first.
pub open spec fn takes_selection(m: Model, key: KeyPress) -> bool {
    chord(key, 'c') && (m.selection.active matches Some(s) && !s.spans_nothing())
}

/// The open preview owns the key.
pub open spec fn menu_owns(m: Model, key: KeyPress) -> bool {
    m.command_menu is Some && !key.ctrl && (key.code == Key::Up || key.code == Key::Down || key.code
        == Key::Tab || key.code == Key::Esc)
}

/// What a key does to a model without a modal, whose editor has the focus.
pub open spec fn composer_keyed(old: Model, key: KeyPress, new: Model, effects: Seq<EffectView>) -> bool {
    if takes_selection(old, key) {
        &&& effects == nothing()
        &&& new == (Model {
            selection: Selection {
                active: Some(
                    ScreenSelection {
                        state: SelectionState::CopyAndClear,
                        ..old.selection.active->0
                    },
                ),
                ..old.selection
            },
            ..old
        })
    } else if menu_owns(old, key) {
        menu_keyed(unselected(old), key, new, Some(effects))
    } else if session_chord(old, key) {
        chord_keyed(unselected(old), key, new, effects)
    } else {
        plain_keyed(unselected(old), key, new, effects)
    }
}

/// What a key does: it goes to the modal that is up, to the search, to the focused transcript, or to the
/// composer, in this order.
pub open spec fn keyed(old: Model, key: KeyPress, new: Model, effects: Seq<EffectView>) -> bool {
    if old.pending_approval is Some {
        approval_keyed(old, key, new, effects)
    } else if old.pending_plan is Some {
        plan_keyed(old, key, new, effects)
    } else if old.picker is Some {
        picker_keyed(old, key, new, effects)
    } else if old.wizard is Some {
        wizard_keyed(old, key, new, effects)
    } else if old.search_query is Some {
        search_keyed(old, key, new) && effects == nothing()
    } else if old.focused_pane == PaneFocus::Transcript {
        transcript_keyed(old, key, new, effects)
    } else {
        composer_keyed(old, key, new, effects)
    }
}

/// Ctrl+C in the composer. Clipboard access is I/O, so only the buffer changes here and an effect goes out.
fn interrupt(model: &mut Model) -> (r: Vec<Effect>)
    requires
        old(model).wf(),
    ensures
        interrupted(*old(model), *final(model), effect_views(r@)),
        final(model).wf(),
{
    if let Some(text) = model.input.copy_selection() {
        return one_effect(Effect::CopyToClipboard(text));
    }
    let now: Instant = model.timeline.event_time();
    let double: bool = is_double_tap(model.timeline.last_ctrl_c, now);
    model.timeline.last_ctrl_c = Some(now);
    if double {
        model.should_quit = true;
        one_effect(Effect::Quit)
    } else if model.busy {
        one_effect(Effect::CancelTurn)
    } else {
        no_effects()
    }
}

fn focus_transcript(model: &mut Model)
    requires
        old(model).wf(),
    ensures
        *final(model) == transcript_focused(*old(model)),
        final(model).wf(),
{
    let n: usize = model.transcript.items().len();
    model.focused_pane = PaneFocus::Transcript;
    if model.selected_item.is_none() && n > 0 {
        model.selected_item = Some(n - 1);
    }
}

/// The chords for clipboard, undo and session control. They take precedence over text input and over the
/// widget's own bindings. Ctrl+A is not select-all: it moves to the line's head, as the widget binds it.
fn on_chord(model: &mut Model, key: KeyPress) -> (r: Option<Vec<Effect>>)
    requires
        old(model).wf(),
    ensures
        match r {
            Some(effects) => session_chord(*old(model), key) && chord_keyed(
                *old(model),
                key,
                *final(model),
                effect_views(effects@),
            ),
            None => !session_chord(*old(model), key) && *final(model) == *old(model),
        },
        final(model).wf(),
{
    if !key.ctrl || key.alt {
        return None;
    }
    match key.code {
        Key::Char('c') => Some(interrupt(model)),
        Key::Char('x') => match model.input.cut_selection() {
            Some(text) => {
                sync_menu(model);
                Some(one_effect(Effect::CopyToClipboard(text)))
            },
            None => Some(no_effects()),
        },
        Key::Char('v') => Some(one_effect(Effect::PasteClipboard)),
        Key::Char('z') => {
            model.input.undo();
            sync_menu(model);
            Some(no_effects())
        },
        Key::Char('y') => {
            model.input.redo();
            sync_menu(model);
            Some(no_effects())
        },
        // A pure view flag, live even mid-turn so the user can expand a long output while it streams.
        Key::Char('o') => {
            model.expand_tools = !model.expand_tools;
            Some(no_effects())
        },
        Key::Char('d') => {
            if model.input.is_empty() {
                model.should_quit = true;
                Some(one_effect(Effect::Quit))
            } else {
                None
            }
        },
        Key::Char('p') => {
            if model.focused_pane == PaneFocus::Input {
                focus_transcript(model);
            } else {
                model.focused_pane = PaneFocus::Input;
            }
            Some(no_effects())
        },
        Key::Char('f') => {
            if model.search_query.is_some() {
                model.search_query = None;
                model.search_results = Vec::new();
            } else {
                model.search_query = Some(String::new());
                model.search_results = Vec::new();
                model.active_search_match = 0;
            }
            Some(no_effects())
        },
        _ => None,
    }
}

/// Recall an older or newer history entry into the composer.
fn recall(model: &mut Model, older: bool)
    requires
        old(model).wf(),
    ensures
        recall_keyed(*old(model), older, *final(model)),
        final(model).wf(),
{
    let line: Option<String> = if older {
        let text: String = model.input.text();
        model.history.older(text.as_str())
    } else {
        model.history.newer()
    };
    if let Some(line) = line {
        model.input.set(line);
        sync_menu(model);
    }
}

/// The composer's keys once the chords are handled.
fn on_plain_key(model: &mut Model, key: KeyPress) -> (r: Vec<Effect>)
    requires
        old(model).wf(),
    ensures
        plain_keyed(*old(model), key, *final(model), effect_views(r@)),
        final(model).wf(),
{
    // Esc while busy: the second of a double tap cancels the turn; otherwise, on an empty editor, it moves the
    // focus to the transcript.
    if key.code == Key::Esc && model.busy {
        let now: Instant = model.timeline.event_time();
        let double: bool = is_double_tap(model.timeline.last_esc, now);
        model.timeline.last_esc = Some(now);
        return if double {
            one_effect(Effect::CancelTurn)
        } else {
            no_effects()
        };
    }
    if key.code == Key::Esc && model.input.is_empty() {
        if !model.transcript.is_empty() {
            focus_transcript(model);
        }
        return no_effects();
    }
    let recalls: bool = !key.shift && !model.input.is_selecting() && ((key.code == Key::Up
        && model.input.cursor_row() == 0) || (key.code == Key::Down && model.input.cursor_row()
        == model.input.last_row()));
    if recalls {
        recall(model, key.code == Key::Up);
        return no_effects();
    }
    match key.code {
        // Shift/Alt+Enter inserts a newline; plain Enter submits.
        Key::Enter => {
            if key.shift || key.alt {
                model.input.newline();
                sync_menu(model);
                no_effects()
            } else {
                submit(model)
            }
        },
        // Shift+Tab cycles the approval mode; ignored mid-turn, since the mode is read when a turn starts.
        Key::BackTab => {
            if !model.busy {
                model.approval_mode = model.approval_mode.next();
            }
            no_effects()
        },
        Key::PageUp => {
            model.scroll.up(
                if key.shift {
                    SCROLL_PAGE
                } else {
                    SCROLL_STEP
                },
            );
            no_effects()
        },
        Key::PageDown => {
            model.scroll.down(
                if key.shift {
                    SCROLL_PAGE
                } else {
                    SCROLL_STEP
                },
            );
            no_effects()
        },
        _ => {
            // Ctrl+Home/End jump the transcript scrollback; plain Home/End are the editor's.
            if key.code == Key::Home && key.ctrl {
                model.scroll.top();
            } else if key.code == Key::End && key.ctrl {
                model.scroll.pin();
            } else {
                model.input.feed_key(key);
                sync_menu(model);
            }
            no_effects()
        },
    }
}

/// A key for the composer: no modal is up, and the editor has the focus.
fn on_composer_key(model: &mut Model, key: KeyPress) -> (r: Vec<Effect>)
    requires
        old(model).wf(),
    ensures
        composer_keyed(*old(model), key, *final(model), effect_views(r@)),
        final(model).wf(),
{
    // A live screen selection takes Ctrl+C first: a copy is requested and the highlight is dropped after it, so
    // that a second Ctrl+C resumes cancel/quit. The double-tap clock is left alone.
    if key.ctrl && !key.alt && key.code == Key::Char('c') {
        if let Some(sel) = model.selection.active {
            if !sel.is_empty() {
                model.selection.active = Some(
                    ScreenSelection { state: SelectionState::CopyAndClear, ..sel },
                );
                return no_effects();
            }
        }
    }
    // Any other key means the user is editing or navigating.
    model.selection.active = None;
    // The menu intercepts navigation and completion keys, but lets ordinary typing fall through.
    if model.command_menu.is_some() {
        if let Some(effects) = on_menu_key(model, &key) {
            return effects;
        }
    }
    if let Some(effects) = on_chord(model, key) {
        return effects;
    }
    on_plain_key(model, key)
}

/// Interpret a key press against the current model, mutating it and returning any effects. Pure: no I/O. While a
/// modal is up, keys drive it; otherwise they drive the search, the focused transcript, or the editor, history
/// and scrollback.
pub fn on_key(model: &mut Model, key: KeyPress) -> (r: Vec<Effect>)
    requires
        old(model).wf(),
    ensures
        keyed(*old(model), key, *final(model), effect_views(r@)),
        final(model).wf(),
{
    if model.pending_approval.is_some() {
        return on_approval_key(model, key);
    }
    if model.pending_plan.is_some() {
        return on_plan_key(model, key);
    }
    if model.picker.is_some() {
        return on_picker_key(model, key);
    }
    if model.wizard.is_some() {
        return on_wizard_key(model, key);
    }
    if model.search_query.is_some() {
        return on_search_key(model, key);
    }
    if model.focused_pane == PaneFocus::Transcript {
        return on_transcript_key(model, key);
    }
    on_composer_key(model, key)
}

/// How many presses in a row a mouse-down on a cell makes: one more than the last where that was on the same
/// cell within the multi-click window.
pub open spec fn click_count(m: Model, col: u16, row: u16) -> int {
    match (m.timeline.last_event_at, m.selection.last_click) {
        (Some(now), Some((prev, pos, n))) => if pos == (col, row) && now.nanos_since(prev)
            < MULTI_CLICK_WINDOW {
            if n < u8::MAX {
                n + 1
            } else {
                u8::MAX as int
            }
        } else {
            1
        },
        _ => 1,
    }
}

/// The granularity of a number of presses: one selects by character, two the word, more the line.
pub open spec fn granularity_of(count: int) -> Granularity {
    if count == 1 {
        Granularity::Char
    } else if count == 2 {
        Granularity::Word
    } else {
        Granularity::Line
    }
}

/// What a mouse gesture does: a press starts a selection, a drag extends it by characters, and a release
/// either asks for a copy or, for a bare click outside any modal, for the edit cursor.
pub open spec fn moused(
    old: Model,
    kind: MouseKind,
    col: u16,
    row: u16,
    new: Model,
    effects: Seq<EffectView>,
) -> bool {
    match kind {
        MouseKind::Down => {
            let count = click_count(old, col, row);
            &&& effects == nothing()
            &&& new == (Model {
                selection: Selection {
                    active: Some(ScreenSelection::at(col, row, granularity_of(count))),
                    last_click: match old.timeline.last_event_at {
                        Some(now) => Some((now, (col, row), count as u8)),
                        None => None,
                    },
                },
                ..old
            })
        },
        MouseKind::Drag => {
            &&& effects == nothing()
            &&& new == (Model {
                selection: Selection {
                    active: match old.selection.active {
                        Some(s) => Some(
                            ScreenSelection { head: (col, row), granularity: Granularity::Char, ..s },
                        ),
                        None => None,
                    },
                    ..old.selection
                },
                ..old
            })
        },
        MouseKind::Up => match old.selection.active {
            None => new == old && effects == nothing(),
            Some(s) => {
                let ended = if s.granularity == Granularity::Char {
                    ScreenSelection { head: (col, row), ..s }
                } else {
                    s
                };
                if ended.spans_nothing() {
                    &&& new == unselected(old)
                    &&& effects == if old.modal_open() {
                        nothing()
                    } else {
                        seq![EffectView::PlaceCursor { col, row }]
                    }
                } else {
                    &&& effects == nothing()
                    &&& new == (Model {
                        selection: Selection {
                            active: Some(
                                ScreenSelection { state: SelectionState::CopyAndKeep, ..ended },
                            ),
                            ..old.selection
                        },
                        ..old
                    })
                }
            },
        },
    }
}

/// Classify a mouse-down as a single/double/triple click, escalating the granularity when the same cell is
/// pressed again within the multi-click window. The running count lives in `last_click` (not in the selection,
/// which a bare click clears between presses).
fn click_granularity(model: &mut Model, col: u16, row: u16) -> (r: Granularity)
    ensures
        r == granularity_of(click_count(*old(model), col, row)),
        *final(model) == (Model {
            selection: Selection {
                last_click: match old(model).timeline.last_event_at {
                    Some(now) => Some((now, (col, row), click_count(*old(model), col, row) as u8)),
                    None => None,
                },
                ..old(model).selection
            },
            ..*old(model)
        }),
{
    let count: u8 = match (model.timeline.last_event_at, model.selection.last_click) {
        (Some(now), Some((prev, pos, n))) => {
            if pos.0 == col && pos.1 == row && now.saturating_duration_since(prev).nanos
                < MULTI_CLICK_WINDOW {
                n.saturating_add(1)
            } else {
                1
            }
        },
        _ => 1,
    };
    model.selection.last_click = match model.timeline.last_event_at {
        Some(now) => Some((now, (col, row), count)),
        None => None,
    };
    if count == 1 {
        Granularity::Char
    } else if count == 2 {
        Granularity::Word
    } else {
        Granularity::Line
    }
}

/// Interpret a left mouse gesture, mutating the screen selection. The clock is `timeline.last_event_at`, and
/// word/line ranges are derived later from the rendered buffer: here only anchor, head and granularity are set.
/// Not gated by a pending modal: selecting and copying the text of a box is allowed.
pub fn on_mouse(model: &mut Model, kind: MouseKind, col: u16, row: u16) -> (r: Vec<Effect>)
    requires
        old(model).wf(),
    ensures
        moused(*old(model), kind, col, row, *final(model), effect_views(r@)),
        final(model).wf(),
{
    match kind {
        MouseKind::Down => {
            let granularity: Granularity = click_granularity(model, col, row);
            model.selection.active = Some(ScreenSelection::new(col, row, granularity));
        },
        MouseKind::Drag => {
            // A drag is always a character-range gesture, even if it began as a double-click.
            if let Some(mut sel) = model.selection.active {
                sel.granularity = Granularity::Char;
                sel.extend(col, row);
                model.selection.active = Some(sel);
            }
        },
        MouseKind::Up => {
            if let Some(mut sel) = model.selection.active {
                if sel.granularity == Granularity::Char {
                    sel.extend(col, row);
                }
                if sel.is_empty() {
                    // A bare click selects nothing: no stray highlight is left, and in the focused composer
                    // the edit cursor is asked for. Under a modal the editor is read-only.
                    model.selection.active = None;
                    if !model.has_modal() {
                        return one_effect(Effect::PlaceCursor { col, row });
                    }
                } else {
                    sel.state = SelectionState::CopyAndKeep;
                    model.selection.active = Some(sel);
                }
            }
        },
    }
    no_effects()
}

/// While a modal is up, no key reaches the composer, its history, or the transcript scroll.
pub proof fn modals_shield_the_composer(old: Model, key: KeyPress, new: Model, effects: Seq<EffectView>)
    requires
        keyed(old, key, new, effects),
        old.modal_open(),
    ensures
        new.input == old.input,
        new.history == old.history,
        new.scroll == old.scroll,
        new.busy == old.busy,
{
    reveal(crate::application::keymap::wizard::text_keyed);
}

/// While a turn runs, no key starts another one, and none changes the approval mode but an answered approval.
pub proof fn busy_submits_nothing(old: Model, key: KeyPress, new: Model, effects: Seq<EffectView>)
    requires
        keyed(old, key, new, effects),
        old.busy,
        !old.modal_open(),
    ensures
        new.busy,
        new.approval_mode == old.approval_mode,
        forall|i: int| 0 <= i < effects.len() ==> !(#[trigger] effects[i] is SubmitPrompt),
{
}

/// The front-end quits only by an effect that says so.
pub proof fn quitting_is_announced(old: Model, key: KeyPress, new: Model, effects: Seq<EffectView>)
    requires
        keyed(old, key, new, effects),
        new.should_quit,
        !old.should_quit,
    ensures
        effects == seq![EffectView::Quit],
{
    reveal(crate::application::keymap::wizard::text_keyed);
}

/// One Ctrl+C never quits a front-end that was not just pressed: without a recent first tap it cancels the
/// running turn, or does nothing.
pub proof fn single_interrupt_does_not_quit(m: Model, new: Model, effects: Seq<EffectView>)
    requires
        interrupted(m, new, effects),
        m.timeline.last_ctrl_c is None,
        clipped(m.input@) is None,
    ensures
        new.should_quit == m.should_quit,
        effects == if m.busy {
            seq![EffectView::CancelTurn]
        } else {
            nothing()
        },
        new.timeline.last_ctrl_c == Some(m.timeline.event_clock()),
{
}

/// Two Ctrl+C on an editor without a selection, the second within the window, quit.
pub proof fn second_interrupt_quits(
    a: Model,
    b: Model,
    first: Seq<EffectView>,
    mid: Model,
    c: Model,
    second: Seq<EffectView>,
)
    requires
        interrupted(a, b, first),
        clipped(a.input@) is None,
        mid.timeline.last_ctrl_c == b.timeline.last_ctrl_c,
        mid.timeline.event_clock().nanos_since(a.timeline.event_clock()) < DOUBLE_TAP_WINDOW,
        clipped(mid.input@) is None,
        interrupted(mid, c, second),
    ensures
        c.should_quit,
        second == seq![EffectView::Quit],
{
}

/// A bare click in the composer places the cursor and leaves no highlight.
pub proof fn bare_click_places_the_cursor(
    a: Model,
    b: Model,
    c: Model,
    col: u16,
    row: u16,
    first: Seq<EffectView>,
    second: Seq<EffectView>,
)
    requires
        a.selection.last_click is None,
        !a.modal_open(),
        moused(a, MouseKind::Down, col, row, b, first),
        moused(b, MouseKind::Up, col, row, c, second),
    ensures
        second == seq![EffectView::PlaceCursor { col, row }],
        c.selection.active is None,
{
}

/// Pressing the same cell again and again within the window selects the character, then the word, then the
/// line.
pub proof fn clicks_escalate(m: Model, now: Instant, prev: Instant, col: u16, row: u16, n: u8)
    requires
        m.timeline.last_event_at == Some(now),
        m.selection.last_click == Some((prev, (col, row), n)),
        now.nanos_since(prev) < MULTI_CLICK_WINDOW,
        n >= 1,
    ensures
        n == 1 ==> granularity_of(click_count(m, col, row)) == Granularity::Word,
        n >= 2 ==> granularity_of(click_count(m, col, row)) == Granularity::Line,
{
}

/// A typed character is taken back by Ctrl+Z, which leaves the text as it was but for what was selected, and comes back
/// by Ctrl+Y.
pub proof fn typing_is_undone_and_redone(
    m: Model,
    key: KeyPress,
    undo: KeyPress,
    redo: KeyPress,
    typed: Model,
    undone: Model,
    redone: Model,
    a: Seq<EffectView>,
    b: Seq<EffectView>,
    c: Seq<EffectView>,
)
    requires
        key.code is Char && !key.ctrl && !key.alt,
        chord(undo, 'z'),
        chord(redo, 'y'),
        composer_keyed(m, key, typed, a),
        composer_keyed(typed, undo, undone, b),
        composer_keyed(undone, redo, redone, c),
    ensures
        undone.input@ == m.input@.without_selection(),
        redone.input@.text() == typed.input@.text(),
        a == nothing() && b == nothing() && c == nothing(),
{
    assert(types(translated(key)));
}

/// A line break of Shift+Enter or Alt+Enter is taken back by Ctrl+Z.
pub proof fn a_line_break_is_undone(
    m: Model,
    key: KeyPress,
    undo: KeyPress,
    broken: Model,
    undone: Model,
    a: Seq<EffectView>,
    b: Seq<EffectView>,
)
    requires
        key.code == Key::Enter && (key.shift || key.alt),
        chord(undo, 'z'),
        composer_keyed(m, key, broken, a),
        composer_keyed(broken, undo, undone, b),
    ensures
        broken.input@ == m.input@.with_newline(),
        undone.input@ == m.input@.without_selection(),
{
}

/// Ctrl+Z does not cross a recalled line: the draft comes back through the history instead.
pub proof fn undo_does_not_cross_a_recall(m: Model, line: Seq<char>, undo: KeyPress, mid: Model, new: Model, e: Seq<EffectView>)
    requires
        recalled(m, mid, line),
        chord(undo, 'z'),
        composer_keyed(mid, undo, new, e),
    ensures
        new.input == mid.input,
{
}

} // verus!
