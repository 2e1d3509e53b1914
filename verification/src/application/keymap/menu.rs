//! The slash-command preview.
use vstd::prelude::*;
use vstd::string::*;
use crate::application::effect::{no_effects, nothing, Effect, EffectView};
use crate::application::keymap::field_edit::consumed_views;
use crate::domain::command_menu::{entry_views, CommandMenu, MenuView};
use crate::domain::input::{Key, KeyPress};
use crate::domain::model::Model;
use crate::domain::nav::wrapped;
use crate::text::{is_white, is_whitespace};

verus! {

/// Some character of the text is white space.
pub open spec fn has_white(s: Seq<char>) -> bool {
    exists|i: int| 0 <= i < s.len() && is_white(#[trigger] s[i])
}

/// The preview belongs on the screen: no turn runs, no modal is up, and the buffer is a slash command in
/// progress, without white space (which would start its arguments).
pub open spec fn menu_wanted(m: Model) -> bool {
    &&& !m.busy
    &&& !m.modal_open()
    &&& m.input@.text().len() > 0 && m.input@.text()[0] == '/'
    &&& !has_white(m.input@.text())
}

/// The preview of `new` is the one that its buffer asks for: closed, freshly opened, or the one from before
/// filtered anew.
pub open spec fn menu_follows(before: Option<CommandMenu>, new: Model) -> bool {
    if !menu_wanted(new) {
        new.command_menu is None
    } else {
        match before {
            Some(m) => new.command_menu matches Some(n) && n@ == m@.refreshed(new.input@.text()),
            None => new.command_menu matches Some(n) && n@ == MenuView::opened(
                new.input@.text(),
                entry_views(new.custom_commands@),
            ),
        }
    }
}

fn any_white(s: &str) -> (r: bool)
    ensures
        r == has_white(s@),
{
    for c in it: s.chars()
        invariant
            it.seq() == s@,
            forall|i: int| 0 <= i < it.index() ==> !is_white(#[trigger] s@[i]),
    {
        if is_whitespace(c) {
            assert(is_white(s@[it.index() as int]));
            return true;
        }
    }
    false
}

/// Open, refresh, or close the slash-command preview based on the current buffer. The menu is gated: never
/// open during a running turn, while a modal is up, or once the input contains white space (the user moved on
/// to arguments). Allowed only while the buffer starts with `/`.
pub fn sync_menu(model: &mut Model)
    requires
        old(model).wf(),
    ensures
        *final(model) == (Model { command_menu: final(model).command_menu, ..*old(model) }),
        menu_follows(old(model).command_menu, *final(model)),
        final(model).wf(),
{
    let text: String = model.input.text();
    let can_open: bool = !model.busy && !model.has_modal() && !text.as_str().is_empty()
        && text.as_str().get_char(0) == '/' && !any_white(text.as_str());
    if !can_open {
        model.command_menu = None;
        return ;
    }
    match model.command_menu.take() {
        Some(mut menu) => {
            menu.refresh(text.as_str());
            model.command_menu = Some(menu);
        },
        None => {
            model.command_menu = Some(CommandMenu::open(text.as_str(), &model.custom_commands));
        },
    }
}

/// What the open preview does with a key, and the effects where it consumes the key.
pub open spec fn menu_keyed(
    old: Model,
    key: KeyPress,
    new: Model,
    r: Option<Seq<EffectView>>,
) -> bool {
    match old.command_menu {
        Some(menu) if !key.ctrl && (key.code == Key::Up || key.code == Key::Down) => {
            &&& r == Some(nothing())
            &&& new == (Model { command_menu: new.command_menu, ..old })
            &&& new.command_menu matches Some(n) && n@ == (MenuView {
                selected: wrapped(
                    menu@.selected,
                    if key.code == Key::Up {
                        -1
                    } else {
                        1
                    },
                    menu@.rows.len() as int,
                ),
                ..menu@
            })
        },
        Some(menu) if !key.ctrl && key.code == Key::Tab => {
            &&& r == Some(nothing())
            &&& if menu@.rows.len() == 0 {
                new == old
            } else {
                // Tab completes to the highlighted name and moves on to its arguments.
                &&& new == (Model { input: new.input, command_menu: None, ..old })
                &&& new.input.replaced_from(old.input, menu@.rows[menu@.selected].name.push(' '))
            }
        },
        Some(menu) if !key.ctrl && key.code == Key::Esc => {
            &&& r == Some(nothing())
            &&& new == (Model { command_menu: None, ..old })
        },
        _ => r is None && new == old,
    }
}

/// Handle keys that the menu owns while it is open. Returns the effects when the key is consumed
/// (Up/Down/Tab/Esc), or `None` to fall through to the editor: typing keys still update the filter via
/// `sync_menu` after the editor mutation.
pub fn on_menu_key(model: &mut Model, key: &KeyPress) -> (r: Option<Vec<Effect>>)
    requires
        old(model).wf(),
        old(model).command_menu is Some,
    ensures
        menu_keyed(*old(model), *key, *final(model), consumed_views(r)),
        final(model).wf(),
{
    if key.ctrl {
        return None;
    }
    match key.code {
        Key::Up => {
            if let Some(mut menu) = model.command_menu.take() {
                menu.move_cursor(-1);
                model.command_menu = Some(menu);
            }
            Some(no_effects())
        },
        Key::Down => {
            if let Some(mut menu) = model.command_menu.take() {
                menu.move_cursor(1);
                model.command_menu = Some(menu);
            }
            Some(no_effects())
        },
        Key::Tab => {
            let name: Option<String> = match &model.command_menu {
                Some(menu) => match menu.entry() {
                    Some(entry) => Some(entry.name().to_owned()),
                    None => None,
                },
                None => None,
            };
            if let Some(name) = name {
                complete_command(model, name);
            }
            Some(no_effects())
        },
        Key::Esc => {
            model.command_menu = None;
            Some(no_effects())
        },
        _ => None,
    }
}

/// Replace the slash-command token in the buffer with `name` followed by a single space (Tab moves to
/// argument mode), then close the menu.
fn complete_command(model: &mut Model, name: String)
    requires
        old(model).wf(),
    ensures
        *final(model) == (Model { input: final(model).input, command_menu: None, ..*old(model) }),
        final(model).input.replaced_from(old(model).input, name@.push(' ')),
        final(model).wf(),
{
    let mut text: String = name;
    text.push(' ');
    model.input.set(text);
    model.command_menu = None;
}

/// While a turn runs or a modal is up, there is no preview.
pub proof fn no_menu_while_gated(before: Option<CommandMenu>, new: Model)
    requires
        menu_follows(before, new),
        new.busy || new.modal_open(),
    ensures
        new.command_menu is None,
{
}

/// Once the buffer holds white space, the preview is gone.
pub proof fn no_menu_behind_the_name(before: Option<CommandMenu>, new: Model, at: int)
    requires
        menu_follows(before, new),
        0 <= at < new.input@.text().len(),
        is_white(new.input@.text()[at]),
    ensures
        new.command_menu is None,
{
}

} // verus!
