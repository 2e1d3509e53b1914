//! From terminal events to messages.
use vstd::prelude::*;
use crate::application::msg::Msg;
use crate::domain::input::{Key, KeyPress, MouseKind};

verus! {

/// A key as the terminal reports it.
#[derive(Debug, Clone, Copy, PartialEq, Eq, Structural)]
pub enum TerminalKey {
    Char(char),
    Enter,
    Backspace,
    Delete,
    Left,
    Right,
    Up,
    Down,
    Home,
    End,
    PageUp,
    PageDown,
    Esc,
    Tab,
    BackTab,
    /// A key that the front-end does not act on (function keys, media keys, lone modifiers, ...).
    Unhandled,
}

/// What the mouse did.
#[derive(Debug, Clone, Copy, PartialEq, Eq, Structural)]
pub enum TerminalMouse {
    ScrollUp,
    ScrollDown,
    LeftDown,
    LeftDrag,
    LeftUp,
    Unhandled,
}

/// An event as the terminal reports it.
#[derive(Debug, Clone, PartialEq, Eq)]
pub enum TerminalEvent {
    /// A key event; `pressed` is false for releases and repeats.
    Key { code: TerminalKey, ctrl: bool, alt: bool, shift: bool, pressed: bool },
    Paste(String),
    Resize,
    Mouse { kind: TerminalMouse, col: u16, row: u16 },
    /// Focus changes and the like.
    Unhandled,
}

/// The key that a terminal key stands for, where the front-end acts on it.
pub open spec fn key_of(code: TerminalKey) -> Option<Key> {
    match code {
        TerminalKey::Char(c) => Some(Key::Char(c)),
        TerminalKey::Enter => Some(Key::Enter),
        TerminalKey::Backspace => Some(Key::Backspace),
        TerminalKey::Delete => Some(Key::Delete),
        TerminalKey::Left => Some(Key::Left),
        TerminalKey::Right => Some(Key::Right),
        TerminalKey::Up => Some(Key::Up),
        TerminalKey::Down => Some(Key::Down),
        TerminalKey::Home => Some(Key::Home),
        TerminalKey::End => Some(Key::End),
        TerminalKey::PageUp => Some(Key::PageUp),
        TerminalKey::PageDown => Some(Key::PageDown),
        TerminalKey::Esc => Some(Key::Esc),
        TerminalKey::Tab => Some(Key::Tab),
        TerminalKey::BackTab => Some(Key::BackTab),
        TerminalKey::Unhandled => None,
    }
}

/// The key press of a pressed terminal key. Windows surfaces AltGr as Ctrl+Alt: a character carrying both is
/// text the keyboard layout already composed, so it comes without either.
pub open spec fn press_of(code: Key, ctrl: bool, alt: bool, shift: bool) -> KeyPress {
    let composed = code is Char && ctrl && alt;
    KeyPress { code, ctrl: ctrl && !composed, alt: alt && !composed, shift }
}

fn key_to_msg(code: TerminalKey, ctrl: bool, alt: bool, shift: bool) -> (r: Option<Msg>)
    ensures
        r == match key_of(code) {
            Some(k) => Some(Msg::Key(press_of(k, ctrl, alt, shift))),
            None => None,
        },
{
    let code: Key = match code {
        TerminalKey::Char(c) => Key::Char(c),
        TerminalKey::Enter => Key::Enter,
        TerminalKey::Backspace => Key::Backspace,
        TerminalKey::Delete => Key::Delete,
        TerminalKey::Left => Key::Left,
        TerminalKey::Right => Key::Right,
        TerminalKey::Up => Key::Up,
        TerminalKey::Down => Key::Down,
        TerminalKey::Home => Key::Home,
        TerminalKey::End => Key::End,
        TerminalKey::PageUp => Key::PageUp,
        TerminalKey::PageDown => Key::PageDown,
        TerminalKey::Esc => Key::Esc,
        TerminalKey::Tab => Key::Tab,
        TerminalKey::BackTab => Key::BackTab,
        TerminalKey::Unhandled => {
            return None;
        },
    };
    let is_altgr_text: bool = matches!(code, Key::Char(_)) && ctrl && alt;
    Some(
        Msg::Key(
            KeyPress { code, ctrl: ctrl && !is_altgr_text, alt: alt && !is_altgr_text, shift },
        ),
    )
}

/// The message of a terminal event, where the front-end acts on it.
pub open spec fn msg_of(event: TerminalEvent) -> Option<Msg> {
    match event {
        TerminalEvent::Key { code, ctrl, alt, shift, pressed } => match key_of(code) {
            Some(k) if pressed => Some(Msg::Key(press_of(k, ctrl, alt, shift))),
            _ => None,
        },
        TerminalEvent::Paste(text) => Some(Msg::Paste(text)),
        TerminalEvent::Resize => Some(Msg::Resize),
        TerminalEvent::Mouse { kind, col, row } => match kind {
            TerminalMouse::ScrollUp => Some(Msg::ScrollUp),
            TerminalMouse::ScrollDown => Some(Msg::ScrollDown),
            TerminalMouse::LeftDown => Some(Msg::Mouse { kind: MouseKind::Down, col, row }),
            TerminalMouse::LeftDrag => Some(Msg::Mouse { kind: MouseKind::Drag, col, row }),
            TerminalMouse::LeftUp => Some(Msg::Mouse { kind: MouseKind::Up, col, row }),
            TerminalMouse::Unhandled => None,
        },
        TerminalEvent::Unhandled => None,
    }
}

/// Translate a terminal event into a `Msg`, or `None` for events the front-end ignores. Only key *press* events
/// are forwarded (key-release events, reported by some terminals, would double every keystroke). The mouse wheel
/// scrolls the transcript; left-button gestures drive the screen selection.
pub fn to_msg(event: TerminalEvent) -> (r: Option<Msg>)
    ensures
        r == msg_of(event),
{
    match event {
        TerminalEvent::Key { code, ctrl, alt, shift, pressed } => {
            if pressed {
                key_to_msg(code, ctrl, alt, shift)
            } else {
                None
            }
        },
        TerminalEvent::Paste(text) => Some(Msg::Paste(text)),
        TerminalEvent::Resize => Some(Msg::Resize),
        TerminalEvent::Mouse { kind, col, row } => match kind {
            TerminalMouse::ScrollUp => Some(Msg::ScrollUp),
            TerminalMouse::ScrollDown => Some(Msg::ScrollDown),
            TerminalMouse::LeftDown => Some(Msg::Mouse { kind: MouseKind::Down, col, row }),
            TerminalMouse::LeftDrag => Some(Msg::Mouse { kind: MouseKind::Drag, col, row }),
            TerminalMouse::LeftUp => Some(Msg::Mouse { kind: MouseKind::Up, col, row }),
            TerminalMouse::Unhandled => None,
        },
        TerminalEvent::Unhandled => None,
    }
}

/// Text composed with AltGr reaches the editor as plain typing, never as a chord.
pub proof fn composed_text_is_no_chord(c: char, shift: bool)
    ensures
        press_of(Key::Char(c), true, true, shift) == press_of(Key::Char(c), false, false, shift),
        press_of(Key::Char(c), true, false, shift).ctrl,
        press_of(Key::Char(c), false, true, shift).alt,
{
}

} // verus!
