//! Colours and text styles as plain values. The terminal back-end has its own; they meet where a frame is painted.
use vstd::prelude::*;

verus! {

/// A truecolor value.
#[derive(Debug, Clone, Copy, PartialEq, Eq, Hash, Structural)]
pub struct Color {
    pub r: u8,
    pub g: u8,
    pub b: u8,
}

/// A text style: unset parts inherit what is underneath.
#[derive(Debug, Clone, Copy, PartialEq, Eq, Structural)]
pub struct TextStyle {
    pub fg: Option<Color>,
    pub bg: Option<Color>,
    pub bold: bool,
    pub italic: bool,
    pub crossed_out: bool,
    pub reversed: bool,
}

impl TextStyle {
    /// The style that changes nothing.
    pub open spec fn plain() -> TextStyle {
        TextStyle { fg: None, bg: None, bold: false, italic: false, crossed_out: false, reversed: false }
    }

    /// The style that changes nothing.
    pub fn new() -> (r: TextStyle)
        ensures
            r == TextStyle::plain(),
    {
        TextStyle { fg: None, bg: None, bold: false, italic: false, crossed_out: false, reversed: false }
    }

    /// The same style with foreground `color`.
    pub open spec fn with_fg(self, color: Color) -> TextStyle {
        TextStyle { fg: Some(color), ..self }
    }

    /// The same style with background `color`.
    pub open spec fn with_bg(self, color: Color) -> TextStyle {
        TextStyle { bg: Some(color), ..self }
    }

    pub fn fg(self, color: Color) -> (r: TextStyle)
        ensures
            r == self.with_fg(color),
    {
        TextStyle { fg: Some(color), ..self }
    }

    pub fn bg(self, color: Color) -> (r: TextStyle)
        ensures
            r == self.with_bg(color),
    {
        TextStyle { bg: Some(color), ..self }
    }

    pub fn bold(self) -> (r: TextStyle)
        ensures
            r == (TextStyle { bold: true, ..self }),
    {
        TextStyle { bold: true, ..self }
    }

    pub fn italic(self) -> (r: TextStyle)
        ensures
            r == (TextStyle { italic: true, ..self }),
    {
        TextStyle { italic: true, ..self }
    }

    pub fn crossed_out(self) -> (r: TextStyle)
        ensures
            r == (TextStyle { crossed_out: true, ..self }),
    {
        TextStyle { crossed_out: true, ..self }
    }

    pub fn reversed(self) -> (r: TextStyle)
        ensures
            r == (TextStyle { reversed: true, ..self }),
    {
        TextStyle { reversed: true, ..self }
    }
}

impl Default for TextStyle {
    fn default() -> (r: TextStyle)
        ensures
            r == TextStyle::plain(),
    {
        TextStyle::new()
    }
}

} // verus!
