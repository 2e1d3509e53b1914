//! The multi-line editor field: a `tui-textarea` widget behind a thin wrapper.
use vstd::prelude::*;
use zeroize::Zeroize;
use tui_textarea::{CursorMove, Input, Key as WidgetKey, TextArea, WrapMode};
use crate::domain::input::{Key, KeyPress};
use crate::style::{Color, TextStyle};
use crate::text::{char_count, join, join_of_split, join_with, split, split_on, split_on_nonempty, views, without_cr};

verus! {

/// A pasted image staged for the next prompt: its data URL (base64 PNG, ready for the provider's multimodal
/// content) and pixel dimensions for the "attached" chip.
#[derive(Debug, Clone, PartialEq, Eq)]
pub struct ImageAttachment {
    pub data_url: String,
    pub width: usize,
    pub height: usize,
}

/// The data URLs of a list of attachments.
pub open spec fn data_urls(v: Seq<ImageAttachment>) -> Seq<Seq<char>> {
    Seq::new(v.len(), |i: int| v[i].data_url@)
}

/// The editor widget of `tui-textarea`.
#[verifier::external_body]
#[derive(Debug)]
pub struct Area {
    widget: TextArea<'static>,
}

/// The screen cells that a widget is drawn to.
#[verifier::external_type_specification]
#[verifier::external_body]
pub struct ExBuffer(ratatui::buffer::Buffer);

/// The back-end's form of a text style.
#[verifier::external_type_specification]
#[verifier::external_body]
pub struct ExStyle(ratatui::style::Style);

/// Where a line that is too long goes on in the next row.
#[derive(Debug, Clone, Copy, PartialEq, Eq, Structural)]
pub enum Wrap {
    Nowhere,
    Word,
    Glyph,
    WordOrGlyph,
}

/// What an editor holds: its lines, the cursor, the other end of an ongoing selection, and the text last
/// cut or copied. `plain` says that no part of the text is marked as atomic.
pub struct EditorView {
    pub lines: Seq<Seq<char>>,
    pub row: int,
    pub col: int,
    pub anchor: Option<(int, int)>,
    pub yank: Seq<char>,
    pub plain: bool,
}

/// The lines of a pasted text: cut at each `\n`, a `\r` before it dropped.
pub open spec fn pasted_lines(s: Seq<char>) -> Seq<Seq<char>> {
    split_on(s, '\n').map_values(|l: Seq<char>| without_cr(l))
}

/// `first` and `last` are the positions `a` and `b` in reading order.
pub open spec fn ordered_ends(a: (int, int), b: (int, int), first: (int, int), last: (int, int)) -> bool {
    if b.0 < a.0 || (b.0 == a.0 && b.1 < a.1) {
        first == b && last == a
    } else {
        first == a && last == b
    }
}

impl EditorView {
    /// A fresh editor.
    pub open spec fn blank() -> EditorView {
        EditorView {
            lines: seq![Seq::<char>::empty()],
            row: 0,
            col: 0,
            anchor: None,
            yank: Seq::empty(),
            plain: true,
        }
    }

    /// `(row, col)` is a position of the text.
    pub open spec fn in_text(self, row: int, col: int) -> bool {
        0 <= row < self.lines.len() && 0 <= col <= self.lines[row].len()
    }

    /// There is at least one line, and the cursor and the selection lie in the text.
    pub open spec fn wf(self) -> bool {
        &&& self.plain
        &&& self.in_text(self.row, self.col)
        &&& match self.anchor {
            Some(a) => self.in_text(a.0, a.1),
            None => true,
        }
    }

    /// The whole buffer as one text.
    pub open spec fn text(self) -> Seq<char> {
        join_with(self.lines, '\n')
    }

    /// The rows on the screen can be counted, however narrow it is, when the editor is drawn at a height.
    pub open spec fn drawable(self, height: int) -> bool {
        height <= 0x7fff && self.text().len() + 1 + height <= 0xffff
    }

    /// The selected range in reading order; nothing when its two ends meet.
    pub open spec fn span(self) -> Option<((int, int), (int, int))> {
        match self.anchor {
            Some(a) => if a.0 < self.row || (a.0 == self.row && a.1 < self.col) {
                Some((a, (self.row, self.col)))
            } else if a.0 == self.row && a.1 == self.col {
                None
            } else {
                Some(((self.row, self.col), a))
            },
            None => None,
        }
    }

    /// The text of a range.
    pub open spec fn range_text(self, s: (int, int), e: (int, int)) -> Seq<char> {
        if s.0 == e.0 {
            self.lines[s.0].subrange(s.1, e.1)
        } else {
            join_with(
                seq![self.lines[s.0].skip(s.1)] + self.lines.subrange(s.0 + 1, e.0)
                    + seq![self.lines[e.0].take(e.1)],
                '\n',
            )
        }
    }

    /// The editor once the selected text is removed and the selection is over.
    pub open spec fn without_selection(self) -> EditorView {
        match self.span() {
            Some((s, e)) => EditorView {
                lines: self.lines.take(s.0).push(
                    self.lines[s.0].take(s.1) + self.lines[e.0].skip(e.1),
                ) + self.lines.skip(e.0 + 1),
                row: s.0,
                col: s.1,
                anchor: None,
                ..self
            },
            None => EditorView { anchor: None, ..self },
        }
    }

    /// The editor once the selected text is yanked and the selection is over.
    pub open spec fn copied(self) -> EditorView {
        EditorView {
            anchor: None,
            yank: match self.span() {
                Some((s, e)) => self.range_text(s, e),
                None => self.yank,
            },
            ..self
        }
    }

    /// The editor once the lines `p` are inserted at the cursor, which ends up behind them.
    pub open spec fn with_pieces(self, p: Seq<Seq<char>>) -> EditorView {
        let line = self.lines[self.row];
        if p.len() == 1 {
            EditorView {
                lines: self.lines.update(self.row, line.take(self.col) + p[0] + line.skip(self.col)),
                col: self.col + p[0].len(),
                ..self
            }
        } else {
            EditorView {
                lines: self.lines.take(self.row).push(line.take(self.col) + p[0]) + p.subrange(
                    1,
                    p.len() - 1,
                ).push(p.last() + line.skip(self.col)) + self.lines.skip(self.row + 1),
                row: self.row + p.len() - 1,
                col: p.last().len() as int,
                ..self
            }
        }
    }

    /// The editor once `s` took the place of the selection.
    pub open spec fn with_text(self, s: Seq<char>) -> EditorView {
        self.without_selection().with_pieces(pasted_lines(s))
    }

    /// The editor once the character `c` took the place of the selection.
    pub open spec fn with_char(self, c: char) -> EditorView {
        self.without_selection().with_pieces(seq![seq![c]])
    }

    /// The editor once a line break took the place of the selection.
    pub open spec fn with_newline(self) -> EditorView {
        self.without_selection().with_pieces(seq![Seq::<char>::empty(), Seq::<char>::empty()])
    }

    /// The editor once the selection, else the character or line break before the cursor, is removed.
    pub open spec fn backspaced(self) -> EditorView {
        if self.span() is Some {
            self.without_selection()
        } else if self.col > 0 {
            EditorView {
                lines: self.lines.update(self.row, self.lines[self.row].remove(self.col - 1)),
                col: self.col - 1,
                anchor: None,
                ..self
            }
        } else if self.row > 0 {
            EditorView {
                lines: self.lines.take(self.row - 1).push(
                    self.lines[self.row - 1] + self.lines[self.row],
                ) + self.lines.skip(self.row + 1),
                row: self.row - 1,
                col: self.lines[self.row - 1].len() as int,
                anchor: None,
                ..self
            }
        } else {
            EditorView { anchor: None, ..self }
        }
    }

    /// The editor with the cursor moved inside its line; with `shift` the selection is started or kept,
    /// otherwise it is over.
    pub open spec fn moved_in_line(self, col: int, shift: bool) -> EditorView {
        EditorView {
            col,
            anchor: if !shift {
                None
            } else if self.anchor is Some {
                self.anchor
            } else {
                Some((self.row, self.col))
            },
            ..self
        }
    }

    /// The editor with the cursor moved to the end of its line, as in `moved_in_line`.
    pub open spec fn moved_to_end(self, shift: bool) -> EditorView {
        self.moved_in_line(self.lines[self.row].len() as int, shift)
    }

    /// There is something to erase: a selection, or something before the cursor.
    pub open spec fn has_before(self) -> bool {
        self.span() is Some || self.col > 0 || self.row > 0
    }

    /// The editor once the selected text is yanked and removed.
    pub open spec fn cut(self) -> EditorView {
        EditorView { yank: self.copied().yank, ..self.without_selection() }
    }

    /// The editor holding `text` with the cursor at its end, nothing selected.
    pub open spec fn holding(self, text: Seq<char>) -> EditorView {
        let lines = split_on(text, '\n');
        EditorView {
            lines,
            row: lines.len() - 1,
            col: lines.last().len() as int,
            anchor: None,
            ..self
        }
    }
}

/// A key press in the terms of the editor widget. `BackTab` stands for no key at all.
#[derive(Debug, Clone, Copy, PartialEq, Eq, Structural)]
pub struct EditorInput {
    pub key: Key,
    pub ctrl: bool,
    pub alt: bool,
    pub shift: bool,
}

/// The cursor may have moved, and with it the selection: the text stays.
pub open spec fn only_moved(before: EditorView, after: EditorView) -> bool {
    after.lines == before.lines && after.yank == before.yank
}

/// The selection, else the character or line break behind the cursor, is removed.
pub open spec fn deleted_forward(before: EditorView, after: EditorView, changed: bool) -> bool {
    &&& before.span() is Some ==> changed && after == before.without_selection()
    &&& changed ==> after.anchor is None && after.yank == before.yank
    &&& before.span() is None && changed ==> after.text().len() + 1 == before.text().len()
    &&& !changed ==> only_moved(before, after)
}

/// What the widget does with a character typed under Ctrl, Alt or both.
pub open spec fn chord_reacts(before: EditorView, c: char, input: EditorInput, after: EditorView, changed: bool) -> bool {
    if input.ctrl && !input.alt {
        match c {
            'm' => changed && after == before.with_newline(),
            'h' => changed == before.has_before() && after == before.backspaced(),
            'd' => deleted_forward(before, after, changed),
            'a' => !changed && after == before.moved_in_line(0, input.shift),
            'e' => !changed && after == before.moved_to_end(input.shift),
            'n' | 'p' | 'f' | 'b' | 'v' => !changed && only_moved(before, after),
            'u' | 'r' => history_step(before, after, changed),
            'x' => changed == (before.span() is Some) && after == before.cut(),
            'c' => !changed && after == before.copied(),
            // Deletions by word or line, and the widget's own paste.
            'k' | 'j' | 'w' | 'y' => true,
            _ => !changed && after == before,
        }
    } else if input.alt && !input.ctrl {
        match c {
            'f' | 'b' | 'n' | 'p' | 'v' | '<' | '>' | '[' | ']' => !changed && only_moved(before, after),
            // Deletions by word.
            'h' | 'd' => true,
            _ => !changed && after == before,
        }
    } else {
        match c {
            'b' => !changed && after == before.moved_in_line(0, input.shift),
            'f' => !changed && after == before.moved_to_end(input.shift),
            'p' | 'n' => !changed && only_moved(before, after),
            _ => !changed && after == before,
        }
    }
}

/// What the widget does with a key press. Typing, Enter, Backspace, Home and End are stated exactly, and so are the
/// presses that it ignores. Of the other cursor keys it is said that the text stays, since where they land depends
/// on how the text is wrapped; of Delete, what is removed. Of deletions by word or line, of Tab and of the widget's
/// own paste only that the editor stays well formed.
pub open spec fn reacts(before: EditorView, input: EditorInput, after: EditorView, changed: bool) -> bool {
    let bare = !input.ctrl && !input.alt;
    &&& after.wf()
    &&& match input.key {
        Key::Enter => changed && after == before.with_newline(),
        Key::Char(c) => if bare {
            changed && after == if c == '\n' || c == '\r' {
                before.with_newline()
            } else {
                before.with_char(c)
            }
        } else {
            chord_reacts(before, c, input, after, changed)
        },
        Key::Backspace => if bare {
            changed == before.has_before() && after == before.backspaced()
        } else {
            input.ctrl ==> !changed && after == before
        },
        Key::Delete => if bare {
            deleted_forward(before, after, changed)
        } else {
            input.ctrl ==> !changed && after == before
        },
        Key::Home => !changed && after == before.moved_in_line(0, input.shift),
        Key::End => !changed && after == before.moved_to_end(input.shift),
        Key::Left => !changed && if input.ctrl && input.alt {
            after == before.moved_in_line(0, input.shift)
        } else {
            only_moved(before, after)
        },
        Key::Right => !changed && if input.ctrl && input.alt {
            after == before.moved_to_end(input.shift)
        } else {
            only_moved(before, after)
        },
        Key::Up | Key::Down | Key::PageUp | Key::PageDown => !changed && only_moved(before, after),
        Key::Esc | Key::BackTab => !changed && after == before,
        Key::Tab => !bare ==> !changed && after == before,
    }
}

/// A key press that types: a character, or Enter.
pub open spec fn types(k: EditorInput) -> bool {
    k.key == Key::Enter || (k.key is Char && !k.ctrl && !k.alt)
}

/// What an editor widget holds.
pub uninterp spec fn area_state(area: Area) -> EditorView;

/// What an editor widget holds once an edit is undone; nothing where there is none to undo.
pub uninterp spec fn area_undone(area: Area) -> Option<EditorView>;

/// What an editor widget holds once an edit is redone; nothing where there is none to redo.
pub uninterp spec fn area_redone(area: Area) -> Option<EditorView>;

/// What an editor widget holds after a key press, and whether its text changed.
pub uninterp spec fn area_fed(area: Area, k: EditorInput) -> (EditorView, bool);

/// How an editor widget is drawn: the styles of its text, of the line with the cursor, of the cursor and of the selection,
/// whether its lines are numbered, and how they wrap.
pub struct AreaLook {
    pub text: ratatui::style::Style,
    pub cursor_line: ratatui::style::Style,
    pub cursor: ratatui::style::Style,
    pub selection: ratatui::style::Style,
    pub numbered: bool,
    pub wrap: Wrap,
}

/// How an editor widget is drawn.
pub uninterp spec fn area_look(area: Area) -> AreaLook;

/// An editor widget with the style of its text set.
pub uninterp spec fn area_styled(area: Area, style: ratatui::style::Style) -> Area;

/// An editor widget with the style of the line with the cursor set.
pub uninterp spec fn area_line_styled(area: Area, style: ratatui::style::Style) -> Area;

/// An editor widget with the style of its cursor set.
pub uninterp spec fn area_cursor_styled(area: Area, style: ratatui::style::Style) -> Area;

/// An editor widget with the style of its selection set.
pub uninterp spec fn area_selection_styled(area: Area, style: ratatui::style::Style) -> Area;

/// An editor widget without line numbers.
pub uninterp spec fn area_unnumbered(area: Area) -> Area;

/// An editor widget painted in three styles: its text with the cursor's line, its cursor, and its selection.
pub open spec fn area_dressed(
    area: Area,
    base: ratatui::style::Style,
    cursor: ratatui::style::Style,
    selection: ratatui::style::Style,
) -> Area {
    area_selection_styled(
        area_cursor_styled(area_line_styled(area_styled(area, base), base), cursor),
        selection,
    )
}

/// An editor widget that wraps its lines in some way.
pub uninterp spec fn area_wrapped(area: Area, wrap: Wrap) -> Area;

/// An editor widget and the screen cells once it is drawn to a part of them.
pub uninterp spec fn area_drawn(
    area: Area,
    x: u16,
    y: u16,
    width: u16,
    height: u16,
    buffer: ratatui::buffer::Buffer,
) -> (Area, ratatui::buffer::Buffer);

/// A style in the terms of the back-end.
pub uninterp spec fn native(s: TextStyle) -> ratatui::style::Style;

/// Two widgets hold the same, down to what an undo and a redo give.
pub open spec fn same_contents(a: Area, b: Area) -> bool {
    &&& area_state(b) == area_state(a)
    &&& area_undone(b) == area_undone(a)
    &&& area_redone(b) == area_redone(a)
}

/// `TextArea::default`: an empty editor with no edits behind it.
#[verifier::external_body]
fn area_default() -> (area: Area)
    ensures
        area_state(area) == EditorView::blank(),
        area_undone(area) is None,
        area_redone(area) is None,
{
    Area { widget: TextArea::default() }
}

/// `TextArea::clone`: the copy holds what the widget holds, its edits and its looks too.
#[verifier::external_body]
fn area_clone(area: &Area) -> (r: Area)
    ensures
        r == *area,
{
    Area { widget: area.widget.clone() }
}

/// `TextArea::set_wrap_mode`: only the display changes.
#[verifier::external_body]
fn area_set_wrap(area: &mut Area, wrap: Wrap)
    ensures
        *final(area) == area_wrapped(*old(area), wrap),
        area_look(*final(area)) == (AreaLook { wrap, ..area_look(*old(area)) }),
        same_contents(*old(area), *final(area)),
{
    area.widget.set_wrap_mode(match wrap {
        Wrap::Nowhere => WrapMode::None,
        Wrap::Word => WrapMode::Word,
        Wrap::Glyph => WrapMode::Glyph,
        Wrap::WordOrGlyph => WrapMode::WordOrGlyph,
    });
}

/// `TextArea::remove_line_number`: only the display changes.
#[verifier::external_body]
fn area_hide_line_numbers(area: &mut Area)
    ensures
        *final(area) == area_unnumbered(*old(area)),
        area_look(*final(area)) == (AreaLook { numbered: false, ..area_look(*old(area)) }),
        same_contents(*old(area), *final(area)),
{
    area.widget.remove_line_number();
}

/// `ratatui::style::Style::new` and its fields: the same style in the terms of the back-end, which is named.
#[verifier::external_body]
fn native_style(s: TextStyle) -> (r: ratatui::style::Style)
    ensures
        r == native(s),
{
    let rgb = |c: Color| ratatui::style::Color::Rgb(c.r, c.g, c.b);
    let mut r = ratatui::style::Style::new();
    r.fg = s.fg.map(rgb);
    r.bg = s.bg.map(rgb);
    r.add_modifier.set(ratatui::style::Modifier::BOLD, s.bold);
    r.add_modifier.set(ratatui::style::Modifier::ITALIC, s.italic);
    r.add_modifier.set(ratatui::style::Modifier::CROSSED_OUT, s.crossed_out);
    r.add_modifier.set(ratatui::style::Modifier::REVERSED, s.reversed);
    r
}

/// `TextArea::set_style`: only the display changes.
#[verifier::external_body]
fn area_set_style(area: &mut Area, style: ratatui::style::Style)
    ensures
        *final(area) == area_styled(*old(area), style),
        area_look(*final(area)) == (AreaLook { text: style, ..area_look(*old(area)) }),
        same_contents(*old(area), *final(area)),
{
    area.widget.set_style(style);
}

/// `TextArea::set_cursor_line_style`: only the display changes.
#[verifier::external_body]
fn area_set_cursor_line_style(area: &mut Area, style: ratatui::style::Style)
    ensures
        *final(area) == area_line_styled(*old(area), style),
        area_look(*final(area)) == (AreaLook { cursor_line: style, ..area_look(*old(area)) }),
        same_contents(*old(area), *final(area)),
{
    area.widget.set_cursor_line_style(style);
}

/// `TextArea::set_cursor_style`: only the display changes.
#[verifier::external_body]
fn area_set_cursor_style(area: &mut Area, style: ratatui::style::Style)
    ensures
        *final(area) == area_cursor_styled(*old(area), style),
        area_look(*final(area)) == (AreaLook { cursor: style, ..area_look(*old(area)) }),
        same_contents(*old(area), *final(area)),
{
    area.widget.set_cursor_style(style);
}

/// `TextArea::set_selection_style`: only the display changes.
#[verifier::external_body]
fn area_set_selection_style(area: &mut Area, style: ratatui::style::Style)
    ensures
        *final(area) == area_selection_styled(*old(area), style),
        area_look(*final(area)) == (AreaLook { selection: style, ..area_look(*old(area)) }),
        same_contents(*old(area), *final(area)),
{
    area.widget.set_selection_style(style);
}

/// `Widget::render` of `&TextArea`: draws the widget to a part of the screen. The drawing is named. The widget takes
/// note of the part's size, by which it wraps its lines and moves from row to row; what it holds stays. It counts
/// rows in sixteen bits and pages in fifteen, and a wrapped text has no more rows than characters and line ends.
#[verifier::external_body]
fn area_render(
    area: &mut Area,
    x: u16,
    y: u16,
    width: u16,
    height: u16,
    buffer: &mut ratatui::buffer::Buffer,
)
    requires
        area_look(*old(area)).wrap != Wrap::Nowhere,
        area_state(*old(area)).drawable(height as int),
    ensures
        (*final(area), *final(buffer)) == area_drawn(*old(area), x, y, width, height, *old(buffer)),
        area_look(*final(area)) == area_look(*old(area)),
        same_contents(*old(area), *final(area)),
{
    let native = ratatui::layout::Rect::new(x, y, width, height);
    ratatui::widgets::Widget::render(&area.widget, native, buffer);
}

/// `TextArea::lines`: the lines of the text.
#[verifier::external_body]
fn area_lines(area: &Area) -> (r: Vec<String>)
    ensures
        views(r@) == area_state(*area).lines,
{
    area.widget.lines().to_vec()
}

/// `TextArea::cursor`: the cursor's row and column.
#[verifier::external_body]
fn area_cursor(area: &Area) -> (r: (usize, usize))
    ensures
        r.0 == area_state(*area).row,
        r.1 == area_state(*area).col,
{
    area.widget.cursor()
}

/// `TextArea::is_selecting`: whether a selection is ongoing, be it still empty.
#[verifier::external_body]
fn area_is_selecting(area: &Area) -> (r: bool)
    ensures
        r == area_state(*area).anchor is Some,
{
    area.widget.is_selecting()
}

/// `TextArea::selection_range`: the two ends of the ongoing selection in reading order, be they the same.
#[verifier::external_body]
fn area_selection_range(area: &Area) -> (r: Option<((usize, usize), (usize, usize))>)
    ensures
        match area_state(*area).anchor {
            Some(a) => r matches Some(ends) && ordered_ends(
                a,
                (area_state(*area).row, area_state(*area).col),
                (ends.0.0 as int, ends.0.1 as int),
                (ends.1.0 as int, ends.1.1 as int),
            ),
            None => r is None,
        },
{
    area.widget.selection_range()
}

/// `TextArea::move_cursor` with `CursorMove::Jump`: the position is clamped to the text, and an ongoing
/// selection goes on.
#[verifier::external_body]
fn area_jump(area: &mut Area, row: u16, col: u16)
    requires
        area_state(*old(area)).wf(),
    ensures
        area_look(*final(area)) == area_look(*old(area)),
        area_state(*final(area)) == jumped(area_state(*old(area)), row as int, col as int),
        area_undone(*final(area)) == area_undone(*old(area)),
        area_redone(*final(area)) == area_redone(*old(area)),
{
    area.widget.move_cursor(CursorMove::Jump(row, col));
}

/// `TextArea::insert_str`: the text takes the place of the selection. Where there is any text, undoing gives back the
/// editor as it was without the selection, and nothing is left to redo.
#[verifier::external_body]
fn area_insert_str(area: &mut Area, s: &str)
    requires
        area_state(*old(area)).wf(),
    ensures
        area_look(*final(area)) == area_look(*old(area)),
        area_state(*final(area)) == area_state(*old(area)).with_text(s@),
        area_state(*final(area)).wf(),
        inserts(s@) ==> area_undone(*final(area)) == Some(area_state(*old(area)).without_selection())
            && area_redone(*final(area)) is None,
{
    area.widget.insert_str(s);
}

/// `TextArea::insert_newline`: a line break takes the place of the selection. Undoing gives back the editor as it was
/// without the selection, and nothing is left to redo.
#[verifier::external_body]
fn area_insert_newline(area: &mut Area)
    requires
        area_state(*old(area)).wf(),
    ensures
        area_look(*final(area)) == area_look(*old(area)),
        area_state(*final(area)) == area_state(*old(area)).with_newline(),
        area_state(*final(area)).wf(),
        area_undone(*final(area)) == Some(area_state(*old(area)).without_selection()),
        area_redone(*final(area)) is None,
{
    area.widget.insert_newline();
}

/// `TextArea::input`: the widget's own key bindings. What a key press leaves, and whether it changed the text, is a
/// function of the widget and the press, and is named; `reacts` says what is plain of it. What was typed can be undone
/// at once.
#[verifier::external_body]
fn area_input(area: &mut Area, k: EditorInput) -> (changed: bool)
    requires
        area_state(*old(area)).wf(),
    ensures
        area_look(*final(area)) == area_look(*old(area)),
        (area_state(*final(area)), changed) == area_fed(*old(area), k),
        reacts(area_state(*old(area)), k, area_state(*final(area)), changed),
        types(k) ==> area_undone(*final(area)) == Some(area_state(*old(area)).without_selection())
            && area_redone(*final(area)) is None,
{
    let key = match k.key {
        Key::Char(c) => WidgetKey::Char(c), Key::Enter => WidgetKey::Enter,
        Key::Backspace => WidgetKey::Backspace, Key::Delete => WidgetKey::Delete,
        Key::Left => WidgetKey::Left, Key::Right => WidgetKey::Right,
        Key::Up => WidgetKey::Up, Key::Down => WidgetKey::Down,
        Key::Home => WidgetKey::Home, Key::End => WidgetKey::End,
        Key::PageUp => WidgetKey::PageUp, Key::PageDown => WidgetKey::PageDown,
        Key::Esc => WidgetKey::Esc, Key::Tab => WidgetKey::Tab,
        Key::BackTab => WidgetKey::Null,
    };
    area.widget.input(Input { key, ctrl: k.ctrl, alt: k.alt, shift: k.shift })
}

/// `TextArea::undo`: without anything to undo the editor stays; otherwise it holds what the widget's edit history gives,
/// which is named, and nothing is selected after it. The opposite step then gives the text back.
#[verifier::external_body]
fn area_undo(area: &mut Area) -> (changed: bool)
    requires
        area_state(*old(area)).wf(),
    ensures
        area_look(*final(area)) == area_look(*old(area)),
        history_step(area_state(*old(area)), area_state(*final(area)), changed),
        changed == area_undone(*old(area)) is Some,
        changed ==> area_state(*final(area)) == area_undone(*old(area))->0,
        changed ==> gives_back(area_redone(*final(area)), area_state(*old(area))),
        !changed ==> *final(area) == *old(area),
{
    area.widget.undo()
}

/// `TextArea::redo`: without anything to redo the editor stays; otherwise it holds what the widget's edit history gives,
/// which is named, and nothing is selected after it. The opposite step then gives the text back.
#[verifier::external_body]
fn area_redo(area: &mut Area) -> (changed: bool)
    requires
        area_state(*old(area)).wf(),
    ensures
        area_look(*final(area)) == area_look(*old(area)),
        history_step(area_state(*old(area)), area_state(*final(area)), changed),
        changed == area_redone(*old(area)) is Some,
        changed ==> area_state(*final(area)) == area_redone(*old(area))->0,
        changed ==> gives_back(area_undone(*final(area)), area_state(*old(area))),
        !changed ==> *final(area) == *old(area),
{
    area.widget.redo()
}

/// `TextArea::into_lines` and `Zeroize::zeroize`: the lines are overwritten with zeros, and a fresh widget takes the
/// place of the old one. Copies that the old one kept of its edits are not reached.
#[verifier::external_body]
fn area_wipe(area: &mut Area)
    ensures
        area_state(*final(area)) == EditorView::blank(),
        area_undone(*final(area)) is None,
        area_redone(*final(area)) is None,
    opens_invariants none
    no_unwind
{
    let widget = std::mem::take(&mut area.widget);
    widget.into_lines().zeroize();
}

/// `TextArea::copy`: the selected text is yanked, and the selection is over. The edit history stays.
#[verifier::external_body]
fn area_copy(area: &mut Area)
    requires
        area_state(*old(area)).wf(),
    ensures
        area_look(*final(area)) == area_look(*old(area)),
        area_state(*final(area)) == area_state(*old(area)).copied(),
        area_undone(*final(area)) == yanked(area_undone(*old(area)), area_state(*final(area)).yank),
        area_redone(*final(area)) == yanked(area_redone(*old(area)), area_state(*final(area)).yank),
{
    area.widget.copy();
}

/// `TextArea::cut`: the selected text is yanked and removed, and the selection is over. Undoing puts the text back,
/// with the cursor behind it. Where no text is selected, the edit history stays.
#[verifier::external_body]
fn area_cut(area: &mut Area)
    requires
        area_state(*old(area)).wf(),
    ensures
        area_look(*final(area)) == area_look(*old(area)),
        area_state(*final(area)) == area_state(*old(area)).cut(),
        area_state(*old(area)).span() matches Some((s, e)) ==> area_undone(*final(area)) == Some(
            EditorView {
                row: e.0,
                col: e.1,
                anchor: None,
                yank: area_state(*final(area)).yank,
                ..area_state(*old(area))
            },
        ) && area_redone(*final(area)) is None,
        area_state(*old(area)).span() is None ==> area_undone(*final(area)) == area_undone(*old(area))
            && area_redone(*final(area)) == area_redone(*old(area)),
        area_state(*final(area)).wf(),
{
    area.widget.cut();
}

/// `TextArea::yank_text`: the text last cut or copied, its lines joined by `\n`.
#[verifier::external_body]
fn area_yank_text(area: &Area) -> (r: String)
    ensures
        r@ == area_state(*area).yank,
{
    area.widget.yank_text()
}

/// `TextArea::set_lines`: replaces the text, clamps the cursor to it, ends the selection and forgets the
/// edit history. The widget refuses an empty list of lines.
#[verifier::external_body]
fn area_set_lines(area: &mut Area, lines: Vec<String>, cursor: (usize, usize))
    requires
        lines@.len() > 0,
    ensures
        area_look(*final(area)) == area_look(*old(area)),
        area_state(*final(area)) == jumped(
            EditorView { lines: views(lines@), anchor: None, plain: true, ..area_state(*old(area)) },
            cursor.0 as int,
            cursor.1 as int,
        ),
        area_undone(*final(area)) is None,
        area_redone(*final(area)) is None,
{
    area.widget.set_lines(lines, cursor);
}

/// An editor with the cursor at a position, clamped to the text.
pub open spec fn jumped(v: EditorView, row: int, col: int) -> EditorView {
    let r = if row < v.lines.len() {
        row
    } else {
        v.lines.len() - 1
    };
    EditorView {
        row: r,
        col: if col <= v.lines[r].len() {
            col
        } else {
            v.lines[r].len() as int
        },
        ..v
    }
}

/// Inserting the text changes the editor: it is more than a stray carriage return.
pub open spec fn inserts(s: Seq<char>) -> bool {
    s.len() > 1 || (s.len() == 1 && s[0] != '\r')
}

/// What a step through the edit history gives once another text was yanked.
pub open spec fn yanked(step: Option<EditorView>, yank: Seq<char>) -> Option<EditorView> {
    match step {
        Some(v) => Some(EditorView { yank, ..v }),
        None => None,
    }
}

/// A step through the edit history gives back the text of `before`, and what was yanked last stays.
pub open spec fn gives_back(step: Option<EditorView>, before: EditorView) -> bool {
    step matches Some(v) && v.lines == before.lines && v.yank == before.yank && v.anchor is None
}

/// A step through the edit history: none was taken and nothing changed, or one was taken.
pub open spec fn history_step(before: EditorView, after: EditorView, changed: bool) -> bool {
    &&& after.wf()
    &&& if changed {
        after.anchor is None
    } else {
        after == before
    }
}

/// Map a normalized key press onto the editor widget's input.
///
/// macOS word operations are translated onto the bindings the widget understands: terminals send Option as
/// Alt, but the widget binds word motion to `Ctrl+Left/Right` and word deletion to `Alt+Backspace/Delete`.
/// So `Option+Left/Right` becomes `Ctrl+Left/Right`, with Alt released: the widget would take `Ctrl+Alt+Left`
/// for a jump to the line's head. `Ctrl+Backspace/Delete` becomes the widget's `Alt` word deletion.
pub open spec fn translated(key: KeyPress) -> EditorInput {
    if !key.ctrl && key.alt && (key.code == Key::Left || key.code == Key::Right) {
        EditorInput { key: key.code, ctrl: true, alt: false, shift: key.shift }
    } else if key.ctrl && !key.alt && (key.code == Key::Backspace || key.code == Key::Delete) {
        EditorInput { key: key.code, ctrl: false, alt: true, shift: false }
    } else {
        EditorInput { key: key.code, ctrl: key.ctrl, alt: key.alt, shift: key.shift }
    }
}

fn to_input(key: KeyPress) -> (r: EditorInput)
    ensures
        r == translated(key),
{
    match (key.ctrl, key.alt, key.code) {
        (false, true, Key::Left) | (false, true, Key::Right) => {
            return EditorInput { key: key.code, ctrl: true, alt: false, shift: key.shift };
        },
        (true, false, Key::Backspace) | (true, false, Key::Delete) => {
            return EditorInput { key: key.code, ctrl: false, alt: true, shift: false };
        },
        _ => {},
    }
    EditorInput { key: key.code, ctrl: key.ctrl, alt: key.alt, shift: key.shift }
}


/// The editor wrapper: full editor behaviour (selection, word motion, undo/redo, soft word wrap) comes from
/// the widget, while clipboard side effects stay outside.
#[derive(Debug)]
pub struct InputBuffer {
    area: Area,
}

impl Clone for InputBuffer {
    fn clone(&self) -> (r: InputBuffer)
        ensures
            r == *self,
    {
        InputBuffer { area: area_clone(&self.area) }
    }
}

impl View for InputBuffer {
    type V = EditorView;

    closed spec fn view(&self) -> EditorView {
        area_state(self.area)
    }
}

impl Default for InputBuffer {
    /// An empty field that wraps words, shows no line numbers and has a visible caret, so that fields which
    /// never get themed styles still show where the user is typing.
    fn default() -> (r: InputBuffer)
        ensures
            r@ == EditorView::blank(),
            r.undone() is None,
            r.redone() is None,
            r.look().wrap == Wrap::WordOrGlyph,
            !r.look().numbered,
            r.look().cursor == native(TextStyle { reversed: true, ..TextStyle::plain() }),
            r@.wf(),
    {
        let caret: TextStyle = TextStyle::new().reversed();
        let mut area: Area = area_default();
        area_set_wrap(&mut area, Wrap::WordOrGlyph);
        area_hide_line_numbers(&mut area);
        area_set_cursor_style(&mut area, native_style(caret));
        InputBuffer { area }
    }
}

impl InputBuffer {
    /// How the field is drawn.
    pub closed spec fn look(self) -> AreaLook {
        area_look(self.area)
    }

    /// What the field holds once an edit is undone; nothing where there is none to undo.
    pub closed spec fn undone(self) -> Option<EditorView> {
        area_undone(self.area)
    }

    /// What the field holds once an edit is redone; nothing where there is none to redo.
    pub closed spec fn redone(self) -> Option<EditorView> {
        area_redone(self.area)
    }

    /// What the field holds after a key press, and whether its text changed.
    pub closed spec fn fed(self, k: EditorInput) -> (EditorView, bool) {
        area_fed(self.area, k)
    }

    /// The field as it is drawn in three styles.
    pub closed spec fn dressed(self, base: TextStyle, cursor: TextStyle, selection: TextStyle) -> InputBuffer {
        InputBuffer {
            area: area_dressed(self.area, native(base), native(cursor), native(selection)),
        }
    }

    /// The field and the screen cells once it is drawn to a part of them.
    pub closed spec fn drawn(
        self,
        x: u16,
        y: u16,
        width: u16,
        height: u16,
        buffer: ratatui::buffer::Buffer,
    ) -> (InputBuffer, ratatui::buffer::Buffer) {
        let (area, cells) = area_drawn(
            area_wrapped(self.area, Wrap::WordOrGlyph),
            x,
            y,
            width,
            height,
            buffer,
        );
        (InputBuffer { area }, cells)
    }

    /// What the field holds once an edit is undone, or as it is where there is none.
    pub open spec fn after_undo(self) -> EditorView {
        match self.undone() {
            Some(v) => v,
            None => self@,
        }
    }

    /// What the field holds once an edit is redone, or as it is where there is none.
    pub open spec fn after_redo(self) -> EditorView {
        match self.redone() {
            Some(v) => v,
            None => self@,
        }
    }

    /// The field was edited just now, its looks kept: undoing gives `before` without its selection, and there is nothing
    /// to redo.
    pub open spec fn edited_from(self, before: InputBuffer) -> bool {
        &&& self.look() == before.look()
        &&& self.undone() == Some(before@.without_selection())
        &&& self.redone() is None
    }

    /// The field is `before` once a key press came in. What was typed can be undone at once.
    pub open spec fn fed_from(self, before: InputBuffer, k: EditorInput) -> bool {
        &&& self@ == before.fed(k).0
        &&& reacts(before@, k, self@, before.fed(k).1)
        &&& self.look() == before.look()
        &&& types(k) ==> self.edited_from(before)
    }

    /// The field is `before` with the last edit taken back, or just as it was where there is none. Redoing gives the text
    /// of `before` back.
    pub open spec fn undone_from(self, before: InputBuffer) -> bool {
        match before.undone() {
            Some(v) => self@ == v && self.look() == before.look() && gives_back(self.redone(), before@),
            None => self == before,
        }
    }

    /// The field is `before` with the edit made again that was taken back last, or just as it was where there is none.
    /// Undoing gives the text of `before` back.
    pub open spec fn redone_from(self, before: InputBuffer) -> bool {
        match before.redone() {
            Some(v) => self@ == v && self.look() == before.look() && gives_back(self.undone(), before@),
            None => self == before,
        }
    }

    /// The field is `before` with its selection yanked, or just as it was where there is none.
    pub open spec fn copied_from(self, before: InputBuffer) -> bool {
        if before@.anchor is Some {
            &&& self@ == before@.copied()
            &&& self.look() == before.look()
            &&& self.undone() == yanked(before.undone(), self@.yank)
            &&& self.redone() == yanked(before.redone(), self@.yank)
        } else {
            self == before
        }
    }

    /// The field is `before` with its selection yanked and removed, or just as it was where there is none. Undoing puts
    /// the text back, with the cursor behind it.
    pub open spec fn cut_from(self, before: InputBuffer) -> bool {
        if before@.anchor is Some {
            &&& self@ == before@.cut()
            &&& self.look() == before.look()
            &&& match before@.span() {
                Some((s, e)) => {
                    &&& self.redone() is None
                    &&& self.undone() == Some(
                        EditorView { row: e.0, col: e.1, anchor: None, yank: self@.yank, ..before@ },
                    )
                },
                None => self.undone() == before.undone() && self.redone() == before.redone(),
            }
        } else {
            self == before
        }
    }

    /// The field is `before` with another text in it, the cursor at its end. No step through the edits crosses this.
    pub open spec fn replaced_from(self, before: InputBuffer, text: Seq<char>) -> bool {
        &&& self@ == (EditorView { plain: true, ..before@.holding(text) })
        &&& self.look() == before.look()
        &&& self.undone() is None
        &&& self.redone() is None
    }

    /// The whole buffer as a single string, logical lines joined by `\n`.
    pub fn text(&self) -> (r: String)
        ensures
            r@ == self@.text(),
    {
        join(&area_lines(&self.area), '\n')
    }

    /// The logical lines of the buffer.
    pub fn lines(&self) -> (r: Vec<String>)
        ensures
            views(r@) == self@.lines,
    {
        area_lines(&self.area)
    }

    /// The two ends of the ongoing selection in reading order, for the highlight.
    pub fn selection(&self) -> (r: Option<((usize, usize), (usize, usize))>)
        ensures
            match self@.anchor {
                Some(a) => r matches Some(ends) && ordered_ends(
                    a,
                    (self@.row, self@.col),
                    (ends.0.0 as int, ends.0.1 as int),
                    (ends.1.0 as int, ends.1.1 as int),
                ),
                None => r is None,
            },
    {
        area_selection_range(&self.area)
    }

    pub fn is_empty(&self) -> (r: bool)
        requires
            self@.wf(),
        ensures
            r == (self@.text().len() == 0),
    {
        let lines: Vec<String> = area_lines(&self.area);
        proof {
            let parts = views(lines@);
            assert(self@.lines == parts);
            if parts.len() > 1 {
                assert(join_with(parts, '\n') == join_with(parts.drop_last(), '\n').push('\n')
                    + parts.last());
            }
        }
        lines.len() == 1 && lines[0].as_str().is_empty()
    }

    /// The cursor's logical `(row, col)` position in the buffer.
    pub fn cursor(&self) -> (r: (usize, usize))
        ensures
            r.0 == self@.row,
            r.1 == self@.col,
    {
        area_cursor(&self.area)
    }

    /// The cursor's logical row, used to decide whether Up/Down should recall history (at the first/last
    /// row) or move the cursor within a multi-line buffer.
    pub fn cursor_row(&self) -> (r: usize)
        ensures
            r == self@.row,
    {
        self.cursor().0
    }

    pub fn last_row(&self) -> (r: usize)
        requires
            self@.wf(),
        ensures
            r == self@.lines.len() - 1,
    {
        area_lines(&self.area).len() - 1
    }

    /// Move the cursor to a logical `(row, col)` position, such as a mouse click resolved to text
    /// coordinates. Values beyond the text, or beyond what the widget can address, are clamped.
    pub fn set_cursor(&mut self, row: usize, col: usize)
        requires
            old(self)@.wf(),
        ensures
            final(self).look() == old(self).look(),
            final(self)@ == jumped(
                old(self)@,
                if row <= u16::MAX { row as int } else { u16::MAX as int },
                if col <= u16::MAX { col as int } else { u16::MAX as int },
            ),
            final(self).undone() == old(self).undone(),
            final(self).redone() == old(self).redone(),
            final(self)@.wf(),
    {
        let max: usize = 0xffff;
        let r: u16 = if row <= max {
            row as u16
        } else {
            u16::MAX
        };
        let c: u16 = if col <= max {
            col as u16
        } else {
            u16::MAX
        };
        area_jump(&mut self.area, r, c);
    }

    /// Insert a string at the cursor (bracketed paste of text).
    pub fn insert(&mut self, s: &str)
        requires
            old(self)@.wf(),
        ensures
            final(self).look() == old(self).look(),
            final(self)@ == old(self)@.with_text(s@),
            inserts(s@) ==> final(self).edited_from(*old(self)),
            final(self)@.wf(),
    {
        area_insert_str(&mut self.area, s);
    }

    pub fn newline(&mut self)
        requires
            old(self)@.wf(),
        ensures
            final(self).look() == old(self).look(),
            final(self)@ == old(self)@.with_newline(),
            final(self).edited_from(*old(self)),
            final(self)@.wf(),
    {
        area_insert_newline(&mut self.area);
    }

    /// Feed a normalized key press, returning whether it mutated the text. The single path for ordinary
    /// editing: typing, deletion, cursor motion, selection.
    pub fn feed_key(&mut self, key: KeyPress) -> (changed: bool)
        requires
            old(self)@.wf(),
        ensures
            final(self).look() == old(self).look(),
            (final(self)@, changed) == old(self).fed(translated(key)),
            final(self).fed_from(*old(self), translated(key)),
            reacts(old(self)@, translated(key), final(self)@, changed),
            final(self)@.wf(),
    {
        area_input(&mut self.area, to_input(key))
    }

    pub fn is_selecting(&self) -> (r: bool)
        ensures
            r == self@.anchor is Some,
    {
        area_is_selecting(&self.area)
    }

    /// Take back the last edit that was not taken back yet, returning whether there was one.
    pub fn undo(&mut self) -> (changed: bool)
        requires
            old(self)@.wf(),
        ensures
            final(self).look() == old(self).look(),
            changed == old(self).undone() is Some,
            final(self)@ == old(self).after_undo(),
            final(self).undone_from(*old(self)),
            history_step(old(self)@, final(self)@, changed),
            final(self)@.wf(),
    {
        area_undo(&mut self.area)
    }

    /// Make the edit again that was taken back last, returning whether there was one.
    pub fn redo(&mut self) -> (changed: bool)
        requires
            old(self)@.wf(),
        ensures
            final(self).look() == old(self).look(),
            changed == old(self).redone() is Some,
            final(self)@ == old(self).after_redo(),
            final(self).redone_from(*old(self)),
            history_step(old(self)@, final(self)@, changed),
            final(self)@.wf(),
    {
        area_redo(&mut self.area)
    }

    /// Copy the active selection and return its text for the clipboard (the caller performs the I/O).
    /// `None` when there is no selection. A selection whose two ends meet hands back what was last yanked.
    pub fn copy_selection(&mut self) -> (r: Option<String>)
        requires
            old(self)@.wf(),
        ensures
            final(self).look() == old(self).look(),
            final(self).copied_from(*old(self)),
            final(self)@.wf(),
            old(self)@.anchor is None ==> r is None && final(self)@ == old(self)@,
            old(self)@.anchor is Some ==> final(self)@ == old(self)@.copied() && match r {
                Some(t) => t@ == old(self)@.copied().yank && t@.len() > 0,
                None => old(self)@.copied().yank.len() == 0,
            },
    {
        if !area_is_selecting(&self.area) {
            return None;
        }
        area_copy(&mut self.area);
        let text: String = area_yank_text(&self.area);
        if text.as_str().is_empty() {
            None
        } else {
            Some(text)
        }
    }

    /// Cut the active selection: remove it from the buffer and return its text for the clipboard.
    pub fn cut_selection(&mut self) -> (r: Option<String>)
        requires
            old(self)@.wf(),
        ensures
            final(self).look() == old(self).look(),
            final(self).cut_from(*old(self)),
            final(self)@.wf(),
            old(self)@.anchor is None ==> r is None && final(self)@ == old(self)@,
            old(self)@.anchor is Some ==> final(self)@ == old(self)@.cut() && match r {
                Some(t) => t@ == old(self)@.copied().yank && t@.len() > 0,
                None => old(self)@.copied().yank.len() == 0,
            },
    {
        if !area_is_selecting(&self.area) {
            return None;
        }
        area_cut(&mut self.area);
        let text: String = area_yank_text(&self.area);
        if text.as_str().is_empty() {
            None
        } else {
            Some(text)
        }
    }

    /// Replace the whole buffer (history recall), placing the cursor at the end. This is a hard
    /// replacement: the widget's undo/redo stack is reset, so an undo does not cross a recall (the draft is
    /// recoverable through history navigation, not undo).
    pub fn set(&mut self, text: String)
        ensures
            final(self).look() == old(self).look(),
            final(self).replaced_from(*old(self), text@),
            final(self)@ == (EditorView { plain: true, ..old(self)@.holding(text@) }),
            final(self)@.text() == text@,
            final(self).undone() is None,
            final(self).redone() is None,
            final(self)@.wf(),
    {
        let lines: Vec<String> = split(&text, '\n');
        proof {
            join_of_split(text@, '\n');
            split_on_nonempty(text@, '\n');
        }
        let row: usize = lines.len() - 1;
        let col: usize = char_count(&lines[row]);
        assert(lines@[row as int]@ == views(lines@).last());
        area_set_lines(&mut self.area, lines, (row, col));
        assert(self@.lines[row as int].len() == col);
    }

    /// Take the text out, leaving the buffer empty.
    pub fn take(&mut self) -> (r: String)
        ensures
            final(self).look() == old(self).look(),
            r@ == old(self)@.text(),
            final(self)@ == (EditorView { yank: old(self)@.yank, ..EditorView::blank() }),
            final(self).undone() is None,
            final(self).redone() is None,
            final(self)@.wf(),
    {
        let text: String = self.text();
        let mut lines: Vec<String> = Vec::new();
        lines.push(String::new());
        assert(views(lines@) =~= seq![Seq::<char>::empty()]);
        area_set_lines(&mut self.area, lines, (0, 0));
        text
    }

    /// Apply the theme styles (base/cursor/selection).
    pub fn set_styles(&mut self, base: TextStyle, cursor: TextStyle, selection: TextStyle)
        ensures
            *final(self) == old(self).dressed(base, cursor, selection),
            final(self)@ == old(self)@,
            final(self).undone() == old(self).undone(),
            final(self).redone() == old(self).redone(),
            final(self).look() == (AreaLook {
                text: native(base),
                cursor_line: native(base),
                cursor: native(cursor),
                selection: native(selection),
                ..old(self).look()
            }),
    {
        area_set_style(&mut self.area, native_style(base));
        area_set_cursor_line_style(&mut self.area, native_style(base));
        area_set_cursor_style(&mut self.area, native_style(cursor));
        area_set_selection_style(&mut self.area, native_style(selection));
    }

    /// Whether the field can be drawn at a height.
    pub fn drawable_at(&self, height: u16) -> (r: bool)
        ensures
            r == self@.drawable(height as int),
    {
        let count: usize = char_count(self.text().as_str());
        height <= 0x7fff && count < 0xffff && height as usize <= 0xffff - 1 - count
    }

    /// Draw the field to a part of the screen. From then on its lines wrap as they are drawn there, and the cursor
    /// moves up and down by the rows on the screen.
    pub fn render(
        &mut self,
        x: u16,
        y: u16,
        width: u16,
        height: u16,
        buffer: &mut ratatui::buffer::Buffer,
    )
        requires
            old(self)@.drawable(height as int),
        ensures
            (*final(self), *final(buffer)) == old(self).drawn(x, y, width, height, *old(buffer)),
            final(self)@ == old(self)@,
            final(self).undone() == old(self).undone(),
            final(self).redone() == old(self).redone(),
            final(self).look() == (AreaLook { wrap: Wrap::WordOrGlyph, ..old(self).look() }),
    {
        area_set_wrap(&mut self.area, Wrap::WordOrGlyph);
        area_render(&mut self.area, x, y, width, height, buffer);
    }

    /// Empty the field for good, overwriting its lines with zeros.
    pub(crate) fn wipe(&mut self)
        ensures
            final(self)@ == EditorView::blank(),
            final(self).undone() is None,
            final(self).redone() is None,
        opens_invariants none
        no_unwind
    {
        area_wipe(&mut self.area);
    }
}

/// Whatever text an editor is set to hold, it reads back, and taking it out leaves an empty field.
pub proof fn set_reads_back(v: EditorView, text: Seq<char>)
    ensures
        v.holding(text).text() == text,
        v.holding(text).span() is None,
        EditorView::blank().text().len() == 0,
{
    join_of_split(text, '\n');
}

/// Typing a character into an empty field leaves exactly that character, with the cursor behind it.
pub proof fn typing_into_blank(c: char)
    ensures
        EditorView::blank().with_char(c).text() == seq![c],
        EditorView::blank().with_char(c).col == 1,
{
    let v = EditorView::blank().with_char(c);
    assert(v.lines[0] =~= seq![c]);
}

/// Backspace undoes a typed character: the lines and the cursor are those from before.
pub proof fn backspace_undoes_typing(v: EditorView, c: char)
    requires
        v.wf(),
        v.anchor is None,
    ensures
        v.with_char(c).backspaced() == v,
{
    let line = v.lines[v.row];
    let typed = v.with_char(c);
    assert(typed.lines[v.row].remove(v.col) =~= line);
    assert(typed.lines.update(v.row, line) =~= v.lines);
}

/// Backspace undoes a typed line break.
pub proof fn backspace_undoes_newline(v: EditorView)
    requires
        v.wf(),
        v.anchor is None,
    ensures
        v.with_newline().backspaced() == v,
{
    let line = v.lines[v.row];
    let broken = v.with_newline();
    assert(broken.lines[v.row] =~= line.take(v.col));
    assert(broken.lines[v.row + 1] =~= line.skip(v.col));
    assert(line.take(v.col) + line.skip(v.col) =~= line);
    assert(broken.backspaced().lines =~= v.lines);
}

} // verus!
