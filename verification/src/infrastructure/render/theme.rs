//! The brand palette.
use vstd::prelude::*;
use crate::style::{Color, TextStyle};

verus! {

/// The colours of the palette. Weight is brightness, colour is spent like gold, heat means work, and
/// everything cools to steel: chrome emphasis is a brighter step on the steel ramp, never bold.
#[derive(Debug, Clone, Copy, PartialEq, Eq, Structural)]
pub enum Ink {
    /// Base background.
    Void,
    /// Default text (polished steel).
    Steel,
    /// Rules, delimiters, dim text, the idle gate.
    Brand,
    /// Green gate: passed.
    Success,
    /// Yellow gate: information, approval pending.
    Warning,
    /// Red gate: error.
    Error,
    /// The single live accent.
    Highlight,
    /// Inline code, and a fresh-struck line.
    CodeFg,
    /// Code block background.
    CodeBg,
    /// Headings.
    Heading,
    /// The etched hairline above the approval stanza.
    Guilloche,
    /// The one-shot gate quench when a turn settles.
    TemperBlue,
    /// The second and third steps of the steel ramp.
    SteelBright,
    SteelSoft,
    /// The most receded step of the steel ramp.
    SteelReceded,
    /// Halfway from forge-warm to steel.
    Cooling,
}

impl Ink {
    pub open spec fn rgb(self) -> Color {
        match self {
            Ink::Void => Color { r: 0x0D, g: 0x11, b: 0x17 },
            Ink::Steel => Color { r: 0xE6, g: 0xED, b: 0xF3 },
            Ink::Brand => Color { r: 0x8B, g: 0x94, b: 0x9E },
            Ink::Success => Color { r: 0x3F, g: 0xB9, b: 0x50 },
            Ink::Warning => Color { r: 0xD2, g: 0x99, b: 0x22 },
            Ink::Error => Color { r: 0xF8, g: 0x51, b: 0x49 },
            Ink::Highlight => Color { r: 0x58, g: 0xA6, b: 0xFF },
            Ink::CodeFg => Color { r: 0xF0, g: 0x88, b: 0x3E },
            Ink::CodeBg => Color { r: 0x1C, g: 0x22, b: 0x2B },
            Ink::Heading => Color { r: 0x6F, g: 0xB0, b: 0xCC },
            Ink::Guilloche => Color { r: 0x30, g: 0x36, b: 0x3D },
            Ink::TemperBlue => Color { r: 0x6C, g: 0xB6, b: 0xFF },
            Ink::SteelBright => Color { r: 0xC2, g: 0xCA, b: 0xD4 },
            Ink::SteelSoft => Color { r: 0x9B, g: 0xA4, b: 0xAF },
            Ink::SteelReceded => Color { r: 0x5A, g: 0x63, b: 0x6D },
            Ink::Cooling => Color { r: 0xC9, g: 0x9A, b: 0x6E },
        }
    }

    /// The truecolor value.
    pub fn color(self) -> (r: Color)
        ensures
            r == self.rgb(),
    {
        match self {
            Ink::Void => Color { r: 0x0D, g: 0x11, b: 0x17 },
            Ink::Steel => Color { r: 0xE6, g: 0xED, b: 0xF3 },
            Ink::Brand => Color { r: 0x8B, g: 0x94, b: 0x9E },
            Ink::Success => Color { r: 0x3F, g: 0xB9, b: 0x50 },
            Ink::Warning => Color { r: 0xD2, g: 0x99, b: 0x22 },
            Ink::Error => Color { r: 0xF8, g: 0x51, b: 0x49 },
            Ink::Highlight => Color { r: 0x58, g: 0xA6, b: 0xFF },
            Ink::CodeFg => Color { r: 0xF0, g: 0x88, b: 0x3E },
            Ink::CodeBg => Color { r: 0x1C, g: 0x22, b: 0x2B },
            Ink::Heading => Color { r: 0x6F, g: 0xB0, b: 0xCC },
            Ink::Guilloche => Color { r: 0x30, g: 0x36, b: 0x3D },
            Ink::TemperBlue => Color { r: 0x6C, g: 0xB6, b: 0xFF },
            Ink::SteelBright => Color { r: 0xC2, g: 0xCA, b: 0xD4 },
            Ink::SteelSoft => Color { r: 0x9B, g: 0xA4, b: 0xAF },
            Ink::SteelReceded => Color { r: 0x5A, g: 0x63, b: 0x6D },
            Ink::Cooling => Color { r: 0xC9, g: 0x9A, b: 0x6E },
        }
    }
}

/// The steel brightness ramp: emphasis is a brighter step, recession a darker one.
pub const STEEL_RAMP: [Ink; 5] = [
    Ink::Steel,
    Ink::SteelBright,
    Ink::SteelSoft,
    Ink::Brand,
    Ink::SteelReceded,
];

/// The cooling ramp: a freshly-landed answer line settles from forge-warm down to polished steel.
pub const COOLING_RAMP: [Ink; 3] = [Ink::CodeFg, Ink::Cooling, Ink::Steel];

/// The temper-quench ramp: when a turn settles the busy cyan quenches through temper-blue and cools into the
/// resting idle colour, so it lands on the idle gate with no jump.
pub const QUENCH_RAMP: [Ink; 3] = [Ink::Highlight, Ink::TemperBlue, Ink::Brand];

/// The 10-frame braille spinner.
pub const SPINNER: [char; 10] = ['⠋', '⠙', '⠹', '⠸', '⠼', '⠴', '⠦', '⠧', '⠇', '⠏'];

/// The spinner glyph for animation `frame`, wrapping the index into [`SPINNER`]. One source so that the prompt
/// and the meta rule never index the array differently.
pub fn spinner_glyph(frame: usize) -> (r: char)
    ensures
        r == SPINNER@[frame as int % 10],
{
    SPINNER[frame % SPINNER.len()]
}

/// A style with a foreground of the palette.
pub open spec fn inked(ink: Ink) -> TextStyle {
    TextStyle::plain().with_fg(ink.rgb())
}

/// A style with a foreground of the palette.
pub fn ink(color: Ink) -> (r: TextStyle)
    ensures
        r == inked(color),
{
    TextStyle::new().fg(color.color())
}

/// The root style, steel on the void, painted across the whole frame so every cell inherits it.
pub fn base() -> (r: TextStyle)
    ensures
        r == inked(Ink::Steel).with_bg(Ink::Void.rgb()),
{
    ink(Ink::Steel).bg(Ink::Void.color())
}

/// Neutral/secondary text: rules, delimiters, reasoning, hints.
pub fn dim() -> (r: TextStyle)
    ensures
        r == inked(Ink::Brand),
{
    ink(Ink::Brand)
}

/// Chrome emphasis under the brightness law: full-weight steel, no bold.
pub fn strong() -> (r: TextStyle)
    ensures
        r == inked(Ink::Steel),
{
    ink(STEEL_RAMP[0])
}

/// The single live accent (cyan). Marks exactly one working thing per frame.
pub fn accent() -> (r: TextStyle)
    ensures
        r == inked(Ink::Highlight),
{
    ink(Ink::Highlight)
}

/// The highlight for an in-app screen text selection: void on brand, the same inversion the editor uses for its
/// own selection.
pub fn selection() -> (r: TextStyle)
    ensures
        r == inked(Ink::Void).with_bg(Ink::Brand.rgb()),
{
    ink(Ink::Void).bg(Ink::Brand.color())
}

/// The input prompt is a live gate: its glyph and color encode the editor's state.
#[derive(Debug, Clone, Copy, PartialEq, Eq, Structural)]
pub enum GateState {
    /// Active, empty buffer: the prompt gate is open and waiting.
    Idle,
    /// Active, the user is composing.
    Typing,
    /// A turn is running; carries the spinner frame.
    Busy(usize),
    /// A tool-call confirmation is awaiting an answer.
    Approval,
    /// The last transcript line was an error.
    Error,
}

/// Map a gate state to its prompt glyph and style. Weight is brightness: the typing gate is the brightest steel
/// step, not bold; the busy/approval/error gates each spend their one colour in this single cell.
pub fn gate(state: GateState) -> (r: (char, TextStyle))
    ensures
        r == match state {
            GateState::Idle => ('⬡', inked(Ink::Brand)),
            GateState::Typing => ('⬢', inked(Ink::Steel)),
            GateState::Busy(frame) => (SPINNER@[frame as int % 10], inked(Ink::Highlight)),
            GateState::Approval => ('⬢', inked(Ink::Warning)),
            GateState::Error => ('⬢', inked(Ink::Error)),
        },
{
    match state {
        GateState::Idle => ('⬡', ink(Ink::Brand)),
        GateState::Typing => ('⬢', ink(STEEL_RAMP[0])),
        GateState::Busy(frame) => (spinner_glyph(frame), ink(Ink::Highlight)),
        GateState::Approval => ('⬢', ink(Ink::Warning)),
        GateState::Error => ('⬢', ink(Ink::Error)),
    }
}

} // verus!
