//! The empty-state splash.
use vstd::prelude::*;
use crate::clock::Instant;
use crate::domain::model::Motion;
use crate::infrastructure::render::layout::Rect;
use crate::infrastructure::render::line::{
    line_views, push_line, styled_row, styled_run, Line, Span, SpanView,
};
use crate::infrastructure::render::theme::{base, dim, inked, strong, Ink};
use crate::text::{cat2, char_count, repeat_char, repeated};

verus! {

/// After this many milliseconds the whole splash is settled and still.
pub const SETTLE_MS: u64 = 600;

/// The harness icon: the ring enclosing the three data-node hexagons, in half-blocks.
pub const ICON: [&'static str; 17] = [
    "           ▄▄▄███████▄▄▄",
    "        ▄▄████████████████▄▄",
    "      ▄████▀▀   ▄██▄   ▀▀████▄",
    "    ▄████▀   ▄███████▄▄   ▀████",
    "   ▄███▀    ███████████     ▀███",
    "  ▄███      ███████████      ▀███",
    "  ███       ███████████       ████",
    " ████      ▄▄█▀██████▀▄▄▄      ███",
    " ████  ▄▄██████▄▄▀▀▄███████▄   ███",
    " ████  ██████████ ███████████  ███",
    "  ███  ██████████ ███████████ ▄███",
    "  ▀███▄██████████ ███████████▄███",
    "   ████▀▀██████▀▀  ▀███████▀████▀",
    "    ▀███▄ ▀▀▀▀        ▀▀▀  ▄███▀",
    "      ▀███▄             ▄▄███▀",
    "        ▀████▄▄▄▄▄▄▄▄▄▄████▀",
    "           ▀▀██████████▀▀",
];

/// Every icon row is padded to this width so center alignment keeps the ring coherent.
pub const ICON_W: u16 = 34;

/// The icon fits the pane with room for the mark and the boot line.
pub open spec fn icon_fits(area: Rect) -> bool {
    area.height >= ICON@.len() + 6 && area.width >= ICON_W
}

/// A text filled up with blanks to a number of characters.
pub open spec fn filled_up(s: Seq<char>, n: int) -> Seq<char> {
    s + repeated(
        ' ',
        if s.len() < n {
            (n - s.len()) as nat
        } else {
            0
        },
    )
}

/// The icon's rows from the first up to `n`.
pub open spec fn icon_rows(n: int) -> Seq<Seq<SpanView>>
    decreases n,
{
    if n <= 0 {
        Seq::empty()
    } else {
        icon_rows(n - 1).push(
            styled_row(
                filled_up(ICON@[n - 1]@, ICON_W as int),
                inked(Ink::Steel).with_bg(Ink::Void.rgb()),
            ),
        )
    }
}

/// The rows of the splash: the icon where it fits, the mark, the boot line, and the tagline.
pub open spec fn splash_rows(area: Rect) -> Seq<Seq<SpanView>> {
    let blank = Seq::<SpanView>::empty();
    (if icon_fits(area) {
        icon_rows(ICON@.len() as int).push(blank)
    } else {
        Seq::empty()
    }) + seq![
        styled_row("[ KIRI ]"@, inked(Ink::Steel)),
        seq![
            styled_run("KIRI harness system: Protecting codebase... "@, inked(Ink::Brand)),
            styled_run("[OK]"@, inked(Ink::Success).with_bg(Ink::Void.rgb())),
        ],
        blank,
        styled_row("Forged from Tradition, Built for Precision"@, inked(Ink::Brand)),
    ]
}

/// The rows of the splash. The icon is dropped when the pane is too small, leaving the mark and the boot line.
pub fn splash_lines(area: Rect) -> (r: Vec<Line>)
    ensures
        line_views(r@) == splash_rows(area),
{
    let mut lines: Vec<Line> = Vec::new();
    assert(line_views(lines@) =~= Seq::<Seq<SpanView>>::empty());
    if area.height as usize >= ICON.len() + 6 && area.width >= ICON_W {
        let mut i: usize = 0;
        while i < ICON.len()
            invariant
                i <= ICON@.len(),
                line_views(lines@) == icon_rows(i as int),
            decreases ICON@.len() - i,
        {
            let n: usize = char_count(ICON[i]);
            let pad: usize = (ICON_W as usize).saturating_sub(n);
            let row: String = cat2(ICON[i], repeat_char(' ', pad).as_str());
            push_line(&mut lines, Line::styled(row, base()));
            i = i + 1;
        }
        push_line(&mut lines, Line::blank());
    }
    let ghost top = line_views(lines@);
    push_line(&mut lines, Line::styled("[ KIRI ]".to_owned(), strong()));
    let mut spans: Vec<Span> = Vec::new();
    spans.push(Span::styled("KIRI harness system: Protecting codebase... ".to_owned(), dim()));
    spans.push(Span::styled("[OK]".to_owned(), base().fg(Ink::Success.color())));
    let boot: Line = Line { spans };
    assert(boot@ =~= seq![
        styled_run("KIRI harness system: Protecting codebase... "@, inked(Ink::Brand)),
        styled_run("[OK]"@, inked(Ink::Success).with_bg(Ink::Void.rgb())),
    ]);
    push_line(&mut lines, boot);
    push_line(&mut lines, Line::blank());
    push_line(
        &mut lines,
        Line::styled("Forged from Tradition, Built for Precision".to_owned(), dim()),
    );
    assert(line_views(lines@) =~= splash_rows(area));
    lines
}

/// The blank rows above the splash that center it in the pane.
pub fn top_pad(height: u16, rows: usize) -> (r: usize)
    ensures
        r == if rows < height {
            (height - rows) / 2
        } else {
            0
        },
{
    (height as usize).saturating_sub(rows) / 2
}

/// The splash age in milliseconds while the breath-in is still playing, or `None` once it has settled (or motion is
/// reduced, or the clock is unstamped): then the final, still frame is shown.
pub fn breath_age_ms(opened_at: Option<Instant>, now: Option<Instant>, motion: Motion) -> (r: Option<u64>)
    ensures
        match (opened_at, now) {
            (Some(opened), Some(now)) => {
                let age = now.nanos_since(opened) / 1_000_000;
                if motion == Motion::Full && age < SETTLE_MS {
                    r matches Some(a) && a == age
                } else {
                    r is None
                }
            },
            _ => r is None,
        },
{
    if motion.is_reduced() {
        return None;
    }
    match (opened_at, now) {
        (Some(opened), Some(now)) => {
            let age: u64 = now.saturating_duration_since(opened).as_millis();
            if age < SETTLE_MS {
                Some(age)
            } else {
                None
            }
        },
        _ => None,
    }
}

} // verus!
