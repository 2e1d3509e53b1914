//! The transcript's scroll position.
use vstd::prelude::*;

verus! {

/// Transcript scroll position, measured as lines scrolled up from the newest content. Zero means pinned to
/// the bottom (auto-following new output). The view clamps it to the available scrollback.
#[derive(Debug, Clone, Copy, PartialEq, Eq, Structural)]
pub struct Scroll {
    pub scrollback: u16,
}

impl Default for Scroll {
    fn default() -> (r: Scroll)
        ensures
            r.scrollback == 0,
    {
        Scroll { scrollback: 0 }
    }
}

impl Scroll {
    /// `lines` further from the newest content, at most the largest offset.
    pub open spec fn raised(self, lines: u16) -> Scroll {
        Scroll {
            scrollback: if self.scrollback + lines <= u16::MAX {
                (self.scrollback + lines) as u16
            } else {
                u16::MAX
            },
        }
    }

    /// `lines` nearer to the newest content, at most down to it.
    pub open spec fn lowered(self, lines: u16) -> Scroll {
        Scroll {
            scrollback: if self.scrollback >= lines {
                (self.scrollback - lines) as u16
            } else {
                0
            },
        }
    }

    pub fn up(&mut self, lines: u16)
        ensures
            *final(self) == old(self).raised(lines),
    {
        self.scrollback = self.scrollback.saturating_add(lines);
    }

    pub fn down(&mut self, lines: u16)
        ensures
            *final(self) == old(self).lowered(lines),
    {
        self.scrollback = self.scrollback.saturating_sub(lines);
    }

    pub fn pin(&mut self)
        ensures
            final(self).scrollback == 0,
    {
        self.scrollback = 0;
    }

    /// Jump to the top of the scrollback. The view clamps to the available history, so the largest offset
    /// is enough: no viewport height needs to leak into the model.
    pub fn top(&mut self)
        ensures
            final(self).scrollback == u16::MAX,
    {
        self.scrollback = u16::MAX;
    }
}

/// Scrolling up and back down by the same amount returns to the same place, unless the top was hit.
pub proof fn up_then_down(scroll: Scroll, lines: u16)
    requires
        scroll.scrollback + lines <= u16::MAX,
    ensures
        scroll.raised(lines).lowered(lines) == scroll,
{
}

} // verus!
