//! The panel of a proposed plan.
use vstd::prelude::*;
use crate::infrastructure::render::line::{line_views, Line};
use crate::infrastructure::render::markdown::cache::{rendered, Renderer};
use crate::infrastructure::render::theme::{ink, inked, Ink};
use crate::text::{cat3, decimal, decimal_of};

verus! {

/// The furthest a text of `total` rows scrolls in a panel of `height` rows.
pub open spec fn furthest(total: int, height: int) -> int {
    if total > height {
        total - height
    } else {
        0
    }
}

/// The scroll offset in effect: what is asked for, as far as it goes.
pub open spec fn plan_offset(total: int, height: int, scroll: int) -> int {
    if scroll < furthest(total, height) {
        scroll
    } else {
        furthest(total, height)
    }
}

/// How far down the panel is scrolled, in percent; all the way where nothing scrolls.
pub open spec fn plan_percent(total: int, height: int, scroll: int) -> int {
    if furthest(total, height) == 0 {
        100
    } else {
        plan_offset(total, height, scroll) * 100 / furthest(total, height)
    }
}

/// The title of the panel: with the scroll keys and position where it scrolls.
pub open spec fn plan_title(total: int, height: int, scroll: int) -> Seq<char> {
    " 📋 PLANO PROPOSTO"@ + (if furthest(total, height) > 0 {
        " [Rolar: ⇧↑/⇧↓/PgUp/PgDn | "@ + decimal(plan_percent(total, height, scroll)) + "%] "@
    } else {
        ""@
    }) + " "@
}

/// The scroll offset and the title of the panel.
pub fn plan_scroll(total: usize, height: u16, scroll: usize) -> (r: (usize, String))
    ensures
        r.0 == plan_offset(total as int, height as int, scroll as int),
        r.1@ == plan_title(total as int, height as int, scroll as int),
{
    let most: usize = total.saturating_sub(height as usize);
    let offset: usize = if scroll < most {
        scroll
    } else {
        most
    };
    let suffix: String = if most > 0 {
        assert(offset as int * 100 / most as int <= 100) by (nonlinear_arith)
            requires
                0 <= offset <= most,
                most > 0,
        ;
        let percent: u64 = ((offset as u128 * 100) / most as u128) as u64;
        cat3(" [Rolar: ⇧↑/⇧↓/PgUp/PgDn | ", decimal_of(percent).as_str(), "%] ")
    } else {
        "".to_owned()
    };
    (offset, cat3(" 📋 PLANO PROPOSTO", suffix.as_str(), " "))
}

/// The rows of the plan at the panel's width.
pub fn plan_text(renderer: &mut Renderer, plan: &str, width: u16) -> (r: Vec<Line>)
    requires
        old(renderer).wf(),
    ensures
        final(renderer).wf(),
        final(renderer).highlighter() == old(renderer).highlighter(),
        line_views(r@) == rendered(
            old(renderer).highlighter(),
            plan@,
            inked(Ink::Steel),
            width as int,
        ),
{
    renderer.render(plan, ink(Ink::Steel), width as usize)
}

/// The percentage runs from 0 at the top to 100 at the bottom.
pub proof fn percent_runs_to_a_hundred(total: int, height: int, scroll: int)
    requires
        0 <= total,
        0 <= height,
        0 <= scroll,
    ensures
        0 <= plan_percent(total, height, scroll) <= 100,
        scroll >= furthest(total, height) ==> plan_percent(total, height, scroll) == 100,
        scroll == 0 && furthest(total, height) > 0 ==> plan_percent(total, height, scroll) == 0,
{
    let most = furthest(total, height);
    let offset = plan_offset(total, height, scroll);
    if most > 0 {
        assert(0 <= offset * 100 / most <= 100) by (nonlinear_arith)
            requires
                0 <= offset <= most,
                most > 0,
        ;
        if scroll >= most {
            assert(most * 100 / most == 100) by (nonlinear_arith)
                requires
                    most > 0,
            ;
        }
    }
}

} // verus!
