//! Splitting areas: what the solver keeps to whatever it is asked for, and the parts that the front-end makes of it.
use kiri_tui::domain::modal::PendingPlan;
use kiri_tui::domain::model::Model;
use kiri_tui::infrastructure::render::layout::{frame_layout, frame_parts, PartSize, Rect};
use kiri_tui::infrastructure::render::markdown::cache::Renderer;
use kiri_tui::infrastructure::render::markdown::render::Highlighter;
use kiri_tui::infrastructure::render::view::{frame_columns, plan_parts, screen};
use kiri_tui::infrastructure::render::widgets::picker::{modal_rows, part_row};
use kiri_tui::infrastructure::render::widgets::search_bar::{bar_columns, PREFIX_COLS};
use kiri_tui::infrastructure::render::widgets::wizard::text_rows;
use ratatui::layout::{Constraint, Layout};

/// A small deterministic sequence of numbers.
struct Dice(u64);

impl Dice {
    fn roll(&mut self, sides: u64) -> u64 {
        self.0 = self.0.wrapping_mul(6364136223846793005).wrapping_add(1442695040888963407);
        (self.0 >> 33) % sides
    }
}

fn constraint(part: PartSize) -> Constraint {
    match part {
        PartSize::Length(n) => Constraint::Length(n),
        PartSize::AtLeast(n) => Constraint::Min(n),
        PartSize::Percent(p) => Constraint::Percentage(p),
    }
}

/// What every split of `whole` cells from `start` keeps to.
fn check(parts: &[PartSize], start: i64, whole: i64, got: &[(i64, i64)]) {
    let (mut least, mut fixed, mut asked) = (0, 0, 0);
    for part in parts {
        match *part {
            PartSize::Length(n) => {
                fixed += n as i64;
                asked += 100 * n as i64;
            }
            PartSize::AtLeast(n) => {
                least += n as i64;
                asked += 100 * n as i64;
            }
            PartSize::Percent(p) => asked += p as i64 * whole,
        }
    }
    let firm = least + fixed;
    let excess = asked - 100 * whole;
    let seen = format!("{parts:?} in {whole} at {start}: {got:?}");
    assert_eq!(got.len(), parts.len());
    let mut at = start;
    for (part, &(x, size)) in parts.iter().zip(got) {
        assert_eq!(x, at, "{seen}");
        at += size;
        match *part {
            PartSize::Length(n) => {
                let n = n as i64;
                assert!(size <= n, "{seen}");
                assert!(firm > whole || size == n, "{seen}");
                assert!(least < whole || size == 0, "{seen}");
            }
            PartSize::AtLeast(n) => {
                let n = n as i64;
                assert!(least > whole || size >= n, "{seen}");
                assert!(excess < 0 || size <= n, "{seen}");
            }
            PartSize::Percent(p) => {
                let share = p as i64 * whole;
                assert!(size * 100 <= share + 100, "{seen}");
                assert!(firm > whole || size * 100 + 100 + excess.max(0) >= share, "{seen}");
                assert!(firm < whole || size == 0, "{seen}");
            }
        }
    }
    assert!(at <= start + whole, "{seen}");
    let grows = parts.iter().any(|p| matches!(p, PartSize::AtLeast(_)));
    if !parts.is_empty() && (excess >= 0 || grows) {
        assert_eq!(at, start + whole, "{seen}");
    }
}

#[test]
fn the_solver_keeps_order_bounds_and_priorities() {
    let mut dice = Dice(7);
    for round in 0..4000 {
        let count = dice.roll(8) as usize;
        let (reach, most) = match round % 4 {
            0 => (12, 130),
            1 => (400, 1000),
            2 => (32768, 65000),
            _ => (70, 130),
        };
        let parts: Vec<PartSize> = (0..count)
            .map(|_| match dice.roll(3) {
                0 => PartSize::Length(dice.roll(reach) as u16),
                1 => PartSize::AtLeast(dice.roll(reach) as u16),
                _ => PartSize::Percent(dice.roll(120) as u16),
            })
            .collect();
        let (start, whole) = (dice.roll(40) as u16, dice.roll(most) as u16);
        let constraints: Vec<Constraint> = parts.iter().map(|p| constraint(*p)).collect();
        let wide = ratatui::layout::Rect::new(start, 3, whole, 2);
        let columns: Vec<(i64, i64)> = Layout::horizontal(constraints.clone())
            .split(wide)
            .iter()
            .map(|r| (r.x as i64, r.width as i64))
            .collect();
        check(&parts, start as i64, whole as i64, &columns);
        let tall = ratatui::layout::Rect::new(3, start, 2, whole);
        let rows: Vec<(i64, i64)> = Layout::vertical(constraints)
            .split(tall)
            .iter()
            .map(|r| (r.y as i64, r.height as i64))
            .collect();
        check(&parts, start as i64, whole as i64, &rows);
    }
}

#[test]
fn the_transcript_keeps_a_row_in_every_frame() {
    for height in 1..40 {
        for width in [30, 100] {
            for input_lines in [0, 1, 6, 60] {
                let area = Rect::new(1, 2, width, height);
                let r = frame_layout(area, input_lines, 0);
                assert!(r.transcript.height >= 1, "{area:?} with {input_lines}: {r:?}");
                let inner_end = if width >= 60 && height >= 12 { 2 + height - 1 } else { 2 + height };
                assert_eq!(r.hint.y + r.hint.height, inner_end);
                assert!(r.transcript.y + r.transcript.height <= r.meta.y);
                assert_eq!(r.meta.y + r.meta.height, r.prompt_box.y);
                assert_eq!(r.prompt_box.y + r.prompt_box.height, r.input.y);
                assert_eq!(r.input.y + r.input.height, r.hint.y);
            }
        }
    }
}

#[test]
fn a_full_input_squeezes_the_chrome_and_not_the_transcript() {
    let area = Rect::new(0, 0, 100, 12);
    assert_eq!(
        frame_parts(area, 6, 0),
        vec![
            PartSize::Length(0),
            PartSize::AtLeast(1),
            PartSize::Length(2),
            PartSize::Length(1),
            PartSize::Length(0),
            PartSize::Length(6),
            PartSize::Length(1),
        ]
    );
    assert_eq!(frame_layout(area, 6, 0).transcript.height, 1);
    // A box takes what the chrome leaves, and the transcript yields to it.
    assert_eq!(frame_parts(area, 1, 50)[4], PartSize::Length(9));
    assert_eq!(frame_layout(area, 1, 50).transcript.height, 0);
    assert_eq!(frame_layout(area, 1, 50).prompt_box.height, 9);
}

#[test]
fn a_plan_stands_to_the_right_of_the_transcript() {
    assert_eq!(plan_parts(), vec![PartSize::Percent(40), PartSize::AtLeast(2), PartSize::Percent(60)]);
    let mut renderer = Renderer::new(Highlighter::new());
    let model = Model {
        pending_plan: Some(PendingPlan { plan: "p".to_string(), selected: 0, scroll: 0 }),
        ..Model::default()
    };
    for width in 103..250 {
        let s = screen(&mut renderer, Rect::new(0, 0, width, 40), &model);
        let whole = s.regions.transcript;
        if whole.width < 100 {
            assert_eq!((s.transcript, s.plan), (None, Some(whole)));
            continue;
        }
        let (left, right) = (s.transcript.unwrap(), s.plan.unwrap());
        assert_eq!(left.x, whole.x);
        assert_eq!(left.x + left.width + 2, right.x);
        assert_eq!(right.x + right.width, whole.x + whole.width);
        let (l, w) = (left.width as i32 * 100, whole.width as i32);
        assert!(40 * w - 300 <= l && l <= 40 * w + 100, "{left:?} of {whole:?}");
    }
}

#[test]
fn a_narrow_row_leaves_a_column_on_the_right() {
    assert_eq!(part_row(Rect::new(5, 1, 7, 1), 11), (Rect::new(5, 1, 6, 1), Rect::new(11, 1, 1, 1)));
    assert_eq!(part_row(Rect::new(5, 1, 12, 1), 11), (Rect::new(5, 1, 11, 1), Rect::new(16, 1, 1, 1)));
    assert_eq!(part_row(Rect::new(5, 1, 0, 1), 11), (Rect::new(5, 1, 0, 1), Rect::new(5, 1, 0, 1)));
}

#[test]
fn squeezed_rows_still_stand_in_order() {
    let rows = text_rows(Rect::new(0, 4, 9, 8), 3);
    let spans: Vec<(u16, u16)> = rows.iter().map(|r| (r.y, r.height)).collect();
    assert_eq!(spans, vec![(4, 1), (5, 1), (6, 1), (7, 3), (10, 1), (11, 1)]);
    for height in 0..8 {
        let rows = text_rows(Rect::new(0, 4, 9, height), 3);
        assert_eq!(rows.iter().map(|r| r.height).sum::<u16>(), height);
        assert!(rows.windows(2).all(|w| w[0].y + w[0].height == w[1].y));
    }
    for height in 0..8 {
        let rows = modal_rows(Rect::new(0, 4, 9, height));
        assert_eq!(rows.iter().map(|r| r.height).sum::<u16>(), height);
        assert!(height == 0 || rows[2].height >= 1, "the list keeps a row");
    }
}

#[test]
fn the_search_bar_has_three_columns() {
    let hits = " (nenhuma correspondência)";
    let count = hits.chars().count() as u16;
    let (label, query, suffix) = bar_columns(Rect::new(2, 3, 64, 1), hits);
    assert_eq!(label, Rect::new(2, 3, PREFIX_COLS, 1));
    assert_eq!(query, Rect::new(13, 3, 64 - 11 - count, 1));
    assert_eq!(suffix, Rect::new(66 - count, 3, count, 1));
    for width in 0..64 {
        let (label, query, suffix) = bar_columns(Rect::new(2, 3, width, 1), hits);
        assert_eq!(label.width + query.width + suffix.width, width);
        assert!(width == 0 || query.width >= 1);
        assert_eq!(label.x + label.width, query.x);
        assert_eq!(query.x + query.width, suffix.x);
    }
}

#[test]
fn what_is_drawn_and_what_is_clicked_share_an_area() {
    let mut renderer = Renderer::new(Highlighter::new());
    for (width, height) in [(40, 8), (129, 30), (130, 30), (200, 11)] {
        let frame = Rect::new(0, 0, width, height);
        let (main, sidebar) = frame_columns(frame);
        let s = screen(&mut renderer, frame, &Model::default());
        assert_eq!((s.main, s.sidebar), (main, sidebar));
    }
    assert_eq!(frame_columns(Rect::new(0, 0, 150, 40)).0, Rect::new(0, 1, 115, 39));
}
