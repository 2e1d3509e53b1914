//! The add-provider wizard above the input. The `Kind` and `Thinking` steps list selectable rows; the text steps
//! show an editor field. The API-key step keeps the value masked.
use vstd::prelude::*;
use crate::domain::input_buffer::InputBuffer;
use crate::domain::wizard::{ProviderWizard, WizardStep, WizardView, WIZARD_KINDS};
use crate::infrastructure::render::cells::{hard_wrap, hard_wrapped};
use crate::infrastructure::render::layout::{
    all_fit, asked_upto, excess, fitted_above, fixed_total, split_rows, stacked, PartSize, Rect,
};
use crate::infrastructure::render::widgets::picker::{part_row, parted};
use crate::infrastructure::render::line::{
    line_views, push_line, push_span, span_views, styled_row, styled_run, Line, Span, SpanView,
};
use crate::infrastructure::render::theme::{accent, base, dim, inked, strong, Ink};
use crate::infrastructure::render::widgets::{option_marker, option_row};
use crate::kernel::ProviderKind;
use crate::style::TextStyle;
use crate::text::{cat2, cat4, char_count, repeat_char, repeated};

verus! {

/// Cap field height so a huge paste never eats the whole frame.
pub const MAX_FIELD_LINES: usize = 6;

/// Columns taken by the ` › ` field gutter.
pub const FIELD_GUTTER: u16 = 3;

/// The rows that a text takes in a field: at least one, at most the cap.
pub open spec fn field_rows(text: Seq<char>, width: int) -> int {
    let rows = hard_wrapped(text, width).len() as int;
    if rows < 1 {
        1
    } else if rows > MAX_FIELD_LINES {
        MAX_FIELD_LINES as int
    } else {
        rows
    }
}

/// The width of the field in an area.
pub open spec fn field_width(area: Rect) -> int {
    if area.width <= FIELD_GUTTER {
        1
    } else {
        area.width - FIELD_GUTTER
    }
}

fn width_of_field(area: Rect) -> (r: usize)
    ensures
        r == field_width(area),
{
    if area.width <= FIELD_GUTTER {
        1
    } else {
        (area.width - FIELD_GUTTER) as usize
    }
}

/// The rows that the field of a text step takes.
pub fn field_lines(draft: &InputBuffer, width: usize) -> (r: usize)
    requires
        width < usize::MAX,
    ensures
        r == field_rows(draft@.text(), width as int),
{
    let rows: usize = hard_wrap(draft.text().as_str(), width).len();
    if rows > MAX_FIELD_LINES {
        MAX_FIELD_LINES
    } else {
        rows
    }
}

/// The rows of the wizard's body.
pub open spec fn body_rows(w: WizardView, area: Rect) -> int {
    match w.step {
        WizardStep::Kind => 1 + WIZARD_KINDS@.len() as int,
        WizardStep::Thinking => 3,
        _ => 1 + field_rows(w.draft.text(), field_width(area)),
    }
}

/// The rows that the wizard asks for, at most the area's.
pub open spec fn wizard_height(w: WizardView, area: Rect) -> int {
    if 4 + body_rows(w, area) < area.height {
        4 + body_rows(w, area)
    } else if area.height < 1 {
        1
    } else {
        area.height as int
    }
}

/// The rows the wizard occupies in `area`: a header, a blank, the body, a blank, and the hint.
pub fn box_dims(area: Rect, wizard: &ProviderWizard) -> (r: (u16, u16))
    ensures
        r.0 == area.width,
        r.1 as int == wizard_height(wizard@, area),
{
    let body: usize = match wizard.step {
        WizardStep::Kind => 1 + WIZARD_KINDS.len(),
        WizardStep::Thinking => 3,
        _ => 1 + field_lines(&wizard.draft, width_of_field(area)),
    };
    let wanted: u16 = (4 + body) as u16;
    let height: u16 = if wanted < area.height {
        wanted
    } else if area.height < 1 {
        1
    } else {
        area.height
    };
    (area.width, height)
}

/// The wizard's title.
pub open spec fn title_text(w: WizardView) -> Seq<char> {
    if w.onboarding {
        "Bem-vindo ao Kiri"@
    } else if w.edit_mode {
        "editar provider"@
    } else {
        "novo provider"@
    }
}

/// The name of a step.
pub open spec fn step_text(step: WizardStep) -> Seq<char> {
    match step {
        WizardStep::Kind => "tipo"@,
        WizardStep::ProviderId => "id"@,
        WizardStep::BaseUrl => "endpoint"@,
        WizardStep::Model => "modelo"@,
        WizardStep::ExtraModels => "modelos extras"@,
        WizardStep::Thinking => "thinking"@,
        WizardStep::ApiKey => "chave"@,
    }
}

/// The name of a step. No fixed fraction: the `id` step is shown only for keyless-capable kinds.
pub fn step_label(step: WizardStep) -> (r: &'static str)
    ensures
        r@ == step_text(step),
{
    match step {
        WizardStep::Kind => "tipo",
        WizardStep::ProviderId => "id",
        WizardStep::BaseUrl => "endpoint",
        WizardStep::Model => "modelo",
        WizardStep::ExtraModels => "modelos extras",
        WizardStep::Thinking => "thinking",
        WizardStep::ApiKey => "chave",
    }
}

/// The prompt of a text step.
pub open spec fn prompt_text(w: WizardView) -> Seq<char> {
    match w.step {
        WizardStep::Kind | WizardStep::Thinking => ""@,
        WizardStep::ProviderId => "Identificador (ex.: lmstudio, openrouter):"@,
        WizardStep::BaseUrl => if w.kind().is_vendor() {
            "Base URL:"@
        } else {
            "Base URL (inclua /v1, ex.: http://host:1234/v1):"@
        },
        WizardStep::Model => "Modelo default:"@,
        WizardStep::ExtraModels => "Modelos extras (separados por vírgula, opcional):"@,
        WizardStep::ApiKey => if w.edit_mode {
            "API key (vazio = manter chave atual):"@
        } else if !w.kind().is_vendor() {
            "API key (opcional — vazia p/ Ollama / LM Studio):"@
        } else {
            "API key:"@
        },
    }
}

/// The prompt for the current text step, kind-aware: the API-key prompt advertises that the key is optional for
/// keyless-capable kinds, or that a blank key keeps the existing one in edit mode.
pub fn wizard_prompt(wizard: &ProviderWizard) -> (r: &'static str)
    ensures
        r@ == prompt_text(wizard@),
{
    match wizard.step {
        WizardStep::Kind | WizardStep::Thinking => "",
        WizardStep::ProviderId => "Identificador (ex.: lmstudio, openrouter):",
        WizardStep::BaseUrl => if wizard.key_required() {
            "Base URL:"
        } else {
            "Base URL (inclua /v1, ex.: http://host:1234/v1):"
        },
        WizardStep::Model => "Modelo default:",
        WizardStep::ExtraModels => "Modelos extras (separados por vírgula, opcional):",
        WizardStep::ApiKey => if wizard.edit_mode {
            "API key (vazio = manter chave atual):"
        } else if !wizard.key_required() {
            "API key (opcional — vazia p/ Ollama / LM Studio):"
        } else {
            "API key:"
        },
    }
}

/// The label of a provider kind.
pub open spec fn kind_text(kind: ProviderKind) -> Seq<char> {
    match kind {
        ProviderKind::Nvidia => "NVIDIA"@,
        ProviderKind::Openai => "GPT (OpenAI) — API key"@,
        ProviderKind::Anthropic => "Anthropic — API key"@,
        ProviderKind::OpenAiCompatible => "OpenAI-compatible — endpoint próprio"@,
        ProviderKind::Custom => "Custom — endpoint arbitrário"@,
    }
}

/// The label of a provider kind.
pub fn kind_label(kind: ProviderKind) -> (r: &'static str)
    ensures
        r@ == kind_text(kind),
{
    match kind {
        ProviderKind::Nvidia => "NVIDIA",
        ProviderKind::Openai => "GPT (OpenAI) — API key",
        ProviderKind::Anthropic => "Anthropic — API key",
        ProviderKind::OpenAiCompatible => "OpenAI-compatible — endpoint próprio",
        ProviderKind::Custom => "Custom — endpoint arbitrário",
    }
}

/// The header row.
pub open spec fn header_row(w: WizardView) -> Seq<SpanView> {
    styled_row(" "@ + title_text(w) + " · "@ + step_text(w.step), inked(Ink::Brand))
}

/// The hint row.
pub open spec fn hint_row() -> Seq<SpanView> {
    styled_row(" Enter: próximo · Esc: cancelar"@, inked(Ink::Brand))
}

/// The question of the `Kind` step.
pub open spec fn kind_question(onboarding: bool) -> Seq<char> {
    if onboarding {
        " Escolha seu provider para começar:"@
    } else {
        " Escolha o tipo de provider:"@
    }
}

/// The choices of the `Kind` step from the first up to `n`.
pub open spec fn kind_rows(n: int, selected: int) -> Seq<Seq<SpanView>>
    decreases n,
{
    if n <= 0 {
        Seq::empty()
    } else {
        kind_rows(n - 1, selected).push(
            option_row(kind_text(WIZARD_KINDS@[n - 1]), n - 1 == selected),
        )
    }
}

/// The rows of a chooser step.
pub open spec fn chooser_rows(w: WizardView) -> Seq<Seq<SpanView>> {
    let blank = Seq::<SpanView>::empty();
    seq![header_row(w), blank] + (if w.step == WizardStep::Kind {
        seq![styled_row(kind_question(w.onboarding), inked(Ink::Steel))] + kind_rows(
            WIZARD_KINDS@.len() as int,
            w.kind_selected,
        )
    } else {
        seq![
            styled_row(
                " Ativar raciocínio estendido (thinking) para este provider?"@,
                inked(Ink::Steel),
            ),
            option_row("Sim"@, w.thinking),
            option_row("Não"@, !w.thinking),
        ]
    }) + seq![blank, hint_row()]
}

fn choice(text: &str, selected: bool) -> (r: Line)
    ensures
        r@ == option_row(text@, selected),
{
    let (marker, style): (&'static str, TextStyle) = option_marker(selected);
    let mut spans: Vec<Span> = Vec::new();
    spans.push(Span::styled(marker.to_owned(), style));
    spans.push(Span::styled(text.to_owned(), style));
    let line: Line = Line { spans };
    assert(line@ =~= option_row(text@, selected));
    line
}

/// The header row of the wizard.
pub fn header_line(wizard: &ProviderWizard) -> (r: Line)
    ensures
        r@ == header_row(wizard@),
{
    let title: &'static str = if wizard.onboarding {
        "Bem-vindo ao Kiri"
    } else if wizard.edit_mode {
        "editar provider"
    } else {
        "novo provider"
    };
    Line::styled(cat4(" ", title, " · ", step_label(wizard.step)), dim())
}

/// The hint row of the wizard.
pub fn hint_line() -> (r: Line)
    ensures
        r@ == hint_row(),
{
    Line::styled(" Enter: próximo · Esc: cancelar".to_owned(), dim())
}

/// The rows of a chooser step.
pub fn chooser_lines(wizard: &ProviderWizard) -> (r: Vec<Line>)
    ensures
        line_views(r@) == chooser_rows(wizard@),
{
    let mut lines: Vec<Line> = Vec::new();
    assert(line_views(lines@) =~= Seq::<Seq<SpanView>>::empty());
    push_line(&mut lines, header_line(wizard));
    push_line(&mut lines, Line::blank());
    if wizard.step == WizardStep::Kind {
        let question: &'static str = if wizard.onboarding {
            " Escolha seu provider para começar:"
        } else {
            " Escolha o tipo de provider:"
        };
        push_line(&mut lines, Line::styled(question.to_owned(), strong()));
        let ghost top = line_views(lines@);
        let mut i: usize = 0;
        assert(top + kind_rows(0, wizard.kind_selected as int) =~= top);
        while i < WIZARD_KINDS.len()
            invariant
                i <= WIZARD_KINDS@.len(),
                line_views(lines@) == top + kind_rows(i as int, wizard.kind_selected as int),
            decreases WIZARD_KINDS@.len() - i,
        {
            push_line(&mut lines, choice(kind_label(WIZARD_KINDS[i]), i == wizard.kind_selected));
            i = i + 1;
            assert(line_views(lines@) =~= top + kind_rows(i as int, wizard.kind_selected as int));
        }
    } else {
        push_line(
            &mut lines,
            Line::styled(
                " Ativar raciocínio estendido (thinking) para este provider?".to_owned(),
                strong(),
            ),
        );
        push_line(&mut lines, choice("Sim", wizard.thinking_selected_index() == 0));
        push_line(&mut lines, choice("Não", wizard.thinking_selected_index() == 1));
    }
    push_line(&mut lines, Line::blank());
    push_line(&mut lines, hint_line());
    assert(line_views(lines@) =~= chooser_rows(wizard@));
    lines
}

/// The prompt row of a text step.
pub fn prompt_line(wizard: &ProviderWizard) -> (r: Line)
    ensures
        r@ == styled_row(" "@ + prompt_text(wizard@), inked(Ink::Steel)),
{
    Line::styled(cat2(" ", wizard_prompt(wizard)), strong())
}

/// A masked field: a bullet for each of `n` characters, and a caret at column `col`.
pub open spec fn masked_row(n: int, col: int) -> Seq<SpanView> {
    let at = if col < n {
        col
    } else {
        n
    };
    let style = inked(Ink::Steel).with_bg(Ink::Void.rgb());
    let before = if at > 0 {
        seq![styled_run(repeated('•', at as nat), style)]
    } else {
        Seq::empty()
    };
    let after = if at < n {
        seq![styled_run(repeated('•', (n - at) as nat), style)]
    } else {
        Seq::empty()
    };
    before.push(styled_run("▏"@, inked(Ink::Highlight))) + after
}

/// The rows of a text step: header, blank, prompt, field, blank, hint.
pub open spec fn text_parts(field_height: u16) -> Seq<PartSize> {
    seq![
        PartSize::Length(1),
        PartSize::Length(1),
        PartSize::Length(1),
        PartSize::Length(field_height),
        PartSize::Length(1),
        PartSize::Length(1),
    ]
}

/// The areas of a text step: header, blank, prompt, field, blank, hint.
pub fn text_rows(area: Rect, field_height: u16) -> (r: Vec<Rect>)
    requires
        area.wf(),
    ensures
        stacked(area, text_parts(field_height), r@),
        r@.len() == 6,
        forall|i: int| 0 <= i < 6 ==> (#[trigger] r@[i]).within(area),
        field_height + 5 <= area.height ==> {
            &&& r@[0].y == area.y && r@[0].height == 1
            &&& r@[1].y == area.y + 1 && r@[1].height == 1
            &&& r@[2].y == area.y + 2 && r@[2].height == 1
            &&& r@[3].y == area.y + 3 && r@[3].height == field_height
            &&& r@[4].y == area.y + 3 + field_height && r@[4].height == 1
            &&& r@[5].y == area.y + 4 + field_height && r@[5].height == 1
        },
        field_height + 5 >= area.height ==> r@[5].y + r@[5].height == area.y + area.height,
{
    let rows: Vec<PartSize> = vec![
        PartSize::Length(1),
        PartSize::Length(1),
        PartSize::Length(1),
        PartSize::Length(field_height),
        PartSize::Length(1),
        PartSize::Length(1),
    ];
    assert(rows@ =~= text_parts(field_height));
    let split: Vec<Rect> = split_rows(area, &rows);
    proof {
        reveal_with_fuel(fixed_total, 7);
        reveal_with_fuel(fitted_above, 7);
        reveal_with_fuel(asked_upto, 7);
        let p = rows@;
        assert(p.drop_last() =~= seq![p[0], p[1], p[2], p[3], p[4]]);
        assert(p.drop_last().drop_last() =~= seq![p[0], p[1], p[2], p[3]]);
        assert(p.drop_last().drop_last().drop_last() =~= seq![p[0], p[1], p[2]]);
        assert(p.drop_last().drop_last().drop_last().drop_last() =~= seq![p[0], p[1]]);
        assert(p.drop_last().drop_last().drop_last().drop_last().drop_last() =~= seq![p[0]]);
        assert(excess(p, area.height as int) == 100 * (field_height + 5 - area.height));
        assert(split@.last() == split@[5]);
        if field_height + 5 <= area.height {
            assert(all_fit(p, area.height as int));
            assert(split@[0].y == area.y + fitted_above(p, 0, area.height as int));
            assert(split@[1].y == area.y + fitted_above(p, 1, area.height as int));
            assert(split@[2].y == area.y + fitted_above(p, 2, area.height as int));
            assert(split@[3].y == area.y + fitted_above(p, 3, area.height as int));
            assert(split@[4].y == area.y + fitted_above(p, 4, area.height as int));
            assert(split@[5].y == area.y + fitted_above(p, 5, area.height as int));
        }
    }
    split
}

/// The field row of a text step: the gutter, and the field behind it.
pub fn field_columns(row: Rect) -> (r: (Rect, Rect))
    requires
        row.wf(),
    ensures
        parted(row, FIELD_GUTTER, r),
{
    part_row(row, FIELD_GUTTER)
}

/// The API-key field. The raw key is never painted: it is masked to bullets, with a caret at the logical cursor
/// column.
pub fn masked_line(draft: &InputBuffer) -> (r: Line)
    ensures
        r@ == masked_row(draft@.text().len() as int, draft@.col),
{
    let n: usize = char_count(draft.text().as_str());
    let col: usize = draft.cursor().1;
    let at: usize = if col < n {
        col
    } else {
        n
    };
    let mut spans: Vec<Span> = Vec::new();
    assert(span_views(spans@) =~= Seq::<SpanView>::empty());
    if at > 0 {
        push_span(&mut spans, Span::styled(repeat_char('•', at), base()));
    }
    push_span(&mut spans, Span::styled("▏".to_owned(), accent()));
    if at < n {
        push_span(&mut spans, Span::styled(repeat_char('•', n - at), base()));
    }
    let line: Line = Line { spans };
    assert(line@ =~= masked_row(draft@.text().len() as int, draft@.col));
    line
}

/// What the API-key field shows depends on the length of the key and the cursor alone, and holds nothing but
/// bullets and the caret.
pub proof fn masked_field_shows_no_key(n: int, col: int)
    requires
        0 <= n,
        0 <= col,
    ensures
        forall|i: int, k: int|
            0 <= i < masked_row(n, col).len() && 0 <= k < masked_row(n, col)[i].text.len() ==> (
            #[trigger] masked_row(n, col)[i].text[k] == '•' || masked_row(n, col)[i].text == "▏"@),
{
}

} // verus!
