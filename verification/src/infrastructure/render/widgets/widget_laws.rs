//! What the parts of the screen tell.
use vstd::prelude::*;
use vstd::string::*;
use crate::domain::command_menu::EntryView;
use crate::domain::model::{elapsed_text, Model};
use crate::domain::picker::PickerView;
use crate::domain::transcript::{ActivityView, ItemView, NoticeLevel};
use crate::domain::wizard::{WizardStep, WizardView, WIZARD_KINDS};
use crate::infrastructure::render::cells::{cells, head_within, tail_within};
use crate::infrastructure::render::ink::{one_run, three_runs, two_runs};
use crate::infrastructure::render::layout::Rect;
use crate::infrastructure::render::line::{row_text, styled_row};
use crate::infrastructure::render::markdown::cache::rendered;
use crate::infrastructure::render::markdown::render::Highlighter;
use crate::infrastructure::render::theme::{GateState, Ink, SPINNER};
use crate::infrastructure::render::view::gate_for;
use crate::infrastructure::render::widgets::approval::{approval_labels, option_rows, plan_labels, stanza_rows};
use crate::infrastructure::render::widgets::command_menu::{list_height, blurb_budget, clipped_blurb, menu_rows};
use crate::infrastructure::render::widgets::meta_rule::{
    activity_text, fitted_context, mode_label, mode_style, model_context, spine,
};
use crate::infrastructure::render::widgets::option_row;
use crate::infrastructure::render::widgets::picker::{middle, modal_size, option_list};
use crate::infrastructure::render::widgets::plan_pane::{plan_offset, plan_title};
use crate::infrastructure::render::widgets::search_bar::hits_text;
use crate::infrastructure::render::widgets::sidebar::{changed_file, file_rows, fitted_text, info_rows};
use crate::infrastructure::render::widgets::header::brand_row;
use crate::infrastructure::render::widgets::splash::splash_rows;
use crate::infrastructure::render::widgets::transcript_pane::column_width;
use crate::infrastructure::render::widgets::wizard::{
    chooser_rows, field_rows, field_width, header_row, kind_rows, kind_text, masked_row, prompt_text, title_text, wizard_height,
};
use crate::kernel::{ApprovalMode, Effort};
use crate::style::TextStyle;
use crate::text::{decimal, first_word, join_by, text_bytes};

verus! {

// ---- lists ----

/// The highlighted row of a list carries the caret in the accent, and every other row a blank gutter in dim; either shows
/// its text.
pub proof fn a_row_shows_whether_it_is_highlighted(text: Seq<char>)
    ensures
        row_text(option_row(text, true)) == "❯ "@ + text,
        row_text(option_row(text, false)) == "  "@ + text,
        option_row(text, true)[1].style.fg == Some(Ink::Highlight.rgb()),
        option_row(text, false)[1].style.fg == Some(Ink::Brand.rgb()),
{
    two_runs(option_row(text, true));
    two_runs(option_row(text, false));
}

proof fn options_in_order(options: Seq<Seq<char>>, n: int, selected: int)
    requires
        0 <= n <= options.len(),
    ensures
        option_rows(options, n, selected).len() == n,
        forall|i: int|
            0 <= i < n ==> #[trigger] option_rows(options, n, selected)[i] == option_row(
                decimal(i + 1) + ". "@ + options[i],
                i == selected,
            ),
    decreases n,
{
    if n > 0 {
        options_in_order(options, n - 1, selected);
    }
}

/// A confirmation shows its label, what is asked, and each of its options in order behind its number, with the caret at the
/// one that Enter takes.
pub proof fn a_confirmation_shows_question_and_options(
    h: Highlighter,
    label: Seq<char>,
    action: Seq<char>,
    options: Seq<Seq<char>>,
    selected: int,
    width: int,
    k: int,
)
    requires
        0 <= k < options.len(),
    ensures
        ({
            let rows = stanza_rows(h, label, action, options, selected, width);
            let asked = rendered(h, action, TextStyle::plain().with_fg(Ink::Steel.rgb()), width);
            &&& rows.len() == 3 + asked.len() + options.len()
            &&& row_text(rows[1]) == " "@ + label
            &&& rows.subrange(2, 2 + asked.len() as int) == asked
            &&& rows[2 + asked.len() as int].len() == 0
            &&& row_text(rows[3 + asked.len() + k]) == (if k == selected {
                "❯ "@
            } else {
                "  "@
            }) + (decimal(k + 1) + ". "@ + options[k])
        }),
{
    let rows = stanza_rows(h, label, action, options, selected, width);
    let asked = rendered(h, action, TextStyle::plain().with_fg(Ink::Steel.rgb()), width);
    options_in_order(options, options.len() as int, selected);
    assert(rows.subrange(2, 2 + asked.len() as int) =~= asked);
    one_run(" "@ + label, rows[1][0].style);
    assert(rows[1] =~= styled_row(" "@ + label, rows[1][0].style));
    assert(rows[3 + asked.len() + k] == option_rows(options, options.len() as int, selected)[k]);
    a_row_shows_whether_it_is_highlighted(decimal(k + 1) + ". "@ + options[k]);
}

/// The options of a tool call and of a plan are shown in the order in which their rows count.
pub proof fn options_are_shown_in_their_order()
    ensures
        approval_labels() == seq!["Sim"@, "Sim, e não perguntar de novo (modo auto)"@, "Não"@],
        plan_labels() == seq![
            "Executar o plano"@,
            "Executar o plano em modo auto"@,
            "Continuar planejando"@,
            "Cancelar (sair do modo plan)"@,
        ],
{
    assert(approval_labels() =~= seq!["Sim"@, "Sim, e não perguntar de novo (modo auto)"@, "Não"@]);
    assert(plan_labels() =~= seq![
        "Executar o plano"@,
        "Executar o plano em modo auto"@,
        "Continuar planejando"@,
        "Cancelar (sair do modo plan)"@,
    ]);
}

/// The picker shows its matching options in order, without a gap, as many as fit, and the highlighted one among them; where
/// all fit, it shows them all from the first.
pub proof fn a_picker_shows_its_options(p: PickerView, height: int, i: int)
    requires
        height >= 1,
        0 <= p.selected < p.rows().len(),
    ensures
        ({
            let shown = option_list(p, height);
            let n = p.rows().len() as int;
            let first = if p.selected < height { 0 } else { p.selected - height + 1 };
            &&& shown.len() == if n - first < height { n - first } else { height }
            &&& n <= height ==> shown.len() == n && first == 0
            &&& 0 <= i < shown.len() ==> row_text(shown[i]) == (if first + i == p.selected {
                "❯ "@
            } else {
                "  "@
            }) + p.options[p.rows()[first + i]]
            &&& first <= p.selected < first + shown.len()
        }),
{
    let shown = option_list(p, height);
    let first = if p.selected < height { 0 } else { p.selected - height + 1 };
    if 0 <= i < shown.len() {
        a_row_shows_whether_it_is_highlighted(p.options[p.rows()[first + i]]);
    }
}

/// A picker without a match says so.
pub proof fn a_picker_without_a_match_says_so(p: PickerView, height: int)
    requires
        p.rows().len() == 0,
    ensures
        option_list(p, height).len() == 1,
        row_text(option_list(p, height)[0]) == "  (nenhum resultado encontrado)"@,
{
    let row = option_list(p, height)[0];
    one_run("  (nenhum resultado encontrado)"@, row[0].style);
    assert(row =~= styled_row("  (nenhum resultado encontrado)"@, row[0].style));
}

/// A centred box has as much room on its left as on its right, and above as below, up to a cell.
pub proof fn a_box_is_centred(width: int, height: int, area: Rect)
    requires
        area.wf(),
        0 <= width <= area.width,
        0 <= height <= area.height,
    ensures
        ({
            let r = middle(width, height, area);
            let left = r.x - area.x;
            let right = area.x + area.width - r.x - r.width;
            let above = r.y - area.y;
            let below = area.y + area.height - r.y - r.height;
            &&& r.width == width && r.height == height
            &&& left == right || left + 1 == right
            &&& above == below || above + 1 == below
        }),
{
}

/// A row of the command list shows the command's name, its synonyms in brackets and what it does, which is cut where it does
/// not fit; the list has a row for each entry, in order, and one of them is highlighted.
pub proof fn a_command_row_tells_what_it_does(rows: Seq<EntryView>, selected: int, width: int, i: int)
    requires
        0 <= i < rows.len(),
    ensures
        menu_rows(rows, selected, width).len() == rows.len(),
        ({
            let row = menu_rows(rows, selected, width)[i];
            &&& row.len() == 5
            &&& row[0].text == if i == selected { "❯ "@ } else { "  "@ }
            &&& row[1].text == rows[i].name
            &&& rows[i].aliases.len() == 0 ==> row[2].text.len() == 0
            &&& rows[i].aliases.len() > 0 ==> row[2].text == " ("@ + join_by(rows[i].aliases, ", "@) + ")"@
            &&& cells(rows[i].blurb) <= blurb_budget(rows[i], width) && blurb_budget(rows[i], width) > 0 ==> row[4].text
                == rows[i].blurb
        }),
{
}

/// A blurb that does not fit is cut at its end, and an ellipsis stands for what is gone.
pub proof fn a_cut_blurb_keeps_its_beginning(blurb: Seq<char>, budget: int)
    requires
        budget >= 2,
        cells(blurb) > budget,
    ensures
        ({
            let r = clipped_blurb(blurb, budget);
            &&& r.len() > 0 && r.last() == '…'
            &&& r.len() - 1 <= blurb.len()
            &&& r.drop_last() == blurb.take(r.len() - 1)
            &&& r.len() <= blurb.len() ==> cells(blurb.take(r.len() as int)) > budget - 1
        }),
{
    reveal_strlit("…");
    let head = head_within(blurb, budget - 1);
    heads_are_longest(blurb, budget - 1);
    let r = clipped_blurb(blurb, budget);
    assert(r.drop_last() =~= head);
}

proof fn heads_are_longest(s: Seq<char>, width: int)
    ensures
        head_within(s, width).len() <= s.len(),
        head_within(s, width) == s.take(head_within(s, width).len() as int),
        head_within(s, width).len() < s.len() ==> cells(s.take(head_within(s, width).len() as int + 1)) > width,
    decreases s.len(),
{
    if s.len() > 0 && cells(s) > width {
        let d = s.drop_last();
        heads_are_longest(d, width);
        let n = head_within(d, width).len() as int;
        assert(d.take(n) =~= s.take(n));
        if n < d.len() {
            assert(d.take(n + 1) =~= s.take(n + 1));
        } else {
            assert(s.take(n + 1) =~= s);
        }
    } else {
        assert(s.take(s.len() as int) =~= s);
    }
}

/// A context that does not fit shows the end of the workspace behind an ellipsis, as much of it as fits.
pub proof fn a_cut_context_keeps_the_folder(full: Seq<char>, workspace: Seq<char>, budget: int)
    requires
        budget >= 2,
        cells(full) > budget,
        cells(workspace) > budget,
    ensures
        ({
            let r = fitted_context(full, workspace, budget);
            let n = workspace.len() - (r.len() - 1);
            &&& r.len() > 0 && r[0] == '…'
            &&& 0 <= n <= workspace.len()
            &&& r.skip(1) == workspace.skip(n)
            &&& n > 0 ==> cells(workspace.skip(n - 1)) > budget - 1
        }),
{
    reveal_strlit("…");
    tails_are_longest(workspace, budget - 1);
    let t = tail_within(workspace, budget - 1);
    let r = fitted_context(full, workspace, budget);
    assert(r.skip(1) =~= t);
}

proof fn tails_are_longest(s: Seq<char>, width: int)
    ensures
        tail_within(s, width).len() <= s.len(),
        tail_within(s, width) == s.skip(s.len() - tail_within(s, width).len()),
        tail_within(s, width).len() < s.len() ==> cells(s.skip(s.len() - tail_within(s, width).len() - 1)) > width,
    decreases s.len(),
{
    if s.len() > 0 && cells(s) > width {
        let d = s.drop_first();
        tails_are_longest(d, width);
        let n = d.len() - tail_within(d, width).len();
        assert(d.skip(n) =~= s.skip(n + 1));
        if n > 0 {
            assert(d.skip(n - 1) =~= s.skip(n));
        } else {
            assert(s.skip(0) =~= s);
        }
    } else {
        assert(s.skip(0) =~= s);
    }
}

// ---- the status line ----

/// The status line tells what is used and where, then what goes on, and closes with the approval mode: a turn that runs shows
/// its spinner and its time, one that failed its badge, and otherwise there is nothing between.
pub proof fn the_status_line_tells_what_goes_on(m: Model, width: int)
    ensures
        ({
            let line = spine(m, width);
            let n = line.len() as int;
            &&& line[0].text == model_context(m, width)
            &&& line[n - 2].text == match m.approval_mode {
                ApprovalMode::Default => "DEFAULT"@,
                ApprovalMode::Auto => "AUTO"@,
                ApprovalMode::Plan => "PLAN"@,
            }
            &&& line[n - 1].text == " ◈"@
            &&& m.busy ==> n == 5 && line[2].text == seq![SPINNER@[m.status.spinner_frame as int % 10]] + " "@
                + elapsed_text(m.status.elapsed_secs as int) + " "@ && line[2].style.fg == Some(Ink::Highlight.rgb())
            &&& !m.busy && m.status.turn_failed ==> n == 5 && line[2].text == "✗ erro"@ + " "@ && line[2].style.fg
                == Some(Ink::Error.rgb())
            &&& !m.busy && !m.status.turn_failed ==> n == 4
            &&& forall|k: int| 0 <= k < line[1].text.len() ==> #[trigger] line[1].text[k] == ' '
        }),
{
    reveal_strlit("✗ erro");
    reveal_strlit(" ");
}

/// The context of a status line with room is the model and the workspace.
pub proof fn the_context_is_model_and_workspace(m: Model, width: int)
    requires
        cells(m.status.model@ + " · "@ + m.status.workspace@) + cells(activity_text(m)) + cells(mode_label(m.approval_mode))
            + 5 <= width,
    ensures
        model_context(m, width) == m.status.model@ + " · "@ + m.status.workspace@,
{
    crate::infrastructure::render::cells::cells_bounds(activity_text(m));
}

/// The elapsed time is told in seconds up to a minute, and then in minutes and seconds.
pub proof fn elapsed_time_is_told(minutes: int, seconds: int)
    requires
        0 <= minutes,
        0 <= seconds < 60,
    ensures
        elapsed_text(seconds) == decimal(seconds) + "s"@,
        minutes > 0 ==> elapsed_text(60 * minutes + seconds) == decimal(minutes) + "m "@ + decimal(seconds) + "s"@,
{
    let t = 60 * minutes + seconds;
    assert(t / 60 == minutes && t % 60 == seconds) by (nonlinear_arith)
        requires
            t == 60 * minutes + seconds,
            0 <= seconds < 60,
            0 <= minutes,
    ;
}

/// The prompt's gate shows an approval that waits before a turn that runs, that before an error just told, and else whether
/// something is typed.
pub proof fn the_gate_shows_what_matters_most(m: Model)
    ensures
        m.pending_approval is Some ==> gate_for(m) == GateState::Approval,
        m.pending_approval is None && m.busy ==> gate_for(m) == GateState::Busy(m.status.spinner_frame),
        m.pending_approval is None && !m.busy && m.transcript@.len() > 0 && (m.transcript@.last() matches ItemView::Notice(
            NoticeLevel::Error,
            _,
        )) ==> gate_for(m) == GateState::Error,
        m.pending_approval is None && !m.busy && m.transcript@.len() == 0 ==> gate_for(m) == if m.input@.text().len() == 0 {
            GateState::Idle
        } else {
            GateState::Typing
        },
{
}

/// The search bar counts its hits from one, and says where there is nothing to find yet or nothing found.
pub proof fn the_search_bar_counts_its_hits(query: Seq<char>, n: int, active: int)
    ensures
        n > 0 ==> hits_text(query, n, active) == " (correspondência "@ + decimal(active + 1) + " de "@ + decimal(n) + ")"@,
        n == 0 && query.len() == 0 ==> hits_text(query, n, active) == " (digite para buscar)"@,
        n == 0 && query.len() > 0 ==> hits_text(query, n, active) == " (nenhuma correspondência)"@,
{
}

// ---- the plan ----

/// The plan scrolls as far as it was told, but never past its last row; its title tells how far, where it scrolls at all.
pub proof fn a_plan_never_scrolls_past_its_end(total: int, height: int, scroll: int)
    requires
        0 <= total && 0 <= height && 0 <= scroll,
    ensures
        total > height ==> plan_offset(total, height, scroll) == if scroll <= total - height { scroll } else { total - height },
        total <= height ==> plan_offset(total, height, scroll) == 0,
        total <= height ==> plan_title(total, height, scroll) == " 📋 PLANO PROPOSTO "@,
        total > height ==> plan_title(total, height, scroll) == " 📋 PLANO PROPOSTO"@ + (" [Rolar: ⇧↑/⇧↓/PgUp/PgDn | "@ + decimal(
            (if scroll <= total - height { scroll } else { total - height }) * 100 / (total - height),
        ) + "%] "@) + " "@,
{
    reveal_strlit(" 📋 PLANO PROPOSTO ");
    reveal_strlit(" 📋 PLANO PROPOSTO");
    reveal_strlit("");
    reveal_strlit(" ");
    assert(" 📋 PLANO PROPOSTO"@ + ""@ + " "@ =~= " 📋 PLANO PROPOSTO "@);
}

// ---- the sidebar ----

/// The sidebar tells whether a turn runs, the mode, the provider, the model and the effort, each on its own row.
pub proof fn the_sidebar_tells_the_status(m: Model, width: int)
    ensures
        ({
            let rows = info_rows(m, width);
            &&& rows.len() == 17
            &&& m.busy ==> row_text(rows[5]) == "  Status: "@ + "EXECUTANDO"@
            &&& !m.busy ==> row_text(rows[5]) == "  Status: "@ + "AGUARDANDO"@
            &&& row_text(rows[6]) == "  Modo:   "@ + mode_label(m.approval_mode)
            &&& row_text(rows[9]) == "  Provider: "@ + m.status.provider@
            &&& text_bytes(m.status.model@) + 13 <= width ==> row_text(rows[10]) == "  Modelo:   "@ + m.status.model@
            &&& text_bytes(m.status.workspace@) + 14 <= width ==> row_text(rows[14]) == "  Diretório: "@
                + m.status.workspace@
            &&& row_text(rows[11]) == "  Esforço:  "@ + match m.status.effort {
                Effort::Off => "OFF"@,
                Effort::Low => "LOW"@,
                Effort::Medium => "MEDIUM"@,
                Effort::High => "HIGH"@,
                Effort::Max => "MAX"@,
            }
        }),
{
    let rows = info_rows(m, width);
    two_runs(rows[5]);
    two_runs(rows[6]);
    two_runs(rows[9]);
    two_runs(rows[10]);
    two_runs(rows[11]);
    two_runs(rows[14]);
    if m.status.model@.len() == 0 {
        assert(m.status.model@ =~= Seq::<char>::empty());
    }
    if m.status.workspace@.len() == 0 {
        assert(m.status.workspace@ =~= Seq::<char>::empty());
    }
}

/// The sidebar lists the changed files in order, the first eight by name and the others by their number, and says where none
/// was changed.
pub proof fn the_sidebar_lists_the_files(files: Seq<Seq<char>>, width: int, i: int)
    ensures
        files.len() == 0 ==> file_rows(files, width).len() == 1 && row_text(file_rows(files, width)[0])
            == "  (nenhum arquivo alterado)"@,
        0 < files.len() <= 8 ==> file_rows(files, width).len() == files.len(),
        files.len() > 8 ==> file_rows(files, width).len() == 9 && row_text(file_rows(files, width)[8]) == "  ... e mais "@
            + decimal(files.len() - 8),
        0 <= i < files.len() && i < 8 && 0 < text_bytes(files[i]) && text_bytes(files[i]) + 6 <= width ==> row_text(
            file_rows(files, width)[i],
        ) == "  • "@ + files[i],
{
    let rows = file_rows(files, width);
    if files.len() == 0 {
        one_run("  (nenhum arquivo alterado)"@, rows[0][0].style);
        assert(rows[0] =~= styled_row("  (nenhum arquivo alterado)"@, rows[0][0].style));
    } else if files.len() > 8 {
        let label = "  ... e mais "@ + decimal(files.len() - 8);
        one_run(label, rows[8][0].style);
        assert(rows[8] =~= styled_row(label, rows[8][0].style));
    }
    if 0 <= i < files.len() && i < 8 {
        two_runs(rows[i]);
    }
}

/// A file counts as changed where a tool that changes files was called on it: editing, writing, creating and deleting do, and
/// nothing else does.
pub proof fn only_changing_tools_change_files(a: ActivityView)
    ensures
        first_word(a.command) == "edit_file"@ || first_word(a.command) == "write_file"@ || first_word(a.command)
            == "create_dir"@ || first_word(a.command) == "delete_file"@ ==> changed_file(ItemView::Tool(a))
            == crate::application::keymap::transcript_pane::file_of(a.command),
        !(first_word(a.command) == "edit_file"@ || first_word(a.command) == "write_file"@ || first_word(a.command)
            == "create_dir"@ || first_word(a.command) == "delete_file"@) ==> changed_file(ItemView::Tool(a)) is None,
        forall|t: Seq<char>| #[trigger] changed_file(ItemView::Assistant(t)) is None,
{
}

/// A text that is too long for its place shows its end behind three dots.
pub proof fn a_long_text_shows_its_end(text: Seq<char>, limit: int)
    requires
        limit >= 3,
        text_bytes(text) > limit,
    ensures
        ({
            let r = fitted_text(text, limit);
            let n = text.len() - (r.len() - 3);
            &&& r.len() >= 3 && r.take(3) == "..."@
            &&& 0 <= n <= text.len()
            &&& r.skip(3) == text.skip(n)
            &&& text_bytes(text.skip(n)) <= limit - 3
            &&& n > 0 ==> text_bytes(text.skip(n - 1)) > limit - 3
        }),
{
    reveal_strlit("...");
    let t = crate::text::tail_of_bytes(text, (limit - 3) as nat);
    ends_are_longest(text, (limit - 3) as nat);
    let r = fitted_text(text, limit);
    assert(r.take(3) =~= "..."@);
    assert(r.skip(3) =~= t);
}

proof fn ends_are_longest(s: Seq<char>, n: nat)
    ensures
        ({
            let t = crate::text::tail_of_bytes(s, n);
            let k = s.len() - t.len();
            &&& 0 <= k
            &&& t == s.skip(k)
            &&& text_bytes(t) <= n
            &&& k > 0 ==> text_bytes(s.skip(k - 1)) > n
        }),
    decreases s.len(),
{
    if s.len() > 0 && text_bytes(s) > n {
        let d = s.drop_first();
        ends_are_longest(d, n);
        let k = d.len() - crate::text::tail_of_bytes(d, n).len();
        assert(d.skip(k) =~= s.skip(k + 1));
        if k > 0 {
            assert(d.skip(k - 1) =~= s.skip(k));
        } else {
            assert(s.skip(0) =~= s);
        }
    } else {
        assert(s.skip(0) =~= s);
    }
}

// ---- the wizard ----

proof fn kinds_in_order(n: int, selected: int)
    requires
        0 <= n <= WIZARD_KINDS@.len(),
    ensures
        kind_rows(n, selected).len() == n,
        forall|i: int|
            0 <= i < n ==> #[trigger] kind_rows(n, selected)[i] == option_row(kind_text(WIZARD_KINDS@[i]), i == selected),
    decreases n,
{
    if n > 0 {
        kinds_in_order(n - 1, selected);
    }
}

/// The kind chooser lists every kind in order, with the caret at the one that Enter takes.
pub proof fn the_wizard_lists_the_kinds(w: WizardView, i: int)
    requires
        w.step == WizardStep::Kind,
        0 <= i < 5,
    ensures
        chooser_rows(w).len() == 10,
        row_text(chooser_rows(w)[3 + i]) == (if i == w.kind_selected {
            "❯ "@
        } else {
            "  "@
        }) + kind_text(WIZARD_KINDS@[i]),
{
    kinds_in_order(5, w.kind_selected);
    a_row_shows_whether_it_is_highlighted(kind_text(WIZARD_KINDS@[i]));
    assert(chooser_rows(w)[3 + i] == kind_rows(5, w.kind_selected)[i]);
}

/// The thinking chooser has the caret at the choice made.
pub proof fn the_wizard_shows_the_thinking_choice(w: WizardView)
    requires
        w.step == WizardStep::Thinking,
    ensures
        chooser_rows(w).len() == 7,
        w.thinking ==> row_text(chooser_rows(w)[3]) == "❯ "@ + "Sim"@ && row_text(chooser_rows(w)[4]) == "  "@ + "Não"@,
        !w.thinking ==> row_text(chooser_rows(w)[3]) == "  "@ + "Sim"@ && row_text(chooser_rows(w)[4]) == "❯ "@ + "Não"@,
{
    a_row_shows_whether_it_is_highlighted("Sim"@);
    a_row_shows_whether_it_is_highlighted("Não"@);
}

/// The wizard's header tells whether a provider is added, edited, or the first one.
pub proof fn the_wizard_says_what_it_is_for(w: WizardView)
    ensures
        w.onboarding ==> title_text(w) == "Bem-vindo ao Kiri"@,
        !w.onboarding && w.edit_mode ==> title_text(w) == "editar provider"@,
        !w.onboarding && !w.edit_mode ==> title_text(w) == "novo provider"@,
{
}

/// The key field asks for a key only where one is needed: an edited provider keeps its own, and a generic one may have none.
pub proof fn the_key_prompt_says_what_is_needed(w: WizardView)
    requires
        w.step == WizardStep::ApiKey,
    ensures
        w.edit_mode ==> prompt_text(w) == "API key (vazio = manter chave atual):"@,
        !w.edit_mode && w.kind().is_vendor() ==> prompt_text(w) == "API key:"@,
        !w.edit_mode && !w.kind().is_vendor() ==> prompt_text(w) == "API key (opcional — vazia p/ Ollama / LM Studio):"@,
{
}

/// The masked field shows a bullet for each character of the key and the caret where the cursor is.
pub proof fn the_mask_shows_the_length(n: int, col: int)
    requires
        0 <= col <= n,
    ensures
        ({
            let text = row_text(masked_row(n, col));
            &&& text.len() == n + 1
            &&& text[col] == '▏'
            &&& forall|k: int| 0 <= k < n + 1 && k != col ==> #[trigger] text[k] == '•'
        }),
{
    let row = masked_row(n, col);
    reveal_strlit("▏");
    if row.len() == 1 {
        one_run(row[0].text, row[0].style);
        assert(row =~= styled_row(row[0].text, row[0].style));
    } else if row.len() == 2 {
        two_runs(row);
    } else {
        three_runs(row);
    }
}

/// A chooser of the wizard has as many rows as are reserved for it, where there is room for them.
pub proof fn a_chooser_fills_its_region(w: WizardView, area: Rect)
    requires
        !w.step.edits_text(),
        area.height > 10,
    ensures
        chooser_rows(w).len() == wizard_height(w, area),
{
    kinds_in_order(5, w.kind_selected);
}

/// A text step of the wizard has a row for the header, the prompt and the hint, two blank ones, and its field, which grows
/// with its text up to six rows.
pub proof fn a_text_step_has_room_for_its_field(w: WizardView, area: Rect)
    requires
        w.step.edits_text(),
        area.height > 11,
    ensures
        wizard_height(w, area) == 5 + field_rows(w.draft.text(), field_width(area)),
        1 <= field_rows(w.draft.text(), field_width(area)) <= 6,
{
}

/// The conversation column is as wide as the pane, up to eighty-eight cells and never less than one.
pub proof fn the_column_is_readable(pane: int)
    requires
        pane >= 0,
    ensures
        column_width(pane) == if pane < 1 {
            1
        } else if pane > 88 {
            88
        } else {
            pane
        },
{
}

/// A text step is headed by what the wizard is for and where it stands.
pub proof fn the_header_tells_the_step(w: WizardView)
    ensures
        row_text(header_row(w)) == " "@ + title_text(w) + " · "@ + match w.step {
            WizardStep::Kind => "tipo"@,
            WizardStep::ProviderId => "id"@,
            WizardStep::BaseUrl => "endpoint"@,
            WizardStep::Model => "modelo"@,
            WizardStep::ExtraModels => "modelos extras"@,
            WizardStep::Thinking => "thinking"@,
            WizardStep::ApiKey => "chave"@,
        },
{
    one_run(header_row(w)[0].text, header_row(w)[0].style);
    assert(header_row(w) =~= styled_row(header_row(w)[0].text, header_row(w)[0].style));
}

/// The brand line shows the seal always, and the tagline where both fit with a cell to spare; behind a confirmation it is
/// dimmer.
pub proof fn the_seal_is_always_shown(has_modal: bool, width: int)
    ensures
        brand_row(has_modal, width).len() >= 1,
        brand_row(has_modal, width)[0].text == " ⬢ kiri "@,
        cells(" ⬢ kiri "@ + " Engineering-Grade Code Harness"@) < width ==> brand_row(has_modal, width).len() == 2
            && brand_row(has_modal, width)[1].text == " Engineering-Grade Code Harness"@,
        cells(" ⬢ kiri "@ + " Engineering-Grade Code Harness"@) >= width ==> brand_row(has_modal, width).len() == 1,
{
}

/// The splash closes with its title, its state and its motto, under the icon where that fits.
pub proof fn the_splash_shows_its_title(area: Rect)
    ensures
        ({
            let rows = splash_rows(area);
            let n = rows.len() as int;
            &&& n >= 4
            &&& row_text(rows[n - 4]) == "[ KIRI ]"@
            &&& row_text(rows[n - 1]) == "Forged from Tradition, Built for Precision"@
            &&& area.height < 23 || area.width < 34 ==> n == 4
        }),
{
    let rows = splash_rows(area);
    let n = rows.len() as int;
    one_run("[ KIRI ]"@, rows[n - 4][0].style);
    assert(rows[n - 4] =~= styled_row("[ KIRI ]"@, rows[n - 4][0].style));
    one_run("Forged from Tradition, Built for Precision"@, rows[n - 1][0].style);
    assert(rows[n - 1] =~= styled_row("Forged from Tradition, Built for Precision"@, rows[n - 1][0].style));
}

/// A picker takes sixty-four columns and fifteen rows where there is room for them and a margin.
pub proof fn a_picker_has_its_size(area: Rect)
    ensures
        area.width >= 68 ==> modal_size(area).0 == 64,
        area.height >= 17 ==> modal_size(area).1 == 15,
        24 <= area.width < 68 ==> modal_size(area).0 == area.width - 4,
        10 <= area.height < 17 ==> modal_size(area).1 == area.height - 2,
{
}

/// The command list has a row for each entry and two for its border, where there is room above the editor.
pub proof fn the_command_list_shows_every_entry(anchor: Rect, rows: int)
    requires
        0 <= rows,
        rows + 2 <= anchor.y,
    ensures
        list_height(anchor, rows) == rows + 2,
{
}

/// The badge of a mode that asks less or does less than usual stands out, and no two modes look alike.
pub proof fn an_unusual_mode_stands_out(a: ApprovalMode, b: ApprovalMode)
    ensures
        a != b ==> mode_style(a).fg != mode_style(b).fg,
        a == ApprovalMode::Auto ==> mode_style(a).fg == Some(Ink::Warning.rgb()),
        a == ApprovalMode::Plan ==> mode_style(a).fg == Some(Ink::Highlight.rgb()),
        a == ApprovalMode::Default ==> mode_style(a).fg == Some(Ink::Brand.rgb()) && mode_style(a).bg is None,
        a != ApprovalMode::Default ==> mode_style(a).bg == Some(Ink::Void.rgb()),
{
}

/// A chooser asks its question under its header, and ends with the keys that go on and give up.
pub proof fn a_chooser_asks_its_question(w: WizardView)
    ensures
        ({
            let rows = chooser_rows(w);
            &&& rows[0] == header_row(w)
            &&& row_text(rows[2]) == if w.step != WizardStep::Kind {
                " Ativar raciocínio estendido (thinking) para este provider?"@
            } else if w.onboarding {
                " Escolha seu provider para começar:"@
            } else {
                " Escolha o tipo de provider:"@
            }
            &&& row_text(rows.last()) == " Enter: próximo · Esc: cancelar"@
        }),
{
    let rows = chooser_rows(w);
    one_run(rows[2][0].text, rows[2][0].style);
    assert(rows[2] =~= styled_row(rows[2][0].text, rows[2][0].style));
    one_run(rows.last()[0].text, rows.last()[0].style);
    assert(rows.last() =~= styled_row(rows.last()[0].text, rows.last()[0].style));
}

} // verus!
