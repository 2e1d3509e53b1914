//! The sidebar: project info, model configuration, and the files that the session changed.
use vstd::prelude::*;
use crate::application::keymap::transcript_pane::{extract_filepath, file_of};
use crate::domain::model::Model;
use crate::domain::transcript::{ItemView, TranscriptItem};
use crate::infrastructure::render::line::{
    line_views, push_line, styled_row, styled_run, Line, Span, SpanView,
};
use crate::infrastructure::render::theme::{dim, ink, inked, strong, Ink, STEEL_RAMP};
use crate::infrastructure::render::widgets::meta_rule::{mode_badge, mode_label};
use crate::kernel::Effort;
use crate::style::TextStyle;
use crate::text::{
    before, before_is_strict, before_is_total, before_is_transitive, bytes_within, cat2, comes_before,
    decimal, decimal_of, find_first_word, first_word, same, tail_of_bytes, take_end, text_bytes, views,
};

verus! {

/// The most changed files that the sidebar lists.
pub const MAX_FILES: usize = 8;

/// A text cut from the front to a number of bytes, three dots in the place of what is cut.
pub open spec fn fitted_text(text: Seq<char>, limit: int) -> Seq<char> {
    if limit <= 0 {
        Seq::empty()
    } else if text_bytes(text) <= limit {
        text
    } else {
        "..."@ + tail_of_bytes(
            text,
            if limit < 3 {
                0
            } else {
                (limit - 3) as nat
            },
        )
    }
}

/// Cut a text from the front to a number of bytes. A character is never cut in two: one that straddles the cut goes.
pub fn fit_text(text: &str, limit: usize) -> (r: String)
    ensures
        r@ == fitted_text(text@, limit as int),
{
    if limit == 0 {
        let none: String = String::new();
        assert(none@ =~= Seq::<char>::empty());
        return none;
    }
    if bytes_within(text, limit) {
        return text.to_owned();
    }
    cat2("...", take_end(text, limit.saturating_sub(3)).as_str())
}

/// A tool that changes files.
pub open spec fn changes_files(tool: Seq<char>) -> bool {
    tool == "edit_file"@ || tool == "write_file"@ || tool == "create_dir"@ || tool == "delete_file"@
}

/// The file that an item changed, if it did.
pub open spec fn changed_file(item: ItemView) -> Option<Seq<char>> {
    match item {
        ItemView::Tool(a) => if changes_files(first_word(a.command)) {
            file_of(a.command)
        } else {
            None
        },
        _ => None,
    }
}

fn file_changed_by(item: &TranscriptItem) -> (r: Option<String>)
    ensures
        match r {
            Some(p) => changed_file(item@) == Some(p@),
            None => changed_file(item@) is None,
        },
{
    match item {
        TranscriptItem::Tool(activity) => {
            let tool: String = find_first_word(activity.command.as_str());
            let tool: &str = tool.as_str();
            if same(tool, "edit_file") || same(tool, "write_file") || same(tool, "create_dir") || same(
                tool,
                "delete_file",
            ) {
                extract_filepath(activity.command.as_str())
            } else {
                None
            }
        },
        _ => None,
    }
}

/// Each comes before the next in dictionary order; so nothing occurs twice.
pub open spec fn in_order(v: Seq<Seq<char>>) -> bool {
    forall|i: int, j: int| 0 <= i < j < v.len() ==> #[trigger] before(v[i], v[j])
}

/// Some of the first `n` items changed the file.
pub open spec fn was_changed(items: Seq<ItemView>, n: int, file: Seq<char>) -> bool {
    exists|k: int| 0 <= k < n && changed_file(#[trigger] items[k]) == Some(file)
}

fn insert_file(files: &mut Vec<String>, path: String)
    requires
        in_order(views(old(files)@)),
    ensures
        in_order(views(final(files)@)),
        forall|f: Seq<char>|
            views(final(files)@).contains(f) <==> views(old(files)@).contains(f) || f == path@,
{
    let ghost v = views(files@);
    let mut i: usize = 0;
    while i < files.len() && comes_before(files[i].as_str(), path.as_str())
        invariant
            i <= files@.len(),
            v == views(files@),
            in_order(v),
            forall|k: int| 0 <= k < i ==> before(#[trigger] v[k], path@),
        decreases files@.len() - i,
    {
        assert(v[i as int] == files@[i as int]@);
        i = i + 1;
    }
    if i < files.len() && same(files[i].as_str(), path.as_str()) {
        assert(v[i as int] == path@);
        return ;
    }
    let ghost p = path@;
    proof {
        if i < v.len() {
            assert(v[i as int] == files@[i as int]@);
            before_is_total(v[i as int], p);
        }
        assert forall|k: int| i <= k < v.len() implies before(p, #[trigger] v[k]) by {
            if k > i {
                assert(before(v[i as int], v[k]));
                before_is_transitive(p, v[i as int], v[k]);
            }
        }
    }
    files.insert(i, path);
    let ghost w = views(files@);
    assert(w =~= v.insert(i as int, p));
    assert forall|a: int, b: int| 0 <= a < b < w.len() implies #[trigger] before(w[a], w[b]) by {
        if a < i && b < i {
            assert(before(v[a], v[b]));
        } else if a < i && b > i {
            assert(before(v[a], v[b - 1]));
        } else if a > i {
            assert(before(v[a - 1], v[b - 1]));
        } else if b == i {
            assert(before(v[a], p));
        } else {
            assert(before(p, v[b - 1]));
        }
    }
    assert forall|f: Seq<char>| w.contains(f) <==> v.contains(f) || f == p by {
        if v.contains(f) {
            let k = choose|k: int| 0 <= k < v.len() && v[k] == f;
            if k < i {
                assert(w[k] == f);
            } else {
                assert(w[k + 1] == f);
            }
        }
        if f == p {
            assert(w[i as int] == f);
        }
        if w.contains(f) {
            let k = choose|k: int| 0 <= k < w.len() && w[k] == f;
            if k < i {
                assert(v[k] == f);
            } else if k > i {
                assert(v[k - 1] == f);
            }
        }
    }
}

/// The files that the tool calls of the transcript changed, in dictionary order, each once.
pub fn collect_modified_files(model: &Model) -> (r: Vec<String>)
    ensures
        in_order(views(r@)),
        forall|f: Seq<char>|
            views(r@).contains(f) <==> was_changed(
                model.transcript@,
                model.transcript@.len() as int,
                f,
            ),
{
    let ghost items = model.transcript@;
    let mut files: Vec<String> = Vec::new();
    let n: usize = model.transcript.items().len();
    let mut i: usize = 0;
    while i < n
        invariant
            i <= n,
            n == items.len(),
            items == model.transcript@,
            in_order(views(files@)),
            forall|f: Seq<char>| views(files@).contains(f) <==> was_changed(items, i as int, f),
        decreases n - i,
    {
        let ghost held = views(files@);
        let path: Option<String> = file_changed_by(&model.transcript.items()[i]);
        let ghost now = changed_file(items[i as int]);
        if let Some(path) = path {
            insert_file(&mut files, path);
        }
        assert forall|f: Seq<char>| views(files@).contains(f) <==> was_changed(
            items,
            i as int + 1,
            f,
        ) by {
            if now == Some(f) {
                assert(changed_file(items[i as int]) == Some(f));
                assert(was_changed(items, i as int + 1, f));
            }
            if was_changed(items, i as int, f) {
                let k = choose|k: int| 0 <= k < i && changed_file(#[trigger] items[k]) == Some(f);
                assert(changed_file(items[k]) == Some(f));
            }
            if was_changed(items, i as int + 1, f) {
                let k = choose|k: int| 0 <= k < i + 1 && changed_file(#[trigger] items[k]) == Some(f);
                if k < i {
                    assert(was_changed(items, i as int, f));
                }
            }
        }
        i = i + 1;
    }
    files
}

/// The label of an effort.
pub open spec fn effort_text(effort: Effort) -> Seq<char> {
    match effort {
        Effort::Off => "OFF"@,
        Effort::Low => "LOW"@,
        Effort::Medium => "MEDIUM"@,
        Effort::High => "HIGH"@,
        Effort::Max => "MAX"@,
    }
}

fn effort_label(effort: Effort) -> (r: &'static str)
    ensures
        r@ == effort_text(effort),
{
    match effort {
        Effort::Off => "OFF",
        Effort::Low => "LOW",
        Effort::Medium => "MEDIUM",
        Effort::High => "HIGH",
        Effort::Max => "MAX",
    }
}

/// A row of a dim label and a value.
pub open spec fn field_row(label: Seq<char>, value: Seq<char>, style: TextStyle) -> Seq<SpanView> {
    seq![styled_run(label, inked(Ink::Brand)), styled_run(value, style)]
}

fn field(label: &str, value: &str, style: TextStyle) -> (r: Line)
    ensures
        r@ == field_row(label@, value@, style),
{
    let mut spans: Vec<Span> = Vec::new();
    spans.push(Span::styled(label.to_owned(), dim()));
    spans.push(Span::styled(value.to_owned(), style));
    let line: Line = Line { spans };
    assert(line@ =~= field_row(label@, value@, style));
    line
}

/// A width less what stands before a value.
pub open spec fn room(width: int, taken: int) -> int {
    if width > taken {
        width - taken
    } else {
        0
    }
}

/// The rows above the list of changed files.
pub open spec fn info_rows(m: Model, width: int) -> Seq<Seq<SpanView>> {
    let blank = Seq::<SpanView>::empty();
    seq![
        styled_row(" ⬢ kiri"@, inked(Ink::Steel)),
        styled_row("  Engineering-Grade Code Harness"@, inked(Ink::Brand)),
        styled_row(" ┄┄┄┄┄┄┄┄┄┄┄┄┄┄┄┄┄┄┄┄┄┄┄┄┄┄┄┄┄┄"@, inked(Ink::Brand)),
        blank,
        styled_row(" ◆ HARNESS STATUS"@, inked(Ink::Steel)),
        if m.busy {
            field_row("  Status: "@, "EXECUTANDO"@, inked(Ink::Highlight))
        } else {
            field_row("  Status: "@, "AGUARDANDO"@, inked(Ink::Success))
        },
        field_row("  Modo:   "@, mode_label(m.approval_mode), inked(Ink::Warning)),
        blank,
        styled_row(" ◆ CONTEXTO"@, inked(Ink::Steel)),
        field_row("  Provider: "@, m.status.provider@, inked(STEEL_RAMP@[1])),
        field_row(
            "  Modelo:   "@,
            fitted_text(m.status.model@, room(width, 13)),
            inked(STEEL_RAMP@[1]),
        ),
        field_row("  Esforço:  "@, effort_text(m.status.effort), inked(STEEL_RAMP@[1])),
        blank,
        styled_row(" ◆ WORKSPACE"@, inked(Ink::Steel)),
        field_row(
            "  Diretório: "@,
            fitted_text(m.status.workspace@, room(width, 14)),
            inked(STEEL_RAMP@[2]),
        ),
        blank,
        styled_row(" ◆ ARQUIVOS MODIFICADOS"@, inked(Ink::Steel)),
    ]
}

/// A row of the list of changed files.
pub open spec fn file_row(file: Seq<char>, width: int) -> Seq<SpanView> {
    seq![
        styled_run("  • "@, inked(Ink::Success)),
        styled_run(fitted_text(file, room(width, 6)), inked(Ink::Steel)),
    ]
}

/// The list of changed files, bounded.
pub open spec fn file_rows(files: Seq<Seq<char>>, width: int) -> Seq<Seq<SpanView>> {
    if files.len() == 0 {
        seq![styled_row("  (nenhum arquivo alterado)"@, inked(Ink::Brand))]
    } else if files.len() <= MAX_FILES {
        Seq::new(files.len(), |i: int| file_row(files[i], width))
    } else {
        Seq::new(MAX_FILES as nat, |i: int| file_row(files[i], width)).push(
            styled_row("  ... e mais "@ + decimal(files.len() - MAX_FILES), inked(Ink::Brand)),
        )
    }
}

fn info_lines(model: &Model, width: usize) -> (r: Vec<Line>)
    ensures
        line_views(r@) == info_rows(*model, width as int),
{
    let mut lines: Vec<Line> = Vec::new();
    assert(line_views(lines@) =~= Seq::<Seq<SpanView>>::empty());
    push_line(&mut lines, Line::styled(" ⬢ kiri".to_owned(), strong()));
    push_line(&mut lines, Line::styled("  Engineering-Grade Code Harness".to_owned(), dim()));
    push_line(&mut lines, Line::styled(" ┄┄┄┄┄┄┄┄┄┄┄┄┄┄┄┄┄┄┄┄┄┄┄┄┄┄┄┄┄┄".to_owned(), dim()));
    push_line(&mut lines, Line::blank());
    push_line(&mut lines, Line::styled(" ◆ HARNESS STATUS".to_owned(), strong()));
    if model.busy {
        push_line(&mut lines, field("  Status: ", "EXECUTANDO", ink(Ink::Highlight)));
    } else {
        push_line(&mut lines, field("  Status: ", "AGUARDANDO", ink(Ink::Success)));
    }
    push_line(&mut lines, field("  Modo:   ", mode_badge(model.approval_mode).0, ink(Ink::Warning)));
    push_line(&mut lines, Line::blank());
    push_line(&mut lines, Line::styled(" ◆ CONTEXTO".to_owned(), strong()));
    push_line(&mut lines, field("  Provider: ", model.status.provider.as_str(), ink(STEEL_RAMP[1])));
    let name: String = fit_text(model.status.model.as_str(), width.saturating_sub(13));
    push_line(&mut lines, field("  Modelo:   ", name.as_str(), ink(STEEL_RAMP[1])));
    push_line(&mut lines, field("  Esforço:  ", effort_label(model.status.effort), ink(STEEL_RAMP[1])));
    push_line(&mut lines, Line::blank());
    push_line(&mut lines, Line::styled(" ◆ WORKSPACE".to_owned(), strong()));
    let place: String = fit_text(model.status.workspace.as_str(), width.saturating_sub(14));
    push_line(&mut lines, field("  Diretório: ", place.as_str(), ink(STEEL_RAMP[2])));
    push_line(&mut lines, Line::blank());
    push_line(&mut lines, Line::styled(" ◆ ARQUIVOS MODIFICADOS".to_owned(), strong()));
    assert(line_views(lines@) =~= info_rows(*model, width as int));
    lines
}

/// The rows of the sidebar at its inner width, `files` being the changed files.
pub fn sidebar_lines(model: &Model, files: &Vec<String>, width: usize) -> (r: Vec<Line>)
    ensures
        line_views(r@) == info_rows(*model, width as int) + file_rows(views(files@), width as int),
{
    let mut lines: Vec<Line> = info_lines(model, width);
    let ghost top = line_views(lines@);
    if files.len() == 0 {
        push_line(&mut lines, Line::styled("  (nenhum arquivo alterado)".to_owned(), dim()));
        assert(line_views(lines@) =~= top + file_rows(views(files@), width as int));
        return lines;
    }
    let shown: usize = if files.len() <= MAX_FILES {
        files.len()
    } else {
        MAX_FILES
    };
    let ghost all = Seq::new(shown as nat, |i: int| file_row(views(files@)[i], width as int));
    let mut i: usize = 0;
    assert(top + all.take(0) =~= top);
    while i < shown
        invariant
            i <= shown <= files@.len(),
            all == Seq::new(shown as nat, |i: int| file_row(views(files@)[i], width as int)),
            line_views(lines@) == top + all.take(i as int),
        decreases shown - i,
    {
        let mut spans: Vec<Span> = Vec::new();
        spans.push(Span::styled("  • ".to_owned(), ink(Ink::Success)));
        spans.push(
            Span::styled(fit_text(files[i].as_str(), width.saturating_sub(6)), ink(Ink::Steel)),
        );
        let line: Line = Line { spans };
        assert(line@ =~= all[i as int]);
        push_line(&mut lines, line);
        assert(line_views(lines@) =~= top + all.take(i as int + 1));
        i = i + 1;
    }
    assert(all.take(shown as int) =~= all);
    if files.len() > MAX_FILES {
        let more: String = cat2("  ... e mais ", decimal_of((files.len() - MAX_FILES) as u64).as_str());
        push_line(&mut lines, Line::styled(more, dim()));
    }
    assert(line_views(lines@) =~= top + file_rows(views(files@), width as int));
    lines
}

/// A list in dictionary order repeats nothing.
pub proof fn ordered_lists_repeat_nothing(v: Seq<Seq<char>>)
    requires
        in_order(v),
    ensures
        v.no_duplicates(),
{
    assert forall|i: int, j: int| 0 <= i < v.len() && 0 <= j < v.len() && i != j implies v[i] != v[j] by {
        if i < j {
            assert(before(v[i], v[j]));
            before_is_strict(v[i]);
        } else {
            assert(before(v[j], v[i]));
            before_is_strict(v[j]);
        }
    }
}

} // verus!
