//! What the keys do, wherever they go.
use vstd::prelude::*;
use vstd::string::*;
use crate::application::effect::{nothing, EffectView};
use crate::application::keymap::editor_input::{composer_keyed, keyed, plain_keyed, recall_keyed};
use crate::application::keymap::field_edit::{chord, chorded};
use crate::application::keymap::menu::{menu_follows, menu_keyed, menu_wanted};
use crate::application::keymap::modals::{approval_keyed, plan_keyed};
use crate::application::keymap::search::{hits, search_keyed, search_text};
use crate::application::keymap::transcript_pane::{code_of, current_item, fenced, file_of, transcript_keyed};
use crate::domain::command_menu::{entry_views, preview, CommandMenu, positions_are_exact};
use crate::domain::input::{Key, KeyPress};
use crate::domain::input_buffer::{translated, types, EditorInput, InputBuffer};
use crate::domain::modal::{ApprovalOption, PendingApproval, PlanOption};
use crate::domain::model::{Model, PaneFocus};
use crate::domain::nav::steps_wrap;
use crate::domain::picker::option_matches;
use crate::domain::transcript::{ItemView, NoticeLevel};
use crate::kernel::{Approval, ApprovalMode};
use crate::text::{
    begins, ends, is_white, join_by, join_with, lines_of, occurs, trim_end, unicode_lowercase,
};

verus! {

// ---- the confirmation ----

/// Enter answers a confirmation with the option that is highlighted: what the row says is what the engine is told, and
/// the transcript tells it too.
pub proof fn enter_answers_what_is_highlighted(old: Model, key: KeyPress, new: Model, effects: Seq<EffectView>)
    requires
        approval_keyed(old, key, new, effects),
        old.pending_approval is Some,
        key.code == Key::Enter,
        (old.pending_approval->0).selected < 3,
    ensures
        new.pending_approval is None,
        ({
            let said = ApprovalOption::ALL@[(old.pending_approval->0).selected as int].caption();
            let question = PendingApproval::question((old.pending_approval->0).prompt@);
            &&& said == "Sim"@ ==> effects == seq![EffectView::AnswerApproval(Approval::Approved)] && new.transcript@
                == old.transcript@.push(ItemView::Notice(NoticeLevel::Info, "✓ "@ + question)) && new.approval_mode
                == old.approval_mode
            &&& said == "Sim, e não perguntar de novo (modo auto)"@ ==> effects == seq![
                EffectView::AnswerApproval(Approval::ApprovedAuto),
            ] && new.approval_mode == ApprovalMode::Auto && new.transcript@.len() == old.transcript@.len() + 2
                && new.transcript@[old.transcript@.len() as int] == ItemView::Notice(
                NoticeLevel::Info,
                "✓ "@ + question,
            )
            &&& said == "Não"@ ==> effects == seq![EffectView::AnswerApproval(Approval::Declined)] && new.transcript@
                == old.transcript@.push(ItemView::Notice(NoticeLevel::Error, "✗ recusado: "@ + question))
                && new.approval_mode == old.approval_mode
        }),
{
    reveal_strlit("Sim");
    reveal_strlit("Não");
    reveal_strlit("Sim, e não perguntar de novo (modo auto)");
    assert("Sim"@[0] == 'S' && "Não"@[0] == 'N');
    assert("Sim"@.len() == 3 && "Sim, e não perguntar de novo (modo auto)"@.len() > 3);
    assert("Sim, e não perguntar de novo (modo auto)"@[0] == 'S');
    let question = PendingApproval::question((old.pending_approval->0).prompt@);
    assert(old.transcript@ + seq![ItemView::Notice(NoticeLevel::Info, "✓ "@ + question)] =~= old.transcript@.push(
        ItemView::Notice(NoticeLevel::Info, "✓ "@ + question),
    ));
    assert(old.transcript@ + seq![ItemView::Notice(NoticeLevel::Error, "✗ recusado: "@ + question)]
        =~= old.transcript@.push(ItemView::Notice(NoticeLevel::Error, "✗ recusado: "@ + question)));
}

/// Esc and `n` decline, `s` and `y` approve once, and Ctrl+C aborts; a call is never approved by anything else than Enter,
/// those letters or the digit of its row.
pub proof fn letters_answer_a_confirmation(old: Model, key: KeyPress, new: Model, effects: Seq<EffectView>)
    requires
        approval_keyed(old, key, new, effects),
        old.pending_approval is Some,
    ensures
        key.code == Key::Esc || key.code == Key::Char('n') || key.code == Key::Char('N') ==> effects == seq![
            EffectView::AnswerApproval(Approval::Declined),
        ],
        key.code == Key::Char('s') || key.code == Key::Char('S') || key.code == Key::Char('y') || key.code == Key::Char('Y')
            ==> effects == seq![EffectView::AnswerApproval(Approval::Approved)],
        key.code == Key::Char('c') && key.ctrl ==> effects == seq![EffectView::AnswerApproval(Approval::Aborted)],
        effects.contains(EffectView::AnswerApproval(Approval::Approved)) || effects.contains(
            EffectView::AnswerApproval(Approval::ApprovedAuto),
        ) ==> key.code == Key::Enter || key.code == Key::Char('s') || key.code == Key::Char('S') || key.code
            == Key::Char('y') || key.code == Key::Char('Y') || key.code == Key::Char('1') || key.code == Key::Char('2'),
{
    if effects.len() > 0 {
        assert(effects.len() == 1);
    }
}

/// The arrows move the highlight of a confirmation by a row, wrapping, and answer nothing.
pub proof fn arrows_answer_nothing(old: Model, key: KeyPress, new: Model, effects: Seq<EffectView>)
    requires
        approval_keyed(old, key, new, effects),
        old.pending_approval is Some,
        key.code == Key::Up || key.code == Key::Down,
        (old.pending_approval->0).selected < 3,
    ensures
        effects == nothing(),
        new.pending_approval is Some,
        (new.pending_approval->0).prompt == (old.pending_approval->0).prompt,
        ({
            let was = (old.pending_approval->0).selected as int;
            let is = (new.pending_approval->0).selected as int;
            &&& key.code == Key::Down ==> is == if was == 2 { 0 } else { was + 1 }
            &&& key.code == Key::Up ==> is == if was == 0 { 2 } else { was - 1 }
        }),
{
    steps_wrap((old.pending_approval->0).selected as int, 3);
}

/// The question of a confirmation is its prompt without the answers offered at its end.
pub proof fn a_question_has_no_hint(prompt: Seq<char>, body: Seq<char>)
    requires
        prompt == body + " [S/n]"@ || prompt == body + " [s/N]"@,
        body.len() > 0,
        !is_white(body.last()),
        body.last() != ']',
    ensures
        PendingApproval::question(prompt) == body,
{
    reveal_strlit(" [S/n]");
    reveal_strlit(" [s/N]");
    reveal_strlit("[S/n]");
    reveal_strlit("[s/N]");
    let hint = if prompt == body + " [S/n]"@ { "[S/n]"@ } else { "[s/N]"@ };
    let spaced = body.push(' ');
    assert(prompt =~= spaced + hint);
    assert(prompt.last() == ']');
    assert(trim_end(prompt) == prompt);
    assert(prompt.take(prompt.len() - 5) =~= spaced);
    assert(spaced.drop_last() =~= body);
    assert(!ends(spaced, "[S/n]"@)) by {
        if ends(spaced, "[S/n]"@) {
            assert(spaced.skip(spaced.len() - 5)[4] == "[S/n]"@[4]);
        }
    }
    assert(!ends(spaced, "[s/N]"@)) by {
        if ends(spaced, "[s/N]"@) {
            assert(spaced.skip(spaced.len() - 5)[4] == "[s/N]"@[4]);
        }
    }
    assert(prompt.skip(prompt.len() - 5) =~= hint);
    if hint == "[S/n]"@ {
        assert(ends(prompt, "[S/n]"@));
    } else {
        assert(!ends(prompt, "[S/n]"@)) by {
            if ends(prompt, "[S/n]"@) {
                assert(prompt.skip(prompt.len() - 5)[1] == "[S/n]"@[1]);
                assert("[s/N]"@[1] == 's');
            }
        }
        assert(ends(prompt, "[s/N]"@));
    }
    reveal_with_fuel(crate::text::without_suffixes, 2);
    reveal_with_fuel(trim_end, 2);
}

// ---- the plan ----

/// The picked option of a plan is carried out: running it asks for the mode that the row names, going on planning closes the
/// box and stays in plan mode, and cancelling leaves plan mode without running anything.
pub proof fn a_plan_does_what_the_row_says(old: Model, key: KeyPress, new: Model, effects: Seq<EffectView>)
    requires
        plan_keyed(old, key, new, effects),
        old.pending_plan is Some,
        key.code == Key::Enter,
        (old.pending_plan->0).selected < 4,
    ensures
        new.pending_plan is None,
        ({
            let said = PlanOption::ALL@[(old.pending_plan->0).selected as int].caption();
            &&& said == "Executar o plano"@ ==> effects == seq![EffectView::ApprovePlan(ApprovalMode::Default)]
            &&& said == "Executar o plano em modo auto"@ ==> effects == seq![EffectView::ApprovePlan(ApprovalMode::Auto)]
            &&& said == "Continuar planejando"@ ==> effects == nothing() && new.approval_mode == old.approval_mode
                && new.transcript == old.transcript
            &&& said == "Cancelar (sair do modo plan)"@ ==> effects == nothing() && new.approval_mode
                == ApprovalMode::Default && new.transcript@ == old.transcript@.push(
                ItemView::Notice(NoticeLevel::Info, "modo plan cancelado"@),
            )
        }),
{
    reveal_strlit("Executar o plano");
    reveal_strlit("Executar o plano em modo auto");
    reveal_strlit("Continuar planejando");
    reveal_strlit("Cancelar (sair do modo plan)");
    assert("Executar o plano"@.len() == 16 && "Executar o plano em modo auto"@.len() == 29);
    assert("Continuar planejando"@.len() == 20 && "Cancelar (sair do modo plan)"@.len() == 28);
}

/// Esc cancels a plan, Ctrl+C quits, and a plan runs only by Enter or the digit of a row that runs it.
pub proof fn a_plan_runs_only_when_told(old: Model, key: KeyPress, new: Model, effects: Seq<EffectView>)
    requires
        plan_keyed(old, key, new, effects),
        old.pending_plan is Some,
    ensures
        key.code == Key::Esc ==> effects == nothing() && new.pending_plan is None && new.approval_mode
            == ApprovalMode::Default,
        key.ctrl && key.code == Key::Char('c') ==> effects == seq![EffectView::Quit],
        effects.len() > 0 && effects[0] is ApprovePlan ==> key.code == Key::Enter || key.code == Key::Char('1') || key.code
            == Key::Char('2'),
        new.pending_plan is Some ==> effects == nothing() && new.approval_mode == old.approval_mode && (new.pending_plan->0).plan
            == (old.pending_plan->0).plan,
{
}

/// The arrows move the highlight of the plan box, with Shift they scroll the plan by a line, and the page keys by ten; going
/// up stops at the top.
pub proof fn a_plan_scrolls_and_steps(old: Model, key: KeyPress, new: Model, effects: Seq<EffectView>)
    requires
        plan_keyed(old, key, new, effects),
        old.pending_plan is Some,
        (old.pending_plan->0).selected < 4,
        (old.pending_plan->0).scroll < usize::MAX - 10,
    ensures
        ({
            let p = old.pending_plan->0;
            let q = new.pending_plan->0;
            &&& key.code == Key::PageDown ==> new.pending_plan is Some && q.scroll == p.scroll + 10 && q.selected == p.selected
            &&& key.code == Key::PageUp ==> new.pending_plan is Some && q.selected == p.selected && q.scroll == if p.scroll
                < 10 { 0 } else { p.scroll - 10 }
            &&& key.code == Key::Down && key.shift ==> new.pending_plan is Some && q.scroll == p.scroll + 1 && q.selected
                == p.selected
            &&& key.code == Key::Up && key.shift ==> new.pending_plan is Some && q.selected == p.selected && q.scroll
                == if p.scroll < 1 { 0 } else { p.scroll - 1 }
            &&& key.code == Key::Down && !key.shift ==> new.pending_plan is Some && q.scroll == p.scroll && q.selected
                == if p.selected == 3 { 0 } else { p.selected + 1 }
            &&& key.code == Key::Up && !key.shift ==> new.pending_plan is Some && q.scroll == p.scroll && q.selected
                == if p.selected == 0 { 3 } else { p.selected - 1 }
        }),
{
    steps_wrap((old.pending_plan->0).selected as int, 4);
}

// ---- the command preview ----

/// The preview is up exactly while a command's name is being typed: a slash and no white space yet, no turn running and no
/// modal open.
pub proof fn the_preview_shows_while_a_name_is_typed(m: Model)
    ensures
        menu_wanted(m) <==> (m.input@.text().len() > 0 && m.input@.text()[0] == '/' && (forall|i: int|
            0 <= i < m.input@.text().len() ==> !is_white(#[trigger] m.input@.text()[i])) && !m.busy && m.pending_plan
            is None && m.pending_approval is None && m.picker is None && m.wizard is None),
{
}

/// Tab completes the composer to the highlighted name and a blank, Esc closes the preview and keeps what was typed, and the
/// arrows only move the highlight.
pub proof fn the_preview_completes_and_closes(old: Model, key: KeyPress, new: Model, r: Option<Seq<EffectView>>)
    requires
        menu_keyed(old, key, new, r),
        old.command_menu is Some,
        (old.command_menu->0).wf(),
        !key.ctrl,
    ensures
        key.code == Key::Tab && (old.command_menu->0)@.rows.len() > 0 ==> {
            let menu = (old.command_menu->0)@;
            &&& new.command_menu is None
            &&& new.input@.lines == crate::text::split_on(menu.rows[menu.selected].name.push(' '), '\n')
        },
        key.code == Key::Esc ==> new.command_menu is None && new.input == old.input,
        (key.code == Key::Up || key.code == Key::Down) && (old.command_menu->0)@.rows.len() > 0 ==> {
            let was = (old.command_menu->0)@.selected;
            let n = (old.command_menu->0)@.rows.len();
            &&& new.input == old.input
            &&& new.command_menu is Some
            &&& (new.command_menu->0)@.rows == (old.command_menu->0)@.rows
            &&& key.code == Key::Down ==> (new.command_menu->0)@.selected == if was + 1 == n { 0 } else { was + 1 }
            &&& key.code == Key::Up ==> (new.command_menu->0)@.selected == if was == 0 { n - 1 } else { was - 1 }
        },
        r matches Some(effects) ==> effects == nothing(),
{
    (old.command_menu->0).wf_shows();
    let menu = (old.command_menu->0)@;
    if menu.rows.len() > 0 {
        steps_wrap(menu.selected, menu.rows.len() as int);
    }
}

// ---- searching the transcript ----

/// The hits of a search are all the items whose text holds what is searched for, whatever the case, and no others: what was
/// said, thought, answered, proposed or announced, and of a tool its command.
pub proof fn a_search_finds_what_holds_the_query(items: Seq<ItemView>, query: Seq<char>, i: int)
    requires
        0 <= i < items.len(),
    ensures
        hits(items, query).contains(i) <==> query.len() > 0 && ({
            let text = match items[i] {
                ItemView::User(t) => t,
                ItemView::Reasoning(t) => t,
                ItemView::Assistant(t) => t,
                ItemView::PlanProposed(t) => t,
                ItemView::Tool(a) => a.command,
                ItemView::Notice(_, t) => t,
            };
            occurs(unicode_lowercase(text), unicode_lowercase(query))
        }),
{
    let p = |k: int| option_matches(search_text(items[k]), query);
    positions_are_exact(items.len(), p);
    if query.len() > 0 {
        if p(i) {
            assert(hits(items, query).contains(i));
        }
        if hits(items, query).contains(i) {
            let k = choose|k: int| 0 <= k < hits(items, query).len() && hits(items, query)[k] == i;
            assert(p(hits(items, query)[k]));
        }
    }
}

/// A typed character is added to what is searched for and Backspace takes the last one off; either searches anew and selects
/// the first hit. Esc ends the search and Enter goes to the editor with the search still on.
pub proof fn typing_searches_anew(old: Model, key: KeyPress, new: Model)
    requires
        search_keyed(old, key, new),
        old.search_query is Some,
    ensures
        key.code == Key::Esc ==> new.search_query is None && new.search_results@.len() == 0,
        key.code == Key::Enter ==> new.search_query == old.search_query && new.focused_pane == PaneFocus::Input
            && new.search_results == old.search_results,
        key.code is Char && !key.ctrl && !key.alt ==> new.search_query is Some && (new.search_query->0)@ == (
        old.search_query->0)@.push(key.code->Char_0) && (new.search_results@.len() > 0 ==> new.selected_item == Some(
            new.search_results@[0],
        ) && new.active_search_match == 0),
        key.code == Key::Backspace && (old.search_query->0)@.len() > 0 && !key.ctrl ==> new.search_query is Some && (
        new.search_query->0)@ == (old.search_query->0)@.drop_last(),
        new.transcript == old.transcript && new.input == old.input,
{
}

/// Ctrl with the arrows, or with `n` and `p`, goes to the next hit or the one before, wrapping, and selects it.
pub proof fn stepping_selects_the_hit(old: Model, key: KeyPress, new: Model)
    requires
        search_keyed(old, key, new),
        key.ctrl,
        key.code == Key::Up || key.code == Key::Down || key.code == Key::Char('n') || key.code == Key::Char('p'),
        old.active_search_match < old.search_results@.len() <= usize::MAX,
    ensures
        new.selected_item == Some(old.search_results@[new.active_search_match as int]),
        ({
            let n = old.search_results@.len() as int;
            let was = old.active_search_match as int;
            &&& key.code == Key::Down || key.code == Key::Char('n') ==> new.active_search_match == if was + 1 == n {
                0
            } else {
                was + 1
            }
            &&& key.code == Key::Up || key.code == Key::Char('p') ==> new.active_search_match == if was == 0 {
                n - 1
            } else {
                was - 1
            }
        }),
{
}

// ---- reading the transcript ----

/// Copying an item takes what it shows: what was said, thought or announced as it is, the output of a finished tool, the
/// command of a running one, and of an answer its code.
pub proof fn copying_takes_what_is_shown(old: Model, key: KeyPress, new: Model, effects: Seq<EffectView>)
    requires
        transcript_keyed(old, key, new, effects),
        key.code == Key::Char('c') && !key.ctrl,
        0 <= current_item(old) < old.transcript@.len(),
    ensures
        new == old,
        ({
            let item = old.transcript@[current_item(old)];
            &&& item matches ItemView::User(t) ==> (t.len() > 0 ==> effects == seq![EffectView::CopyToClipboard(t)])
            &&& item matches ItemView::Reasoning(t) ==> (t.len() > 0 ==> effects == seq![EffectView::CopyToClipboard(t)])
            &&& item matches ItemView::PlanProposed(t) ==> (t.len() > 0 ==> effects == seq![
                EffectView::CopyToClipboard(t),
            ])
            &&& item matches ItemView::Notice(_, t) ==> (t.len() > 0 ==> effects == seq![EffectView::CopyToClipboard(t)])
            &&& item matches ItemView::Tool(a) ==> (a.result matches Some(r) ==> (r.1.len() > 0 ==> effects == seq![
                EffectView::CopyToClipboard(r.1),
            ]))
            &&& item matches ItemView::Tool(a) ==> (a.result is None && a.command.len() > 0 ==> effects == seq![
                EffectView::CopyToClipboard(a.command),
            ])
        }),
{
}

proof fn fences_split(lines: Seq<Seq<char>>, before: Seq<Seq<char>>, code: Seq<Seq<char>>)
    requires
        lines.len() >= before.len() + code.len() + 2,
        lines.take(before.len() as int) == before,
        fenced(before).1 is None,
        begins(lines[before.len() as int], "```"@),
        forall|i: int| 0 <= i < code.len() ==> !begins(#[trigger] code[i], "```"@) && lines[before.len() + 1 + i] == code[i],
    ensures
        fenced(lines.take(before.len() + 1 + code.len() as int)) == (fenced(before).0, Some(code)),
    decreases code.len(),
{
    let n = before.len() as int;
    if code.len() == 0 {
        let l = lines.take(n + 1);
        assert(l.drop_last() =~= before);
        assert(code =~= Seq::<Seq<char>>::empty());
    } else {
        let short = code.drop_last();
        assert forall|i: int| 0 <= i < short.len() implies !begins(#[trigger] short[i], "```"@) && lines[before.len() + 1
            + i] == short[i] by {
            assert(short[i] == code[i]);
        }
        fences_split(lines, before, short);
        let l = lines.take(n + 1 + code.len());
        assert(l.drop_last() =~= lines.take(n + 1 + short.len()));
        assert(l.last() == code[code.len() - 1]);
        assert(short.push(code.last()) =~= code);
    }
}

/// The code of an answer with one fenced block is what stands between the fences, line for line, without the fences and the
/// prose round them.
pub proof fn fenced_code_is_copied_alone(text: Seq<char>, from: int, to: int)
    requires
        0 <= from < to < lines_of(text).len(),
        begins(lines_of(text)[from], "```"@),
        begins(lines_of(text)[to], "```"@),
        forall|i: int|
            0 <= i < lines_of(text).len() && i != from && i != to ==> !begins(#[trigger] lines_of(text)[i], "```"@),
    ensures
        code_of(text) == join_with(lines_of(text).subrange(from + 1, to), '\n'),
{
    let lines = lines_of(text);
    let before = lines.take(from);
    let code = lines.subrange(from + 1, to);
    plain_lines(before);
    assert forall|i: int| 0 <= i < code.len() implies !begins(#[trigger] code[i], "```"@) && lines[before.len() + 1 + i]
        == code[i] by {
        assert(code[i] == lines[from + 1 + i]);
    }
    fences_split(lines, before, code);
    let closed = lines.take(to + 1);
    assert(closed.drop_last() =~= lines.take(to));
    assert(lines.take(before.len() + 1 + code.len() as int) =~= lines.take(to));
    let block = join_with(code, '\n');
    assert(fenced(closed) == (fenced(before).0.push(block), None::<Seq<Seq<char>>>));
    rest_is_plain(lines, to + 1, lines.len() as int);
    assert(lines.take(lines.len() as int) =~= lines);
    let blocks = fenced(lines).0;
    assert(blocks =~= seq![block]);
    reveal_with_fuel(join_by, 2);
    assert(join_by(seq![block], "\n\n"@) =~= block);
}

proof fn plain_lines(lines: Seq<Seq<char>>)
    requires
        forall|i: int| 0 <= i < lines.len() ==> !begins(#[trigger] lines[i], "```"@),
    ensures
        fenced(lines) == (Seq::<Seq<char>>::empty(), None::<Seq<Seq<char>>>),
    decreases lines.len(),
{
    if lines.len() > 0 {
        assert forall|i: int| 0 <= i < lines.drop_last().len() implies !begins(
            #[trigger] lines.drop_last()[i],
            "```"@,
        ) by {
            assert(lines.drop_last()[i] == lines[i]);
        }
        plain_lines(lines.drop_last());
        assert(lines.last() == lines[lines.len() - 1]);
    }
}

proof fn rest_is_plain(lines: Seq<Seq<char>>, from: int, n: int)
    requires
        0 <= from <= n <= lines.len(),
        fenced(lines.take(from)).1 is None,
        forall|i: int| from <= i < lines.len() ==> !begins(#[trigger] lines[i], "```"@),
    ensures
        fenced(lines.take(n)) == fenced(lines.take(from)),
    decreases n - from,
{
    if from < n {
        rest_is_plain(lines, from, n - 1);
        assert(lines.take(n).drop_last() =~= lines.take(n - 1));
        assert(lines.take(n).last() == lines[n - 1]);
    }
}

/// Walking the transcript goes to the next item or the one before, wrapping at the ends; Enter and Space expand the tool
/// that is selected or fold it again, and only that one; Esc goes back to the editor.
pub proof fn walking_and_expanding(old: Model, key: KeyPress, new: Model, effects: Seq<EffectView>)
    requires
        transcript_keyed(old, key, new, effects),
        !key.ctrl,
        0 <= current_item(old) < old.transcript@.len() <= usize::MAX,
    ensures
        ({
            let at = current_item(old);
            let n = old.transcript@.len() as int;
            &&& key.code == Key::Down || key.code == Key::Char('j') ==> current_item(new) == if at + 1 == n {
                0
            } else {
                at + 1
            }
            &&& key.code == Key::Up || key.code == Key::Char('k') ==> current_item(new) == if at == 0 {
                n - 1
            } else {
                at - 1
            }
            &&& (key.code == Key::Enter || key.code == Key::Char(' ')) && old.transcript@[at] is Tool ==> (
            new.expanded_tools_indices@.contains(at as usize) <==> !old.expanded_tools_indices@.contains(at as usize))
                && (forall|i: usize|
                i != at ==> (#[trigger] new.expanded_tools_indices@.contains(i) <==> old.expanded_tools_indices@.contains(
                    i,
                )))
            &&& (key.code == Key::Enter || key.code == Key::Char(' ')) && !(old.transcript@[at] is Tool) ==> new == old
            &&& key.code == Key::Esc ==> new.focused_pane == PaneFocus::Input
            &&& new.transcript == old.transcript && new.input == old.input
        }),
{
}

/// Opening a tool's file asks for the word behind the tool's name, without quotes.
pub proof fn opening_takes_the_file(tool: Seq<char>, file: Seq<char>)
    requires
        tool.len() > 0 && file.len() > 0,
        forall|i: int| 0 <= i < tool.len() ==> !is_white(#[trigger] tool[i]),
        forall|i: int| 0 <= i < file.len() ==> !is_white(#[trigger] file[i]) && file[i] != '"' && file[i] != '\'',
    ensures
        file_of(tool.push(' ') + file) == Some(file),
        file_of(tool) is None,
{
    let c = tool.push(' ') + file;
    let n = tool.len() as int;
    assert forall|i: int| 0 <= i < n implies !is_white(#[trigger] c[i]) by {
        assert(c[i] == tool[i]);
    }
    crate::text::head_len_is_first_white(c, n);
    assert(!is_white(c[0]));
    let rest = c.skip(n);
    assert(rest[0] == ' ' && rest.skip(1) =~= file);
    assert(!is_white(file[0]));
    reveal_with_fuel(crate::text::trim_start, 2);
    crate::text::head_len_is_first_white(file, file.len() as int);
    assert(file.take(file.len() as int) =~= file);
    assert(crate::text::strip_ends(file, '"') == file);
    assert(crate::text::strip_ends(file, '\'') == file);
    crate::text::head_len_is_first_white(tool, n);
    assert(!is_white(tool[0]));
    assert(tool.skip(n) =~= Seq::<char>::empty());
}

// ---- the composer ----

/// Keys go to one place: a confirmation first, then a plan, a picker, the wizard, the search, the transcript where it has
/// the focus, and the composer last.
pub proof fn keys_go_to_the_foremost(old: Model, key: KeyPress, new: Model, effects: Seq<EffectView>)
    requires
        keyed(old, key, new, effects),
    ensures
        old.pending_approval is Some ==> approval_keyed(old, key, new, effects),
        old.pending_approval is None && old.pending_plan is Some ==> plan_keyed(old, key, new, effects),
        old.pending_approval is None && old.pending_plan is None && old.picker is None && old.wizard is None
            && old.search_query is None && old.focused_pane == PaneFocus::Input ==> composer_keyed(
            old,
            key,
            new,
            effects,
        ),
        old.pending_approval is None && old.pending_plan is None && old.picker is None && old.wizard is None
            && old.search_query is Some ==> search_keyed(old, key, new) && effects == nothing(),
        old.pending_approval is None && old.pending_plan is None && old.picker is None && old.wizard is None
            && old.search_query is None && old.focused_pane == PaneFocus::Transcript ==> transcript_keyed(
            old,
            key,
            new,
            effects,
        ),
{
}

/// In the composer Enter submits, but with Shift or Alt breaks the line; Shift+Tab goes to the next approval mode between
/// turns; Ctrl+Home and Ctrl+End scroll to the first row and to the last.
pub proof fn the_composer_keys(m: Model, key: KeyPress, new: Model, effects: Seq<EffectView>)
    requires
        plain_keyed(m, key, new, effects),
    ensures
        key.code == Key::Enter && (key.shift || key.alt) ==> new.input@ == m.input@.with_newline() && effects == nothing()
            && new.history == m.history,
        key.code == Key::BackTab && !m.busy ==> new.approval_mode == match m.approval_mode {
            ApprovalMode::Default => ApprovalMode::Auto,
            ApprovalMode::Auto => ApprovalMode::Plan,
            ApprovalMode::Plan => ApprovalMode::Default,
        } && new.input == m.input,
        key.code == Key::BackTab && m.busy ==> new == m,
        key.code == Key::End && key.ctrl ==> new.scroll.scrollback == 0 && new.input == m.input,
        key.code == Key::Home && key.ctrl ==> new.scroll.scrollback == u16::MAX && new.input == m.input,
        key.code == Key::PageUp ==> new.scroll.scrollback >= m.scroll.scrollback && new.input == m.input,
        key.code == Key::PageDown ==> new.scroll.scrollback <= m.scroll.scrollback && new.input == m.input,
        key.code is Char && !key.ctrl && !key.alt && key.code != Key::Char('\n') && key.code != Key::Char('\r')
            ==> new.input@ == m.input@.with_char(key.code->Char_0) && effects == nothing(),
{
}

/// Up on the first row brings back the line submitted last, and what was being typed is kept for the way down.
pub proof fn up_recalls_the_last_line(m: Model, new: Model)
    requires
        recall_keyed(m, true, new),
        m.history@.entries.len() > 0,
        m.history@.cursor is None,
    ensures
        new.input@.text() == m.history@.entries.last(),
        new.history@.draft == m.input@.text(),
        new.history@.entries == m.history@.entries,
{
    crate::text::join_of_split(m.history@.entries.last(), '\n');
}

/// The chords of the composer: Ctrl+C copies what is selected and keeps the text, Ctrl+X takes it out as well, Ctrl+V asks for
/// the clipboard, Ctrl+O unfolds or folds the tools, Ctrl+D quits from an empty composer, and Ctrl+F begins a search.
pub proof fn the_composer_chords(m: Model, key: KeyPress, new: Model, effects: Seq<EffectView>)
    requires
        composer_keyed(m, key, new, effects),
        m.selection.active is None,
        m.command_menu is None,
    ensures
        m.input@.span() matches Some((s, e)) ==> (m.input@.range_text(s, e).len() > 0 ==> {
            &&& chord(key, 'c') ==> effects == seq![EffectView::CopyToClipboard(m.input@.range_text(s, e))] && new.input@.lines
                == m.input@.lines && new.should_quit == m.should_quit
            &&& chord(key, 'x') ==> effects == seq![EffectView::CopyToClipboard(m.input@.range_text(s, e))] && new.input@.lines
                == m.input@.without_selection().lines
        }),
        chord(key, 'v') ==> effects == seq![EffectView::PasteClipboard] && new.input == m.input,
        chord(key, 'o') ==> new.expand_tools == !m.expand_tools && new.input == m.input && effects == nothing(),
        chord(key, 'd') && m.input@.text().len() == 0 ==> effects == seq![EffectView::Quit] && new.should_quit,
        chord(key, 'f') && m.search_query is None ==> new.search_query is Some && (new.search_query->0)@.len() == 0
            && new.input == m.input,
        chord(key, 'p') && m.focused_pane == PaneFocus::Input ==> new.focused_pane == PaneFocus::Transcript && new.input
            == m.input,
{
}

/// Two presses of Esc within half a second cancel a running turn; one alone does not.
pub proof fn double_escape_cancels(m: Model, key: KeyPress, new: Model, effects: Seq<EffectView>)
    requires
        plain_keyed(m, key, new, effects),
        key.code == Key::Esc,
        m.busy,
    ensures
        m.timeline.last_esc is None ==> effects == nothing(),
        m.timeline.last_esc matches Some(t) ==> {
            let gap = m.timeline.event_clock().nanos_since(t);
            &&& gap < 500_000_000 ==> effects == seq![EffectView::CancelTurn]
            &&& gap >= 500_000_000 ==> effects == nothing()
        },
        new.timeline.last_esc == Some(m.timeline.event_clock()),
        new.input == m.input,
{
}

/// Option with Left or Right moves by words, and Ctrl with Backspace or Delete deletes by words, in the terms of the editor;
/// every other key reaches it as it was pressed.
pub proof fn word_keys_are_translated(key: KeyPress)
    ensures
        (key.code == Key::Left || key.code == Key::Right) && key.alt && !key.ctrl ==> translated(key) == (EditorInput {
            key: key.code,
            ctrl: true,
            alt: false,
            shift: key.shift,
        }),
        (key.code == Key::Backspace || key.code == Key::Delete) && key.ctrl && !key.alt ==> translated(key).alt
            && !translated(key).ctrl && translated(key).key == key.code,
        !key.ctrl && !key.alt ==> translated(key) == (EditorInput {
            key: key.code,
            ctrl: false,
            alt: false,
            shift: key.shift,
        }),
{
}

/// A slash that is typed opens the preview of what it begins, with the first row highlighted; whatever else is typed filters
/// it.
pub proof fn a_slash_opens_the_preview(before: Option<CommandMenu>, m: Model)
    requires
        menu_follows(before, m),
        m.input@.text().len() > 0 && m.input@.text()[0] == '/',
        forall|i: int| 0 <= i < m.input@.text().len() ==> !is_white(#[trigger] m.input@.text()[i]),
        !m.busy && !m.modal_open(),
    ensures
        m.command_menu is Some,
        before is None ==> (m.command_menu->0)@.rows == preview(m.input@.text(), entry_views(m.custom_commands@))
            && (m.command_menu->0)@.selected == 0,
        before matches Some(b) ==> (m.command_menu->0)@.rows == preview(m.input@.text(), b@.custom),
{
}

/// A confirmation opens on the answer that is its default.
pub proof fn a_confirmation_opens_on_its_default(accept: bool)
    ensures
        0 <= PendingApproval::default_row(accept) < 3,
        accept ==> ApprovalOption::ALL@[PendingApproval::default_row(accept)].caption() == "Sim"@,
        !accept ==> ApprovalOption::ALL@[PendingApproval::default_row(accept)].caption() == "Não"@,
{
}

/// In a field too, what is typed is taken back by Ctrl+Z and comes back by Ctrl+Y; nothing else is asked for.
pub proof fn typing_in_a_field_is_undone(
    field: InputBuffer,
    k: EditorInput,
    typed: InputBuffer,
    undo: KeyPress,
    undone: InputBuffer,
    redo: KeyPress,
    redone: InputBuffer,
    a: Option<Seq<EffectView>>,
    b: Option<Seq<EffectView>>,
)
    requires
        types(k),
        typed.fed_from(field, k),
        chord(undo, 'z'),
        chorded(typed, undo, undone, a),
        chord(redo, 'y'),
        chorded(undone, redo, redone, b),
    ensures
        undone@ == field@.without_selection(),
        redone@.text() == typed@.text(),
        a == Some(nothing()) && b == Some(nothing()),
{
}

/// What is cut from a field goes to the clipboard and comes back by Ctrl+Z; what is copied goes there and stays.
pub proof fn cutting_and_copying_in_a_field(
    field: InputBuffer,
    cut: KeyPress,
    after: InputBuffer,
    undo: KeyPress,
    undone: InputBuffer,
    copy: KeyPress,
    copied: InputBuffer,
    a: Option<Seq<EffectView>>,
    b: Option<Seq<EffectView>>,
    c: Option<Seq<EffectView>>,
)
    requires
        field@.span() is Some,
        chord(cut, 'x'),
        chorded(field, cut, after, a),
        chord(undo, 'z'),
        chorded(after, undo, undone, b),
        chord(copy, 'c'),
        chorded(field, copy, copied, c),
    ensures
        after@.text() == field@.without_selection().text(),
        undone@.text() == field@.text(),
        copied@.text() == field@.text(),
        after@.yank == copied@.yank,
        copied@.yank.len() > 0 ==> c == Some(seq![EffectView::CopyToClipboard(copied@.yank)]) && a == c,
{
}

} // verus!
