//! The key handler of the transcript search.
use vstd::prelude::*;
use crate::application::effect::{effect_views, no_effects, nothing, Effect};
use crate::domain::command_menu::{positions, positions_are_exact};
use crate::domain::input::{Key, KeyPress};
use crate::domain::model::{Model, PaneFocus};
use crate::domain::picker::option_matches;
use crate::domain::transcript::{ItemView, TranscriptItem};
use crate::text::{chars_of, contains, string_of, to_lowercase, unicode_lowercase};

verus! {

/// The text of an item that a search looks at: a tool's command, otherwise the text.
pub open spec fn search_text(item: ItemView) -> Seq<char> {
    match item {
        ItemView::User(t) => t,
        ItemView::Reasoning(t) => t,
        ItemView::Assistant(t) => t,
        ItemView::PlanProposed(t) => t,
        ItemView::Tool(a) => a.command,
        ItemView::Notice(_, t) => t,
    }
}

/// The positions of the items that hold the query, whatever the case; none for an empty query.
pub open spec fn hits(items: Seq<ItemView>, query: Seq<char>) -> Seq<int> {
    if query.len() == 0 {
        Seq::empty()
    } else {
        positions(items.len(), |i: int| option_matches(search_text(items[i]), query))
    }
}

/// A list of indices as integers.
pub open spec fn as_ints(v: Seq<usize>) -> Seq<int> {
    Seq::new(v.len(), |i: int| v[i] as int)
}

/// The search once its query became `query`: the first hit is highlighted and selected.
pub open spec fn searched_for(old: Model, query: Seq<char>, new: Model) -> bool {
    &&& new == (Model {
        search_query: new.search_query,
        search_results: new.search_results,
        active_search_match: 0,
        selected_item: new.selected_item,
        ..old
    })
    &&& new.search_query matches Some(q) && q@ == query
    &&& as_ints(new.search_results@) == hits(old.transcript@, query)
    &&& new.selected_item == if new.search_results@.len() > 0 {
        Some(new.search_results@[0])
    } else {
        old.selected_item
    }
}

/// The highlighted hit one further in a direction, wrapping.
pub open spec fn stepped(active: int, forward: bool, len: int) -> int {
    if forward {
        if active < len - 1 {
            active + 1
        } else {
            0
        }
    } else if active > 0 {
        active - 1
    } else {
        len - 1
    }
}

/// The query being typed.
pub open spec fn query_of(m: Model) -> Seq<char> {
    match m.search_query {
        Some(q) => q@,
        None => Seq::empty(),
    }
}

/// The key steps through the hits: Ctrl with Up/`p` back, with Down/`n` forward.
pub open spec fn hit_step(key: KeyPress) -> Option<bool> {
    if key.ctrl && (key.code == Key::Up || key.code == Key::Char('p')) {
        Some(false)
    } else if key.ctrl && (key.code == Key::Down || key.code == Key::Char('n')) {
        Some(true)
    } else {
        None
    }
}

/// What a key does to a model that is searching.
pub open spec fn search_keyed(old: Model, key: KeyPress, new: Model) -> bool {
    if key.code == Key::Esc {
        &&& new == (Model { search_query: None, search_results: new.search_results, ..old })
        &&& new.search_results@.len() == 0
    } else if key.code == Key::Enter {
        new == (Model { focused_pane: PaneFocus::Input, ..old })
    } else if hit_step(key) is Some {
        if old.search_results@.len() == 0 {
            new == old
        } else {
            let forward = hit_step(key)->0;
            let active = stepped(
                old.active_search_match as int,
                forward,
                old.search_results@.len() as int,
            );
            new == (Model {
                active_search_match: active as usize,
                selected_item: Some(old.search_results@[active]),
                scroll: if forward {
                    old.scroll.lowered(2)
                } else {
                    old.scroll.raised(2)
                },
                ..old
            })
        }
    } else if key.code == Key::Backspace {
        let q = query_of(old);
        searched_for(
            old,
            if q.len() > 0 {
                q.drop_last()
            } else {
                q
            },
            new,
        )
    } else if key.code is Char && key.unmodified() {
        searched_for(old, query_of(old).push(key.code->Char_0), new)
    } else {
        new == old
    }
}

fn text_of(item: &TranscriptItem) -> (r: &str)
    ensures
        r@ == search_text(item@),
{
    match item {
        TranscriptItem::User(t) => t.as_str(),
        TranscriptItem::Reasoning(t) => t.as_str(),
        TranscriptItem::Assistant(t) => t.as_str(),
        TranscriptItem::PlanProposed(t) => t.as_str(),
        TranscriptItem::Tool(activity) => activity.command.as_str(),
        TranscriptItem::Notice(_, t) => t.as_str(),
    }
}

/// Search the transcript anew for `query`, selecting the first hit.
pub fn update_search_results(model: &mut Model, query: String)
    requires
        old(model).wf(),
    ensures
        searched_for(*old(model), query@, *final(model)),
        final(model).wf(),
{
    let ghost items = model.transcript@;
    let mut results: Vec<usize> = Vec::new();
    if !query.as_str().is_empty() {
        let low: String = to_lowercase(query.as_str());
        let ghost p = |i: int| option_matches(search_text(items[i]), query@);
        let mut i: usize = 0;
        let n: usize = model.transcript.items().len();
        while i < n
            invariant
                i <= n,
                n == items.len(),
                model.transcript@ == items,
                low@ == unicode_lowercase(query@),
                p == (|i: int| option_matches(search_text(items[i]), query@)),
                results@.len() <= i,
                as_ints(results@) == positions(i as nat, p),
            decreases n - i,
        {
            let ghost before = results@;
            let text: String = to_lowercase(text_of(&model.transcript.items()[i]));
            if contains(text.as_str(), low.as_str()) {
                assert(p(i as int));
                results.push(i);
                assert(as_ints(results@) =~= as_ints(before).push(i as int));
            } else {
                assert(!p(i as int));
            }
            i = i + 1;
        }
    } else {
        assert(as_ints(results@) =~= Seq::<int>::empty());
    }
    if results.len() > 0 {
        model.selected_item = Some(results[0]);
    }
    model.search_query = Some(query);
    model.search_results = results;
    model.active_search_match = 0;
}

/// Drive the transcript search: typing and Backspace edit the query, Ctrl with the arrows (or `p`/`n`) steps
/// through the hits, Enter leaves the focus with the editor, and Esc ends the search.
pub fn on_search_key(model: &mut Model, key: KeyPress) -> (r: Vec<Effect>)
    requires
        old(model).wf(),
    ensures
        effect_views(r@) == nothing(),
        search_keyed(*old(model), key, *final(model)),
        final(model).wf(),
{
    match key.code {
        Key::Esc => {
            model.search_query = None;
            model.search_results = Vec::new();
            return no_effects();
        },
        Key::Enter => {
            model.focused_pane = PaneFocus::Input;
            return no_effects();
        },
        _ => {},
    }
    let back: bool = key.ctrl && (key.code == Key::Up || key.code == Key::Char('p'));
    let forward: bool = key.ctrl && (key.code == Key::Down || key.code == Key::Char('n'));
    if back || forward {
        let n: usize = model.search_results.len();
        if n > 0 {
            let active: usize = model.active_search_match;
            let next: usize = if forward {
                if active < n - 1 {
                    active + 1
                } else {
                    0
                }
            } else if active > 0 {
                active - 1
            } else {
                n - 1
            };
            model.active_search_match = next;
            model.selected_item = Some(model.search_results[next]);
            if forward {
                model.scroll.down(2);
            } else {
                model.scroll.up(2);
            }
        }
        return no_effects();
    }
    let mut query: String = match &model.search_query {
        Some(q) => q.clone(),
        None => {
            let none: String = String::new();
            assert(none@ =~= Seq::<char>::empty());
            none
        },
    };
    match key.code {
        Key::Backspace => {
            let chars: Vec<char> = chars_of(query.as_str());
            if chars.len() > 0 {
                query = string_of(&chars, 0, chars.len() - 1);
                assert(query@ =~= query_of(*old(model)).drop_last());
            }
            update_search_results(model, query);
        },
        Key::Char(c) => {
            if !key.ctrl && !key.alt {
                query.push(c);
                update_search_results(model, query);
            }
        },
        _ => {},
    }
    no_effects()
}

/// Every hit is an item of the transcript, in order.
pub proof fn hits_are_items(items: Seq<ItemView>, query: Seq<char>)
    ensures
        forall|k: int|
            0 <= k < hits(items, query).len() ==> 0 <= #[trigger] hits(items, query)[k] < items.len()
                && option_matches(search_text(items[hits(items, query)[k]]), query),
        forall|j: int, k: int|
            0 <= j < k < hits(items, query).len() ==> #[trigger] hits(items, query)[j]
                < #[trigger] hits(items, query)[k],
{
    positions_are_exact(items.len(), |i: int| option_matches(search_text(items[i]), query));
}

/// Stepping forward and back through the hits returns to the same hit.
pub proof fn hit_steps_undo_each_other(active: int, len: int)
    requires
        0 <= active < len,
    ensures
        stepped(stepped(active, true, len), false, len) == active,
        stepped(stepped(active, false, len), true, len) == active,
        0 <= stepped(active, true, len) < len,
        0 <= stepped(active, false, len) < len,
{
}

} // verus!
