//! The key handler of the focused transcript: walking its items, expanding tools, copying and opening.
use vstd::prelude::*;
use crate::application::effect::{effect_views, no_effects, nothing, one_effect, Effect, EffectView};
use crate::domain::input::{Key, KeyPress};
use crate::domain::model::{Model, PaneFocus};
use crate::domain::transcript::{ItemView, TranscriptItem};
use crate::text::{
    begins, find_second_word, join, join_by, join_text, join_with, lines, lines_of, second_word,
    starts_with, strip_ends, trim_char, views,
};

verus! {

/// The file that a tool command names: its second word, without quotes.
pub open spec fn file_of(command: Seq<char>) -> Option<Seq<char>> {
    match second_word(command) {
        Some(w) => Some(strip_ends(strip_ends(w, '"'), '\'')),
        None => None,
    }
}

/// The file that a tool command names: its second word, without quotes.
pub fn extract_filepath(command: &str) -> (r: Option<String>)
    ensures
        match r {
            Some(p) => file_of(command@) == Some(p@),
            None => file_of(command@) is None,
        },
{
    match find_second_word(command) {
        Some(word) => Some(trim_char(trim_char(word.as_str(), '"').as_str(), '\'')),
        None => None,
    }
}

/// What the fences of a list of lines enclose: the closed blocks, and the lines of the one still open.
pub open spec fn fenced(lines: Seq<Seq<char>>) -> (Seq<Seq<char>>, Option<Seq<Seq<char>>>)
    decreases lines.len(),
{
    if lines.len() == 0 {
        (Seq::empty(), None)
    } else {
        let (blocks, open) = fenced(lines.drop_last());
        match open {
            Some(current) => if begins(lines.last(), "```"@) {
                (blocks.push(join_with(current, '\n')), None)
            } else {
                (blocks, Some(current.push(lines.last())))
            },
            None => if begins(lines.last(), "```"@) {
                (blocks, Some(Seq::empty()))
            } else {
                (blocks, None)
            },
        }
    }
}

/// The code of an answer: its closed code blocks with a blank line between each two, or the whole text where
/// there is none.
pub open spec fn code_of(text: Seq<char>) -> Seq<char> {
    let blocks = fenced(lines_of(text)).0;
    if blocks.len() == 0 {
        text
    } else {
        join_by(blocks, "\n\n"@)
    }
}

/// The code blocks of an answer, or the whole answer where it has none.
pub fn extract_code_blocks(text: &str) -> (r: String)
    ensures
        r@ == code_of(text@),
{
    let all: Vec<String> = lines(text);
    let ghost v = views(all@);
    let mut blocks: Vec<String> = Vec::new();
    let mut open: bool = false;
    let mut current: Vec<String> = Vec::new();
    let mut i: usize = 0;
    proof {
        assert(v.take(0) =~= Seq::<Seq<char>>::empty());
        assert(views(blocks@) =~= Seq::<Seq<char>>::empty());
    }
    while i < all.len()
        invariant
            i <= all@.len(),
            v == views(all@),
            views(blocks@) == fenced(v.take(i as int)).0,
            open == fenced(v.take(i as int)).1 is Some,
            open ==> fenced(v.take(i as int)).1 == Some(views(current@)),
        decreases all@.len() - i,
    {
        let ghost next = v.take(i as int + 1);
        assert(next.drop_last() =~= v.take(i as int));
        assert(next.last() == all@[i as int]@);
        let ghost blocks_before = blocks@;
        let ghost current_before = current@;
        if starts_with(all[i].as_str(), "```") {
            if open {
                blocks.push(join(&current, '\n'));
                assert(views(blocks@) =~= views(blocks_before).push(
                    join_with(views(current@), '\n'),
                ));
                open = false;
            } else {
                current = Vec::new();
                assert(views(current@) =~= Seq::<Seq<char>>::empty());
                open = true;
            }
        } else if open {
            current.push(all[i].clone());
            assert(views(current@) =~= views(current_before).push(all@[i as int]@));
        }
        i = i + 1;
    }
    assert(v.take(v.len() as int) =~= v);
    if blocks.len() == 0 {
        text.to_owned()
    } else {
        join_text(&blocks, "\n\n")
    }
}

/// What copying an item puts on the clipboard: an answer's code, a tool's output (its command while it runs),
/// otherwise the text.
pub open spec fn copy_text(item: ItemView) -> Seq<char> {
    match item {
        ItemView::User(t) => t,
        ItemView::Reasoning(t) => t,
        ItemView::Assistant(t) => code_of(t),
        ItemView::PlanProposed(t) => t,
        ItemView::Tool(a) => match a.result {
            Some(r) => r.1,
            None => a.command,
        },
        ItemView::Notice(_, t) => t,
    }
}

fn clipboard_text(item: &TranscriptItem) -> (r: String)
    ensures
        r@ == copy_text(item@),
{
    match item {
        TranscriptItem::User(t) => t.clone(),
        TranscriptItem::Reasoning(t) => t.clone(),
        TranscriptItem::Assistant(t) => extract_code_blocks(t.as_str()),
        TranscriptItem::PlanProposed(t) => t.clone(),
        TranscriptItem::Tool(activity) => match &activity.result {
            Some(result) => result.1.clone(),
            None => activity.command.clone(),
        },
        TranscriptItem::Notice(_, t) => t.clone(),
    }
}

/// The item that the focused transcript is at: the selected one, else the last.
pub open spec fn current_item(m: Model) -> int {
    match m.selected_item {
        Some(i) => i as int,
        None => m.transcript@.len() - 1,
    }
}

/// What a key does to a model whose transcript has the focus.
pub open spec fn transcript_keyed(old: Model, key: KeyPress, new: Model, effects: Seq<EffectView>) -> bool {
    let n = old.transcript@.len() as int;
    let at = current_item(old);
    if (key.ctrl && key.code == Key::Char('p')) || key.code == Key::Esc {
        new == (Model { focused_pane: PaneFocus::Input, ..old }) && effects == nothing()
    } else if n == 0 {
        new == old && effects == nothing()
    } else {
        match key.code {
            Key::Up | Key::Char('k') => {
                &&& effects == nothing()
                &&& new == (Model {
                    selected_item: Some(
                        if at > 0 {
                            (at - 1) as usize
                        } else {
                            (n - 1) as usize
                        },
                    ),
                    scroll: old.scroll.raised(2),
                    ..old
                })
            },
            Key::Down | Key::Char('j') => {
                &&& effects == nothing()
                &&& new == (Model {
                    selected_item: Some(
                        if at < n - 1 {
                            (at + 1) as usize
                        } else {
                            0
                        },
                    ),
                    scroll: old.scroll.lowered(2),
                    ..old
                })
            },
            Key::Enter | Key::Char(' ') => {
                &&& effects == nothing()
                &&& if at < n && old.transcript@[at] is Tool {
                    &&& new == (Model { expanded_tools_indices: new.expanded_tools_indices, ..old })
                    &&& new.expanded_tools_indices@ == if old.expanded_tools_indices@.contains(
                        at as usize,
                    ) {
                        old.expanded_tools_indices@.remove(at as usize)
                    } else {
                        old.expanded_tools_indices@.insert(at as usize)
                    }
                } else {
                    new == old
                }
            },
            Key::Char('c') => {
                &&& new == old
                &&& effects == if at < n && copy_text(old.transcript@[at]).len() > 0 {
                    seq![EffectView::CopyToClipboard(copy_text(old.transcript@[at]))]
                } else {
                    nothing()
                }
            },
            Key::Char('o') => {
                &&& new == old
                &&& effects == if at < n && old.transcript@[at] is Tool {
                    match file_of((old.transcript@[at]->Tool_0).command) {
                        Some(path) => seq![EffectView::OpenFile(path)],
                        None => nothing(),
                    }
                } else {
                    nothing()
                }
            },
            _ => new == old && effects == nothing(),
        }
    }
}

/// Walk the transcript: arrows or `k`/`j` move the highlight (wrapping), Enter or Space expands a tool, `c`
/// copies the item, `o` opens the file that a tool call names, and Esc or Ctrl+P returns to the editor.
pub fn on_transcript_key(model: &mut Model, key: KeyPress) -> (r: Vec<Effect>)
    requires
        old(model).wf(),
    ensures
        transcript_keyed(*old(model), key, *final(model), effect_views(r@)),
        final(model).wf(),
{
    broadcast use vstd::std_specs::hash::group_hash_axioms;

    if (key.ctrl && key.code == Key::Char('p')) || key.code == Key::Esc {
        model.focused_pane = PaneFocus::Input;
        return no_effects();
    }
    let n: usize = model.transcript.items().len();
    if n == 0 {
        return no_effects();
    }
    let at: usize = match model.selected_item {
        Some(i) => i,
        None => n - 1,
    };
    match key.code {
        Key::Up | Key::Char('k') => {
            model.selected_item = Some(
                if at > 0 {
                    at - 1
                } else {
                    n - 1
                },
            );
            model.scroll.up(2);
            no_effects()
        },
        Key::Down | Key::Char('j') => {
            model.selected_item = Some(
                if at < n - 1 {
                    at + 1
                } else {
                    0
                },
            );
            model.scroll.down(2);
            no_effects()
        },
        Key::Enter | Key::Char(' ') => {
            if at < n && matches!(model.transcript.items()[at], TranscriptItem::Tool(_)) {
                if model.expanded_tools_indices.contains(&at) {
                    let _ = model.expanded_tools_indices.remove(&at);
                } else {
                    let _ = model.expanded_tools_indices.insert(at);
                }
            }
            no_effects()
        },
        Key::Char('c') => {
            if at < n {
                let text: String = clipboard_text(&model.transcript.items()[at]);
                if !text.as_str().is_empty() {
                    return one_effect(Effect::CopyToClipboard(text));
                }
            }
            no_effects()
        },
        Key::Char('o') => {
            if at < n {
                if let TranscriptItem::Tool(activity) = &model.transcript.items()[at] {
                    if let Some(path) = extract_filepath(activity.command.as_str()) {
                        return one_effect(Effect::OpenFile(path));
                    }
                }
            }
            no_effects()
        },
        _ => no_effects(),
    }
}

/// Walking down and up again returns to the item, as long as the highlight is on one.
pub proof fn down_then_up(
    a: Model,
    b: Model,
    c: Model,
    down: KeyPress,
    up: KeyPress,
    first: Seq<EffectView>,
    second: Seq<EffectView>,
)
    requires
        down.code == Key::Down,
        up.code == Key::Up,
        transcript_keyed(a, down, b, first),
        transcript_keyed(b, up, c, second),
        0 <= current_item(a) < a.transcript@.len() <= usize::MAX,
    ensures
        current_item(c) == current_item(a),
{
}

/// Toggling a tool twice leaves the expansion as it was.
pub proof fn toggle_twice(
    a: Model,
    b: Model,
    c: Model,
    key: KeyPress,
    first: Seq<EffectView>,
    second: Seq<EffectView>,
)
    requires
        key.code == Key::Enter,
        transcript_keyed(a, key, b, first),
        transcript_keyed(b, key, c, second),
    ensures
        c.expanded_tools_indices@ == a.expanded_tools_indices@,
{
    let at = current_item(a) as usize;
    if a.expanded_tools_indices@.contains(at) {
        assert(a.expanded_tools_indices@.remove(at).insert(at) =~= a.expanded_tools_indices@);
    } else {
        assert(a.expanded_tools_indices@.insert(at).remove(at) =~= a.expanded_tools_indices@);
    }
}

/// An answer without a closed code block is copied whole.
pub proof fn prose_is_copied_whole(text: Seq<char>)
    requires
        forall|i: int|
            0 <= i < lines_of(text).len() ==> !begins(#[trigger] lines_of(text)[i], "```"@),
    ensures
        code_of(text) == text,
{
    no_fences(lines_of(text));
}

proof fn no_fences(lines: Seq<Seq<char>>)
    requires
        forall|i: int| 0 <= i < lines.len() ==> !begins(#[trigger] lines[i], "```"@),
    ensures
        fenced(lines).0.len() == 0,
        fenced(lines).1 is None,
    decreases lines.len(),
{
    if lines.len() > 0 {
        assert forall|i: int| 0 <= i < lines.drop_last().len() implies !begins(
            #[trigger] lines.drop_last()[i],
            "```"@,
        ) by {
            assert(lines.drop_last()[i] == lines[i]);
        }
        no_fences(lines.drop_last());
        assert(!begins(lines[lines.len() - 1], "```"@));
    }
}

} // verus!
