//! The generic single-choice picker.
use vstd::prelude::*;
use crate::domain::input_buffer::{EditorView, InputBuffer};
use crate::domain::nav::{wrapped, wrapping_step};
use crate::text::{clone_strings, contains, occurs, to_lowercase, unicode_lowercase, views};

verus! {

/// Which setting a generic picker chooses, so the keymap maps the highlighted row to the right effect.
#[derive(Debug, Clone, PartialEq, Eq)]
pub enum PickerKind {
    Models,
    Effort,
    Provider,
    Sessions,
    /// The action sub-menu for a specific provider: Ativar / Editar / Remover.
    ProviderAction(String),
    /// The delete-confirmation picker for a provider: Sim, remover / Cancelar.
    ProviderDeleteConfirm(String),
}

/// What a picker chooses; the last two name the provider.
pub enum PickerKindView {
    Models,
    Effort,
    Provider,
    Sessions,
    ProviderAction(Seq<char>),
    ProviderDeleteConfirm(Seq<char>),
}

impl View for PickerKind {
    type V = PickerKindView;

    open spec fn view(&self) -> PickerKindView {
        match *self {
            PickerKind::Models => PickerKindView::Models,
            PickerKind::Effort => PickerKindView::Effort,
            PickerKind::Provider => PickerKindView::Provider,
            PickerKind::Sessions => PickerKindView::Sessions,
            PickerKind::ProviderAction(id) => PickerKindView::ProviderAction(id@),
            PickerKind::ProviderDeleteConfirm(id) => PickerKindView::ProviderDeleteConfirm(id@),
        }
    }
}

impl PickerKind {
    /// A copy of the kind.
    pub fn duplicate(&self) -> (r: PickerKind)
        ensures
            r@ == self@,
    {
        match self {
            PickerKind::Models => PickerKind::Models,
            PickerKind::Effort => PickerKind::Effort,
            PickerKind::Provider => PickerKind::Provider,
            PickerKind::Sessions => PickerKind::Sessions,
            PickerKind::ProviderAction(id) => PickerKind::ProviderAction(id.clone()),
            PickerKind::ProviderDeleteConfirm(id) => PickerKind::ProviderDeleteConfirm(id.clone()),
        }
    }
}

/// A generic single-choice picker modal. `options` are the selectable labels in display order; `selected`
/// counts rows of the filtered list. The search `query` is a full editor field.
#[derive(Debug)]
pub struct Picker {
    pub kind: PickerKind,
    pub label: String,
    /// Short description of what the picker is choosing (e.g. the provider id for action sub-menus).
    pub action: String,
    pub options: Vec<String>,
    pub selected: usize,
    pub query: InputBuffer,
}

impl Clone for Picker {
    fn clone(&self) -> (r: Picker)
        ensures
            r@ == self@,
            r.query == self.query,
    {
        Picker {
            kind: self.kind.duplicate(),
            label: self.label.clone(),
            action: self.action.clone(),
            options: clone_strings(&self.options),
            selected: self.selected,
            query: self.query.clone(),
        }
    }
}

/// The contents of a picker.
pub struct PickerView {
    pub kind: PickerKindView,
    pub label: Seq<char>,
    pub action: Seq<char>,
    pub options: Seq<Seq<char>>,
    pub selected: int,
    pub query: EditorView,
}

impl View for Picker {
    type V = PickerView;

    open spec fn view(&self) -> PickerView {
        PickerView {
            kind: self.kind@,
            label: self.label@,
            action: self.action@,
            options: views(self.options@),
            selected: self.selected as int,
            query: self.query@,
        }
    }
}

/// An option matches a query when it holds it, whatever the case of either.
pub open spec fn option_matches(option: Seq<char>, query: Seq<char>) -> bool {
    occurs(unicode_lowercase(option), unicode_lowercase(query))
}

/// The positions of the options that match a query, in order.
pub open spec fn matching(options: Seq<Seq<char>>, query: Seq<char>) -> Seq<int>
    decreases options.len(),
{
    if options.len() == 0 {
        Seq::empty()
    } else {
        let before = matching(options.drop_last(), query);
        if option_matches(options.last(), query) {
            before.push(options.len() - 1)
        } else {
            before
        }
    }
}

/// The matching positions are in range, rising, and exactly those of the options that match.
pub proof fn matching_is_exact(options: Seq<Seq<char>>, query: Seq<char>)
    ensures
        matching(options, query).len() <= options.len(),
        forall|k: int|
            0 <= k < matching(options, query).len() ==> 0 <= #[trigger] matching(options, query)[k]
                < options.len() && option_matches(options[matching(options, query)[k]], query),
        forall|j: int, k: int|
            0 <= j < k < matching(options, query).len() ==> #[trigger] matching(options, query)[j]
                < #[trigger] matching(options, query)[k],
        forall|i: int|
            0 <= i < options.len() && #[trigger] option_matches(options[i], query) ==> matching(
                options,
                query,
            ).contains(i),
    decreases options.len(),
{
    if options.len() > 0 {
        matching_is_exact(options.drop_last(), query);
        let before = matching(options.drop_last(), query);
        let all = matching(options, query);
        assert forall|i: int|
            0 <= i < options.len() && #[trigger] option_matches(
                options[i],
                query,
            ) implies all.contains(i) by {
            if i < options.len() - 1 {
                assert(options.drop_last()[i] == options[i]);
                assert(before.contains(i));
                let k = choose|k: int| 0 <= k < before.len() && before[k] == i;
                assert(all[k] == i);
            } else {
                assert(all.last() == i);
            }
        }
    }
}

impl PickerView {
    /// The rows on display: positions into `options`.
    pub open spec fn rows(self) -> Seq<int> {
        matching(self.options, self.query.text())
    }

    pub open spec fn wf(self) -> bool {
        self.query.wf()
    }
}

impl Picker {
    /// The picker as opened: the highlight is clamped into range (0 when there are no options).
    pub open spec fn opened(
        kind: PickerKindView,
        label: Seq<char>,
        action: Seq<char>,
        options: Seq<Seq<char>>,
        selected: int,
    ) -> PickerView {
        PickerView {
            kind,
            label,
            action,
            options,
            selected: if options.len() == 0 {
                0
            } else if selected >= options.len() {
                options.len() - 1
            } else {
                selected
            },
            query: EditorView::blank(),
        }
    }

    /// Open a picker, clamping `selected` into range (or 0 when there are no options).
    pub fn new(
        kind: PickerKind,
        label: String,
        action: String,
        options: Vec<String>,
        selected: usize,
    ) -> (r: Picker)
        ensures
            r@ == Picker::opened(kind@, label@, action@, views(options@), selected as int),
            r@.wf(),
    {
        let selected: usize = if options.len() == 0 {
            0
        } else if selected >= options.len() {
            options.len() - 1
        } else {
            selected
        };
        Picker { kind, label, action, options, selected, query: InputBuffer::default() }
    }

    /// The subset of options that match the query (case-insensitive substring match), each with its position
    /// in `options`.
    pub fn filtered_options(&self) -> (r: Vec<(usize, &str)>)
        ensures
            r@.len() == self@.rows().len(),
            forall|k: int|
                0 <= k < r@.len() ==> (#[trigger] r@[k]).0 == self@.rows()[k] && r@[k].0
                    < self.options@.len() && r@[k].1@ == self.options@[r@[k].0 as int]@,
            self@.query.text().len() == 0 ==> self@.rows() == Seq::new(
                self.options@.len(),
                |i: int| i,
            ),
    {
        let q: String = to_lowercase(self.query.text().as_str());
        let ghost query = self.query@.text();
        let mut out: Vec<(usize, &str)> = Vec::new();
        let mut i: usize = 0;
        let ghost opts = views(self.options@);
        assert(opts.take(0) =~= Seq::<Seq<char>>::empty());
        while i < self.options.len()
            invariant
                i <= self.options@.len(),
                opts == views(self.options@),
                q@ == unicode_lowercase(query),
                out@.len() == matching(opts.take(i as int), query).len(),
                forall|k: int|
                    0 <= k < out@.len() ==> (#[trigger] out@[k]).0 == matching(
                        opts.take(i as int),
                        query,
                    )[k] && out@[k].0 < self.options@.len() && out@[k].1@
                        == self.options@[out@[k].0 as int]@,
            decreases self.options@.len() - i,
        {
            let ghost next = opts.take(i as int + 1);
            assert(next.drop_last() =~= opts.take(i as int));
            assert(next.last() == self.options@[i as int]@);
            let low: String = to_lowercase(self.options[i].as_str());
            if contains(low.as_str(), q.as_str()) {
                out.push((i, self.options[i].as_str()));
            }
            i = i + 1;
        }
        proof {
            assert(opts.take(opts.len() as int) =~= opts);
            if query.len() == 0 {
                assert(query =~= Seq::<char>::empty());
                assert(q@ =~= Seq::<char>::empty());
                blank_query_shows_all(opts);
            }
        }
        out
    }

    /// Move the highlight by `delta` rows, wrapping within the filtered options.
    pub fn move_cursor(&mut self, delta: i32)
        ensures
            final(self)@ == (PickerView {
                selected: wrapped(
                    old(self)@.selected,
                    delta as int,
                    old(self)@.rows().len() as int,
                ),
                ..old(self)@
            }),
    {
        let count: usize = self.filtered_options().len();
        self.selected = wrapping_step(self.selected, delta, count);
    }
}

/// With a blank query every option is on display, where the empty text lowercases to itself.
pub proof fn blank_query_shows_all(options: Seq<Seq<char>>)
    requires
        unicode_lowercase(Seq::<char>::empty()) == Seq::<char>::empty(),
    ensures
        matching(options, Seq::<char>::empty()) == Seq::new(options.len(), |i: int| i),
    decreases options.len(),
{
    let all = Seq::new(options.len(), |i: int| i);
    if options.len() > 0 {
        blank_query_shows_all(options.drop_last());
        let low = unicode_lowercase(options.last());
        assert(low.subrange(0, 0) =~= Seq::<char>::empty());
        assert(crate::text::occurs_at(low, Seq::<char>::empty(), 0));
    }
    assert(matching(options, Seq::<char>::empty()) =~= all);
}

} // verus!
