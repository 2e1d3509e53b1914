//! What the command preview lists.
use vstd::prelude::*;
use crate::domain::command_menu::{
    catalog_rows, custom_answers, custom_rows, menu_query, positions_are_exact, preview, spec_answers,
    token_answers, EntryView, MenuView, COMMANDS,
};
use crate::text::{ascii_lowercase, begins, strip_lead};

verus! {

/// What a typed prefix looks for: what follows the slash, in lower case.
proof fn query_of_a_slash(name: Seq<char>)
    requires
        name.len() == 0 || name[0] != '/',
    ensures
        menu_query(seq!['/'] + name) == ascii_lowercase(name),
{
    let s = seq!['/'] + name;
    assert(s.skip(1) =~= name);
    reveal_with_fuel(strip_lead, 2);
}

/// The preview of a slash and some letters lists a built-in command exactly where its name or one of its synonyms begins
/// with those letters, whatever the case of what was typed.
pub proof fn the_preview_lists_what_begins_so(typed: Seq<char>, i: int)
    requires
        typed.len() == 0 || typed[0] != '/',
        0 <= i < COMMANDS@.len(),
    ensures
        catalog_rows(menu_query(seq!['/'] + typed)).contains(i) <==> (begins(
            ascii_lowercase(COMMANDS@[i].token().skip(1)),
            ascii_lowercase(typed),
        ) || exists|k: int|
            0 <= k < COMMANDS@[i].synonyms().len() && begins(
                ascii_lowercase((#[trigger] COMMANDS@[i].synonyms()[k])@.skip(1)),
                ascii_lowercase(typed),
            )),
{
    query_of_a_slash(typed);
    let query = menu_query(seq!['/'] + typed);
    let p = |k: int| spec_answers(COMMANDS@[k], query);
    positions_are_exact(COMMANDS@.len(), p);
    if p(i) {
        if !token_answers(COMMANDS@[i].token(), query) {
            let k = choose|k: int|
                0 <= k < COMMANDS@[i].synonyms().len() && token_answers(#[trigger] COMMANDS@[i].synonyms()[k]@, query);
            assert(begins(ascii_lowercase(COMMANDS@[i].synonyms()[k]@.skip(1)), ascii_lowercase(typed)));
        }
    }
    if catalog_rows(query).contains(i) {
        let k = choose|k: int| 0 <= k < catalog_rows(query).len() && catalog_rows(query)[k] == i;
        assert(p(catalog_rows(query)[k]));
    }
    if begins(ascii_lowercase(COMMANDS@[i].token().skip(1)), ascii_lowercase(typed)) {
        assert(token_answers(COMMANDS@[i].token(), query));
        assert(p(i));
    }
    if exists|k: int|
        0 <= k < COMMANDS@[i].synonyms().len() && begins(
            ascii_lowercase((#[trigger] COMMANDS@[i].synonyms()[k])@.skip(1)),
            ascii_lowercase(typed),
        ) {
        let k = choose|k: int|
            0 <= k < COMMANDS@[i].synonyms().len() && begins(
                ascii_lowercase((#[trigger] COMMANDS@[i].synonyms()[k])@.skip(1)),
                ascii_lowercase(typed),
            );
        assert(token_answers(COMMANDS@[i].synonyms()[k]@, query));
        assert(p(i));
    }
}

/// The rows of the preview are the built-in commands that answer, in the order of the catalog, each with its name and what
/// it does, and behind them the custom ones that answer, in theirs.
pub proof fn built_ins_come_first(prefix: Seq<char>, custom: Seq<EntryView>)
    ensures
        ({
            let rows = preview(prefix, custom);
            let built = catalog_rows(menu_query(prefix));
            let added = custom_rows(custom, menu_query(prefix));
            &&& rows.len() == built.len() + added.len()
            &&& forall|k: int|
                #![trigger rows[k]]
                0 <= k < built.len() ==> 0 <= built[k] < COMMANDS@.len() && rows[k].name == COMMANDS@[built[k]].token()
                    && rows[k].blurb == COMMANDS@[built[k]].summary() && !rows[k].custom
            &&& forall|k: int|
                #![trigger added[k]]
                0 <= k < added.len() ==> 0 <= added[k] < custom.len() && rows[built.len() + k] == custom[added[k]]
            &&& forall|j: int, k: int|
                #![trigger built[j], built[k]]
                0 <= j < k < built.len() ==> built[j] < built[k]
            &&& forall|j: int, k: int|
                #![trigger added[j], added[k]]
                0 <= j < k < added.len() ==> added[j] < added[k]
        }),
{
    let query = menu_query(prefix);
    positions_are_exact(COMMANDS@.len(), |i: int| spec_answers(COMMANDS@[i], query));
    positions_are_exact(custom.len(), |i: int| custom_answers(custom[i].name, query));
}

/// A custom command answers what its name begins with, slashes and case aside, and a listed one does.
pub proof fn custom_commands_answer_by_name(custom: Seq<EntryView>, query: Seq<char>, i: int)
    requires
        0 <= i < custom.len(),
    ensures
        custom_rows(custom, query).contains(i) <==> begins(menu_query(custom[i].name), query),
{
    let p = |k: int| custom_answers(custom[k].name, query);
    positions_are_exact(custom.len(), p);
    if custom_rows(custom, query).contains(i) {
        let k = choose|k: int| 0 <= k < custom_rows(custom, query).len() && custom_rows(custom, query)[k] == i;
        assert(p(custom_rows(custom, query)[k]));
    }
    if p(i) {
        assert(custom_rows(custom, query).contains(i));
    }
}

/// Filtering anew keeps the highlight where it is while there are rows enough, and else on the last row.
pub proof fn filtering_keeps_the_highlight(m: MenuView, prefix: Seq<char>)
    requires
        m.wf(),
    ensures
        ({
            let n = m.refreshed(prefix);
            &&& n.rows == preview(prefix, m.custom)
            &&& n.custom == m.custom
            &&& m.selected < n.rows.len() ==> n.selected == m.selected
            &&& m.selected >= n.rows.len() && n.rows.len() > 0 ==> n.selected == n.rows.len() - 1
            &&& n.rows.len() == 0 ==> n.selected == 0
        }),
        MenuView::opened(prefix, m.custom).rows == preview(prefix, m.custom),
        MenuView::opened(prefix, m.custom).selected == 0,
{
}

} // verus!
