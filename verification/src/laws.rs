//! What holds of every menu and of every dispatch table.

use vstd::prelude::*;

use crate::action::{
    action_for, binds, is_editing_command, is_mapping, lemma_standard_bindings_distinct,
    lemma_standard_bindings_identifiers, resolve, resolve_from, standard_bindings, ActionView,
};
use crate::layout::{app_menu_layout, lemma_app_menu_identifiers};
use crate::menu::{identifiers, lemma_distinct, tree_items, MenuTree};

verus! {

/// No two items of a well-formed menu share an identifier.
pub proof fn lemma_identifiers_unique(tree: MenuTree)
    requires
        tree.well_formed(),
    ensures
        identifiers(tree@).no_duplicates(),
{
    lemma_distinct(tree@);
}

/// No item of a well-formed menu has the empty identifier.
pub proof fn lemma_identifiers_not_empty(tree: MenuTree, i: int)
    requires
        tree.well_formed(),
        0 <= i < identifiers(tree@).len(),
    ensures
        identifiers(tree@)[i].len() > 0,
{
    let items = tree_items(tree@);
    assert(items[i].id.len() != 0);
}

/// An identifier that some line of a table names resolves to the action of
/// the first such line.
pub proof fn lemma_resolve_bound(bindings: Seq<(Seq<char>, ActionView)>, id: Seq<char>)
    requires
        binds(bindings, id),
    ensures
        exists|i: int|
            0 <= i < bindings.len() && (#[trigger] bindings[i]).0 == id && resolve(bindings, id)
                == bindings[i].1 && forall|k: int| 0 <= k < i ==> (#[trigger] bindings[k]).0 != id,
{
    let hit = choose|i: int| 0 <= i < bindings.len() && (#[trigger] bindings[i]).0 == id;
    lemma_resolve_from(bindings, id, 0, hit);
}

proof fn lemma_resolve_from(
    bindings: Seq<(Seq<char>, ActionView)>,
    id: Seq<char>,
    from: int,
    hit: int,
)
    requires
        0 <= from <= hit < bindings.len(),
        bindings[hit].0 == id,
        forall|k: int| 0 <= k < from ==> (#[trigger] bindings[k]).0 != id,
    ensures
        exists|i: int|
            0 <= i < bindings.len() && (#[trigger] bindings[i]).0 == id && resolve_from(
                bindings,
                id,
                from,
            ) == bindings[i].1 && forall|k: int| 0 <= k < i ==> (#[trigger] bindings[k]).0 != id,
    decreases hit - from,
{
    if bindings[from].0 == id {
        assert(resolve_from(bindings, id, from) == bindings[from].1);
    } else {
        lemma_resolve_from(bindings, id, from + 1, hit);
    }
}

/// An identifier that no line of a table names resolves to `Noop`.
pub proof fn lemma_resolve_unbound(bindings: Seq<(Seq<char>, ActionView)>, id: Seq<char>)
    requires
        !binds(bindings, id),
    ensures
        resolve(bindings, id) == ActionView::Noop,
{
    lemma_unbound_from(bindings, id, 0);
}

proof fn lemma_unbound_from(bindings: Seq<(Seq<char>, ActionView)>, id: Seq<char>, from: int)
    requires
        !binds(bindings, id),
        0 <= from,
    ensures
        resolve_from(bindings, id, from) == ActionView::Noop,
    decreases bindings.len() - from,
{
    if from < bindings.len() {
        assert(bindings[from].0 != id);
        lemma_unbound_from(bindings, id, from + 1);
    }
}

/// Resolving is a function of the table and the identifier: the same
/// selection gives the same action every time.
pub proof fn lemma_resolve_repeats(
    bindings: Seq<(Seq<char>, ActionView)>,
    first: Seq<char>,
    second: Seq<char>,
)
    requires
        first == second,
    ensures
        resolve(bindings, first) == resolve(bindings, second),
{
}

/// The application's table has a line for each item of the application's
/// menu and no other, in menu order.
pub proof fn lemma_table_follows_menu()
    ensures
        standard_bindings().len() == identifiers(app_menu_layout()).len(),
        forall|i: int|
            0 <= i < standard_bindings().len() ==> (#[trigger] standard_bindings()[i]).0
                == identifiers(app_menu_layout())[i],
{
    lemma_app_menu_identifiers();
    lemma_standard_bindings_identifiers();
}

/// Every item of the application's menu has a line of its own in the
/// application's table, and the selection resolves to the action of that
/// line: `Noop` for the five editing commands, an event or the exit for the
/// others.
pub proof fn lemma_dispatch_exhaustive(id: Seq<char>)
    requires
        identifiers(app_menu_layout()).contains(id),
    ensures
        binds(standard_bindings(), id),
        exists|i: int|
            0 <= i < standard_bindings().len() && (#[trigger] standard_bindings()[i]).0 == id
                && action_for(id) == standard_bindings()[i].1,
        is_editing_command(id) <==> action_for(id) == ActionView::Noop,
{
    lemma_table_follows_menu();
    let ids = identifiers(app_menu_layout());
    let table = standard_bindings();
    let k = choose|k: int| 0 <= k < ids.len() && ids[k] == id;
    assert(table[k].0 == id);
    lemma_standard_line(k);
    assert(table[8].0 == "undo"@);
    assert(table[9].0 == "redo"@);
    assert(table[10].0 == "cut"@);
    assert(table[11].0 == "copy"@);
    assert(table[12].0 == "paste"@);
    if is_editing_command(id) {
        lemma_standard_bindings_distinct();
        assert(8 <= k <= 12) by {
            if k < 8 {
                assert(table[k].0 != table[8].0 && table[k].0 != table[9].0 && table[k].0
                    != table[10].0 && table[k].0 != table[11].0 && table[k].0 != table[12].0);
            } else if k > 12 {
                assert(table[8].0 != table[k].0 && table[9].0 != table[k].0 && table[10].0
                    != table[k].0 && table[11].0 != table[k].0 && table[12].0 != table[k].0);
            }
        }
    }
}

/// Every identifier that the application's table names is that of an item
/// of the application's menu: no binding is out of reach.
pub proof fn lemma_bindings_are_in_menu(id: Seq<char>)
    requires
        binds(standard_bindings(), id),
    ensures
        identifiers(app_menu_layout()).contains(id),
{
    lemma_table_follows_menu();
    let ids = identifiers(app_menu_layout());
    let table = standard_bindings();
    let i = choose|i: int| 0 <= i < table.len() && (#[trigger] table[i]).0 == id;
    assert(ids[i] == id);
}

/// In a table that is a mapping, each line's identifier resolves to that
/// line's action.
pub proof fn lemma_resolve_line(bindings: Seq<(Seq<char>, ActionView)>, line: int)
    requires
        0 <= line < bindings.len(),
        is_mapping(bindings),
    ensures
        resolve(bindings, bindings[line].0) == bindings[line].1,
{
    let id = bindings[line].0;
    lemma_resolve_bound(bindings, id);
    let hit = choose|i: int|
        0 <= i < bindings.len() && (#[trigger] bindings[i]).0 == id && resolve(bindings, id)
            == bindings[i].1;
    if hit < line {
        assert(bindings[hit].0 != bindings[line].0);
    } else if hit > line {
        assert(bindings[line].0 != bindings[hit].0);
    }
}

/// Each line of the application's table is what its identifier resolves to.
pub proof fn lemma_standard_line(line: int)
    requires
        0 <= line < standard_bindings().len(),
    ensures
        action_for(standard_bindings()[line].0) == standard_bindings()[line].1,
{
    lemma_standard_bindings_distinct();
    lemma_resolve_line(standard_bindings(), line);
}

} // verus!
