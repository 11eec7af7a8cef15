//! The identifiers of the application's menu items, and why no two of them
//! are the same.

use vstd::prelude::*;

verus! {

/// The identifiers of the application's menu items, in menu order.
pub open spec fn app_identifiers() -> Seq<Seq<char>> {
    seq![
        "new_document"@,
        "search"@,
        "new_category"@,
        "manage_categories"@,
        "export_archive"@,
        "import_archive"@,
        "settings"@,
        "quit"@,
        "undo"@,
        "redo"@,
        "cut"@,
        "copy"@,
        "paste"@,
        "toggle_sidebar"@,
        "reload"@,
        "about"@,
    ]
}

/// The length, first and last character of an identifier: enough to tell
/// the application's identifiers apart.
pub open spec fn ends(id: Seq<char>) -> (nat, char, char) {
    (id.len(), id[0], id[id.len() - 1])
}

/// The ends of the application's identifiers, in menu order.
proof fn lemma_app_identifier_ends()
    ensures
        ends(app_identifiers()[0]) == (12nat, 'n', 't'),
        ends(app_identifiers()[1]) == (6nat, 's', 'h'),
        ends(app_identifiers()[2]) == (12nat, 'n', 'y'),
        ends(app_identifiers()[3]) == (17nat, 'm', 's'),
        ends(app_identifiers()[4]) == (14nat, 'e', 'e'),
        ends(app_identifiers()[5]) == (14nat, 'i', 'e'),
        ends(app_identifiers()[6]) == (8nat, 's', 's'),
        ends(app_identifiers()[7]) == (4nat, 'q', 't'),
        ends(app_identifiers()[8]) == (4nat, 'u', 'o'),
        ends(app_identifiers()[9]) == (4nat, 'r', 'o'),
        ends(app_identifiers()[10]) == (3nat, 'c', 't'),
        ends(app_identifiers()[11]) == (4nat, 'c', 'y'),
        ends(app_identifiers()[12]) == (5nat, 'p', 'e'),
        ends(app_identifiers()[13]) == (14nat, 't', 'r'),
        ends(app_identifiers()[14]) == (6nat, 'r', 'd'),
        ends(app_identifiers()[15]) == (5nat, 'a', 't'),
{
    reveal_strlit("new_document");
    reveal_strlit("search");
    reveal_strlit("new_category");
    reveal_strlit("manage_categories");
    reveal_strlit("export_archive");
    reveal_strlit("import_archive");
    reveal_strlit("settings");
    reveal_strlit("quit");
    reveal_strlit("undo");
    reveal_strlit("redo");
    reveal_strlit("cut");
    reveal_strlit("copy");
    reveal_strlit("paste");
    reveal_strlit("toggle_sidebar");
    reveal_strlit("reload");
    reveal_strlit("about");
}

/// The application has sixteen identifiers; no two are the same, and none is
/// empty.
pub proof fn lemma_app_identifiers_distinct()
    ensures
        app_identifiers().len() == 16,
        forall|i: int, j: int|
            0 <= i < j < 16 ==> #[trigger] app_identifiers()[i] != #[trigger] app_identifiers()[j],
        forall|i: int| 0 <= i < 16 ==> (#[trigger] app_identifiers()[i]).len() > 0,
{
    lemma_app_identifier_ends();
    let ids = app_identifiers();
    assert forall|i: int, j: int| 0 <= i < j < 16 implies #[trigger] ids[i] != #[trigger] ids[j] by {
        assert(ends(ids[i]) != ends(ids[j]));
    }
    assert forall|i: int| 0 <= i < 16 implies (#[trigger] ids[i]).len() > 0 by {
        assert(ends(ids[i]).0 >= 3);
    }
}

} // verus!
