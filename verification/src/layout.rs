//! The application's own menu: which groups it has and what stands in each.

use vstd::prelude::*;

use crate::accelerator::{is_key, lemma_parse_rendered, parse_text, primary, primary_shift};
use crate::identifiers::{app_identifiers, lemma_app_identifiers_distinct};
use crate::menu::{
    defect, group_items, group_views, has_malformed_accelerator, identifiers, tree_items,
    BuildError, EntryView, GroupView, ItemView, MenuGroup, MenuItem, MenuTree,
};

verus! {

/// The least width that the main window may be given, in logical units.
pub const MIN_WINDOW_WIDTH: u32 = 800;

/// The least height that the main window may be given, in logical units.
pub const MIN_WINDOW_HEIGHT: u32 = 600;

/// The item with this identifier, label and shortcut.
pub open spec fn item_of(id: Seq<char>, label: Seq<char>, accelerator: Option<Seq<char>>) -> ItemView {
    ItemView { id, label, accelerator }
}

/// The same item, as a line of a group.
pub open spec fn line_of(id: Seq<char>, label: Seq<char>, accelerator: Option<Seq<char>>) -> EntryView {
    EntryView::Item(item_of(id, label, accelerator))
}

/// The first group: making a document and searching the documents.
pub open spec fn documents_group() -> GroupView {
    GroupView {
        label: "Documents"@,
        entries: seq![
            line_of("new_document"@, "New Document"@, Some("CmdOrCtrl+N"@)),
            EntryView::Separator,
            line_of("search"@, "Search Documents"@, Some("CmdOrCtrl+F"@)),
        ],
    }
}

/// The second group: making and managing categories.
pub open spec fn categories_group() -> GroupView {
    GroupView {
        label: "Categories"@,
        entries: seq![
            line_of("new_category"@, "New Category"@, Some("CmdOrCtrl+Shift+N"@)),
            line_of("manage_categories"@, "Manage Categories"@, Some("CmdOrCtrl+Shift+M"@)),
        ],
    }
}

/// The third group: the archive as a whole, the settings, and leaving.
pub open spec fn file_group() -> GroupView {
    GroupView {
        label: "File"@,
        entries: seq![
            line_of("export_archive"@, "Export Archive"@, Some("CmdOrCtrl+E"@)),
            line_of("import_archive"@, "Import Archive"@, Some("CmdOrCtrl+I"@)),
            EntryView::Separator,
            line_of("settings"@, "Settings"@, None),
            EntryView::Separator,
            line_of("quit"@, "Quit"@, None),
        ],
    }
}

/// The fourth group: the editing commands.
pub open spec fn edit_group() -> GroupView {
    GroupView {
        label: "Edit"@,
        entries: seq![
            line_of("undo"@, "Undo"@, Some("CmdOrCtrl+Z"@)),
            line_of("redo"@, "Redo"@, Some("CmdOrCtrl+Shift+Z"@)),
            EntryView::Separator,
            line_of("cut"@, "Cut"@, Some("CmdOrCtrl+X"@)),
            line_of("copy"@, "Copy"@, Some("CmdOrCtrl+C"@)),
            line_of("paste"@, "Paste"@, Some("CmdOrCtrl+V"@)),
        ],
    }
}

/// The fifth group: what the window shows.
pub open spec fn view_group() -> GroupView {
    GroupView {
        label: "View"@,
        entries: seq![
            line_of("toggle_sidebar"@, "Toggle Sidebar"@, Some("CmdOrCtrl+B"@)),
            EntryView::Separator,
            line_of("reload"@, "Reload"@, Some("CmdOrCtrl+R"@)),
        ],
    }
}

/// The last group: about the application.
pub open spec fn help_group() -> GroupView {
    GroupView {
        label: "Help"@,
        entries: seq![line_of("about"@, "About Ando Archive"@, None)],
    }
}

/// The application's menu, group by group.
pub open spec fn app_menu_layout() -> Seq<GroupView> {
    seq![
        documents_group(),
        categories_group(),
        file_group(),
        edit_group(),
        view_group(),
        help_group(),
    ]
}

/// The items of the application's menu, in menu order.
pub open spec fn app_menu_items() -> Seq<ItemView> {
    seq![
        item_of("new_document"@, "New Document"@, Some("CmdOrCtrl+N"@)),
        item_of("search"@, "Search Documents"@, Some("CmdOrCtrl+F"@)),
        item_of("new_category"@, "New Category"@, Some("CmdOrCtrl+Shift+N"@)),
        item_of("manage_categories"@, "Manage Categories"@, Some("CmdOrCtrl+Shift+M"@)),
        item_of("export_archive"@, "Export Archive"@, Some("CmdOrCtrl+E"@)),
        item_of("import_archive"@, "Import Archive"@, Some("CmdOrCtrl+I"@)),
        item_of("settings"@, "Settings"@, None),
        item_of("quit"@, "Quit"@, None),
        item_of("undo"@, "Undo"@, Some("CmdOrCtrl+Z"@)),
        item_of("redo"@, "Redo"@, Some("CmdOrCtrl+Shift+Z"@)),
        item_of("cut"@, "Cut"@, Some("CmdOrCtrl+X"@)),
        item_of("copy"@, "Copy"@, Some("CmdOrCtrl+C"@)),
        item_of("paste"@, "Paste"@, Some("CmdOrCtrl+V"@)),
        item_of("toggle_sidebar"@, "Toggle Sidebar"@, Some("CmdOrCtrl+B"@)),
        item_of("reload"@, "Reload"@, Some("CmdOrCtrl+R"@)),
        item_of("about"@, "About Ando Archive"@, None),
    ]
}

proof fn lemma_documents_items()
    ensures
        group_items(documents_group().entries) =~= seq![
            item_of("new_document"@, "New Document"@, Some("CmdOrCtrl+N"@)),
            item_of("search"@, "Search Documents"@, Some("CmdOrCtrl+F"@)),
        ],
{
    reveal_with_fuel(group_items, 4);
}

proof fn lemma_categories_items()
    ensures
        group_items(categories_group().entries) =~= seq![
            item_of("new_category"@, "New Category"@, Some("CmdOrCtrl+Shift+N"@)),
            item_of("manage_categories"@, "Manage Categories"@, Some("CmdOrCtrl+Shift+M"@)),
        ],
{
    reveal_with_fuel(group_items, 3);
}

proof fn lemma_file_items()
    ensures
        group_items(file_group().entries) =~= seq![
            item_of("export_archive"@, "Export Archive"@, Some("CmdOrCtrl+E"@)),
            item_of("import_archive"@, "Import Archive"@, Some("CmdOrCtrl+I"@)),
            item_of("settings"@, "Settings"@, None),
            item_of("quit"@, "Quit"@, None),
        ],
{
    reveal_with_fuel(group_items, 7);
}

proof fn lemma_edit_items()
    ensures
        group_items(edit_group().entries) =~= seq![
            item_of("undo"@, "Undo"@, Some("CmdOrCtrl+Z"@)),
            item_of("redo"@, "Redo"@, Some("CmdOrCtrl+Shift+Z"@)),
            item_of("cut"@, "Cut"@, Some("CmdOrCtrl+X"@)),
            item_of("copy"@, "Copy"@, Some("CmdOrCtrl+C"@)),
            item_of("paste"@, "Paste"@, Some("CmdOrCtrl+V"@)),
        ],
{
    reveal_with_fuel(group_items, 7);
}

proof fn lemma_view_items()
    ensures
        group_items(view_group().entries) =~= seq![
            item_of("toggle_sidebar"@, "Toggle Sidebar"@, Some("CmdOrCtrl+B"@)),
            item_of("reload"@, "Reload"@, Some("CmdOrCtrl+R"@)),
        ],
{
    reveal_with_fuel(group_items, 4);
}

proof fn lemma_help_items()
    ensures
        group_items(help_group().entries) =~= seq![
            item_of("about"@, "About Ando Archive"@, None),
        ],
{
    reveal_with_fuel(group_items, 2);
}

/// The items of the application's menu are the sixteen of `app_menu_items`.
pub proof fn lemma_app_menu_items()
    ensures
        tree_items(app_menu_layout()) == app_menu_items(),
{
    reveal_with_fuel(tree_items, 7);
    lemma_documents_items();
    lemma_categories_items();
    lemma_file_items();
    lemma_edit_items();
    lemma_view_items();
    lemma_help_items();
    assert(tree_items(app_menu_layout()) =~= app_menu_items());
}

/// Whether `text` starts with the letters of `CmdOrCtrl+`.
spec fn starts_with_main(text: Seq<char>) -> bool {
    text.len() >= 10 && text[0] == 'C' && text[1] == 'm' && text[2] == 'd' && text[3] == 'O'
        && text[4] == 'r' && text[5] == 'C' && text[6] == 't' && text[7] == 'r' && text[8] == 'l'
        && text[9] == '+'
}

/// Whether `text` goes on with the letters of `Shift+` after `CmdOrCtrl+`.
spec fn goes_on_with_shift(text: Seq<char>) -> bool {
    text.len() >= 16 && text[10] == 'S' && text[11] == 'h' && text[12] == 'i' && text[13] == 'f'
        && text[14] == 't' && text[15] == '+'
}

proof fn lemma_primary_spelled(text: Seq<char>, key: char)
    requires
        is_key(key),
        text.len() == 11,
        starts_with_main(text),
        text[10] == key,
    ensures
        parse_text(text) == Some(primary(key)),
{
    reveal_strlit("CmdOrCtrl+");
    assert(text =~= primary(key).text());
    lemma_parse_rendered(primary(key));
}

proof fn lemma_primary_shift_spelled(text: Seq<char>, key: char)
    requires
        is_key(key),
        text.len() == 17,
        starts_with_main(text),
        goes_on_with_shift(text),
        text[16] == key,
    ensures
        parse_text(text) == Some(primary_shift(key)),
{
    reveal_strlit("CmdOrCtrl+");
    reveal_strlit("Shift+");
    assert(text =~= primary_shift(key).text());
    lemma_parse_rendered(primary_shift(key));
}

/// The shortcuts of the application's menu, as texts and as what they spell.
pub proof fn lemma_app_menu_shortcuts()
    ensures
        parse_text("CmdOrCtrl+N"@) == Some(primary('N')),
        parse_text("CmdOrCtrl+F"@) == Some(primary('F')),
        parse_text("CmdOrCtrl+Shift+N"@) == Some(primary_shift('N')),
        parse_text("CmdOrCtrl+Shift+M"@) == Some(primary_shift('M')),
        parse_text("CmdOrCtrl+E"@) == Some(primary('E')),
        parse_text("CmdOrCtrl+I"@) == Some(primary('I')),
        parse_text("CmdOrCtrl+Z"@) == Some(primary('Z')),
        parse_text("CmdOrCtrl+Shift+Z"@) == Some(primary_shift('Z')),
        parse_text("CmdOrCtrl+X"@) == Some(primary('X')),
        parse_text("CmdOrCtrl+C"@) == Some(primary('C')),
        parse_text("CmdOrCtrl+V"@) == Some(primary('V')),
        parse_text("CmdOrCtrl+B"@) == Some(primary('B')),
        parse_text("CmdOrCtrl+R"@) == Some(primary('R')),
{
    reveal_strlit("CmdOrCtrl+N");
    lemma_primary_spelled("CmdOrCtrl+N"@, 'N');
    reveal_strlit("CmdOrCtrl+F");
    lemma_primary_spelled("CmdOrCtrl+F"@, 'F');
    reveal_strlit("CmdOrCtrl+Shift+N");
    lemma_primary_shift_spelled("CmdOrCtrl+Shift+N"@, 'N');
    reveal_strlit("CmdOrCtrl+Shift+M");
    lemma_primary_shift_spelled("CmdOrCtrl+Shift+M"@, 'M');
    reveal_strlit("CmdOrCtrl+E");
    lemma_primary_spelled("CmdOrCtrl+E"@, 'E');
    reveal_strlit("CmdOrCtrl+I");
    lemma_primary_spelled("CmdOrCtrl+I"@, 'I');
    reveal_strlit("CmdOrCtrl+Z");
    lemma_primary_spelled("CmdOrCtrl+Z"@, 'Z');
    reveal_strlit("CmdOrCtrl+Shift+Z");
    lemma_primary_shift_spelled("CmdOrCtrl+Shift+Z"@, 'Z');
    reveal_strlit("CmdOrCtrl+X");
    lemma_primary_spelled("CmdOrCtrl+X"@, 'X');
    reveal_strlit("CmdOrCtrl+C");
    lemma_primary_spelled("CmdOrCtrl+C"@, 'C');
    reveal_strlit("CmdOrCtrl+V");
    lemma_primary_spelled("CmdOrCtrl+V"@, 'V');
    reveal_strlit("CmdOrCtrl+B");
    lemma_primary_spelled("CmdOrCtrl+B"@, 'B');
    reveal_strlit("CmdOrCtrl+R");
    lemma_primary_spelled("CmdOrCtrl+R"@, 'R');
}

/// The identifiers of the application's menu are the application's
/// identifiers, item by item.
pub proof fn lemma_app_menu_identifiers()
    ensures
        identifiers(app_menu_layout()) == app_identifiers(),
{
    lemma_app_menu_items();
    let items = app_menu_items();
    let ids = app_identifiers();
    assert(items[0].id == ids[0]);
    assert(items[1].id == ids[1]);
    assert(items[2].id == ids[2]);
    assert(items[3].id == ids[3]);
    assert(items[4].id == ids[4]);
    assert(items[5].id == ids[5]);
    assert(items[6].id == ids[6]);
    assert(items[7].id == ids[7]);
    assert(items[8].id == ids[8]);
    assert(items[9].id == ids[9]);
    assert(items[10].id == ids[10]);
    assert(items[11].id == ids[11]);
    assert(items[12].id == ids[12]);
    assert(items[13].id == ids[13]);
    assert(items[14].id == ids[14]);
    assert(items[15].id == ids[15]);
    assert(identifiers(app_menu_layout()) =~= ids);
}

/// The application's menu has no defect.
pub proof fn lemma_app_menu_sound()
    ensures
        defect(app_menu_layout()) is None,
{
    lemma_app_menu_items();
    let items = app_menu_items();
    assert(!has_malformed_accelerator(items)) by {
        lemma_app_menu_shortcuts();
    }
    lemma_app_menu_identifiers();
    lemma_app_identifiers_distinct();
    let ids = identifiers(app_menu_layout());
    assert forall|i: int| 0 <= i < items.len() implies (#[trigger] items[i]).id.len() != 0 by {
        assert(ids[i] == items[i].id);
    }
    assert forall|i: int, j: int| 0 <= i < j < items.len() implies (#[trigger] items[i]).id != (
    #[trigger] items[j]).id by {
        assert(ids[i] == items[i].id);
        assert(ids[j] == items[j].id);
    }
}

/// Builds the first group.
fn documents_menu() -> (group: MenuGroup)
    ensures
        group@ == documents_group(),
{
    let group = MenuGroup::new("Documents").item(
        MenuItem::new("new_document", "New Document").with_accelerator("CmdOrCtrl+N"),
    ).separator().item(
        MenuItem::new("search", "Search Documents").with_accelerator("CmdOrCtrl+F"),
    );
    assert(group@.entries =~= documents_group().entries);
    group
}

/// Builds the second group.
fn categories_menu() -> (group: MenuGroup)
    ensures
        group@ == categories_group(),
{
    let group = MenuGroup::new("Categories").item(
        MenuItem::new("new_category", "New Category").with_accelerator("CmdOrCtrl+Shift+N"),
    ).item(
        MenuItem::new("manage_categories", "Manage Categories").with_accelerator("CmdOrCtrl+Shift+M"),
    );
    assert(group@.entries =~= categories_group().entries);
    group
}

/// Builds the third group.
fn file_menu() -> (group: MenuGroup)
    ensures
        group@ == file_group(),
{
    let group = MenuGroup::new("File").item(
        MenuItem::new("export_archive", "Export Archive").with_accelerator("CmdOrCtrl+E"),
    ).item(
        MenuItem::new("import_archive", "Import Archive").with_accelerator("CmdOrCtrl+I"),
    ).separator().item(MenuItem::new("settings", "Settings")).separator().item(
        MenuItem::new("quit", "Quit"),
    );
    assert(group@.entries =~= file_group().entries);
    group
}

/// Builds the fourth group.
fn edit_menu() -> (group: MenuGroup)
    ensures
        group@ == edit_group(),
{
    let group = MenuGroup::new("Edit").item(
        MenuItem::new("undo", "Undo").with_accelerator("CmdOrCtrl+Z"),
    ).item(
        MenuItem::new("redo", "Redo").with_accelerator("CmdOrCtrl+Shift+Z"),
    ).separator().item(
        MenuItem::new("cut", "Cut").with_accelerator("CmdOrCtrl+X"),
    ).item(
        MenuItem::new("copy", "Copy").with_accelerator("CmdOrCtrl+C"),
    ).item(
        MenuItem::new("paste", "Paste").with_accelerator("CmdOrCtrl+V"),
    );
    assert(group@.entries =~= edit_group().entries);
    group
}

/// Builds the fifth group.
fn view_menu() -> (group: MenuGroup)
    ensures
        group@ == view_group(),
{
    let group = MenuGroup::new("View").item(
        MenuItem::new("toggle_sidebar", "Toggle Sidebar").with_accelerator("CmdOrCtrl+B"),
    ).separator().item(
        MenuItem::new("reload", "Reload").with_accelerator("CmdOrCtrl+R"),
    );
    assert(group@.entries =~= view_group().entries);
    group
}

/// Builds the last group.
fn help_menu() -> (group: MenuGroup)
    ensures
        group@ == help_group(),
{
    let group = MenuGroup::new("Help").item(MenuItem::new("about", "About Ando Archive"));
    assert(group@.entries =~= help_group().entries);
    group
}

/// Builds the application's menu. It always succeeds: the layout has no
/// defect.
pub fn create_app_menu() -> (built: Result<MenuTree, BuildError>)
    ensures
        built is Ok,
        built.unwrap()@ == app_menu_layout(),
        built.unwrap().well_formed(),
{
    let mut groups: Vec<MenuGroup> = Vec::new();
    groups.push(documents_menu());
    groups.push(categories_menu());
    groups.push(file_menu());
    groups.push(edit_menu());
    groups.push(view_menu());
    groups.push(help_menu());
    proof {
        assert(group_views(groups@) =~= app_menu_layout());
        lemma_app_menu_sound();
    }
    MenuTree::build(groups)
}

} // verus!
