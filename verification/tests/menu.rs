use archive_menu::{
    create_app_menu, handle_menu_event, Action, BuildError, MenuEntry, MenuGroup, MenuItem,
    MenuTree,
};

fn ids_in(group: &MenuGroup, ids: &mut Vec<String>) {
    for entry in &group.entries {
        match entry {
            MenuEntry::Item(item) => ids.push(item.id.clone()),
            MenuEntry::Separator => {}
            MenuEntry::Submenu(inner) => ids_in(inner, ids),
        }
    }
}

fn ids_of(tree: &MenuTree) -> Vec<String> {
    let mut ids = Vec::new();
    for group in tree.groups() {
        ids_in(group, &mut ids);
    }
    ids
}

fn shape_of(group: &MenuGroup) -> Vec<Option<(String, String, Option<String>)>> {
    group
        .entries
        .iter()
        .map(|entry| match entry {
            MenuEntry::Item(item) => {
                Some((item.id.clone(), item.label.clone(), item.accelerator.clone()))
            }
            MenuEntry::Separator => None,
            MenuEntry::Submenu(inner) => Some((String::new(), inner.label.clone(), None)),
        })
        .collect()
}

fn line(id: &str, label: &str, accelerator: Option<&str>) -> Option<(String, String, Option<String>)> {
    Some((id.to_string(), label.to_string(), accelerator.map(|text| text.to_string())))
}

fn build_err(groups: Vec<MenuGroup>) -> BuildError {
    match MenuTree::build(groups) {
        Ok(_) => panic!("the menu should not have been built"),
        Err(error) => error,
    }
}

#[test]
fn app_menu_is_built() {
    assert!(create_app_menu().is_ok());
}

#[test]
fn app_menu_groups_are_in_order() {
    let tree = create_app_menu().unwrap();
    let labels: Vec<&str> = tree.groups().iter().map(|group| group.label.as_str()).collect();
    assert_eq!(labels, vec!["Documents", "Categories", "File", "Edit", "View", "Help"]);
}

#[test]
fn app_menu_lines_are_exact() {
    let tree = create_app_menu().unwrap();
    let groups = tree.groups();
    assert_eq!(
        shape_of(&groups[0]),
        vec![
            line("new_document", "New Document", Some("CmdOrCtrl+N")),
            None,
            line("search", "Search Documents", Some("CmdOrCtrl+F")),
        ]
    );
    assert_eq!(
        shape_of(&groups[1]),
        vec![
            line("new_category", "New Category", Some("CmdOrCtrl+Shift+N")),
            line("manage_categories", "Manage Categories", Some("CmdOrCtrl+Shift+M")),
        ]
    );
    assert_eq!(
        shape_of(&groups[2]),
        vec![
            line("export_archive", "Export Archive", Some("CmdOrCtrl+E")),
            line("import_archive", "Import Archive", Some("CmdOrCtrl+I")),
            None,
            line("settings", "Settings", None),
            None,
            line("quit", "Quit", None),
        ]
    );
    assert_eq!(
        shape_of(&groups[3]),
        vec![
            line("undo", "Undo", Some("CmdOrCtrl+Z")),
            line("redo", "Redo", Some("CmdOrCtrl+Shift+Z")),
            None,
            line("cut", "Cut", Some("CmdOrCtrl+X")),
            line("copy", "Copy", Some("CmdOrCtrl+C")),
            line("paste", "Paste", Some("CmdOrCtrl+V")),
        ]
    );
    assert_eq!(
        shape_of(&groups[4]),
        vec![
            line("toggle_sidebar", "Toggle Sidebar", Some("CmdOrCtrl+B")),
            None,
            line("reload", "Reload", Some("CmdOrCtrl+R")),
        ]
    );
    assert_eq!(shape_of(&groups[5]), vec![line("about", "About Ando Archive", None)]);
}

#[test]
fn app_menu_identifiers_are_unique() {
    let tree = create_app_menu().unwrap();
    let ids = ids_of(&tree);
    assert_eq!(ids.len(), 16);
    for i in 0..ids.len() {
        assert!(!ids[i].is_empty());
        for j in (i + 1)..ids.len() {
            assert_ne!(ids[i], ids[j]);
        }
    }
}

#[test]
fn every_app_menu_item_has_a_line_in_the_table() {
    let tree = create_app_menu().unwrap();
    let table = archive_menu::DispatchTable::standard();
    let editing = ["undo", "redo", "cut", "copy", "paste"];
    for id in ids_of(&tree) {
        assert!(table.contains(&id));
        let action = handle_menu_event(&id);
        assert_eq!(action, table.resolve(&id));
        if editing.contains(&id.as_str()) {
            assert_eq!(action, Action::Noop);
        } else {
            assert_ne!(action, Action::Noop);
        }
    }
}

#[test]
fn search_from_menu_to_event() {
    let tree = create_app_menu().unwrap();
    let mut found = None;
    for group in tree.groups() {
        for entry in &group.entries {
            if let MenuEntry::Item(item) = entry {
                if item.label == "Search Documents" {
                    found = Some((group.label.clone(), item));
                }
            }
        }
    }
    let (group_label, item) = found.unwrap();
    assert_eq!(group_label, "Documents");
    assert_eq!(item.id, "search");
    assert_eq!(item.accelerator.as_deref(), Some("CmdOrCtrl+F"));

    let mut observed: Vec<(String, ())> = Vec::new();
    let action = handle_menu_event(&item.id);
    if let Some(name) = action.event_name() {
        observed.push((name.to_string(), ()));
    }
    assert_eq!(observed, vec![("menu_search".to_string(), ())]);
}

#[test]
fn find_item_by_identifier() {
    let tree = create_app_menu().unwrap();
    let item = tree.find_item("manage_categories").unwrap();
    assert_eq!(item.label, "Manage Categories");
    assert_eq!(item.accelerator.as_deref(), Some("CmdOrCtrl+Shift+M"));
    let quit = tree.find_item("quit").unwrap();
    assert_eq!(quit.label, "Quit");
    assert_eq!(quit.accelerator, None);
    assert!(tree.find_item("not_a_real_id").is_none());
    assert!(tree.find_item("").is_none());
}

#[test]
fn empty_menu_is_built() {
    let tree = MenuTree::build(Vec::new()).unwrap();
    assert!(tree.groups().is_empty());
    let tree = MenuTree::build(vec![MenuGroup::new("Empty").separator()]).unwrap();
    assert_eq!(tree.groups().len(), 1);
    assert!(tree.find_item("anything").is_none());
}

#[test]
fn builders_keep_order() {
    let group = MenuGroup::new("Tools")
        .item(MenuItem::new("a", "First"))
        .separator()
        .item(MenuItem::new("b", "Second").with_accelerator("Alt+Shift+7"));
    assert_eq!(group.label, "Tools");
    assert_eq!(
        shape_of(&group),
        vec![line("a", "First", None), None, line("b", "Second", Some("Alt+Shift+7"))]
    );
    let tree = MenuTree::build(vec![group]).unwrap();
    assert_eq!(ids_of(&tree), vec!["a".to_string(), "b".to_string()]);
}

#[test]
fn duplicate_identifier_in_one_group_is_refused() {
    let group = MenuGroup::new("File")
        .item(MenuItem::new("open", "Open"))
        .item(MenuItem::new("open", "Open Again"));
    assert_eq!(build_err(vec![group]), BuildError::DuplicateIdentifier);
}

#[test]
fn duplicate_identifier_across_groups_is_refused() {
    let first = MenuGroup::new("File").item(MenuItem::new("open", "Open"));
    let second = MenuGroup::new("View")
        .item(MenuItem::new("zoom", "Zoom"))
        .separator()
        .item(MenuItem::new("open", "Open"));
    assert_eq!(build_err(vec![first, second]), BuildError::DuplicateIdentifier);
}

#[test]
fn empty_identifier_is_refused() {
    let group = MenuGroup::new("File").item(MenuItem::new("", "Nameless"));
    assert_eq!(build_err(vec![group]), BuildError::EmptyIdentifier);
}

#[test]
fn malformed_accelerator_is_refused() {
    for text in ["", "CmdOrCtrl+", "Ctrl+N", "CmdOrCtrl+n", "CmdOrCtrl++N", "Shift+CmdOrCtrl+N", "CmdOrCtrl+NN", "N+"] {
        let group =
            MenuGroup::new("File").item(MenuItem::new("open", "Open").with_accelerator(text));
        assert_eq!(build_err(vec![group]), BuildError::MalformedAccelerator);
    }
}

#[test]
fn defects_are_told_in_a_fixed_order() {
    let all_three = MenuGroup::new("File")
        .item(MenuItem::new("open", "Open").with_accelerator("bad"))
        .item(MenuItem::new("open", "Open"))
        .item(MenuItem::new("", "Nameless"));
    assert_eq!(build_err(vec![all_three]), BuildError::EmptyIdentifier);
    let two = MenuGroup::new("File")
        .item(MenuItem::new("open", "Open"))
        .item(MenuItem::new("open", "Open").with_accelerator("bad"));
    assert_eq!(build_err(vec![two]), BuildError::MalformedAccelerator);
}

#[test]
fn same_label_and_accelerator_are_no_defect() {
    let group = MenuGroup::new("File")
        .item(MenuItem::new("open", "Open").with_accelerator("CmdOrCtrl+O"))
        .item(MenuItem::new("open_other", "Open").with_accelerator("CmdOrCtrl+O"));
    assert!(MenuTree::build(vec![group]).is_ok());
}

fn recent_files() -> MenuGroup {
    MenuGroup::new("Open Recent")
        .item(MenuItem::new("recent_1", "notes.txt").with_accelerator("CmdOrCtrl+1"))
        .item(MenuItem::new("recent_2", "plan.txt").with_accelerator("CmdOrCtrl+2"))
        .separator()
        .submenu(MenuGroup::new("Older").item(MenuItem::new("recent_9", "old.txt")))
}

#[test]
fn nested_groups_are_built_in_menu_order() {
    let file = MenuGroup::new("File")
        .item(MenuItem::new("open", "Open"))
        .submenu(recent_files())
        .item(MenuItem::new("close", "Close"));
    let tree = MenuTree::build(vec![file, MenuGroup::new("Help").item(MenuItem::new("about", "About"))])
        .unwrap();
    assert_eq!(
        ids_of(&tree),
        vec!["open", "recent_1", "recent_2", "recent_9", "close", "about"]
    );
    let group = &tree.groups()[0];
    assert_eq!(group.entries.len(), 3);
    match &group.entries[1] {
        MenuEntry::Submenu(inner) => {
            assert_eq!(inner.label, "Open Recent");
            assert_eq!(inner.entries.len(), 4);
        }
        _ => panic!("the second line should be a group"),
    }
    assert_eq!(tree.find_item("recent_9").unwrap().label, "old.txt");
    assert_eq!(tree.find_item("recent_2").unwrap().accelerator.as_deref(), Some("CmdOrCtrl+2"));
    assert!(tree.find_item("Older").is_none());
}

#[test]
fn defects_inside_nested_groups_are_found() {
    let shared = MenuGroup::new("File")
        .item(MenuItem::new("recent_9", "Open"))
        .submenu(recent_files());
    assert_eq!(build_err(vec![shared]), BuildError::DuplicateIdentifier);

    let across = vec![
        MenuGroup::new("File").submenu(recent_files()),
        MenuGroup::new("Window").submenu(MenuGroup::new("Inner").item(MenuItem::new("recent_1", "One"))),
    ];
    assert_eq!(build_err(across), BuildError::DuplicateIdentifier);

    let nameless = MenuGroup::new("File").submenu(
        MenuGroup::new("Inner").submenu(MenuGroup::new("Innermost").item(MenuItem::new("", "Nameless"))),
    );
    assert_eq!(build_err(vec![nameless]), BuildError::EmptyIdentifier);

    let misspelled = MenuGroup::new("File")
        .submenu(MenuGroup::new("Inner").item(MenuItem::new("x", "X").with_accelerator("Ctrl+X")));
    assert_eq!(build_err(vec![misspelled]), BuildError::MalformedAccelerator);
}

#[test]
fn build_errors_say_what_is_wrong() {
    assert_eq!(BuildError::EmptyIdentifier.message(), "a menu item has an empty identifier");
    assert_eq!(
        BuildError::MalformedAccelerator.message(),
        "a menu item has a malformed accelerator"
    );
    assert_eq!(BuildError::DuplicateIdentifier.message(), "two menu items share an identifier");
}

#[test]
fn main_window_is_at_least_800_by_600() {
    assert_eq!(archive_menu::MIN_WINDOW_WIDTH, 800);
    assert_eq!(archive_menu::MIN_WINDOW_HEIGHT, 600);
}

#[test]
fn identifiers_are_listed_in_menu_order() {
    let tree = create_app_menu().unwrap();
    assert_eq!(
        tree.identifiers(),
        vec![
            "new_document",
            "search",
            "new_category",
            "manage_categories",
            "export_archive",
            "import_archive",
            "settings",
            "quit",
            "undo",
            "redo",
            "cut",
            "copy",
            "paste",
            "toggle_sidebar",
            "reload",
            "about",
        ]
    );
    assert_eq!(tree.identifiers(), ids_of(&tree));
    assert!(MenuTree::build(Vec::new()).unwrap().identifiers().is_empty());
}

#[test]
fn standard_table_and_menu_name_the_same_identifiers() {
    let tree = create_app_menu().unwrap();
    let table = archive_menu::DispatchTable::standard();
    let ids = tree.identifiers();
    assert_eq!(ids.len(), table.len());
    assert!(ids.iter().all(|id| table.contains(id)));
}
