//! The menu tree: groups of items and separators, and how it is built.

use vstd::prelude::*;

use crate::accelerator::{parse_text, Accelerator};

verus! {

/// An item that the user can select.
#[derive(Debug)]
pub struct MenuItem {
    /// The key by which a selection is told to the dispatcher.
    pub id: String,
    /// The text shown.
    pub label: String,
    /// The keyboard shortcut as the window system spells it, such as
    /// `CmdOrCtrl+Shift+N`, if the item has one.
    pub accelerator: Option<String>,
}

/// The mathematical value of a [`MenuItem`].
pub struct ItemView {
    pub id: Seq<char>,
    pub label: Seq<char>,
    pub accelerator: Option<Seq<char>>,
}

impl View for MenuItem {
    type V = ItemView;

    open spec fn view(&self) -> ItemView {
        ItemView {
            id: self.id@,
            label: self.label@,
            accelerator: match self.accelerator {
                Some(text) => Some(text@),
                None => None,
            },
        }
    }
}

impl MenuItem {
    /// An item with this identifier and label, and no shortcut.
    pub fn new(id: &str, label: &str) -> (item: MenuItem)
        ensures
            item@ == (ItemView { id: id@, label: label@, accelerator: None }),
    {
        MenuItem { id: id.to_owned(), label: label.to_owned(), accelerator: None }
    }

    /// The same item with the shortcut that `text` spells. Whether `text`
    /// spells one is found out when the menu is built.
    pub fn with_accelerator(self, text: &str) -> (item: MenuItem)
        ensures
            item@ == (ItemView { id: self@.id, label: self@.label, accelerator: Some(text@) }),
    {
        MenuItem { id: self.id, label: self.label, accelerator: Some(text.to_owned()) }
    }
}

/// One line of a group: an item, the rule between two runs of items, or a
/// group inside the group.
#[derive(Debug)]
pub enum MenuEntry {
    Item(MenuItem),
    Separator,
    Submenu(MenuGroup),
}

/// The mathematical value of a [`MenuEntry`].
pub enum EntryView {
    Item(ItemView),
    Separator,
    Submenu(GroupView),
}

/// The value of one line.
pub open spec fn entry_view(entry: MenuEntry) -> EntryView
    decreases entry,
{
    match entry {
        MenuEntry::Item(item) => EntryView::Item(item@),
        MenuEntry::Separator => EntryView::Separator,
        MenuEntry::Submenu(group) => EntryView::Submenu(
            GroupView { label: group.label@, entries: entry_views(group.entries@) },
        ),
    }
}

/// The values of a run of lines, in order.
pub open spec fn entry_views(entries: Seq<MenuEntry>) -> Seq<EntryView>
    decreases entries,
{
    Seq::new(
        entries.len(),
        |i: int|
            if 0 <= i < entries.len() {
                entry_view(entries[i])
            } else {
                EntryView::Separator
            },
    )
}

impl View for MenuEntry {
    type V = EntryView;

    open spec fn view(&self) -> EntryView {
        entry_view(*self)
    }
}

/// A labelled group of entries, shown top to bottom in their order.
#[derive(Debug)]
pub struct MenuGroup {
    pub label: String,
    pub entries: Vec<MenuEntry>,
}

/// The mathematical value of a [`MenuGroup`].
pub struct GroupView {
    pub label: Seq<char>,
    pub entries: Seq<EntryView>,
}

/// The values of a run of groups, in order.
pub open spec fn group_views(groups: Seq<MenuGroup>) -> Seq<GroupView> {
    Seq::new(groups.len(), |i: int| groups[i]@)
}

impl View for MenuGroup {
    type V = GroupView;

    open spec fn view(&self) -> GroupView {
        GroupView { label: self.label@, entries: entry_views(self.entries@) }
    }
}

impl MenuGroup {
    /// A group with this label and nothing in it.
    pub fn new(label: &str) -> (group: MenuGroup)
        ensures
            group@ == (GroupView { label: label@, entries: Seq::empty() }),
    {
        let group = MenuGroup { label: label.to_owned(), entries: Vec::new() };
        assert(group@.entries =~= Seq::<EntryView>::empty());
        group
    }

    /// The same group with `item` as its new last line.
    pub fn item(self, item: MenuItem) -> (group: MenuGroup)
        ensures
            group@ == (GroupView {
                label: self@.label,
                entries: self@.entries.push(EntryView::Item(item@)),
            }),
    {
        let mut entries = self.entries;
        entries.push(MenuEntry::Item(item));
        let group = MenuGroup { label: self.label, entries };
        assert(group@.entries =~= self@.entries.push(EntryView::Item(item@)));
        group
    }

    /// The same group with `inner` as its new last line: a group inside the
    /// group.
    pub fn submenu(self, inner: MenuGroup) -> (group: MenuGroup)
        ensures
            group@ == (GroupView {
                label: self@.label,
                entries: self@.entries.push(EntryView::Submenu(inner@)),
            }),
    {
        let mut entries = self.entries;
        entries.push(MenuEntry::Submenu(inner));
        let group = MenuGroup { label: self.label, entries };
        assert(group@.entries =~= self@.entries.push(EntryView::Submenu(inner@)));
        group
    }

    /// The same group with a separator as its new last line.
    pub fn separator(self) -> (group: MenuGroup)
        ensures
            group@ == (GroupView {
                label: self@.label,
                entries: self@.entries.push(EntryView::Separator),
            }),
    {
        let mut entries = self.entries;
        entries.push(MenuEntry::Separator);
        let group = MenuGroup { label: self.label, entries };
        assert(group@.entries =~= self@.entries.push(EntryView::Separator));
        group
    }
}

/// The items among `entries` and inside the groups among them, in the order
/// in which the menu shows them.
pub open spec fn group_items(entries: Seq<EntryView>) -> Seq<ItemView>
    decreases entries,
{
    if entries.len() == 0 {
        Seq::empty()
    } else {
        let before = group_items(entries.drop_last());
        match entries.last() {
            EntryView::Item(item) => before.push(item),
            EntryView::Separator => before,
            EntryView::Submenu(inner) => before + group_items(inner.entries),
        }
    }
}

/// The items of all of `groups`, in the order in which the menu shows them.
pub open spec fn tree_items(groups: Seq<GroupView>) -> Seq<ItemView>
    decreases groups.len(),
{
    if groups.len() == 0 {
        Seq::empty()
    } else {
        tree_items(groups.drop_last()) + group_items(groups.last().entries)
    }
}

/// The identifiers of all items of `groups`, in menu order.
pub open spec fn identifiers(groups: Seq<GroupView>) -> Seq<Seq<char>> {
    tree_items(groups).map_values(|item: ItemView| item.id)
}

/// Why a menu could not be built.
#[derive(Clone, Copy, Debug, PartialEq, Eq, Structural)]
pub enum BuildError {
    /// An item has the empty identifier.
    EmptyIdentifier,
    /// The text of an item's shortcut spells no shortcut in this library's
    /// spelling, see [`crate::accelerator::parse_text`].
    MalformedAccelerator,
    /// Two items share an identifier.
    DuplicateIdentifier,
}

impl BuildError {
    /// What the error says, in words.
    pub open spec fn description(self) -> Seq<char> {
        match self {
            BuildError::EmptyIdentifier => "a menu item has an empty identifier"@,
            BuildError::MalformedAccelerator => "a menu item has a malformed accelerator"@,
            BuildError::DuplicateIdentifier => "two menu items share an identifier"@,
        }
    }

    /// What the error says, in words.
    pub fn message(&self) -> (text: String)
        ensures
            text@ == self.description(),
    {
        match self {
            BuildError::EmptyIdentifier => "a menu item has an empty identifier".to_owned(),
            BuildError::MalformedAccelerator => "a menu item has a malformed accelerator".to_owned(),
            BuildError::DuplicateIdentifier => "two menu items share an identifier".to_owned(),
        }
    }
}

/// Whether `item` has a shortcut whose text spells none.
pub open spec fn malformed(item: ItemView) -> bool {
    item.accelerator is Some && parse_text(item.accelerator.unwrap()) is None
}

pub open spec fn has_empty_identifier(items: Seq<ItemView>) -> bool {
    exists|i: int| 0 <= i < items.len() && (#[trigger] items[i]).id.len() == 0
}

pub open spec fn has_malformed_accelerator(items: Seq<ItemView>) -> bool {
    exists|i: int| 0 <= i < items.len() && malformed(#[trigger] items[i])
}

pub open spec fn has_duplicate_identifier(items: Seq<ItemView>) -> bool {
    exists|i: int, j: int|
        0 <= i < j < items.len() && (#[trigger] items[i]).id == (#[trigger] items[j]).id
}

/// What is wrong with a menu of these groups, if anything. Where several
/// things are, an empty identifier is told before a malformed shortcut, and
/// that before a shared identifier.
pub open spec fn defect(groups: Seq<GroupView>) -> Option<BuildError> {
    let items = tree_items(groups);
    if has_empty_identifier(items) {
        Some(BuildError::EmptyIdentifier)
    } else if has_malformed_accelerator(items) {
        Some(BuildError::MalformedAccelerator)
    } else if has_duplicate_identifier(items) {
        Some(BuildError::DuplicateIdentifier)
    } else {
        None
    }
}

/// The identifiers of a menu without defect are all different.
pub proof fn lemma_distinct(groups: Seq<GroupView>)
    requires
        defect(groups) is None,
    ensures
        identifiers(groups).no_duplicates(),
{
    let items = tree_items(groups);
    let ids = identifiers(groups);
    assert forall|i: int, j: int| 0 <= i < ids.len() && 0 <= j < ids.len() && i != j implies ids[i]
        != ids[j] by {
        if i < j {
            assert(items[i].id != items[j].id);
        } else {
            assert(items[j].id != items[i].id);
        }
    }
}

/// The values of a run of texts, in order.
pub open spec fn text_views(texts: Seq<String>) -> Seq<Seq<char>> {
    Seq::new(texts.len(), |i: int| texts[i]@)
}

/// The values of a run of borrowed items, in order.
pub open spec fn item_views(items: Seq<&MenuItem>) -> Seq<ItemView> {
    Seq::new(items.len(), |i: int| items[i]@)
}

/// Adds the items among `entries`, and inside the groups among them, to
/// `items`, in menu order.
fn collect_entries<'a>(entries: &'a Vec<MenuEntry>, items: &mut Vec<&'a MenuItem>)
    ensures
        item_views(final(items)@) == item_views(old(items)@) + group_items(entry_views(entries@)),
    decreases entries,
{
    let ghost start = item_views(items@);
    let ghost lines = entry_views(entries@);
    let mut e: usize = 0;
    assert(lines.take(0) =~= Seq::<EntryView>::empty());
    assert(item_views(items@) =~= start + group_items(lines.take(0)));
    while e < entries.len()
        invariant
            e <= entries@.len(),
            lines == entry_views(entries@),
            item_views(items@) =~= start + group_items(lines.take(e as int)),
        decreases entries@.len() - e,
    {
        let ghost before = item_views(items@);
        proof {
            assert(lines.take(e + 1).drop_last() =~= lines.take(e as int));
            assert(lines.take(e + 1).last() == entry_view(entries@[e as int]));
        }
        match &entries[e] {
            MenuEntry::Item(item) => {
                items.push(item);
                assert(item_views(items@) =~= before.push(item@));
                assert(group_items(lines.take(e + 1)) == group_items(lines.take(e as int)).push(
                    item@,
                ));
            },
            MenuEntry::Separator => {
                assert(group_items(lines.take(e + 1)) == group_items(lines.take(e as int)));
            },
            MenuEntry::Submenu(inner) => {
                collect_entries(&inner.entries, items);
                assert(group_items(lines.take(e + 1)) == group_items(lines.take(e as int))
                    + group_items(entry_views(inner.entries@)));
            },
        }
        e += 1;
    }
    assert(lines.take(e as int) =~= lines);
}

/// The items of `groups`, in menu order.
fn collect_items(groups: &Vec<MenuGroup>) -> (items: Vec<&MenuItem>)
    ensures
        item_views(items@) == tree_items(group_views(groups@)),
{
    let ghost all = group_views(groups@);
    let mut items: Vec<&MenuItem> = Vec::new();
    let mut g: usize = 0;
    assert(all.take(0) =~= Seq::<GroupView>::empty());
    assert(item_views(items@) =~= tree_items(all.take(0)));
    while g < groups.len()
        invariant
            g <= groups@.len(),
            all == group_views(groups@),
            item_views(items@) =~= tree_items(all.take(g as int)),
        decreases groups@.len() - g,
    {
        collect_entries(&groups[g].entries, &mut items);
        proof {
            assert(all.take(g + 1).drop_last() =~= all.take(g as int));
            assert(all.take(g + 1).last() == groups@[g as int]@);
        }
        g += 1;
    }
    assert(all.take(g as int) =~= all);
    items
}

/// Looks for an item with the empty identifier.
fn any_empty_identifier(items: &Vec<&MenuItem>) -> (found: bool)
    ensures
        found == has_empty_identifier(item_views(items@)),
{
    let mut i: usize = 0;
    while i < items.len()
        invariant
            i <= items@.len(),
            forall|k: int| 0 <= k < i ==> (#[trigger] item_views(items@)[k]).id.len() != 0,
        decreases items@.len() - i,
    {
        if items[i].id.as_str().unicode_len() == 0 {
            assert(item_views(items@)[i as int].id.len() == 0);
            return true;
        }
        i += 1;
    }
    false
}

/// Looks for an item whose shortcut text spells no shortcut.
fn any_malformed_accelerator(items: &Vec<&MenuItem>) -> (found: bool)
    ensures
        found == has_malformed_accelerator(item_views(items@)),
{
    let mut i: usize = 0;
    while i < items.len()
        invariant
            i <= items@.len(),
            forall|k: int| 0 <= k < i ==> !malformed(#[trigger] item_views(items@)[k]),
        decreases items@.len() - i,
    {
        let bad = match &items[i].accelerator {
            Some(text) => Accelerator::parse(text.as_str()).is_none(),
            None => false,
        };
        if bad {
            assert(malformed(item_views(items@)[i as int]));
            return true;
        }
        i += 1;
    }
    false
}

/// Looks for two items with one identifier.
fn any_duplicate_identifier(items: &Vec<&MenuItem>) -> (found: bool)
    ensures
        found == has_duplicate_identifier(item_views(items@)),
{
    let ghost views = item_views(items@);
    let mut j: usize = 0;
    while j < items.len()
        invariant
            j <= items@.len(),
            views == item_views(items@),
            forall|a: int, b: int|
                0 <= a < b < j ==> (#[trigger] views[a]).id != (#[trigger] views[b]).id,
        decreases items@.len() - j,
    {
        let mut i: usize = 0;
        while i < j
            invariant
                i <= j < items@.len(),
                views == item_views(items@),
                forall|a: int| 0 <= a < i ==> (#[trigger] views[a]).id != views[j as int].id,
            decreases j - i,
        {
            if items[i].id == items[j].id {
                assert(views[i as int].id == views[j as int].id);
                return true;
            }
            i += 1;
        }
        j += 1;
    }
    false
}

/// A menu: groups of items, separators and inner groups, in a fixed order.
/// A value of this type cannot be changed once it is built, and none has a
/// defect, see [`MenuTree::well_formed`].
#[derive(Debug)]
pub struct MenuTree {
    groups: Vec<MenuGroup>,
}

impl View for MenuTree {
    type V = Seq<GroupView>;

    closed spec fn view(&self) -> Seq<GroupView> {
        group_views(self.groups@)
    }
}

impl MenuTree {
    #[verifier::type_invariant]
    spec fn sound(self) -> bool {
        defect(group_views(self.groups@)) is None
    }

    /// A menu is well formed when it has no defect: every item has a
    /// non-empty identifier that no other item has, and no shortcut or
    /// one whose text spells a shortcut.
    pub open spec fn well_formed(&self) -> bool {
        defect(self@) is None
    }

    /// Builds the menu of these groups, or says what is wrong with them.
    /// Nothing is built in part: either the whole menu comes back, or the
    /// defect.
    pub fn build(groups: Vec<MenuGroup>) -> (built: Result<MenuTree, BuildError>)
        ensures
            built is Ok <==> defect(group_views(groups@)) is None,
            match built {
                Ok(tree) => tree@ == group_views(groups@) && tree.well_formed(),
                Err(error) => defect(group_views(groups@)) == Some(error),
            },
    {
        let found = {
            let items = collect_items(&groups);
            if any_empty_identifier(&items) {
                Some(BuildError::EmptyIdentifier)
            } else if any_malformed_accelerator(&items) {
                Some(BuildError::MalformedAccelerator)
            } else if any_duplicate_identifier(&items) {
                Some(BuildError::DuplicateIdentifier)
            } else {
                None
            }
        };
        match found {
            Some(error) => Err(error),
            None => Ok(MenuTree { groups }),
        }
    }

    /// The item with the identifier `id`, if the menu has one.
    pub fn find_item(&self, id: &str) -> (found: Option<&MenuItem>)
        ensures
            match found {
                Some(item) => item@.id == id@ && tree_items(self@).contains(item@),
                None => !identifiers(self@).contains(id@),
            },
    {
        let items = collect_items(&self.groups);
        let key = id.to_owned();
        let ghost views = item_views(items@);
        let mut i: usize = 0;
        while i < items.len()
            invariant
                i <= items@.len(),
                key@ == id@,
                views == item_views(items@),
                views == tree_items(self@),
                forall|k: int| 0 <= k < i ==> (#[trigger] views[k]).id != id@,
            decreases items@.len() - i,
        {
            if items[i].id == key {
                assert(views[i as int] == items@[i as int]@);
                return Some(items[i]);
            }
            i += 1;
        }
        assert forall|k: int| 0 <= k < identifiers(self@).len() implies identifiers(self@)[k]
            != id@ by {
            assert(views[k].id != id@);
        }
        None
    }

    /// The identifiers of the items, in menu order. No two of them are the
    /// same, and none is empty.
    pub fn identifiers(&self) -> (ids: Vec<String>)
        ensures
            text_views(ids@) == identifiers(self@),
            identifiers(self@).no_duplicates(),
            forall|i: int| 0 <= i < ids@.len() ==> (#[trigger] ids@[i])@.len() > 0,
    {
        let items = collect_items(&self.groups);
        let ghost views = item_views(items@);
        let mut ids: Vec<String> = Vec::new();
        let mut i: usize = 0;
        while i < items.len()
            invariant
                i <= items@.len(),
                ids@.len() == i,
                views == item_views(items@),
                forall|k: int| 0 <= k < i ==> (#[trigger] ids@[k])@ == views[k].id,
            decreases items@.len() - i,
        {
            ids.push(items[i].id.clone());
            i += 1;
        }
        proof {
            use_type_invariant(self);
            lemma_distinct(self@);
            assert(text_views(ids@) =~= identifiers(self@));
            assert forall|k: int| 0 <= k < ids@.len() implies (#[trigger] ids@[k])@.len() > 0 by {
                assert(views[k].id.len() != 0);
            }
        }
        ids
    }

    /// The groups, in menu order. Whatever menu this is, it has no defect:
    /// in particular no two of its items share an identifier.
    pub fn groups(&self) -> (groups: &Vec<MenuGroup>)
        ensures
            group_views(groups@) == self@,
            self.well_formed(),
            identifiers(self@).no_duplicates(),
    {
        proof {
            use_type_invariant(self);
            lemma_distinct(self@);
        }
        &self.groups
    }
}

} // verus!
