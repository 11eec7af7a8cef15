//! Actions, and the table that maps menu identifiers to them.

use vstd::prelude::*;

use crate::identifiers::{app_identifiers, lemma_app_identifiers_distinct};

verus! {

/// What a menu selection asks of the application.
#[derive(Debug, PartialEq, Eq)]
pub enum Action {
    /// Broadcast the named event, with no payload, to whoever listens.
    EmitEvent(String),
    /// End the process with status 0.
    Exit,
    /// Do nothing: the identifier is not one of the application's own.
    Noop,
}

/// The mathematical value of an [`Action`].
pub enum ActionView {
    EmitEvent(Seq<char>),
    Exit,
    Noop,
}

impl View for Action {
    type V = ActionView;

    open spec fn view(&self) -> ActionView {
        match self {
            Action::EmitEvent(name) => ActionView::EmitEvent(name@),
            Action::Exit => ActionView::Exit,
            Action::Noop => ActionView::Noop,
        }
    }
}

impl Action {
    /// A copy of this action.
    pub fn duplicate(&self) -> (copy: Action)
        ensures
            copy@ == self@,
    {
        match self {
            Action::EmitEvent(name) => Action::EmitEvent(name.clone()),
            Action::Exit => Action::Exit,
            Action::Noop => Action::Noop,
        }
    }

    /// The name of the event to broadcast, if this action is one.
    pub fn event_name(&self) -> (name: Option<&str>)
        ensures
            match self@ {
                ActionView::EmitEvent(n) => name is Some && name.unwrap()@ == n,
                _ => name is None,
            },
    {
        match self {
            Action::EmitEvent(name) => Some(name.as_str()),
            _ => None,
        }
    }

    /// Whether this action ends the process.
    pub fn is_exit(&self) -> (exit: bool)
        ensures
            exit == (self@ == ActionView::Exit),
    {
        match self {
            Action::Exit => true,
            _ => false,
        }
    }
}

/// One line of a dispatch table: an identifier and the action bound to it.
pub struct Binding {
    pub id: String,
    pub action: Action,
}

impl View for Binding {
    type V = (Seq<char>, ActionView);

    open spec fn view(&self) -> (Seq<char>, ActionView) {
        (self.id@, self.action@)
    }
}

/// The action that `bindings` gives `id`, looking only at the lines from
/// `from` on: that of the first line whose identifier is `id`, and `Noop`
/// where there is none.
pub open spec fn resolve_from(
    bindings: Seq<(Seq<char>, ActionView)>,
    id: Seq<char>,
    from: int,
) -> ActionView
    decreases bindings.len() - from,
{
    if from < 0 || from >= bindings.len() {
        ActionView::Noop
    } else if bindings[from].0 == id {
        bindings[from].1
    } else {
        resolve_from(bindings, id, from + 1)
    }
}

/// The action that `bindings` gives `id`.
pub open spec fn resolve(bindings: Seq<(Seq<char>, ActionView)>, id: Seq<char>) -> ActionView {
    resolve_from(bindings, id, 0)
}

/// Whether some line of `bindings` names `id`.
pub open spec fn binds(bindings: Seq<(Seq<char>, ActionView)>, id: Seq<char>) -> bool {
    exists|i: int| 0 <= i < bindings.len() && (#[trigger] bindings[i]).0 == id
}

/// Whether `bindings` is a mapping: no two lines name the same identifier,
/// and none names the empty one.
pub open spec fn is_mapping(bindings: Seq<(Seq<char>, ActionView)>) -> bool {
    &&& forall|i: int, j: int|
        0 <= i < j < bindings.len() ==> (#[trigger] bindings[i]).0 != (#[trigger] bindings[j]).0
    &&& forall|i: int| 0 <= i < bindings.len() ==> (#[trigger] bindings[i]).0.len() > 0
}

/// The application's bindings, one line for each item of its menu and in
/// menu order: ten events for the front end, the exit, and `Noop` for each
/// of the five editing commands.
pub open spec fn standard_bindings() -> Seq<(Seq<char>, ActionView)> {
    seq![
        ("new_document"@, ActionView::EmitEvent("menu_new_document"@)),
        ("search"@, ActionView::EmitEvent("menu_search"@)),
        ("new_category"@, ActionView::EmitEvent("menu_new_category"@)),
        ("manage_categories"@, ActionView::EmitEvent("menu_manage_categories"@)),
        ("export_archive"@, ActionView::EmitEvent("menu_export_archive"@)),
        ("import_archive"@, ActionView::EmitEvent("menu_import_archive"@)),
        ("settings"@, ActionView::EmitEvent("menu_settings"@)),
        ("quit"@, ActionView::Exit),
        ("undo"@, ActionView::Noop),
        ("redo"@, ActionView::Noop),
        ("cut"@, ActionView::Noop),
        ("copy"@, ActionView::Noop),
        ("paste"@, ActionView::Noop),
        ("toggle_sidebar"@, ActionView::EmitEvent("menu_toggle_sidebar"@)),
        ("reload"@, ActionView::EmitEvent("menu_reload"@)),
        ("about"@, ActionView::EmitEvent("menu_about"@)),
    ]
}

/// Whether `id` is the identifier of one of the five editing commands, which
/// the application's table binds to `Noop`.
pub open spec fn is_editing_command(id: Seq<char>) -> bool {
    id == "undo"@ || id == "redo"@ || id == "cut"@ || id == "copy"@ || id == "paste"@
}

/// The action the application takes when the item named `id` is selected.
pub open spec fn action_for(id: Seq<char>) -> ActionView {
    resolve(standard_bindings(), id)
}

/// A mapping from menu identifiers to actions, read-only once it is filled.
pub struct DispatchTable {
    bindings: Vec<Binding>,
}

impl View for DispatchTable {
    type V = Seq<(Seq<char>, ActionView)>;

    closed spec fn view(&self) -> Seq<(Seq<char>, ActionView)> {
        Seq::new(self.bindings@.len(), |i: int| self.bindings@[i]@)
    }
}

impl DispatchTable {
    #[verifier::type_invariant]
    spec fn sound(self) -> bool {
        is_mapping(self@)
    }

    /// A table that binds nothing: every identifier resolves to `Noop`.
    pub fn new() -> (table: DispatchTable)
        ensures
            table@ == Seq::<(Seq<char>, ActionView)>::empty(),
    {
        let table = DispatchTable { bindings: Vec::new() };
        assert(table@ =~= Seq::<(Seq<char>, ActionView)>::empty());
        table
    }

    /// How many identifiers the table binds. Whatever table this is, it is
    /// a mapping.
    pub fn len(&self) -> (n: usize)
        ensures
            n == self@.len(),
            is_mapping(self@),
    {
        proof {
            use_type_invariant(self);
        }
        self.bindings.len()
    }

    /// Whether the table binds `id`.
    pub fn contains(&self, id: &str) -> (found: bool)
        ensures
            found == binds(self@, id@),
    {
        let key = id.to_owned();
        let mut i: usize = 0;
        while i < self.bindings.len()
            invariant
                i <= self.bindings@.len(),
                key@ == id@,
                forall|j: int| 0 <= j < i ==> (#[trigger] self@[j]).0 != id@,
            decreases self.bindings@.len() - i,
        {
            if self.bindings[i].id == key {
                assert(self@[i as int].0 == id@);
                return true;
            }
            i += 1;
        }
        false
    }

    /// The same table with `id` bound to `action`. Where `id` is empty or
    /// already bound, the table comes back as it was: the first binding of
    /// an identifier stands.
    pub fn bind(self, id: &str, action: Action) -> (table: DispatchTable)
        ensures
            table@ == if id@.len() > 0 && !binds(self@, id@) {
                self@.push((id@, action@))
            } else {
                self@
            },
    {
        if id.unicode_len() == 0 || self.contains(id) {
            return self;
        }
        proof {
            use_type_invariant(&self);
        }
        let mut bindings = self.bindings;
        bindings.push(Binding { id: id.to_owned(), action });
        assert(Seq::new(bindings@.len(), |i: int| bindings@[i]@) =~= self@.push((id@, action@)));
        DispatchTable { bindings }
    }

    /// The action bound to `id`, and `Noop` where the table binds none.
    pub fn resolve(&self, id: &str) -> (action: Action)
        ensures
            action@ == resolve(self@, id@),
    {
        let key = id.to_owned();
        let mut i: usize = 0;
        while i < self.bindings.len()
            invariant
                i <= self.bindings@.len(),
                key@ == id@,
                resolve(self@, id@) == resolve_from(self@, id@, i as int),
            decreases self.bindings@.len() - i,
        {
            if self.bindings[i].id == key {
                return self.bindings[i].action.duplicate();
            }
            i += 1;
        }
        Action::Noop
    }

    /// The application's own table.
    pub fn standard() -> (table: DispatchTable)
        ensures
            table@ == standard_bindings(),
    {
        let mut bindings: Vec<Binding> = Vec::new();
        bindings.push(emit("new_document", "menu_new_document"));
        bindings.push(emit("search", "menu_search"));
        bindings.push(emit("new_category", "menu_new_category"));
        bindings.push(emit("manage_categories", "menu_manage_categories"));
        bindings.push(emit("export_archive", "menu_export_archive"));
        bindings.push(emit("import_archive", "menu_import_archive"));
        bindings.push(emit("settings", "menu_settings"));
        bindings.push(Binding { id: "quit".to_owned(), action: Action::Exit });
        bindings.push(idle("undo"));
        bindings.push(idle("redo"));
        bindings.push(idle("cut"));
        bindings.push(idle("copy"));
        bindings.push(idle("paste"));
        bindings.push(emit("toggle_sidebar", "menu_toggle_sidebar"));
        bindings.push(emit("reload", "menu_reload"));
        bindings.push(emit("about", "menu_about"));
        proof {
            lemma_standard_bindings_distinct();
            assert(Seq::new(bindings@.len(), |i: int| bindings@[i]@) =~= standard_bindings());
        }
        DispatchTable { bindings }
    }
}

/// The identifiers of the application's table are the application's
/// identifiers, line by line.
pub proof fn lemma_standard_bindings_identifiers()
    ensures
        standard_bindings().len() == app_identifiers().len(),
        forall|i: int|
            0 <= i < standard_bindings().len() ==> (#[trigger] standard_bindings()[i]).0
                == app_identifiers()[i],
{
    let table = standard_bindings();
    let ids = app_identifiers();
    assert(table[0].0 == ids[0]);
    assert(table[1].0 == ids[1]);
    assert(table[2].0 == ids[2]);
    assert(table[3].0 == ids[3]);
    assert(table[4].0 == ids[4]);
    assert(table[5].0 == ids[5]);
    assert(table[6].0 == ids[6]);
    assert(table[7].0 == ids[7]);
    assert(table[8].0 == ids[8]);
    assert(table[9].0 == ids[9]);
    assert(table[10].0 == ids[10]);
    assert(table[11].0 == ids[11]);
    assert(table[12].0 == ids[12]);
    assert(table[13].0 == ids[13]);
    assert(table[14].0 == ids[14]);
    assert(table[15].0 == ids[15]);
}

/// The application's table is a mapping.
pub proof fn lemma_standard_bindings_distinct()
    ensures
        is_mapping(standard_bindings()),
{
    lemma_standard_bindings_identifiers();
    lemma_app_identifiers_distinct();
    let table = standard_bindings();
    let ids = app_identifiers();
    assert forall|i: int, j: int| 0 <= i < j < table.len() implies (#[trigger] table[i]).0 != (
    #[trigger] table[j]).0 by {
        assert(ids[i] != ids[j]);
    }
    assert forall|i: int| 0 <= i < table.len() implies (#[trigger] table[i]).0.len() > 0 by {
        assert(ids[i].len() > 0);
    }
}

/// A line that binds `id` to the broadcast of `event`.
fn emit(id: &str, event: &str) -> (line: Binding)
    ensures
        line@ == (id@, ActionView::EmitEvent(event@)),
{
    Binding { id: id.to_owned(), action: Action::EmitEvent(event.to_owned()) }
}

/// A line that binds `id` to `Noop`.
fn idle(id: &str) -> (line: Binding)
    ensures
        line@ == (id@, ActionView::Noop),
{
    Binding { id: id.to_owned(), action: Action::Noop }
}

/// Resolves the identifier of a selected menu item to the action the
/// application takes: that of the identifier's line in the application's
/// table, which has a line for each item of the application's menu. An
/// identifier that the table does not name, such as that of an item that the
/// platform put into the menu, resolves to `Noop`; that is no error.
pub fn handle_menu_event(event: &str) -> (action: Action)
    ensures
        action@ == action_for(event@),
{
    DispatchTable::standard().resolve(event)
}

} // verus!
