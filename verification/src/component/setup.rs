//! The setup screen: a registry of named text fields, of which at most one
//! is focused, and the keys that move the focus between them.

use crate::component::reusable::text_field::{
    TextField, TextFieldEvent, TextFieldEventView, TextFieldView,
};
use crate::component::reusable::text_field;
use crate::input::{handled, not_handled, view_of, InputHandled, KeyCode, KeyEvent};
use crate::text::str_eq;
use vstd::prelude::*;

verus! {

/// Where key input goes: to no field, or to the field of a given name.
#[derive(Debug)]
pub enum FocusState {
    Global,
    Field(String),
}

/// A focus state with its name as a sequence of characters.
pub enum FocusStateView {
    Global,
    Field(Seq<char>),
}

impl View for FocusState {
    type V = FocusStateView;

    open spec fn view(&self) -> FocusStateView {
        match self {
            FocusState::Global => FocusStateView::Global,
            FocusState::Field(name) => FocusStateView::Field(name@),
        }
    }
}

impl FocusState {
    /// The name of the scope that owns the input: the field's name, or
    /// `global` where no field is focused.
    pub fn scope_name(&self) -> (name: String)
        ensures
            name@ == match self@ {
                FocusStateView::Global => "global"@,
                FocusStateView::Field(field) => field,
            },
    {
        match self {
            FocusState::Global => "global".to_owned(),
            FocusState::Field(name) => name.clone(),
        }
    }
}

/// A request to the setup screen.
#[derive(Debug)]
pub enum SetupEvent {
    /// Set the committed value of the named field.
    ChangeSetupValue(String, String),
    /// An event for, or from, one of the fields.
    SetupFieldEvent(TextFieldEvent),
    /// Focus the named field, or none.
    Focus(Option<String>),
}

/// A request to the setup screen as plain values.
pub enum SetupEventView {
    ChangeSetupValue(Seq<char>, Seq<char>),
    SetupFieldEvent(TextFieldEventView),
    Focus(Option<Seq<char>>),
}

impl View for SetupEvent {
    type V = SetupEventView;

    open spec fn view(&self) -> SetupEventView {
        match self {
            SetupEvent::ChangeSetupValue(name, value) => SetupEventView::ChangeSetupValue(
                name@,
                value@,
            ),
            SetupEvent::SetupFieldEvent(e) => SetupEventView::SetupFieldEvent(e@),
            SetupEvent::Focus(name) => SetupEventView::Focus(view_of(*name)),
        }
    }
}

impl Clone for SetupEvent {
    fn clone(&self) -> (out: Self)
        ensures
            out@ == self@,
    {
        match self {
            SetupEvent::ChangeSetupValue(name, value) => SetupEvent::ChangeSetupValue(
                name.clone(),
                value.clone(),
            ),
            SetupEvent::SetupFieldEvent(e) => SetupEvent::SetupFieldEvent(e.clone()),
            SetupEvent::Focus(name) => SetupEvent::Focus(
                match name {
                    Some(n) => Some(n.clone()),
                    None => None,
                },
            ),
        }
    }
}

/// The name that stands for the scope in which no field is focused. No field
/// may bear it.
pub open spec fn is_reserved(name: Seq<char>) -> bool {
    name == "global"@
}

/// Whether a name may be given to a field: it is not empty and not reserved.
pub open spec fn is_field_name(name: Seq<char>) -> bool {
    name.len() > 0 && !is_reserved(name)
}

/// Whether the field at place `i` exists and bears `name`.
pub open spec fn named(fields: Seq<TextFieldView>, i: int, name: Seq<char>) -> bool {
    0 <= i < fields.len() && fields[i].name == name
}

/// The fields of a list as plain values, in order.
pub open spec fn field_views(fields: Seq<TextField>) -> Seq<TextFieldView> {
    fields.map_values(|f: TextField| f@)
}

/// A field at rest with the given committed value.
pub open spec fn fresh_field(name: Seq<char>, label: Seq<char>, value: Seq<char>) -> TextFieldView {
    TextFieldView { name, label, value, input: Seq::empty(), cursor: 0, editing: false }
}

/// The place before `i` in a cycle of `len` places.
pub open spec fn cycle_previous(i: int, len: int) -> int {
    if i == 0 {
        len - 1
    } else {
        i - 1
    }
}

/// The place after `i` in a cycle of `len` places.
pub open spec fn cycle_next(i: int, len: int) -> int {
    (i + 1) % len
}

/// The setup screen as plain values.
pub struct SetupView {
    /// The fields, in the order in which they were added.
    pub fields: Seq<TextFieldView>,
    /// The name of the focused field.
    pub focused: Option<Seq<char>>,
}

impl SetupView {
    /// Whether a field bears `name`.
    pub open spec fn has(self, name: Seq<char>) -> bool {
        exists|i: int| named(self.fields, i, name)
    }

    /// The place of the field that bears `name`.
    pub open spec fn index_of(self, name: Seq<char>) -> int {
        choose|i: int| named(self.fields, i, name)
    }

    /// The names of the fields, in order.
    pub open spec fn names(self) -> Seq<Seq<char>> {
        self.fields.map_values(|f: TextFieldView| f.name)
    }

    /// Every field is well formed and bears a name of its own that is
    /// neither empty nor reserved, and the focused name is that of a field.
    pub open spec fn wf(self) -> bool {
        &&& forall|i: int|
            0 <= i < self.fields.len() ==> (#[trigger] self.fields[i]).wf() && is_field_name(
                self.fields[i].name,
            )
        &&& forall|i: int, j: int|
            0 <= i < j < self.fields.len() ==> (#[trigger] self.fields[i]).name != (
            #[trigger] self.fields[j]).name
        &&& self.focused matches Some(name) ==> self.has(name)
    }

    /// The field that bears `name`.
    pub open spec fn field(self, name: Seq<char>) -> TextFieldView {
        self.fields[self.index_of(name)]
    }

    /// The committed value of the field that bears `name`.
    pub open spec fn get(self, name: Seq<char>) -> Seq<char> {
        self.field(name).value
    }

    /// The registry with the field that bears `name` replaced.
    pub open spec fn with_field(self, name: Seq<char>, field: TextFieldView) -> SetupView {
        SetupView { fields: self.fields.update(self.index_of(name), field), ..self }
    }

    /// Sets the committed value of the field that bears `name`.
    pub open spec fn set(self, name: Seq<char>, value: Seq<char>) -> SetupView {
        self.with_field(name, TextFieldView { value, ..self.field(name) })
    }

    /// Adds a field at rest behind the others.
    pub open spec fn add(self, name: Seq<char>, label: Seq<char>, value: Seq<char>) -> SetupView {
        SetupView { fields: self.fields.push(fresh_field(name, label, value)), ..self }
    }

    /// Adds a field at rest, or puts one in the place of the field that
    /// bears the name already.
    pub open spec fn put(self, name: Seq<char>, label: Seq<char>, value: Seq<char>) -> SetupView {
        if self.has(name) {
            self.with_field(name, fresh_field(name, label, value))
        } else {
            self.add(name, label, value)
        }
    }

    /// Focuses the field that bears `name`.
    pub open spec fn focus(self, name: Seq<char>) -> SetupView {
        SetupView { focused: Some(name), ..self }
    }

    /// Takes the focus from every field.
    pub open spec fn unfocus(self) -> SetupView {
        SetupView { focused: None, ..self }
    }

    /// Where key input goes.
    pub open spec fn focus_state(self) -> FocusStateView {
        match self.focused {
            Some(name) => FocusStateView::Field(name),
            None => FocusStateView::Global,
        }
    }

    /// Whether the focused field is being edited.
    pub open spec fn is_editing(self) -> bool {
        match self.focused {
            Some(name) => self.field(name).editing,
            None => false,
        }
    }

    /// Whether a request can be applied: the field it names must exist.
    pub open spec fn accepts(self, e: SetupEventView) -> bool {
        match e {
            SetupEventView::ChangeSetupValue(name, _) => self.has(name),
            SetupEventView::SetupFieldEvent(event) => self.has(event.name),
            SetupEventView::Focus(Some(name)) => self.has(name),
            SetupEventView::Focus(None) => true,
        }
    }

    /// The screen after a request.
    pub open spec fn apply(self, e: SetupEventView) -> SetupView {
        match e {
            SetupEventView::ChangeSetupValue(name, value) => self.set(name, value),
            SetupEventView::SetupFieldEvent(event) => self.with_field(
                event.name,
                self.field(event.name).apply(event.event_type),
            ),
            SetupEventView::Focus(name) => SetupView { focused: name, ..self },
        }
    }

    /// What the screen asks for after a request: what the field asks for,
    /// where the request went to a field.
    pub open spec fn follow_up(self, e: SetupEventView) -> Option<SetupEventView> {
        match e {
            SetupEventView::SetupFieldEvent(event) => match self.field(event.name).follow_up(
                event.event_type,
            ) {
                Some(next) => Some(SetupEventView::SetupFieldEvent(next)),
                None => None,
            },
            _ => None,
        }
    }

    /// What an arrow key asks for: the focus goes to the first field where
    /// none is focused, and otherwise to the neighbour of the focused field,
    /// round the ends. A registry without fields has nothing to focus.
    pub open spec fn arrow_target(self, up: bool) -> Option<Seq<char>> {
        if self.fields.len() == 0 {
            None
        } else {
            match self.focused {
                None => Some(self.fields[0].name),
                Some(name) => {
                    let i = self.index_of(name);
                    let len = self.fields.len() as int;
                    Some(
                        self.fields[if up {
                            cycle_previous(i, len)
                        } else {
                            cycle_next(i, len)
                        }].name,
                    )
                },
            }
        }
    }

    /// What a key means to the screen itself, once the focused field has
    /// declined it.
    pub open spec fn screen_key(self, key: KeyEvent) -> InputHandled<SetupEventView> {
        match key.code {
            KeyCode::Up => match self.arrow_target(true) {
                Some(name) => InputHandled::Handled(Some(SetupEventView::Focus(Some(name)))),
                None => InputHandled::NotHandled,
            },
            KeyCode::Down => match self.arrow_target(false) {
                Some(name) => InputHandled::Handled(Some(SetupEventView::Focus(Some(name)))),
                None => InputHandled::NotHandled,
            },
            KeyCode::Esc => if self.focused is Some {
                InputHandled::Handled(Some(SetupEventView::Focus(None)))
            } else {
                InputHandled::NotHandled
            },
            _ => InputHandled::NotHandled,
        }
    }

    /// What the focused field says of a key; nothing is handled where no
    /// field is focused.
    pub open spec fn field_key(self, key: KeyEvent) -> InputHandled<SetupEventView> {
        match self.focused {
            Some(name) => match self.field(name).on_key(key) {
                InputHandled::Handled(Some(event)) => InputHandled::Handled(
                    Some(SetupEventView::SetupFieldEvent(event)),
                ),
                InputHandled::Handled(None) => InputHandled::Handled(None),
                InputHandled::NotHandled => InputHandled::NotHandled,
            },
            None => InputHandled::NotHandled,
        }
    }

    /// The answer of the screen to a key: that of the focused field where
    /// it handles the key, and that of the screen itself otherwise.
    pub open spec fn on_key(self, key: KeyEvent) -> InputHandled<SetupEventView> {
        if self.field_key(key) is Handled {
            self.field_key(key)
        } else {
            self.screen_key(key)
        }
    }
}

/// In a well-formed registry a name is borne by one field only.
pub proof fn lemma_index_of(view: SetupView, i: int, name: Seq<char>)
    requires
        view.wf(),
        named(view.fields, i, name),
    ensures
        view.has(name),
        view.index_of(name) == i,
{
    let j = view.index_of(name);
    assert(named(view.fields, j, name));
    if i < j {
        assert(view.fields[i].name != view.fields[j].name);
    }
    if j < i {
        assert(view.fields[j].name != view.fields[i].name);
    }
}

/// Replacing a field by a well-formed one of the same name keeps the
/// registry well formed and its names in place.
pub proof fn lemma_with_field(view: SetupView, name: Seq<char>, field: TextFieldView)
    requires
        view.wf(),
        view.has(name),
        field.wf(),
        field.name == name,
    ensures
        view.with_field(name, field).wf(),
        view.with_field(name, field).names() == view.names(),
        view.with_field(name, field).field(name) == field,
        forall|other: Seq<char>| view.has(other) == view.with_field(name, field).has(other),
{
    let after = view.with_field(name, field);
    let at = view.index_of(name);
    assert(named(view.fields, at, name));
    assert(after.names() =~= view.names());
    assert forall|other: Seq<char>| view.has(other) == after.has(other) by {
        if view.has(other) {
            let k = view.index_of(other);
            assert(named(view.fields, k, other));
            assert(named(after.fields, k, other));
        }
        if after.has(other) {
            let k = after.index_of(other);
            assert(named(after.fields, k, other));
            assert(named(view.fields, k, other));
        }
    }
    assert forall|i: int, j: int| 0 <= i < j < after.fields.len() implies (
    #[trigger] after.fields[i]).name != (#[trigger] after.fields[j]).name by {
        assert(view.fields[i].name != view.fields[j].name);
    }
    assert forall|i: int| 0 <= i < after.fields.len() implies (#[trigger] after.fields[i]).wf()
        && is_field_name(after.fields[i].name) by {
        assert(view.fields[i].wf() && is_field_name(view.fields[i].name));
    }
    assert(named(after.fields, at, name));
    lemma_index_of(after, at, name);
}

/// Adding a field under a fresh name keeps the registry well formed.
pub proof fn lemma_add(view: SetupView, name: Seq<char>, label: Seq<char>, value: Seq<char>)
    requires
        view.wf(),
        is_field_name(name),
        !view.has(name),
    ensures
        view.add(name, label, value).wf(),
        view.add(name, label, value).has(name),
        view.add(name, label, value).field(name) == fresh_field(name, label, value),
        forall|other: Seq<char>| view.has(other) ==> view.add(name, label, value).has(other),
{
    let after = view.add(name, label, value);
    let last = view.fields.len() as int;
    assert(named(after.fields, last, name));
    assert forall|other: Seq<char>| view.has(other) implies after.has(other) by {
        let k = view.index_of(other);
        assert(named(view.fields, k, other));
        assert(named(after.fields, k, other));
    }
    assert forall|i: int, j: int| 0 <= i < j < after.fields.len() implies (
    #[trigger] after.fields[i]).name != (#[trigger] after.fields[j]).name by {
        if j == last {
            assert(!named(view.fields, i, name));
        } else {
            assert(view.fields[i].name != view.fields[j].name);
        }
    }
    assert forall|i: int| 0 <= i < after.fields.len() implies (#[trigger] after.fields[i]).wf()
        && is_field_name(after.fields[i].name) by {
        if i < last {
            assert(view.fields[i].wf() && is_field_name(view.fields[i].name));
        }
    }
    lemma_index_of(after, last, name);
}

/// Registries with the same names accept the same requests.
pub proof fn lemma_setup_accepts(a: SetupView, b: SetupView, e: SetupEventView)
    requires
        a.names() == b.names(),
        a.accepts(e),
    ensures
        b.accepts(e),
{
    let name = match e {
        SetupEventView::ChangeSetupValue(n, _) => n,
        SetupEventView::SetupFieldEvent(event) => event.name,
        SetupEventView::Focus(Some(n)) => n,
        SetupEventView::Focus(None) => Seq::empty(),
    };
    if a.has(name) {
        let k = a.index_of(name);
        assert(named(a.fields, k, name));
        assert(a.names()[k] == name);
        assert(b.names()[k] == name);
        assert(b.fields.len() == b.names().len());
        assert(named(b.fields, k, name));
    }
}

/// The setup screen.
pub struct Setup {
    fields: Vec<TextField>,
    focused: Option<String>,
}

impl View for Setup {
    type V = SetupView;

    closed spec fn view(&self) -> SetupView {
        SetupView { fields: field_views(self.fields@), focused: view_of(self.focused) }
    }
}

impl Setup {
    /// A registry without fields and without focus.
    pub fn default() -> (setup: Setup)
        ensures
            setup@ == (SetupView { fields: Seq::empty(), focused: None }),
            setup@.wf(),
    {
        let setup = Setup { fields: Vec::new(), focused: None };
        assert(setup@.fields =~= Seq::empty());
        setup
    }

    /// The names of the fields that `init` sets up, in their order.
    pub fn get_field_names() -> (names: Vec<&'static str>)
        ensures
            names@.len() == 3,
            names@[0]@ == "project_id"@,
            names@[1]@ == "host"@,
            names@[2]@ == "port"@,
    {
        vec!["project_id", "host", "port"]
    }

    /// The place of the field that bears `name`, if there is one.
    pub fn position(&self, name: &str) -> (place: Option<usize>)
        ensures
            match place {
                Some(i) => named(self@.fields, i as int, name@),
                None => !self@.has(name@),
            },
    {
        let mut i: usize = 0;
        while i < self.fields.len()
            invariant
                i <= self.fields.len(),
                self@.fields.len() == self.fields.len(),
                forall|k: int| 0 <= k < i ==> !named(self@.fields, k, name@),
            decreases self.fields.len() - i,
        {
            if str_eq(self.fields[i].name().as_str(), name) {
                return Some(i);
            }
            i += 1;
        }
        None
    }

    /// Whether a field bears `name`.
    pub fn contains(&self, name: &str) -> (r: bool)
        ensures
            r == self@.has(name@),
    {
        self.position(name).is_some()
    }

    /// Whether a request can be applied.
    pub fn accepts(&self, e: &SetupEvent) -> (r: bool)
        ensures
            r == self@.accepts(e@),
    {
        match e {
            SetupEvent::ChangeSetupValue(name, _) => self.contains(name.as_str()),
            SetupEvent::SetupFieldEvent(event) => self.contains(event.name.as_str()),
            SetupEvent::Focus(Some(name)) => self.contains(name.as_str()),
            SetupEvent::Focus(None) => true,
        }
    }

    /// Number of fields.
    pub fn len(&self) -> (n: usize)
        ensures
            n == self@.fields.len(),
    {
        self.fields.len()
    }

    /// The field at a place of the registry.
    pub fn field_at(&self, i: usize) -> (field: &TextField)
        requires
            i < self@.fields.len(),
        ensures
            field@ == self@.fields[i as int],
    {
        &self.fields[i]
    }

    /// The field that bears `name`.
    pub fn field(&self, name: &str) -> (field: &TextField)
        requires
            self@.wf(),
            self@.has(name@),
        ensures
            field@ == self@.field(name@),
    {
        let place = self.position(name);
        let i: usize = place.unwrap();
        proof {
            lemma_index_of(self@, i as int, name@);
        }
        &self.fields[i]
    }

    /// The name of the focused field.
    pub fn focused(&self) -> (r: &Option<String>)
        ensures
            view_of(*r) == self@.focused,
    {
        &self.focused
    }

    /// Whether the focused field is being edited.
    pub fn is_editing(&self) -> (r: bool)
        requires
            self@.wf(),
        ensures
            r == self@.is_editing(),
    {
        match &self.focused {
            Some(name) => self.field(name.as_str()).is_editing(),
            None => false,
        }
    }

    /// Where key input goes.
    pub fn focus_state(&self) -> (state: FocusState)
        ensures
            state@ == self@.focus_state(),
    {
        match &self.focused {
            Some(name) => FocusState::Field(name.clone()),
            None => FocusState::Global,
        }
    }

    /// The committed value of the field that bears `name`.
    pub fn get(&self, name: &str) -> (value: String)
        requires
            self@.wf(),
            self@.has(name@),
        ensures
            value@ == self@.get(name@),
    {
        self.field(name).value().clone()
    }

    /// Sets the committed value of the field that bears `name`.
    pub fn set(&mut self, name: &str, value: String)
        requires
            old(self)@.wf(),
            old(self)@.has(name@),
        ensures
            final(self)@ == old(self)@.set(name@, value@),
            final(self)@.wf(),
            final(self)@.names() == old(self)@.names(),
    {
        let place = self.position(name);
        let i: usize = place.unwrap();
        proof {
            lemma_index_of(self@, i as int, name@);
            lemma_with_field(
                self@,
                name@,
                TextFieldView { value: value@, ..self@.fields[i as int] },
            );
        }
        self.fields[i].set_value(value);
        assert(self@.fields =~= old(self)@.fields.update(
            i as int,
            TextFieldView { value: value@, ..old(self)@.fields[i as int] },
        ));
    }

    /// Whether a name may be given to a field.
    pub fn is_field_name(name: &str) -> (r: bool)
        ensures
            r == is_field_name(name@),
    {
        !name.is_empty() && !str_eq(name, "global")
    }

    /// Adds a field at rest behind the others. The name must be a field
    /// name that no field bears yet.
    pub fn add(&mut self, name: &str, label: &str, value: String)
        requires
            old(self)@.wf(),
            is_field_name(name@),
            !old(self)@.has(name@),
        ensures
            final(self)@ == old(self)@.add(name@, label@, value@),
            final(self)@.wf(),
            final(self)@.has(name@),
    {
        proof {
            lemma_add(self@, name@, label@, value@);
        }
        let mut field = TextField::new(name, label);
        field.set_value(value);
        self.fields.push(field);
        assert(self@.fields =~= old(self)@.fields.push(fresh_field(name@, label@, value@)));
    }

    /// Adds a field at rest, or puts one in the place of the field that
    /// bears the name already.
    fn put(&mut self, name: &str, label: &str, value: String)
        requires
            old(self)@.wf(),
            is_field_name(name@),
        ensures
            final(self)@ == old(self)@.put(name@, label@, value@),
            final(self)@.wf(),
            final(self)@.has(name@),
            forall|other: Seq<char>| old(self)@.has(other) ==> final(self)@.has(other),
    {
        match self.position(name) {
            Some(i) => {
                proof {
                    lemma_index_of(self@, i as int, name@);
                    lemma_with_field(self@, name@, fresh_field(name@, label@, value@));
                }
                let mut field = TextField::new(name, label);
                field.set_value(value);
                self.fields[i] = field;
                assert(self@.fields =~= old(self)@.fields.update(
                    i as int,
                    fresh_field(name@, label@, value@),
                ));
            },
            None => {
                proof {
                    lemma_add(self@, name@, label@, value@);
                }
                self.add(name, label, value);
            },
        }
    }

    /// Focuses the field that bears `name`.
    pub fn focus(&mut self, name: &str)
        requires
            old(self)@.wf(),
            old(self)@.has(name@),
        ensures
            final(self)@ == old(self)@.focus(name@),
            final(self)@.wf(),
    {
        self.focused = Some(name.to_owned());
        assert(named(self@.fields, old(self)@.index_of(name@), name@));
    }

    /// Takes the focus from every field.
    pub fn unfocus(&mut self)
        requires
            old(self)@.wf(),
        ensures
            final(self)@ == old(self)@.unfocus(),
            final(self)@.wf(),
    {
        self.focused = None;
    }
}

/// Sets up the fields of the screen with their first values: the project
/// identifier, empty, and the host and the port of the service. A field
/// that bears one of these names already is replaced; the focus stays.
pub fn init(setup: &mut Setup)
    requires
        old(setup)@.wf(),
    ensures
        final(setup)@ == old(setup)@.put("project_id"@, "Project ID"@, ""@).put(
            "host"@,
            "Host"@,
            "localhost"@,
        ).put("port"@, "Port"@, "8065"@),
        final(setup)@.wf(),
        final(setup)@.has("project_id"@),
        final(setup)@.has("host"@),
        final(setup)@.has("port"@),
{
    proof {
        reveal_strlit("project_id");
        reveal_strlit("host");
        reveal_strlit("port");
        reveal_strlit("global");
        assert("project_id"@[0] != "global"@[0]);
        assert("host"@[0] != "global"@[0]);
        assert("port"@[0] != "global"@[0]);
    }
    setup.put("project_id", "Project ID", "".to_owned());
    setup.put("host", "Host", "localhost".to_owned());
    setup.put("port", "Port", "8065".to_owned());
}

/// On entering the screen the focus goes to the project identifier.
pub fn on_arrive(setup: &mut Setup)
    requires
        old(setup)@.wf(),
        old(setup)@.has("project_id"@),
    ensures
        final(setup)@ == old(setup)@.focus("project_id"@),
        final(setup)@.wf(),
{
    setup.focus("project_id");
}

/// On leaving the screen no field keeps the focus.
pub fn on_leave(setup: &mut Setup)
    requires
        old(setup)@.wf(),
    ensures
        final(setup)@ == old(setup)@.unfocus(),
        final(setup)@.wf(),
{
    setup.unfocus();
}

/// Applies a request to the setup screen. The result is the follow-up
/// request, if any.
pub fn on_event(state: &mut Setup, e: SetupEvent) -> (out: Option<SetupEvent>)
    requires
        old(state)@.wf(),
        old(state)@.accepts(e@),
    ensures
        final(state)@ == old(state)@.apply(e@),
        final(state)@.wf(),
        final(state)@.names() == old(state)@.names(),
        view_of(out) == old(state)@.follow_up(e@),
        out matches Some(next) ==> final(state)@.accepts(next@),
{
    match e {
        SetupEvent::SetupFieldEvent(event) => on_field_event(state, event),
        SetupEvent::ChangeSetupValue(name, value) => {
            on_change_value(state, name, value);
            None
        },
        SetupEvent::Focus(name) => {
            state.focused = name;
            proof {
                if let Some(n) = state@.focused {
                    assert(named(state@.fields, old(state)@.index_of(n), n));
                }
                assert(state@.names() =~= old(state)@.names());
            }
            None
        },
    }
}

/// Hands an event to the field it names.
fn on_field_event(state: &mut Setup, e: TextFieldEvent) -> (out: Option<SetupEvent>)
    requires
        old(state)@.wf(),
        old(state)@.has(e@.name),
    ensures
        final(state)@ == old(state)@.apply(SetupEventView::SetupFieldEvent(e@)),
        final(state)@.wf(),
        final(state)@.names() == old(state)@.names(),
        view_of(out) == old(state)@.follow_up(SetupEventView::SetupFieldEvent(e@)),
        out matches Some(next) ==> final(state)@.accepts(next@),
{
    let place = state.position(e.name.as_str());
    let i: usize = place.unwrap();
    proof {
        lemma_index_of(state@, i as int, e@.name);
        lemma_with_field(state@, e@.name, state@.fields[i as int].apply(e.event_type));
    }
    let next = text_field::on_event(&mut state.fields[i], e.event_type);
    assert(state@.fields =~= old(state)@.fields.update(
        i as int,
        old(state)@.fields[i as int].apply(e.event_type),
    ));
    match next {
        Some(event) => Some(SetupEvent::SetupFieldEvent(event)),
        None => None,
    }
}

/// Sets the committed value of the named field.
fn on_change_value(state: &mut Setup, name: String, value: String)
    requires
        old(state)@.wf(),
        old(state)@.has(name@),
    ensures
        final(state)@ == old(state)@.set(name@, value@),
        final(state)@.wf(),
        final(state)@.names() == old(state)@.names(),
{
    state.set(name.as_str(), value);
}

/// Offers a key to the setup screen: first to the focused field, then to
/// the screen itself, which binds the arrows and Escape.
pub fn on_key(state: &Setup, key: KeyEvent) -> (out: InputHandled<SetupEvent>)
    requires
        state@.wf(),
    ensures
        out@ == state@.on_key(key),
        out matches InputHandled::Handled(Some(e)) ==> state@.accepts(e@),
{
    let text_handled = on_text_field_key(state, key);
    if text_handled.is_handled() {
        return text_handled;
    }
    match key.code {
        KeyCode::Up => on_arrow_key(state, true),
        KeyCode::Down => on_arrow_key(state, false),
        KeyCode::Esc => {
            if state.focused.is_some() {
                handled(SetupEvent::Focus(None))
            } else {
                not_handled()
            }
        },
        _ => not_handled(),
    }
}

/// Offers a key to the focused field.
fn on_text_field_key(state: &Setup, key: KeyEvent) -> (out: InputHandled<SetupEvent>)
    requires
        state@.wf(),
    ensures
        out@ == state@.field_key(key),
        out matches InputHandled::Handled(Some(e)) ==> state@.accepts(e@),
{
    match &state.focused {
        Some(name) => {
            let field = state.field(name.as_str());
            proof {
                let i = state@.index_of(name@);
                assert(named(state@.fields, i, name@));
                assert(state@.fields[i].wf());
            }
            match text_field::on_key(field, key) {
                InputHandled::Handled(Some(event)) => handled(SetupEvent::SetupFieldEvent(event)),
                InputHandled::Handled(None) => InputHandled::Handled(None),
                InputHandled::NotHandled => not_handled(),
            }
        },
        None => not_handled(),
    }
}

/// Moves the focus to the neighbour of the focused field, or to the first
/// field where none is focused.
fn on_arrow_key(state: &Setup, up: bool) -> (out: InputHandled<SetupEvent>)
    requires
        state@.wf(),
    ensures
        out@ == match state@.arrow_target(up) {
            Some(name) => InputHandled::Handled(Some(SetupEventView::Focus(Some(name)))),
            None => InputHandled::NotHandled,
        },
        out matches InputHandled::Handled(Some(e)) ==> state@.accepts(e@),
{
    let len: usize = state.fields.len();
    if len == 0 {
        return not_handled();
    }
    let target: usize = match &state.focused {
        None => 0,
        Some(name) => {
            let place = state.position(name.as_str());
            let i: usize = place.unwrap();
            proof {
                lemma_index_of(state@, i as int, name@);
            }
            if up {
                if i == 0 {
                    len - 1
                } else {
                    i - 1
                }
            } else {
                (i + 1) % len
            }
        },
    };
    assert(named(state@.fields, target as int, state@.fields[target as int].name));
    handled(SetupEvent::Focus(Some(state.fields[target].name().clone())))
}

} // verus!
