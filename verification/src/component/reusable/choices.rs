//! A field whose value is picked from a fixed list of choices.

use crate::input::{handled, not_handled, view_of, InputHandled, KeyCode, KeyEvent};
use vstd::prelude::*;

verus! {

/// One choice: what is shown, and the value it stands for.
#[derive(Debug)]
pub struct Choice {
    pub label: String,
    pub value: String,
}

/// A choice as plain values.
pub struct ChoiceView {
    pub label: Seq<char>,
    pub value: Seq<char>,
}

impl View for Choice {
    type V = ChoiceView;

    open spec fn view(&self) -> ChoiceView {
        ChoiceView { label: self.label@, value: self.value@ }
    }
}

impl Clone for Choice {
    fn clone(&self) -> (out: Self)
        ensures
            out@ == self@,
    {
        Choice { label: self.label.clone(), value: self.value.clone() }
    }
}

/// What can be asked of a choices field, and what it reports back.
#[derive(Clone, Copy, Debug, PartialEq, Eq, Structural)]
pub enum ChoicesEventType {
    StartEditing,
    DoneEditing(bool),
    ValueChanged,
    SetChosenIndex(Option<usize>),
}

/// An event addressed to, or reported by, the choices field of the given name.
#[derive(Debug)]
pub struct ChoicesEvent {
    pub name: String,
    pub event_type: ChoicesEventType,
}

/// A choices event with its name as a sequence of characters.
pub struct ChoicesEventView {
    pub name: Seq<char>,
    pub event_type: ChoicesEventType,
}

impl View for ChoicesEvent {
    type V = ChoicesEventView;

    open spec fn view(&self) -> ChoicesEventView {
        ChoicesEventView { name: self.name@, event_type: self.event_type }
    }
}

impl Clone for ChoicesEvent {
    fn clone(&self) -> (out: Self)
        ensures
            out@ == self@,
    {
        ChoicesEvent { name: self.name.clone(), event_type: self.event_type }
    }
}

impl ChoicesEvent {
    pub fn new(name: String, event_type: ChoicesEventType) -> (event: ChoicesEvent)
        ensures
            event == (ChoicesEvent { name, event_type }),
    {
        ChoicesEvent { name, event_type }
    }
}

/// The choices of a list as plain values, in order.
pub open spec fn choice_views(choices: Seq<Choice>) -> Seq<ChoiceView> {
    choices.map_values(|c: Choice| c@)
}

/// Whether the entry at `k` exists and stands for `value`.
pub open spec fn stands_for(choices: Seq<ChoiceView>, k: int, value: Seq<char>) -> bool {
    0 <= k < choices.len() && choices[k].value == value
}

/// Whether one of the first `upto` choices stands for `value`.
pub open spec fn has_value_before(choices: Seq<ChoiceView>, value: Seq<char>, upto: int) -> bool {
    exists|k: int| k < upto && #[trigger] stands_for(choices, k, value)
}

/// The state of a choices field as plain values.
pub struct ChoicesView {
    pub name: Seq<char>,
    pub label: Seq<char>,
    /// The value of the chosen entry; empty while nothing is chosen.
    pub value: Seq<char>,
    pub editing: bool,
    /// The chosen entry.
    pub chosen: Option<usize>,
    /// The entry that the open list points at.
    pub highlighted: Option<usize>,
    pub choices: Seq<ChoiceView>,
}

impl ChoicesView {
    /// Both marks point into the list, and the value is that of the chosen
    /// entry.
    pub open spec fn wf(self) -> bool {
        &&& self.choices.len() <= usize::MAX
        &&& self.highlighted matches Some(i) ==> i < self.choices.len()
        &&& match self.chosen {
            Some(i) => i < self.choices.len() && self.value == self.choices[i as int].value,
            None => self.value.len() == 0,
        }
    }

    /// Whether an index names an entry, or none.
    pub open spec fn in_range(self, index: Option<usize>) -> bool {
        index matches Some(i) ==> i < self.choices.len()
    }

    /// Whether an event can be applied: an entry to point at must exist.
    pub open spec fn accepts(self, e: ChoicesEventType) -> bool {
        e matches ChoicesEventType::SetChosenIndex(index) ==> self.in_range(index)
    }

    /// Chooses the entry at `index`, or nothing.
    pub open spec fn choose_index(self, index: Option<usize>) -> ChoicesView {
        ChoicesView {
            value: match index {
                Some(i) => self.choices[i as int].value,
                None => Seq::empty(),
            },
            chosen: index,
            highlighted: index,
            ..self
        }
    }

    /// The first entry that stands for `value`, if there is one.
    pub open spec fn position_of(self, value: Seq<char>) -> Option<usize> {
        if has_value_before(self.choices, value, self.choices.len() as int) {
            Some(
                choose|k: usize|
                    stands_for(self.choices, k as int, value) && !has_value_before(
                        self.choices,
                        value,
                        k as int,
                    ),
            )
        } else {
            None
        }
    }

    /// Chooses the first entry that stands for `value`; nothing where no
    /// entry does.
    pub open spec fn set_value(self, value: Seq<char>) -> ChoicesView {
        self.choose_index(self.position_of(value))
    }

    /// The label of the chosen entry.
    pub open spec fn selected_label(self) -> Seq<char> {
        match self.chosen {
            Some(i) => if i < self.choices.len() {
                self.choices[i as int].label
            } else {
                "None"@
            },
            None => "None"@,
        }
    }

    /// The field after an event.
    pub open spec fn apply(self, e: ChoicesEventType) -> ChoicesView {
        match e {
            ChoicesEventType::StartEditing => ChoicesView { editing: true, ..self },
            ChoicesEventType::SetChosenIndex(index) => ChoicesView { highlighted: index, ..self },
            ChoicesEventType::DoneEditing(confirmed) => if confirmed {
                (ChoicesView { editing: false, ..self }).choose_index(self.highlighted)
            } else {
                ChoicesView { editing: false, highlighted: self.chosen, ..self }
            },
            ChoicesEventType::ValueChanged => self,
        }
    }

    /// What the field reports after an event: that its value changed, when
    /// a choice was confirmed.
    pub open spec fn follow_up(self, e: ChoicesEventType) -> Option<ChoicesEventView> {
        if e == ChoicesEventType::DoneEditing(true) {
            Some(ChoicesEventView { name: self.name, event_type: ChoicesEventType::ValueChanged })
        } else {
            None
        }
    }

    /// What a key means to the field, if anything.
    pub open spec fn key_action(self, key: KeyEvent) -> InputHandled<ChoicesEventType> {
        if !self.editing {
            if key.code == KeyCode::Char(' ') {
                InputHandled::Handled(Some(ChoicesEventType::StartEditing))
            } else {
                InputHandled::NotHandled
            }
        } else {
            match key.code {
                KeyCode::Esc => InputHandled::Handled(Some(ChoicesEventType::DoneEditing(false))),
                KeyCode::Enter => InputHandled::Handled(Some(ChoicesEventType::DoneEditing(true))),
                KeyCode::Up => match self.highlighted {
                    Some(i) => InputHandled::Handled(
                        Some(
                            ChoicesEventType::SetChosenIndex(
                                Some(
                                    if i == 0 {
                                        (self.choices.len() - 1) as usize
                                    } else {
                                        (i - 1) as usize
                                    },
                                ),
                            ),
                        ),
                    ),
                    None => InputHandled::NotHandled,
                },
                KeyCode::Down => match self.highlighted {
                    Some(i) => InputHandled::Handled(
                        Some(
                            ChoicesEventType::SetChosenIndex(
                                Some(
                                    if i + 1 == self.choices.len() {
                                        0
                                    } else {
                                        (i + 1) as usize
                                    },
                                ),
                            ),
                        ),
                    ),
                    None => InputHandled::NotHandled,
                },
                _ => InputHandled::NotHandled,
            }
        }
    }

    /// The answer of the field to a key, with the event addressed to the field.
    pub open spec fn on_key(self, key: KeyEvent) -> InputHandled<ChoicesEventView> {
        match self.key_action(key) {
            InputHandled::Handled(Some(event_type)) => InputHandled::Handled(
                Some(ChoicesEventView { name: self.name, event_type }),
            ),
            InputHandled::Handled(None) => InputHandled::Handled(None),
            InputHandled::NotHandled => InputHandled::NotHandled,
        }
    }
}

/// Setting a value leaves a choices field well formed, and its list as it
/// was.
pub proof fn lemma_set_value_wf(view: ChoicesView, value: Seq<char>)
    requires
        view.choices.len() <= usize::MAX,
    ensures
        view.in_range(view.position_of(value)),
        view.set_value(value).wf(),
        view.set_value(value).choices == view.choices,
{
    if has_value_before(view.choices, value, view.choices.len() as int) {
        let w = choose|k: int| k < view.choices.len() && stands_for(view.choices, k, value);
        // the least place that stands for the value
        let least = least_place(view.choices, value, w);
        assert(stands_for(view.choices, least as int, value) && !has_value_before(
            view.choices,
            value,
            least as int,
        ));
    }
}

/// The least place at or before `upto` that stands for `value`.
proof fn least_place(choices: Seq<ChoiceView>, value: Seq<char>, upto: int) -> (least: usize)
    requires
        stands_for(choices, upto, value),
        choices.len() <= usize::MAX,
    ensures
        stands_for(choices, least as int, value),
        !has_value_before(choices, value, least as int),
    decreases upto,
{
    if has_value_before(choices, value, upto) {
        let k = choose|k: int| k < upto && stands_for(choices, k, value);
        least_place(choices, value, k)
    } else {
        upto as usize
    }
}

/// A named, labelled field with a list of choices.
pub struct Choices {
    name: String,
    label: String,
    value: String,
    is_editing: bool,
    chosen_idx: Option<usize>,
    editing_idx: Option<usize>,
    choices: Vec<Choice>,
}

impl View for Choices {
    type V = ChoicesView;

    closed spec fn view(&self) -> ChoicesView {
        ChoicesView {
            name: self.name@,
            label: self.label@,
            value: self.value@,
            editing: self.is_editing,
            chosen: self.chosen_idx,
            highlighted: self.editing_idx,
            choices: choice_views(self.choices@),
        }
    }
}

impl Choices {
    /// A field at rest with nothing chosen.
    pub fn new(name: &str, label: &str, choices: Vec<Choice>) -> (field: Choices)
        ensures
            field@ == (ChoicesView {
                name: name@,
                label: label@,
                value: Seq::empty(),
                editing: false,
                chosen: None,
                highlighted: None,
                choices: choice_views(choices@),
            }),
            field@.wf(),
    {
        let count: usize = choices.len();
        assert(choice_views(choices@).len() == count);
        Choices {
            name: name.to_owned(),
            label: label.to_owned(),
            value: String::new(),
            is_editing: false,
            chosen_idx: None,
            editing_idx: None,
            choices,
        }
    }

    /// Chooses the entry at `index`, or nothing.
    pub fn choose_index(&mut self, index: Option<usize>)
        requires
            old(self)@.in_range(index),
        ensures
            final(self)@ == old(self)@.choose_index(index),
            final(self)@.wf(),
    {
        let count: usize = self.choices.len();
        assert(choice_views(self.choices@).len() == count);
        match index {
            Some(i) => {
                self.value = self.choices[i].value.clone();
                self.chosen_idx = Some(i);
                self.editing_idx = Some(i);
            },
            None => {
                self.value = String::new();
                self.chosen_idx = None;
                self.editing_idx = None;
            },
        }
    }

    /// Whether an index names an entry, or none.
    pub fn in_range(&self, index: Option<usize>) -> (r: bool)
        ensures
            r == self@.in_range(index),
    {
        match index {
            Some(i) => i < self.choices.len(),
            None => true,
        }
    }

    /// The first entry that stands for `value`, if there is one.
    pub fn position_of(&self, value: &String) -> (index: Option<usize>)
        ensures
            index == self@.position_of(value@),
            self@.in_range(index),
    {
        let mut i: usize = 0;
        while i < self.choices.len()
            invariant
                i <= self.choices.len(),
                self@.choices.len() == self.choices.len(),
                !has_value_before(self@.choices, value@, i as int),
            decreases self.choices.len() - i,
        {
            if self.choices[i].value == *value {
                proof {
                    assert(stands_for(self@.choices, i as int, value@));
                    assert(has_value_before(self@.choices, value@, self@.choices.len() as int));
                    let k = self@.position_of(value@)->0;
                    if k < i {
                        assert(has_value_before(self@.choices, value@, i as int));
                    }
                    if i < k {
                        assert(has_value_before(self@.choices, value@, k as int));
                    }
                }
                return Some(i);
            }
            assert forall|k: int| k < i + 1 implies !#[trigger] stands_for(
                self@.choices,
                k,
                value@,
            ) by {
                if k < i {
                    assert(!has_value_before(self@.choices, value@, i as int));
                }
            }
            i += 1;
        }
        None
    }

    /// Chooses the first entry that stands for `value`; nothing where no
    /// entry does.
    pub fn set_value(&mut self, value: String)
        ensures
            final(self)@ == old(self)@.set_value(value@),
            final(self)@.wf(),
    {
        let index = self.position_of(&value);
        self.choose_index(index);
    }

    /// The label of the chosen entry, and `None` where nothing is chosen.
    pub fn get_selected_label(&self) -> (label: String)
        ensures
            label@ == self@.selected_label(),
    {
        match self.chosen_idx {
            Some(i) => {
                if i < self.choices.len() {
                    self.choices[i].label.clone()
                } else {
                    "None".to_owned()
                }
            },
            None => "None".to_owned(),
        }
    }

    pub fn name(&self) -> (r: &String)
        ensures
            r@ == self@.name,
    {
        &self.name
    }

    pub fn label(&self) -> (r: &String)
        ensures
            r@ == self@.label,
    {
        &self.label
    }

    pub fn value(&self) -> (r: &String)
        ensures
            r@ == self@.value,
    {
        &self.value
    }

    pub fn is_editing(&self) -> (r: bool)
        ensures
            r == self@.editing,
    {
        self.is_editing
    }

    /// The chosen entry.
    pub fn chosen_idx(&self) -> (r: Option<usize>)
        ensures
            r == self@.chosen,
    {
        self.chosen_idx
    }

    /// The entry that the open list points at.
    pub fn editing_idx(&self) -> (r: Option<usize>)
        ensures
            r == self@.highlighted,
    {
        self.editing_idx
    }

    pub fn choices(&self) -> (r: &Vec<Choice>)
        ensures
            choice_views(r@) == self@.choices,
    {
        &self.choices
    }
}

/// Applies an event to a choices field. The result is the follow-up event,
/// if any: a confirmed choice reports that the value changed.
pub fn on_event(state: &mut Choices, event: ChoicesEventType) -> (out: Option<ChoicesEvent>)
    requires
        old(state)@.wf(),
        old(state)@.accepts(event),
    ensures
        final(state)@ == old(state)@.apply(event),
        final(state)@.wf(),
        view_of(out) == old(state)@.follow_up(event),
{
    match event {
        ChoicesEventType::StartEditing => {
            state.is_editing = true;
            None
        },
        ChoicesEventType::SetChosenIndex(index) => {
            state.editing_idx = index;
            None
        },
        ChoicesEventType::DoneEditing(confirmed) => {
            state.is_editing = false;
            if confirmed {
                let index = state.editing_idx;
                state.choose_index(index);
                Some(ChoicesEvent::new(state.name.clone(), ChoicesEventType::ValueChanged))
            } else {
                state.editing_idx = state.chosen_idx;
                None
            }
        },
        ChoicesEventType::ValueChanged => None,
    }
}

/// Offers a key to a choices field. A field at rest takes the space bar to
/// open its list; an open list takes the arrows, Enter and Escape.
pub fn on_key(state: &Choices, key: KeyEvent) -> (out: InputHandled<ChoicesEvent>)
    requires
        state@.wf(),
    ensures
        out@ == state@.on_key(key),
        out matches InputHandled::Handled(Some(e)) ==> state@.accepts(e.event_type),
{
    let action = key_action(state, key);
    match action {
        InputHandled::Handled(Some(event_type)) => handled(
            ChoicesEvent::new(state.name.clone(), event_type),
        ),
        InputHandled::Handled(None) => InputHandled::Handled(None),
        InputHandled::NotHandled => not_handled(),
    }
}

/// The binding of a key in the field's present mode.
fn key_action(state: &Choices, key: KeyEvent) -> (out: InputHandled<ChoicesEventType>)
    requires
        state@.wf(),
    ensures
        out == state@.key_action(key),
        out matches InputHandled::Handled(Some(e)) ==> state@.accepts(e),
{
    if !state.is_editing {
        return match key.code {
            KeyCode::Char(' ') => handled(ChoicesEventType::StartEditing),
            _ => not_handled(),
        };
    }
    match key.code {
        KeyCode::Esc => handled(ChoicesEventType::DoneEditing(false)),
        KeyCode::Enter => handled(ChoicesEventType::DoneEditing(true)),
        KeyCode::Up => match state.editing_idx {
            Some(i) => {
                let target: usize = if i == 0 {
                    state.choices.len() - 1
                } else {
                    i - 1
                };
                handled(ChoicesEventType::SetChosenIndex(Some(target)))
            },
            None => not_handled(),
        },
        KeyCode::Down => match state.editing_idx {
            Some(i) => {
                assert(state@.choices.len() == state.choices.len());
                let target: usize = if i + 1 == state.choices.len() {
                    0
                } else {
                    i + 1
                };
                handled(ChoicesEventType::SetChosenIndex(Some(target)))
            },
            None => not_handled(),
        },
        _ => not_handled(),
    }
}

} // verus!
