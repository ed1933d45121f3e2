//! A single-line text field: a committed value, and while the field is being
//! edited a draft with a cursor that counts characters.

use crate::input::{
    handled, handled_empty, not_handled, view_of, InputHandled, KeyCode, KeyEvent,
};
use crate::text::{alphanumeric, char_count, chars_of, is_alphanumeric, string_of, without_range};
use vstd::prelude::*;

verus! {

/// The side of the cursor on which an edit or a move takes place.
#[derive(Clone, Copy, Debug, PartialEq, Eq, Structural)]
pub enum CursorDirection {
    Left,
    Right,
}

/// What can be asked of a text field, and what it reports back.
#[derive(Clone, Copy, Debug, PartialEq, Eq, Structural)]
pub enum TextFieldEventType {
    StartEditing,
    DoneEditing(bool),
    InputChar(char),
    DeleteChar(usize, CursorDirection),
    MoveCursor(usize, CursorDirection),
    ValueChanged,
}

/// An event addressed to, or reported by, the field of the given name.
#[derive(Debug)]
pub struct TextFieldEvent {
    pub name: String,
    pub event_type: TextFieldEventType,
}

/// A text field event with its name as a sequence of characters.
pub struct TextFieldEventView {
    pub name: Seq<char>,
    pub event_type: TextFieldEventType,
}

impl View for TextFieldEvent {
    type V = TextFieldEventView;

    open spec fn view(&self) -> TextFieldEventView {
        TextFieldEventView { name: self.name@, event_type: self.event_type }
    }
}

impl Clone for TextFieldEvent {
    fn clone(&self) -> (out: Self)
        ensures
            out@ == self@,
    {
        TextFieldEvent { name: self.name.clone(), event_type: self.event_type }
    }
}

impl TextFieldEvent {
    pub fn new(name: String, event_type: TextFieldEventType) -> (event: TextFieldEvent)
        ensures
            event == (TextFieldEvent { name, event_type }),
    {
        TextFieldEvent { name, event_type }
    }
}

/// Position of the first character at or after `start` that is no word
/// character; the length of the text where there is none.
pub open spec fn first_gap_from(word: Seq<bool>, start: int) -> int
    decreases word.len() - start,
{
    if start < 0 || start >= word.len() {
        word.len() as int
    } else if !word[start] {
        start
    } else {
        first_gap_from(word, start + 1)
    }
}

/// Position of the last character before `end` that is no word character;
/// 0 where there is none.
pub open spec fn last_gap_before(word: Seq<bool>, end: int) -> int
    decreases end,
{
    if end <= 0 || end > word.len() {
        0
    } else if !word[end - 1] {
        end - 1
    } else {
        last_gap_before(word, end - 1)
    }
}

/// How far a word move to the right goes from `cursor`. The character under
/// the cursor is passed in any case; the move then runs on to the next
/// character that is no word character, or to the end of the text.
pub open spec fn distance_right(word: Seq<bool>, cursor: int) -> int {
    if 0 <= cursor < word.len() {
        first_gap_from(word, cursor + 1) - cursor
    } else {
        0
    }
}

/// How far a word move to the left goes from `cursor`. The character before
/// the cursor is passed in any case; the move then runs back onto the nearest
/// earlier character that is no word character, or to the start of the text.
pub open spec fn distance_left(word: Seq<bool>, cursor: int) -> int {
    if 0 < cursor <= word.len() {
        cursor - last_gap_before(word, cursor - 1)
    } else {
        0
    }
}

/// For each character of a text, whether it is a word character (a letter or
/// a number).
pub open spec fn word_flags(text: Seq<char>) -> Seq<bool> {
    text.map_values(|c: char| alphanumeric(c))
}

/// The state of a text field as plain values.
pub struct TextFieldView {
    pub name: Seq<char>,
    pub label: Seq<char>,
    /// The committed value.
    pub value: Seq<char>,
    /// The draft; empty while the field is not being edited.
    pub input: Seq<char>,
    /// The cursor, counted in characters from the start of the draft.
    pub cursor: nat,
    pub editing: bool,
}

impl TextFieldView {
    /// The cursor lies within the draft, and a field at rest has neither a
    /// draft nor a cursor position.
    pub open spec fn wf(self) -> bool {
        &&& self.cursor <= self.input.len()
        &&& !self.editing ==> self.input.len() == 0 && self.cursor == 0
    }

    /// Enters edit mode: the draft starts as the committed value, with the
    /// cursor behind its last character.
    pub open spec fn begin_edit(self) -> TextFieldView {
        TextFieldView { input: self.value, cursor: self.value.len(), editing: true, ..self }
    }

    /// Leaves edit mode and drops the draft. The committed value stays.
    pub open spec fn cancel_edit(self) -> TextFieldView {
        TextFieldView { input: Seq::empty(), cursor: 0, editing: false, ..self }
    }

    /// Leaves edit mode and makes the draft the committed value. A field that
    /// is not being edited stays as it is.
    pub open spec fn commit_edit(self) -> TextFieldView {
        if self.editing {
            TextFieldView {
                value: self.input,
                input: Seq::empty(),
                cursor: 0,
                editing: false,
                ..self
            }
        } else {
            self
        }
    }

    /// Puts `c` at the cursor and moves the cursor behind it.
    pub open spec fn insert_char(self, c: char) -> TextFieldView {
        if self.editing {
            TextFieldView {
                input: self.input.insert(self.cursor as int, c),
                cursor: self.cursor + 1,
                ..self
            }
        } else {
            self
        }
    }

    /// Number of characters that `delete_left(n)` removes.
    pub open spec fn removed_left(self, n: nat) -> nat {
        if n <= self.cursor {
            n
        } else {
            self.cursor
        }
    }

    /// Number of characters that `delete_right(n)` removes.
    pub open spec fn removed_right(self, n: nat) -> nat {
        if self.cursor + n <= self.input.len() {
            n
        } else {
            (self.input.len() - self.cursor) as nat
        }
    }

    /// Removes up to `n` characters before the cursor; the cursor moves left
    /// by as many as were removed.
    pub open spec fn delete_left(self, n: nat) -> TextFieldView {
        if self.editing {
            let k = self.removed_left(n);
            TextFieldView {
                input: self.input.take(self.cursor - k) + self.input.skip(self.cursor as int),
                cursor: (self.cursor - k) as nat,
                ..self
            }
        } else {
            self
        }
    }

    /// Removes up to `n` characters after the cursor; the cursor stays.
    pub open spec fn delete_right(self, n: nat) -> TextFieldView {
        if self.editing {
            let k = self.removed_right(n);
            TextFieldView {
                input: self.input.take(self.cursor as int) + self.input.skip(
                    (self.cursor + k) as int,
                ),
                ..self
            }
        } else {
            self
        }
    }

    /// Moves the cursor by `distance` characters, stopping at either end of
    /// the draft.
    pub open spec fn move_cursor(self, distance: nat, direction: CursorDirection) -> TextFieldView {
        if self.editing {
            let cursor: nat = match direction {
                CursorDirection::Left => if distance <= self.cursor {
                    (self.cursor - distance) as nat
                } else {
                    0
                },
                CursorDirection::Right => if self.cursor + distance <= self.input.len() {
                    self.cursor + distance
                } else {
                    self.input.len()
                },
            };
            TextFieldView { cursor, ..self }
        } else {
            self
        }
    }

    /// Distance in characters from the cursor to the next word boundary in the
    /// given direction.
    pub open spec fn word_boundary_distance(self, direction: CursorDirection) -> int {
        match direction {
            CursorDirection::Left => distance_left(word_flags(self.input), self.cursor as int),
            CursorDirection::Right => distance_right(word_flags(self.input), self.cursor as int),
        }
    }

    /// The field after an event.
    pub open spec fn apply(self, e: TextFieldEventType) -> TextFieldView {
        match e {
            TextFieldEventType::StartEditing => self.begin_edit(),
            TextFieldEventType::DoneEditing(submit) => if submit {
                self.commit_edit()
            } else {
                self.cancel_edit()
            },
            TextFieldEventType::InputChar(c) => self.insert_char(c),
            TextFieldEventType::DeleteChar(n, direction) => match direction {
                CursorDirection::Left => self.delete_left(n as nat),
                CursorDirection::Right => self.delete_right(n as nat),
            },
            TextFieldEventType::MoveCursor(n, direction) => self.move_cursor(n as nat, direction),
            TextFieldEventType::ValueChanged => self,
        }
    }

    /// What the field reports after an event: that its value changed, when a
    /// draft was committed, and nothing otherwise.
    pub open spec fn follow_up(self, e: TextFieldEventType) -> Option<TextFieldEventView> {
        if self.editing && e == TextFieldEventType::DoneEditing(true) {
            Some(
                TextFieldEventView {
                    name: self.name,
                    event_type: TextFieldEventType::ValueChanged,
                },
            )
        } else {
            None
        }
    }

    /// What a key means to the field, if anything.
    pub open spec fn key_action(self, key: KeyEvent) -> InputHandled<TextFieldEventType> {
        let left = self.word_boundary_distance(CursorDirection::Left) as usize;
        let right = self.word_boundary_distance(CursorDirection::Right) as usize;
        if !self.editing {
            if key.code == KeyCode::Char(' ') {
                InputHandled::Handled(Some(TextFieldEventType::StartEditing))
            } else {
                InputHandled::NotHandled
            }
        } else {
            match key.code {
                KeyCode::Enter => InputHandled::Handled(
                    Some(TextFieldEventType::DoneEditing(true)),
                ),
                KeyCode::Esc => InputHandled::Handled(Some(TextFieldEventType::DoneEditing(false))),
                KeyCode::Backspace => InputHandled::Handled(
                    Some(TextFieldEventType::DeleteChar(1, CursorDirection::Left)),
                ),
                KeyCode::Delete => if self.cursor < self.input.len() {
                    InputHandled::Handled(
                        Some(TextFieldEventType::DeleteChar(1, CursorDirection::Right)),
                    )
                } else {
                    InputHandled::Handled(None)
                },
                KeyCode::Left => InputHandled::Handled(
                    Some(TextFieldEventType::MoveCursor(1, CursorDirection::Left)),
                ),
                KeyCode::Right => InputHandled::Handled(
                    Some(TextFieldEventType::MoveCursor(1, CursorDirection::Right)),
                ),
                KeyCode::Home => InputHandled::Handled(
                    Some(
                        TextFieldEventType::MoveCursor(self.cursor as usize, CursorDirection::Left),
                    ),
                ),
                KeyCode::End => InputHandled::Handled(
                    Some(
                        TextFieldEventType::MoveCursor(
                            self.input.len() as usize,
                            CursorDirection::Right,
                        ),
                    ),
                ),
                KeyCode::Char(c) => if key.modifiers.is_empty() {
                    InputHandled::Handled(Some(TextFieldEventType::InputChar(c)))
                } else if c == 'f' && key.modifiers.alt {
                    InputHandled::Handled(
                        Some(TextFieldEventType::MoveCursor(right, CursorDirection::Right)),
                    )
                } else if c == 'b' && key.modifiers.alt {
                    InputHandled::Handled(
                        Some(TextFieldEventType::MoveCursor(left, CursorDirection::Left)),
                    )
                } else if c == 'd' && key.modifiers.alt {
                    InputHandled::Handled(
                        Some(TextFieldEventType::DeleteChar(right, CursorDirection::Right)),
                    )
                } else if c == 'h' && key.modifiers.alt {
                    InputHandled::Handled(
                        Some(TextFieldEventType::DeleteChar(left, CursorDirection::Left)),
                    )
                } else if c == 'w' && key.modifiers.control {
                    InputHandled::Handled(
                        Some(TextFieldEventType::DeleteChar(left, CursorDirection::Left)),
                    )
                } else {
                    InputHandled::NotHandled
                },
                _ => InputHandled::NotHandled,
            }
        }
    }

    /// The answer of the field to a key, with the event addressed to the field.
    pub open spec fn on_key(self, key: KeyEvent) -> InputHandled<TextFieldEventView> {
        match self.key_action(key) {
            InputHandled::Handled(Some(event_type)) => InputHandled::Handled(
                Some(TextFieldEventView { name: self.name, event_type }),
            ),
            InputHandled::Handled(None) => InputHandled::Handled(None),
            InputHandled::NotHandled => InputHandled::NotHandled,
        }
    }
}

/// A named, labelled text field.
pub struct TextField {
    name: String,
    label: String,
    value: String,
    input: String,
    character_index: usize,
    is_editing: bool,
}

impl View for TextField {
    type V = TextFieldView;

    closed spec fn view(&self) -> TextFieldView {
        TextFieldView {
            name: self.name@,
            label: self.label@,
            value: self.value@,
            input: self.input@,
            cursor: self.character_index as nat,
            editing: self.is_editing,
        }
    }
}

impl TextField {
    /// A field at rest with an empty value.
    pub fn new(name: &str, label: &str) -> (field: TextField)
        ensures
            field@ == (TextFieldView {
                name: name@,
                label: label@,
                value: Seq::empty(),
                input: Seq::empty(),
                cursor: 0,
                editing: false,
            }),
            field@.wf(),
    {
        TextField {
            name: name.to_owned(),
            label: label.to_owned(),
            value: String::new(),
            input: String::new(),
            character_index: 0,
            is_editing: false,
        }
    }

    /// Replaces the committed value. A draft in progress is not touched.
    pub fn set_value(&mut self, value: String)
        ensures
            final(self)@ == (TextFieldView { value: value@, ..old(self)@ }),
    {
        self.value = value;
    }

    pub fn name(&self) -> (r: &String)
        ensures
            r@ == self@.name,
    {
        &self.name
    }

    pub fn label(&self) -> (r: &String)
        ensures
            r@ == self@.label,
    {
        &self.label
    }

    /// The committed value.
    pub fn value(&self) -> (r: &String)
        ensures
            r@ == self@.value,
    {
        &self.value
    }

    /// The draft.
    pub fn input(&self) -> (r: &String)
        ensures
            r@ == self@.input,
    {
        &self.input
    }

    /// The cursor, counted in characters.
    pub fn character_index(&self) -> (r: usize)
        ensures
            r == self@.cursor,
    {
        self.character_index
    }

    pub fn is_editing(&self) -> (r: bool)
        ensures
            r == self@.editing,
    {
        self.is_editing
    }

    /// Enters edit mode.
    pub fn begin_edit(&mut self)
        ensures
            final(self)@ == old(self)@.begin_edit(),
            final(self)@.wf(),
    {
        self.is_editing = true;
        self.input = self.value.clone();
        self.character_index = char_count(self.input.as_str());
    }

    /// Leaves edit mode without touching the committed value.
    pub fn cancel_edit(&mut self)
        ensures
            final(self)@ == old(self)@.cancel_edit(),
            final(self)@.wf(),
    {
        self.input = String::new();
        self.reset_cursor();
        self.is_editing = false;
    }

    /// Leaves edit mode and commits the draft. Tells whether a value was
    /// committed, that is whether the owner is to be told of a change.
    pub fn commit_edit(&mut self) -> (committed: bool)
        requires
            old(self)@.wf(),
        ensures
            final(self)@ == old(self)@.commit_edit(),
            final(self)@.wf(),
            committed == old(self)@.editing,
    {
        if !self.is_editing {
            return false;
        }
        self.value = self.input.clone();
        self.input = String::new();
        self.reset_cursor();
        self.is_editing = false;
        true
    }

    /// Inserts a character at the cursor.
    pub fn insert_char(&mut self, c: char)
        requires
            old(self)@.wf(),
        ensures
            final(self)@ == old(self)@.insert_char(c),
            final(self)@.wf(),
    {
        if !self.is_editing {
            return;
        }
        let mut chars = chars_of(self.input.as_str());
        chars.insert(self.character_index, c);
        assert(self.character_index < chars.len());
        self.input = string_of(&chars);
        self.character_index = self.character_index + 1;
    }

    /// Removes up to `n` characters before the cursor.
    pub fn delete_left(&mut self, n: usize)
        requires
            old(self)@.wf(),
        ensures
            final(self)@ == old(self)@.delete_left(n as nat),
            final(self)@.wf(),
    {
        if !self.is_editing {
            return;
        }
        let removed: usize = if n <= self.character_index {
            n
        } else {
            self.character_index
        };
        let chars = chars_of(self.input.as_str());
        let kept = without_range(&chars, self.character_index - removed, self.character_index);
        self.input = string_of(&kept);
        self.character_index = self.character_index - removed;
    }

    /// Removes up to `n` characters after the cursor.
    pub fn delete_right(&mut self, n: usize)
        requires
            old(self)@.wf(),
        ensures
            final(self)@ == old(self)@.delete_right(n as nat),
            final(self)@.wf(),
    {
        if !self.is_editing {
            return;
        }
        let chars = chars_of(self.input.as_str());
        let room: usize = chars.len() - self.character_index;
        let removed: usize = if n <= room {
            n
        } else {
            room
        };
        let kept = without_range(&chars, self.character_index, self.character_index + removed);
        self.input = string_of(&kept);
    }

    /// Moves the cursor, stopping at either end of the draft.
    pub fn move_cursor(&mut self, distance: usize, direction: CursorDirection)
        requires
            old(self)@.wf(),
        ensures
            final(self)@ == old(self)@.move_cursor(distance as nat, direction),
            final(self)@.wf(),
    {
        if !self.is_editing {
            return;
        }
        match direction {
            CursorDirection::Left => {
                self.character_index = if distance <= self.character_index {
                    self.character_index - distance
                } else {
                    0
                };
            },
            CursorDirection::Right => {
                let len: usize = char_count(self.input.as_str());
                self.character_index = if distance <= len - self.character_index {
                    self.character_index + distance
                } else {
                    len
                };
            },
        }
    }

    /// Distance in characters from the cursor to the next word boundary.
    pub fn word_boundary_distance(&self, direction: CursorDirection) -> (distance: usize)
        requires
            self@.wf(),
        ensures
            distance == self@.word_boundary_distance(direction),
    {
        let chars = chars_of(self.input.as_str());
        let word = classify(&chars);
        match direction {
            CursorDirection::Left => scan_left(&word, self.character_index),
            CursorDirection::Right => scan_right(&word, self.character_index),
        }
    }

    fn reset_cursor(&mut self)
        ensures
            final(self).character_index == 0,
            final(self).name == old(self).name,
            final(self).label == old(self).label,
            final(self).value == old(self).value,
            final(self).input == old(self).input,
            final(self).is_editing == old(self).is_editing,
    {
        self.character_index = 0;
    }
}

/// Marks the word characters of a text.
fn classify(chars: &Vec<char>) -> (word: Vec<bool>)
    ensures
        word@ == word_flags(chars@),
{
    let mut word: Vec<bool> = Vec::new();
    let mut i: usize = 0;
    while i < chars.len()
        invariant
            i <= chars.len(),
            word@ == word_flags(chars@.take(i as int)),
        decreases chars.len() - i,
    {
        word.push(is_alphanumeric(chars[i]));
        i += 1;
        assert(word@ =~= word_flags(chars@.take(i as int)));
    }
    assert(chars@.take(chars.len() as int) =~= chars@);
    word
}

/// Word move to the right over a text whose word characters are marked.
pub fn scan_right(word: &Vec<bool>, cursor: usize) -> (distance: usize)
    ensures
        distance == distance_right(word@, cursor as int),
        cursor + distance <= word.len() || distance == 0,
{
    if cursor >= word.len() {
        return 0;
    }
    let mut at: usize = cursor + 1;
    while at < word.len() && word[at]
        invariant
            cursor < at <= word.len(),
            first_gap_from(word@, cursor + 1) == first_gap_from(word@, at as int),
        decreases word.len() - at,
    {
        at += 1;
    }
    at - cursor
}

/// Word move to the left over a text whose word characters are marked.
pub fn scan_left(word: &Vec<bool>, cursor: usize) -> (distance: usize)
    ensures
        distance == distance_left(word@, cursor as int),
        distance <= cursor,
{
    if cursor == 0 || cursor > word.len() {
        return 0;
    }
    let mut end: usize = cursor - 1;
    while end > 0 && word[end - 1]
        invariant
            end < cursor <= word.len(),
            last_gap_before(word@, cursor - 1) == last_gap_before(word@, end as int),
        decreases end,
    {
        end -= 1;
    }
    if end == 0 {
        cursor
    } else {
        cursor - (end - 1)
    }
}

/// Distance from the cursor of a field to the next word boundary on its right.
pub fn distance_to_next_non_alpha(state: &TextField) -> (distance: usize)
    requires
        state@.wf(),
    ensures
        distance == state@.word_boundary_distance(CursorDirection::Right),
{
    state.word_boundary_distance(CursorDirection::Right)
}

/// Distance from the cursor of a field to the next word boundary on its left.
pub fn distance_to_prev_non_alpha(state: &TextField) -> (distance: usize)
    requires
        state@.wf(),
    ensures
        distance == state@.word_boundary_distance(CursorDirection::Left),
{
    state.word_boundary_distance(CursorDirection::Left)
}

/// Applies an event to a field. The result is the follow-up event, if any: a
/// committed draft reports that the value changed.
pub fn on_event(state: &mut TextField, e: TextFieldEventType) -> (out: Option<TextFieldEvent>)
    requires
        old(state)@.wf(),
    ensures
        final(state)@ == old(state)@.apply(e),
        final(state)@.wf(),
        view_of(out) == old(state)@.follow_up(e),
{
    match e {
        TextFieldEventType::StartEditing => {
            state.begin_edit();
            None
        },
        TextFieldEventType::DoneEditing(submit) => {
            if submit {
                if state.commit_edit() {
                    Some(TextFieldEvent::new(state.name.clone(), TextFieldEventType::ValueChanged))
                } else {
                    None
                }
            } else {
                state.cancel_edit();
                None
            }
        },
        TextFieldEventType::InputChar(c) => {
            state.insert_char(c);
            None
        },
        TextFieldEventType::DeleteChar(n, direction) => {
            match direction {
                CursorDirection::Left => state.delete_left(n),
                CursorDirection::Right => state.delete_right(n),
            }
            None
        },
        TextFieldEventType::MoveCursor(n, direction) => {
            state.move_cursor(n, direction);
            None
        },
        TextFieldEventType::ValueChanged => None,
    }
}

/// Offers a key to a field. A field at rest takes the space bar to start
/// editing; a field being edited takes the editing keys.
pub fn on_key(state: &TextField, key: KeyEvent) -> (out: InputHandled<TextFieldEvent>)
    requires
        state@.wf(),
    ensures
        out@ == state@.on_key(key),
{
    let action = key_action(state, key);
    match action {
        InputHandled::Handled(Some(event_type)) => handled(
            TextFieldEvent::new(state.name.clone(), event_type),
        ),
        InputHandled::Handled(None) => handled_empty(),
        InputHandled::NotHandled => not_handled(),
    }
}

/// The binding of a key in the field's present mode.
fn key_action(state: &TextField, key: KeyEvent) -> (out: InputHandled<TextFieldEventType>)
    requires
        state@.wf(),
    ensures
        out == state@.key_action(key),
{
    if !state.is_editing {
        return match key.code {
            KeyCode::Char(' ') => handled(TextFieldEventType::StartEditing),
            _ => not_handled(),
        };
    }
    match key.code {
        KeyCode::Enter => handled(TextFieldEventType::DoneEditing(true)),
        KeyCode::Esc => handled(TextFieldEventType::DoneEditing(false)),
        KeyCode::Backspace => handled(TextFieldEventType::DeleteChar(1, CursorDirection::Left)),
        KeyCode::Delete => {
            if state.character_index < char_count(state.input.as_str()) {
                handled(TextFieldEventType::DeleteChar(1, CursorDirection::Right))
            } else {
                handled_empty()
            }
        },
        KeyCode::Left => handled(TextFieldEventType::MoveCursor(1, CursorDirection::Left)),
        KeyCode::Right => handled(TextFieldEventType::MoveCursor(1, CursorDirection::Right)),
        KeyCode::Home => handled(
            TextFieldEventType::MoveCursor(state.character_index, CursorDirection::Left),
        ),
        KeyCode::End => handled(
            TextFieldEventType::MoveCursor(
                char_count(state.input.as_str()),
                CursorDirection::Right,
            ),
        ),
        KeyCode::Char(c) => {
            if key.modifiers.is_empty() {
                handled(TextFieldEventType::InputChar(c))
            } else if c == 'f' && key.modifiers.alt {
                handled(
                    TextFieldEventType::MoveCursor(
                        distance_to_next_non_alpha(state),
                        CursorDirection::Right,
                    ),
                )
            } else if c == 'b' && key.modifiers.alt {
                handled(
                    TextFieldEventType::MoveCursor(
                        distance_to_prev_non_alpha(state),
                        CursorDirection::Left,
                    ),
                )
            } else if c == 'd' && key.modifiers.alt {
                handled(
                    TextFieldEventType::DeleteChar(
                        distance_to_next_non_alpha(state),
                        CursorDirection::Right,
                    ),
                )
            } else if c == 'h' && key.modifiers.alt {
                handled(
                    TextFieldEventType::DeleteChar(
                        distance_to_prev_non_alpha(state),
                        CursorDirection::Left,
                    ),
                )
            } else if c == 'w' && key.modifiers.control {
                handled(
                    TextFieldEventType::DeleteChar(
                        distance_to_prev_non_alpha(state),
                        CursorDirection::Left,
                    ),
                )
            } else {
                not_handled()
            }
        },
        _ => not_handled(),
    }
}

/// Whether an event edits the draft or moves the cursor, and does nothing
/// else.
pub open spec fn is_edit(e: TextFieldEventType) -> bool {
    e is InputChar || e is DeleteChar || e is MoveCursor
}

/// The field after a run of events, applied in order.
pub open spec fn apply_all(field: TextFieldView, events: Seq<TextFieldEventType>) -> TextFieldView
    decreases events.len(),
{
    if events.len() == 0 {
        field
    } else {
        apply_all(field, events.drop_last()).apply(events.last())
    }
}

/// Every event leaves a well-formed field well formed: the cursor stays
/// within the draft.
pub proof fn lemma_apply_keeps_cursor_in_draft(field: TextFieldView, e: TextFieldEventType)
    requires
        field.wf(),
    ensures
        field.apply(e).wf(),
        field.apply(e).cursor <= field.apply(e).input.len(),
{
}

/// Whatever run of events a well-formed field goes through, its cursor
/// stays within its draft.
pub proof fn lemma_cursor_stays_in_draft(field: TextFieldView, events: Seq<TextFieldEventType>)
    requires
        field.wf(),
    ensures
        apply_all(field, events).wf(),
        apply_all(field, events).cursor <= apply_all(field, events).input.len(),
    decreases events.len(),
{
    if events.len() > 0 {
        lemma_cursor_stays_in_draft(field, events.drop_last());
        lemma_apply_keeps_cursor_in_draft(apply_all(field, events.drop_last()), events.last());
    }
}

/// Entering edit mode and leaving it at once without committing leaves the
/// committed value as it was; a field that was at rest is wholly as it was.
pub proof fn lemma_begin_then_cancel(field: TextFieldView)
    ensures
        field.begin_edit().cancel_edit().value == field.value,
        field.wf() && !field.editing ==> field.begin_edit().cancel_edit() == field,
{
    if field.wf() && !field.editing {
        assert(field.input =~= Seq::empty());
    }
}

/// A run of edits leaves a field in edit mode, and touches neither its
/// name nor its committed value.
pub proof fn lemma_edits_keep_editing(field: TextFieldView, edits: Seq<TextFieldEventType>)
    requires
        field.editing,
        forall|i: int| 0 <= i < edits.len() ==> is_edit(#[trigger] edits[i]),
    ensures
        apply_all(field, edits).editing,
        apply_all(field, edits).value == field.value,
        apply_all(field, edits).name == field.name,
    decreases edits.len(),
{
    if edits.len() > 0 {
        assert(is_edit(edits.last()));
        assert forall|i: int| 0 <= i < edits.drop_last().len() implies is_edit(
            #[trigger] edits.drop_last()[i],
        ) by {
            assert(edits.drop_last()[i] == edits[i]);
        }
        lemma_edits_keep_editing(field, edits.drop_last());
    }
}

/// Entering edit mode, editing the draft and committing makes the edited
/// draft the committed value, leaves the draft empty and reports the change.
pub proof fn lemma_commit_takes_the_draft(field: TextFieldView, edits: Seq<TextFieldEventType>)
    requires
        forall|i: int| 0 <= i < edits.len() ==> is_edit(#[trigger] edits[i]),
    ensures
        ({
            let draft = apply_all(field.begin_edit(), edits);
            &&& draft.commit_edit().value == draft.input
            &&& draft.commit_edit().input.len() == 0
            &&& !draft.commit_edit().editing
            &&& draft.follow_up(TextFieldEventType::DoneEditing(true)) == Some(
                TextFieldEventView {
                    name: field.name,
                    event_type: TextFieldEventType::ValueChanged,
                },
            )
        }),
{
    lemma_edits_keep_editing(field.begin_edit(), edits);
}

} // verus!
