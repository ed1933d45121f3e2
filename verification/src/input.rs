//! Key events as the core sees them, and the three-way answer of a key handler.

use crate::app::{App, AppView};
use crate::component::debug::{toggle_debug_logs, DebugLogsEvent};
use crate::component::pubsub::{PubsubEvent, PubsubEventView};
use crate::component::{setup, topics};
use crate::event::{quit, AppEvent, AppEventView};
use crate::route::{next_route, previous_route, select_route, Route, RouteEvent};
use vstd::prelude::*;

verus! {

/// The key that was pressed. Keys the dashboard binds nothing to are `Other`.
#[derive(Clone, Copy, Debug, PartialEq, Eq, Structural)]
pub enum KeyCode {
    Backspace,
    Enter,
    Left,
    Right,
    Up,
    Down,
    Home,
    End,
    Tab,
    BackTab,
    Delete,
    Esc,
    Char(char),
    Other,
}

/// The modifier keys held while a key was pressed. `other` stands for any
/// modifier besides shift, control and alt.
#[derive(Clone, Copy, Debug, PartialEq, Eq, Structural)]
pub struct KeyModifiers {
    pub shift: bool,
    pub control: bool,
    pub alt: bool,
    pub other: bool,
}

impl KeyModifiers {
    /// No modifier at all.
    pub open spec fn spec_is_empty(self) -> bool {
        !self.shift && !self.control && !self.alt && !self.other
    }

    pub fn none() -> (m: KeyModifiers)
        ensures
            m.spec_is_empty(),
    {
        KeyModifiers { shift: false, control: false, alt: false, other: false }
    }

    #[verifier::when_used_as_spec(spec_is_empty)]
    pub fn is_empty(self) -> (r: bool)
        ensures
            r == self.spec_is_empty(),
    {
        !self.shift && !self.control && !self.alt && !self.other
    }
}

/// One key press: the key and the modifiers held with it.
#[derive(Clone, Copy, Debug, PartialEq, Eq, Structural)]
pub struct KeyEvent {
    pub code: KeyCode,
    pub modifiers: KeyModifiers,
}

impl KeyEvent {
    /// A key pressed with the given modifiers.
    pub fn new(code: KeyCode, modifiers: KeyModifiers) -> (key: KeyEvent)
        ensures
            key == (KeyEvent { code, modifiers }),
    {
        KeyEvent { code, modifiers }
    }

    /// A key pressed alone.
    pub fn plain(code: KeyCode) -> (key: KeyEvent)
        ensures
            key.code == code,
            key.modifiers.spec_is_empty(),
    {
        KeyEvent { code, modifiers: KeyModifiers::none() }
    }
}

/// What a handler says of a key. `Handled(None)` consumed the key without
/// asking for anything; `NotHandled` leaves the key to the next handler.
pub enum InputHandled<T> {
    Handled(Option<T>),
    NotHandled,
}

impl<T: View> View for InputHandled<T> {
    type V = InputHandled<T::V>;

    open spec fn view(&self) -> InputHandled<T::V> {
        match self {
            InputHandled::Handled(Some(t)) => InputHandled::Handled(Some(t@)),
            InputHandled::Handled(None) => InputHandled::Handled(None),
            InputHandled::NotHandled => InputHandled::NotHandled,
        }
    }
}

/// The view of the value that an option holds, if it holds one.
pub open spec fn view_of<T: View>(o: Option<T>) -> Option<T::V> {
    match o {
        Some(t) => Some(t@),
        None => None,
    }
}

impl<T: Clone> InputHandled<T> {
    /// Whether the key was consumed, with or without an event.
    pub fn is_handled(&self) -> (r: bool)
        ensures
            r == (self is Handled),
    {
        matches!(self, InputHandled::Handled(_))
    }

    /// Converts the event, if there is one; the answer itself stays.
    pub fn map<U>(self, f: impl FnOnce(T) -> U) -> (out: InputHandled<U>)
        requires
            self matches InputHandled::Handled(Some(t)) ==> f.requires((t,)),
        ensures
            match self {
                InputHandled::Handled(Some(t)) => out matches InputHandled::Handled(Some(u))
                    && f.ensures((t,), u),
                InputHandled::Handled(None) => out == InputHandled::<U>::Handled(None),
                InputHandled::NotHandled => out is NotHandled,
            },
    {
        match self {
            InputHandled::Handled(Some(t)) => InputHandled::Handled(Some(f(t))),
            InputHandled::Handled(None) => InputHandled::Handled(None),
            InputHandled::NotHandled => InputHandled::NotHandled,
        }
    }

    /// The event of a handled key; nothing for a key that was not handled.
    pub fn unwrap(self) -> (out: Option<T>)
        ensures
            out == match self {
                InputHandled::Handled(event) => event,
                InputHandled::NotHandled => None,
            },
    {
        match self {
            InputHandled::Handled(event) => event,
            InputHandled::NotHandled => None,
        }
    }

    /// A copy of the answer, with a clone of its event.
    pub fn clone(&self) -> (out: InputHandled<T>)
        ensures
            match *self {
                InputHandled::Handled(Some(t)) => out matches InputHandled::Handled(Some(u))
                    && cloned(t, u),
                InputHandled::Handled(None) => out == InputHandled::<T>::Handled(None),
                InputHandled::NotHandled => out is NotHandled,
            },
    {
        match self {
            InputHandled::Handled(Some(event)) => InputHandled::Handled(Some(event.clone())),
            InputHandled::Handled(None) => InputHandled::Handled(None),
            InputHandled::NotHandled => InputHandled::NotHandled,
        }
    }
}

/// The key was consumed and asks for `event`.
pub fn handled<T>(event: T) -> (out: InputHandled<T>)
    ensures
        out == InputHandled::Handled(Some(event)),
{
    InputHandled::Handled(Some(event))
}

/// The key was consumed and asks for nothing.
pub fn handled_empty<T>() -> (out: InputHandled<T>)
    ensures
        out == InputHandled::<T>::Handled(None),
{
    InputHandled::Handled(None)
}

/// The key was not consumed.
pub fn not_handled<T>() -> (out: InputHandled<T>)
    ensures
        out is NotHandled,
{
    InputHandled::NotHandled
}

/// The place in the cycle of screens that a digit key stands for: `1` for
/// the first screen, and so on. `0` stands for none.
pub open spec fn digit_place(c: char) -> Option<usize> {
    if c == '1' {
        Some(0)
    } else if c == '2' {
        Some(1)
    } else if c == '3' {
        Some(2)
    } else if c == '4' {
        Some(3)
    } else if c == '5' {
        Some(4)
    } else if c == '6' {
        Some(5)
    } else if c == '7' {
        Some(6)
    } else if c == '8' {
        Some(7)
    } else if c == '9' {
        Some(8)
    } else {
        None
    }
}

/// Whether a key is one that asks to leave whatever is focused: `c` or `d`
/// with the control key.
pub open spec fn is_override_key(key: KeyEvent) -> bool {
    key.modifiers.control && (key.code == KeyCode::Char('c') || key.code == KeyCode::Char('d'))
}

/// What a key means where no screen has taken it: Tab and BackTab go round
/// the screens, a digit goes to the screen of that number, `;` shows or hides
/// the log panel and `q` asks to leave.
pub open spec fn global_key(key: KeyEvent) -> InputHandled<AppEventView> {
    match key.code {
        KeyCode::Tab => InputHandled::Handled(Some(AppEventView::Route(RouteEvent::Next))),
        KeyCode::BackTab => InputHandled::Handled(Some(AppEventView::Route(RouteEvent::Prev))),
        KeyCode::Char(c) => if c == ';' {
            InputHandled::Handled(Some(AppEventView::Debug(DebugLogsEvent::ToggleVisibility)))
        } else if c == 'q' {
            InputHandled::Handled(Some(AppEventView::Quit))
        } else {
            match digit_place(c) {
                Some(place) => if place < crate::route::ROUTE_COUNT {
                    InputHandled::Handled(
                        Some(AppEventView::Route(RouteEvent::Select(Route::at(place as int)))),
                    )
                } else {
                    InputHandled::NotHandled
                },
                None => InputHandled::NotHandled,
            }
        },
        _ => InputHandled::NotHandled,
    }
}

impl AppView {
    /// What the screen on show says of a key. The setup screen offers the
    /// key to its focused field first.
    pub open spec fn route_key(self, key: KeyEvent) -> InputHandled<AppEventView> {
        match self.route {
            Route::Setup => match self.setup.on_key(key) {
                InputHandled::Handled(Some(e)) => InputHandled::Handled(
                    Some(AppEventView::Setup(e)),
                ),
                InputHandled::Handled(None) => InputHandled::Handled(None),
                InputHandled::NotHandled => InputHandled::NotHandled,
            },
            Route::Topics => match self.pubsub.topics.on_key(key) {
                InputHandled::Handled(Some(e)) => InputHandled::Handled(
                    Some(AppEventView::Pubsub(PubsubEventView::Topics(e))),
                ),
                InputHandled::Handled(None) => InputHandled::Handled(None),
                InputHandled::NotHandled => InputHandled::NotHandled,
            },
        }
    }

    /// The answer to a key after the whole chain: the override keys win;
    /// then the screen on show is asked, and only where it does not handle
    /// the key are the global bindings asked.
    pub open spec fn key_answer(self, key: KeyEvent) -> InputHandled<AppEventView> {
        if is_override_key(key) {
            InputHandled::Handled(Some(AppEventView::Quit))
        } else if self.route_key(key) is Handled {
            self.route_key(key)
        } else {
            global_key(key)
        }
    }

    /// The event that a key asks for, if any.
    pub open spec fn key_event(self, key: KeyEvent) -> Option<AppEventView> {
        match self.key_answer(key) {
            InputHandled::Handled(event) => event,
            InputHandled::NotHandled => None,
        }
    }
}

/// Finds the event that a key asks for. A key that nothing is bound to
/// asks for nothing.
pub fn on_key(state: &App, key: KeyEvent) -> (out: Option<AppEvent>)
    requires
        state.wf(),
    ensures
        view_of(out) == state@.key_event(key),
        out matches Some(e) ==> state@.accepts(e@),
{
    if key.modifiers.control {
        match key.code {
            KeyCode::Char(c) => {
                if c == 'c' || c == 'd' {
                    return Some(quit());
                }
            },
            _ => {},
        }
    }
    let route_result = route_on_key(state, key);
    if route_result.is_handled() {
        return route_result.unwrap();
    }
    global_on_key(key).unwrap()
}

/// Offers a key to the screen on show.
fn route_on_key(state: &App, key: KeyEvent) -> (out: InputHandled<AppEvent>)
    requires
        state.wf(),
    ensures
        out@ == state@.route_key(key),
        out matches InputHandled::Handled(Some(e)) ==> state@.accepts(e@),
{
    match state.route {
        Route::Setup => match setup::on_key(&state.setup, key) {
            InputHandled::Handled(Some(e)) => handled(AppEvent::Setup(e)),
            InputHandled::Handled(None) => handled_empty(),
            InputHandled::NotHandled => not_handled(),
        },
        Route::Topics => match topics::on_key(state.pubsub.topics(), key) {
            InputHandled::Handled(Some(e)) => handled(AppEvent::Pubsub(PubsubEvent::Topics(e))),
            InputHandled::Handled(None) => handled_empty(),
            InputHandled::NotHandled => not_handled(),
        },
    }
}

/// The global bindings.
fn global_on_key(key: KeyEvent) -> (out: InputHandled<AppEvent>)
    ensures
        out@ == global_key(key),
        out matches InputHandled::Handled(Some(e)) ==> e is Route || e is Debug || e is Quit,
{
    match key.code {
        KeyCode::Tab => handled(next_route()),
        KeyCode::BackTab => handled(previous_route()),
        KeyCode::Char(c) => {
            if c == ';' {
                match toggle_debug_logs() {
                    InputHandled::Handled(Some(e)) => handled(AppEvent::Debug(e)),
                    InputHandled::Handled(None) => handled_empty(),
                    InputHandled::NotHandled => not_handled(),
                }
            } else if c == 'q' {
                handled(quit())
            } else {
                on_numeral_key(c)
            }
        },
        _ => not_handled(),
    }
}

/// The binding of a digit key: the screen of that number, if there is one.
fn on_numeral_key(c: char) -> (out: InputHandled<AppEvent>)
    ensures
        out@ == match digit_place(c) {
            Some(place) => if place < crate::route::ROUTE_COUNT {
                InputHandled::Handled(
                    Some(AppEventView::Route(RouteEvent::Select(Route::at(place as int)))),
                )
            } else {
                InputHandled::NotHandled
            },
            None => InputHandled::NotHandled,
        },
        out matches InputHandled::Handled(Some(e)) ==> e is Route,
{
    let place: Option<usize> = match c {
        '1' => Some(0),
        '2' => Some(1),
        '3' => Some(2),
        '4' => Some(3),
        '5' => Some(4),
        '6' => Some(5),
        '7' => Some(6),
        '8' => Some(7),
        '9' => Some(8),
        _ => None,
    };
    match place {
        Some(i) => match Route::from_index(i) {
            Some(route) => handled(select_route(route)),
            None => not_handled(),
        },
        None => not_handled(),
    }
}

} // verus!
