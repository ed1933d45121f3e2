//! The screens of the dashboard and the moves between them.

use crate::app::{App, AppView};
use crate::event::{AppEvent, AppEventView};
use vstd::prelude::*;

verus! {

/// Number of screens.
pub const ROUTE_COUNT: usize = 2;

/// A screen. The screens stand in a fixed order and form a cycle.
#[derive(Clone, Copy, Debug, PartialEq, Eq, Structural)]
pub enum Route {
    Setup,
    Topics,
}

/// A request to change the screen.
#[derive(Clone, Copy, Debug, PartialEq, Eq, Structural)]
pub enum RouteEvent {
    Select(Route),
    Next,
    Prev,
}

impl Route {
    /// Place of the screen in the cycle, from 0.
    pub open spec fn position(self) -> int {
        match self {
            Route::Setup => 0,
            Route::Topics => 1,
        }
    }

    /// The screen at a place of the cycle.
    pub open spec fn at(position: int) -> Route {
        if position == 0 {
            Route::Setup
        } else {
            Route::Topics
        }
    }

    /// The screen after this one; the last is followed by the first.
    pub open spec fn spec_next(self) -> Route {
        Route::at((self.position() + 1) % (ROUTE_COUNT as int))
    }

    /// The screen before this one; the first is preceded by the last.
    pub open spec fn spec_previous(self) -> Route {
        Route::at((self.position() + ROUTE_COUNT - 1) % (ROUTE_COUNT as int))
    }

    /// The screen after a request.
    pub open spec fn apply(self, event: RouteEvent) -> Route {
        match event {
            RouteEvent::Select(route) => route,
            RouteEvent::Next => self.spec_next(),
            RouteEvent::Prev => self.spec_previous(),
        }
    }

    /// The screen the dashboard opens with.
    pub fn first() -> (route: Route)
        ensures
            route == Route::Setup,
            route.position() == 0,
    {
        Route::Setup
    }

    pub fn index(self) -> (i: usize)
        ensures
            i == self.position(),
            i < ROUTE_COUNT,
    {
        match self {
            Route::Setup => 0,
            Route::Topics => 1,
        }
    }

    /// The screen at a place of the cycle, if there is such a place.
    pub fn from_index(i: usize) -> (route: Option<Route>)
        ensures
            i < ROUTE_COUNT ==> route == Some(Route::at(i as int)),
            i >= ROUTE_COUNT ==> route is None,
            route matches Some(r) ==> r.position() == i,
    {
        if i == 0 {
            Some(Route::Setup)
        } else if i == 1 {
            Some(Route::Topics)
        } else {
            None
        }
    }

    /// The name shown on the screen's tab.
    pub fn title(self) -> (title: &'static str)
        ensures
            title@ == match self {
                Route::Setup => "Setup"@,
                Route::Topics => "Topics"@,
            },
    {
        match self {
            Route::Setup => "Setup",
            Route::Topics => "Topics",
        }
    }

    /// The texts of the tabs, in the order of the screens: the number of
    /// the key that leads to the screen, and its name.
    pub fn titles() -> (titles: Vec<String>)
        ensures
            titles@.len() == ROUTE_COUNT,
            titles@[0]@ == "[1] Setup"@,
            titles@[1]@ == "[2] Topics"@,
    {
        vec!["[1] Setup".to_owned(), "[2] Topics".to_owned()]
    }

    #[verifier::when_used_as_spec(spec_next)]
    pub fn next(self) -> (route: Route)
        ensures
            route == self.spec_next(),
            route.position() == (self.position() + 1) % (ROUTE_COUNT as int),
    {
        let index: usize = (self.index() + 1) % ROUTE_COUNT;
        match Route::from_index(index) {
            Some(route) => route,
            None => self,
        }
    }

    #[verifier::when_used_as_spec(spec_previous)]
    pub fn previous(self) -> (route: Route)
        ensures
            route == self.spec_previous(),
            route.position() == (self.position() + ROUTE_COUNT - 1) % (ROUTE_COUNT as int),
    {
        let index: usize = (self.index() + ROUTE_COUNT - 1) % ROUTE_COUNT;
        match Route::from_index(index) {
            Some(route) => route,
            None => self,
        }
    }
}

/// The request to go to the screen before.
pub fn previous_route() -> (event: AppEvent)
    ensures
        event@ == AppEventView::Route(RouteEvent::Prev),
{
    AppEvent::Route(RouteEvent::Prev)
}

/// The request to go to the screen after.
pub fn next_route() -> (event: AppEvent)
    ensures
        event@ == AppEventView::Route(RouteEvent::Next),
{
    AppEvent::Route(RouteEvent::Next)
}

/// The request to go to a given screen.
pub fn select_route(route: Route) -> (event: AppEvent)
    ensures
        event@ == AppEventView::Route(RouteEvent::Select(route)),
{
    AppEvent::Route(RouteEvent::Select(route))
}

/// Changes the screen on show. Nothing follows from it.
pub fn on_event(state: &mut App, event: RouteEvent) -> (out: Option<AppEvent>)
    ensures
        final(state)@ == (AppView { route: old(state)@.route.apply(event), ..old(state)@ }),
        final(state).wf() == old(state).wf(),
        out is None,
{
    let new_route = match event {
        RouteEvent::Select(route) => route,
        RouteEvent::Next => state.route.next(),
        RouteEvent::Prev => state.route.previous(),
    };
    state.route = new_route;
    None
}

/// Going on and then back, or back and then on, ends on the screen where it
/// began.
pub proof fn lemma_next_previous_cancel(route: Route)
    ensures
        route.spec_next().spec_previous() == route,
        route.spec_previous().spec_next() == route,
{
}

/// Going on once for every screen comes back to the start.
pub proof fn lemma_next_cycles(route: Route)
    ensures
        route.spec_next().spec_next() == route,
        route.spec_next() != route,
{
}

} // verus!
