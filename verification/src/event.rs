//! The events of the dashboard and the dispatcher that handles them one at
//! a time.
//!
//! A handler never calls another handler. It answers with what is to
//! happen next: nothing, one follow-up event, or a command for the program
//! around the core. The queue of pending events takes a follow-up at its
//! front, so that it is handled before anything that arrived later.

use crate::app::{App, AppView};
use crate::component::debug::{self, DebugLogsEvent};
use crate::component::pubsub::{
    self, lemma_config_accepts, Command, CommandView, PubsubEvent, PubsubEventView, Reaction,
    ReactionView,
};
use crate::component::setup::{self, lemma_setup_accepts, SetupEvent, SetupEventView};
use crate::input::{on_key, view_of, KeyEvent};
use crate::route::{self, RouteEvent};
use std::collections::VecDeque;
use vstd::prelude::*;

verus! {

/// An event of the dashboard.
#[derive(Debug)]
pub enum AppEvent {
    /// The timer ticked.
    Tick,
    /// A key was pressed.
    Input(KeyEvent),
    Pubsub(PubsubEvent),
    Route(RouteEvent),
    Debug(DebugLogsEvent),
    Setup(SetupEvent),
    /// The user asks to leave.
    Quit,
}

/// An event of the dashboard as plain values.
pub enum AppEventView {
    Tick,
    Input(KeyEvent),
    Pubsub(PubsubEventView),
    Route(RouteEvent),
    Debug(DebugLogsEvent),
    Setup(SetupEventView),
    Quit,
}

impl View for AppEvent {
    type V = AppEventView;

    open spec fn view(&self) -> AppEventView {
        match self {
            AppEvent::Tick => AppEventView::Tick,
            AppEvent::Input(key) => AppEventView::Input(*key),
            AppEvent::Pubsub(e) => AppEventView::Pubsub(e@),
            AppEvent::Route(e) => AppEventView::Route(*e),
            AppEvent::Debug(e) => AppEventView::Debug(*e),
            AppEvent::Setup(e) => AppEventView::Setup(e@),
            AppEvent::Quit => AppEventView::Quit,
        }
    }
}

impl Clone for AppEvent {
    fn clone(&self) -> (out: Self)
        ensures
            out@ == self@,
    {
        match self {
            AppEvent::Tick => AppEvent::Tick,
            AppEvent::Input(key) => AppEvent::Input(*key),
            AppEvent::Pubsub(e) => AppEvent::Pubsub(e.clone()),
            AppEvent::Route(e) => AppEvent::Route(*e),
            AppEvent::Debug(e) => AppEvent::Debug(*e),
            AppEvent::Setup(e) => AppEvent::Setup(e.clone()),
            AppEvent::Quit => AppEvent::Quit,
        }
    }
}

/// The request to leave.
pub fn quit() -> (event: AppEvent)
    ensures
        event@ == AppEventView::Quit,
{
    AppEvent::Quit
}

/// The count of ticks after one more tick.
pub open spec fn next_ticks(ticks: u64) -> u64 {
    if ticks == u64::MAX {
        0
    } else {
        (ticks + 1) as u64
    }
}

impl AppView {
    /// Every part of the state is well formed, as far as plain values show.
    pub open spec fn wf(self) -> bool {
        &&& self.setup.wf()
        &&& self.pubsub.config.wf()
        &&& self.pubsub.topics.wf()
        &&& self.debug_logs.wf()
    }

    /// Whether an event can be handled: the fields it names must exist.
    pub open spec fn accepts(self, e: AppEventView) -> bool {
        match e {
            AppEventView::Setup(s) => self.setup.accepts(s),
            AppEventView::Pubsub(p) => self.pubsub.accepts(p),
            _ => true,
        }
    }

    /// Whether two states have the same fields: the same names on the setup
    /// screen, and the same names and kinds in the settings.
    pub open spec fn same_fields(self, other: AppView) -> bool {
        &&& self.setup.names() == other.setup.names()
        &&& self.pubsub.config.names() == other.pubsub.config.names()
        &&& self.pubsub.config.kinds() == other.pubsub.config.kinds()
    }

    /// The state after a tick: one more tick is counted and the log panel
    /// is told of it.
    pub open spec fn tick(self) -> AppView {
        AppView {
            ticks: next_ticks(self.ticks),
            debug_logs: self.debug_logs.tick(next_ticks(self.ticks)),
            ..self
        }
    }

    /// The state after an event. Once the user has asked to leave, no
    /// event changes anything. A key changes nothing by itself: it asks for
    /// the event that it is bound to.
    pub open spec fn apply(self, e: AppEventView) -> AppView {
        if self.should_quit {
            self
        } else {
            match e {
                AppEventView::Tick => self.tick(),
                AppEventView::Input(_) => self,
                AppEventView::Pubsub(p) => AppView { pubsub: self.pubsub.apply(p), ..self },
                AppEventView::Route(r) => AppView { route: self.route.apply(r), ..self },
                AppEventView::Debug(d) => AppView {
                    debug_logs: self.debug_logs.apply(d),
                    ..self
                },
                AppEventView::Setup(s) => AppView { setup: self.setup.apply(s), ..self },
                AppEventView::Quit => AppView { should_quit: true, ..self },
            }
        }
    }

    /// What handling an event asks for.
    pub open spec fn reaction(self, e: AppEventView) -> ReactionView<AppEventView> {
        if self.should_quit {
            ReactionView::Nothing
        } else {
            match e {
                AppEventView::Input(key) => match self.key_event(key) {
                    Some(next) => ReactionView::FollowUp(next),
                    None => ReactionView::Nothing,
                },
                AppEventView::Pubsub(p) => match self.pubsub.reaction(p) {
                    ReactionView::FollowUp(next) => ReactionView::FollowUp(
                        AppEventView::Pubsub(next),
                    ),
                    ReactionView::Run(command) => ReactionView::Run(command),
                    ReactionView::Nothing => ReactionView::Nothing,
                },
                AppEventView::Setup(s) => match self.setup.follow_up(s) {
                    Some(next) => ReactionView::FollowUp(AppEventView::Setup(next)),
                    None => ReactionView::Nothing,
                },
                _ => ReactionView::Nothing,
            }
        }
    }
}

/// A tick touches the count of ticks and the lines on show in the log
/// panel, and nothing else. Where the lines on show are up to date, it
/// touches the count alone, however often it comes.
pub proof fn lemma_tick_is_quiet(app: AppView)
    ensures
        app.tick() == (AppView {
            ticks: next_ticks(app.ticks),
            debug_logs: crate::component::debug::DebugLogsView {
                logs: app.tick().debug_logs.logs,
                ..app.debug_logs
            },
            ..app
        }),
        app.debug_logs.logs == app.debug_logs.pending ==> app.tick() == (AppView {
            ticks: next_ticks(app.ticks),
            ..app
        }) && app.tick().tick() == (AppView { ticks: next_ticks(next_ticks(app.ticks)), ..app }),
{
}

/// States with the same fields, both well formed, accept the same events.
pub proof fn lemma_accepts_stable(a: AppView, b: AppView, e: AppEventView)
    requires
        a.wf(),
        b.wf(),
        a.same_fields(b),
        a.accepts(e),
    ensures
        b.accepts(e),
{
    match e {
        AppEventView::Setup(s) => {
            lemma_setup_accepts(a.setup, b.setup, s);
        },
        AppEventView::Pubsub(PubsubEventView::Config(c)) => {
            lemma_config_accepts(a.pubsub.config, b.pubsub.config, c);
        },
        _ => {},
    }
}

/// Handles one event. The state changes as `apply` says, and the result is
/// what `reaction` says: nothing, the one follow-up event, or the command to
/// carry out.
pub fn on_event(state: &mut App, e: AppEvent) -> (out: Reaction<AppEvent>)
    requires
        old(state).wf(),
        old(state)@.accepts(e@),
    ensures
        final(state).wf(),
        final(state)@ == old(state)@.apply(e@),
        final(state)@.same_fields(old(state)@),
        out@ == old(state)@.reaction(e@),
        out matches Reaction::FollowUp(next) ==> final(state)@.accepts(next@),
{
    proof {
        state.pubsub.lemma_wf();
    }
    if state.should_quit {
        return Reaction::Nothing;
    }
    match e {
        AppEvent::Tick => {
            on_tick(state);
            Reaction::Nothing
        },
        AppEvent::Input(key) => match on_key(state, key) {
            Some(next) => Reaction::FollowUp(next),
            None => Reaction::Nothing,
        },
        AppEvent::Route(event) => {
            route::on_event(state, event);
            Reaction::Nothing
        },
        AppEvent::Pubsub(event) => {
            let reaction = pubsub::on_event(&mut state.pubsub, event);
            proof {
                state.pubsub.lemma_wf();
            }
            match reaction {
                Reaction::FollowUp(next) => Reaction::FollowUp(AppEvent::Pubsub(next)),
                Reaction::Run(command) => Reaction::Run(command),
                Reaction::Nothing => Reaction::Nothing,
            }
        },
        AppEvent::Debug(event) => {
            debug::on_event(&mut state.debug_logs, event);
            Reaction::Nothing
        },
        AppEvent::Setup(event) => match setup::on_event(&mut state.setup, event) {
            Some(next) => Reaction::FollowUp(AppEvent::Setup(next)),
            None => Reaction::Nothing,
        },
        AppEvent::Quit => {
            on_quit(state);
            Reaction::Nothing
        },
    }
}

/// Counts a tick and tells the log panel of it.
pub fn on_tick(state: &mut App) -> (out: Option<AppEvent>)
    requires
        old(state).wf(),
    ensures
        final(state).wf(),
        final(state)@ == old(state)@.tick(),
        out is None,
{
    state.ticks = if state.ticks == u64::MAX {
        0
    } else {
        state.ticks + 1
    };
    debug::on_tick(&mut state.debug_logs, state.ticks);
    None
}

/// Notes that the user has asked to leave.
pub fn on_quit(app: &mut App) -> (out: Option<AppEvent>)
    ensures
        final(app)@ == (AppView { should_quit: true, ..old(app)@ }),
        final(app).wf() == old(app).wf(),
        out is None,
{
    app.should_quit = true;
    None
}

/// The events of a list as plain values, in order.
pub open spec fn event_views(events: Seq<AppEvent>) -> Seq<AppEventView> {
    events.map_values(|e: AppEvent| e@)
}

/// What the queue holds after the event at its front was handled with the
/// given reaction: the rest, with the follow-up event before it.
pub open spec fn queue_after(
    pending: Seq<AppEventView>,
    reaction: ReactionView<AppEventView>,
) -> Seq<AppEventView> {
    match reaction {
        ReactionView::FollowUp(next) => seq![next] + pending.skip(1),
        _ => pending.skip(1),
    }
}

/// The command that a reaction asks for, if it asks for one.
pub open spec fn command_of(reaction: ReactionView<AppEventView>) -> Option<CommandView> {
    match reaction {
        ReactionView::Run(command) => Some(command),
        _ => None,
    }
}

/// The events that wait to be handled, in the order in which they will be.
pub struct EventQueue {
    pending: VecDeque<AppEvent>,
}

impl View for EventQueue {
    type V = Seq<AppEventView>;

    closed spec fn view(&self) -> Seq<AppEventView> {
        event_views(self.pending@)
    }
}

impl EventQueue {
    /// Whether a state can handle every event of the queue.
    pub open spec fn accepted_by(&self, app: AppView) -> bool {
        forall|i: int| 0 <= i < self@.len() ==> app.accepts(#[trigger] self@[i])
    }

    /// A queue without events.
    pub fn new() -> (queue: EventQueue)
        ensures
            queue@.len() == 0,
    {
        let queue = EventQueue { pending: VecDeque::new() };
        assert(queue@ =~= Seq::empty());
        queue
    }

    pub fn len(&self) -> (n: usize)
        ensures
            n == self@.len(),
    {
        self.pending.len()
    }

    pub fn is_empty(&self) -> (r: bool)
        ensures
            r == (self@.len() == 0),
    {
        self.pending.len() == 0
    }

    /// The event that will be handled next.
    pub fn front(&self) -> (e: Option<&AppEvent>)
        ensures
            match e {
                Some(event) => self@.len() > 0 && event@ == self@[0],
                None => self@.len() == 0,
            },
    {
        if self.pending.len() == 0 {
            None
        } else {
            Some(&self.pending[0])
        }
    }

    /// Takes an event that arrived: it waits behind all others.
    pub fn push_back(&mut self, e: AppEvent)
        ensures
            final(self)@ == old(self)@.push(e@),
    {
        self.pending.push_back(e);
        assert(self@ =~= old(self)@.push(e@));
    }

    /// Takes an event that follows from one just handled: it is handled
    /// before all others.
    pub fn push_front(&mut self, e: AppEvent)
        ensures
            final(self)@ == seq![e@] + old(self)@,
    {
        self.pending.push_front(e);
        assert(self@ =~= seq![e@] + old(self)@);
    }
}

/// Takes an event that arrived into the queue, if the state can handle it.
/// An event that names a field which is not there is turned away, and the
/// queue stays as it was. The result tells whether the event was taken.
pub fn offer(app: &App, queue: &mut EventQueue, e: AppEvent) -> (taken: bool)
    requires
        app.wf(),
        old(queue).accepted_by(app@),
    ensures
        taken == app@.accepts(e@),
        final(queue)@ == if taken {
            old(queue)@.push(e@)
        } else {
            old(queue)@
        },
        final(queue).accepted_by(app@),
{
    if app.accepts(&e) {
        queue.push_back(e);
        true
    } else {
        false
    }
}

/// Handles the event at the front of the queue. Its follow-up event, if it
/// has one, goes to the front of the queue; a command that it asks for is
/// the result. Nothing happens where the queue is empty or the user has
/// asked to leave.
pub fn step(app: &mut App, queue: &mut EventQueue) -> (command: Option<Command>)
    requires
        old(app).wf(),
        old(queue).accepted_by(old(app)@),
    ensures
        final(app).wf(),
        final(queue).accepted_by(final(app)@),
        final(app)@.same_fields(old(app)@),
        old(queue)@.len() == 0 || old(app)@.should_quit ==> {
            &&& final(app)@ == old(app)@
            &&& final(queue)@ == old(queue)@
            &&& command is None
        },
        old(queue)@.len() > 0 && !old(app)@.should_quit ==> {
            let e = old(queue)@[0];
            &&& final(app)@ == old(app)@.apply(e)
            &&& final(queue)@ == queue_after(old(queue)@, old(app)@.reaction(e))
            &&& view_of(command) == command_of(old(app)@.reaction(e))
        },
{
    if app.should_quit {
        return None;
    }
    let e = match queue.pending.pop_front() {
        Some(e) => e,
        None => {
            return None;
        },
    };
    assert(queue@ =~= old(queue)@.skip(1));
    assert(e@ == old(queue)@[0]);
    assert(old(app)@.accepts(old(queue)@[0]));
    proof {
        app.pubsub.lemma_wf();
    }
    let reaction = on_event(app, e);
    proof {
        app.pubsub.lemma_wf();
        assert forall|i: int| 0 <= i < queue@.len() implies app@.accepts(#[trigger] queue@[i]) by {
            assert(queue@[i] == old(queue)@[i + 1]);
            lemma_accepts_stable(old(app)@, app@, queue@[i]);
        }
    }
    match reaction {
        Reaction::FollowUp(next) => {
            let ghost rest = queue@;
            queue.push_front(next);
            assert forall|i: int| 0 <= i < queue@.len() implies app@.accepts(
                #[trigger] queue@[i],
            ) by {
                if i > 0 {
                    assert(queue@[i] == rest[i - 1]);
                }
            }
            None
        },
        Reaction::Run(command) => Some(command),
        Reaction::Nothing => None,
    }
}

} // verus!
