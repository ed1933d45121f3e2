//! The whole state of the dashboard.

use crate::component::debug::{DebugLogs, DebugLogsView};
use crate::event::AppEvent;
use crate::component::pubsub::{default_pubsub, Pubsub, PubsubView};
use crate::component::setup::{Setup, SetupView};
use crate::component::setup;
use crate::route::Route;
use vstd::prelude::*;

verus! {

/// The state of the dashboard: the screen on show, the state of each part,
/// and whether the user has asked to leave.
pub struct App {
    pub route: Route,
    pub setup: Setup,
    pub pubsub: Pubsub,
    pub should_quit: bool,
    /// Number of ticks seen; it starts again at 0 after the largest count.
    pub ticks: u64,
    pub debug_logs: DebugLogs,
}

/// The state at the start: the setup screen on show, no ticks counted, no
/// fields yet on the setup screen, the link to the service untouched and
/// the log panel hidden and empty.
pub open spec fn start() -> AppView {
    AppView {
        route: Route::Setup,
        setup: SetupView { fields: Seq::empty(), focused: None },
        pubsub: default_pubsub(),
        should_quit: false,
        ticks: 0,
        debug_logs: DebugLogsView { visible: false, logs: Seq::empty(), pending: Seq::empty() },
    }
}

/// The state of the dashboard as plain values.
pub struct AppView {
    pub route: Route,
    pub setup: SetupView,
    pub pubsub: PubsubView,
    pub should_quit: bool,
    pub ticks: u64,
    pub debug_logs: DebugLogsView,
}

impl View for App {
    type V = AppView;

    open spec fn view(&self) -> AppView {
        AppView {
            route: self.route,
            setup: self.setup@,
            pubsub: self.pubsub@,
            should_quit: self.should_quit,
            ticks: self.ticks,
            debug_logs: self.debug_logs@,
        }
    }
}

impl App {
    /// Every part of the state is well formed.
    pub open spec fn wf(&self) -> bool {
        &&& self.setup@.wf()
        &&& self.pubsub.wf()
        &&& self.debug_logs@.wf()
    }

    /// Whether an event can be handled: the fields it names must exist.
    pub fn accepts(&self, e: &AppEvent) -> (r: bool)
        requires
            self.wf(),
        ensures
            r == self@.accepts(e@),
    {
        match e {
            AppEvent::Setup(event) => self.setup.accepts(event),
            AppEvent::Pubsub(event) => self.pubsub.accepts(event),
            _ => true,
        }
    }

    /// The state at the start.
    pub fn new() -> (app: App)
        ensures
            app.wf(),
            app@ == start(),
    {
        App {
            route: Route::first(),
            setup: Setup::default(),
            pubsub: Pubsub::default(),
            should_quit: false,
            ticks: 0,
            debug_logs: DebugLogs::default(),
        }
    }
}

/// Sets up the fields of the setup screen and gives the settings of the
/// connection their first values.
pub fn init(state: &mut App)
    requires
        old(state).wf(),
    ensures
        final(state).wf(),
        final(state)@.setup == old(state)@.setup.put("project_id"@, "Project ID"@, ""@).put(
            "host"@,
            "Host"@,
            "localhost"@,
        ).put("port"@, "Port"@, "8065"@),
        final(state)@.pubsub.config == old(state)@.pubsub.config.set("project_id"@, ""@).set(
            "host"@,
            "localhost"@,
        ).set("port"@, "8065"@).set("emulator"@, "false"@),
        final(state)@.route == old(state)@.route,
        final(state)@.should_quit == old(state)@.should_quit,
        final(state)@.ticks == old(state)@.ticks,
        final(state)@.debug_logs == old(state)@.debug_logs,
        final(state)@.setup.has("project_id"@),
{
    state.pubsub.init();
    setup::init(&mut state.setup);
}

} // verus!
