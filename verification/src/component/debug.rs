//! The log panel: a bounded buffer that takes log lines as they come, and
//! the lines on show, which are brought up to date from the buffer on every
//! few ticks.

use crate::input::{handled, InputHandled};
use std::collections::VecDeque;
use vstd::prelude::*;

verus! {

/// Number of lines that the buffer keeps; older lines are dropped.
pub const MAX_LOGS: usize = 10;

/// The lines on show are brought up to date on every tick whose count is a
/// multiple of this.
pub const DRAIN_PERIOD: u64 = 5;

/// A request to the log panel.
#[derive(Clone, Copy, Debug, PartialEq, Eq, Structural)]
pub enum DebugLogsEvent {
    ToggleVisibility,
}

/// The texts of a list of lines, in order.
pub open spec fn lines(items: Seq<String>) -> Seq<Seq<char>> {
    items.map_values(|s: String| s@)
}

/// The log panel as plain values.
pub struct DebugLogsView {
    pub visible: bool,
    /// The lines on show.
    pub logs: Seq<Seq<char>>,
    /// The lines in the buffer, oldest first.
    pub pending: Seq<Seq<char>>,
}

impl DebugLogsView {
    /// The buffer holds no more lines than it may keep.
    pub open spec fn wf(self) -> bool {
        self.pending.len() <= MAX_LOGS
    }

    /// Takes a line into the buffer. A full buffer drops its oldest line.
    pub open spec fn log(self, msg: Seq<char>) -> DebugLogsView {
        DebugLogsView {
            pending: if self.pending.len() >= MAX_LOGS {
                self.pending.skip(1).push(msg)
            } else {
                self.pending.push(msg)
            },
            ..self
        }
    }

    /// Brings the lines on show up to date. The buffer keeps its lines.
    pub open spec fn drain(self) -> DebugLogsView {
        DebugLogsView { logs: self.pending, ..self }
    }

    /// The panel after a tick with the given count.
    pub open spec fn tick(self, ticks: u64) -> DebugLogsView {
        if ticks % DRAIN_PERIOD == 0 {
            self.drain()
        } else {
            self
        }
    }

    /// The panel after a request.
    pub open spec fn apply(self, event: DebugLogsEvent) -> DebugLogsView {
        match event {
            DebugLogsEvent::ToggleVisibility => DebugLogsView { visible: !self.visible, ..self },
        }
    }
}

/// The log panel.
pub struct DebugLogs {
    visible: bool,
    logs: Vec<String>,
    pending: VecDeque<String>,
}

impl View for DebugLogs {
    type V = DebugLogsView;

    closed spec fn view(&self) -> DebugLogsView {
        DebugLogsView {
            visible: self.visible,
            logs: lines(self.logs@),
            pending: lines(self.pending@),
        }
    }
}

impl DebugLogs {
    /// A hidden panel without lines.
    pub fn default() -> (panel: DebugLogs)
        ensures
            panel@ == (DebugLogsView {
                visible: false,
                logs: Seq::empty(),
                pending: Seq::empty(),
            }),
            panel@.wf(),
    {
        let panel = DebugLogs { logs: Vec::new(), visible: false, pending: VecDeque::new() };
        assert(lines(panel.logs@) =~= Seq::empty());
        assert(lines(panel.pending@) =~= Seq::empty());
        panel
    }

    /// Brings the lines on show up to date.
    pub fn drain_logs(&mut self)
        ensures
            final(self)@ == old(self)@.drain(),
    {
        let mut logs: Vec<String> = Vec::new();
        let mut i: usize = 0;
        while i < self.pending.len()
            invariant
                i <= self.pending@.len(),
                logs.len() == i,
                forall|k: int| 0 <= k < i ==> logs@[k]@ == self.pending@[k]@,
            decreases self.pending@.len() - i,
        {
            logs.push(self.pending[i].clone());
            i += 1;
        }
        assert(lines(logs@) =~= lines(self.pending@));
        self.logs = logs;
    }

    pub fn visible(&self) -> (r: bool)
        ensures
            r == self@.visible,
    {
        self.visible
    }

    /// The lines on show.
    pub fn logs(&self) -> (r: &Vec<String>)
        ensures
            lines(r@) == self@.logs,
    {
        &self.logs
    }
}

/// Takes a line into the buffer of the panel.
pub fn debug_log(state: &mut DebugLogs, msg: String)
    requires
        old(state)@.wf(),
    ensures
        final(state)@ == old(state)@.log(msg@),
        final(state)@.wf(),
{
    let ghost before = state.pending@;
    if state.pending.len() >= MAX_LOGS {
        state.pending.pop_front();
        assert(lines(state.pending@) =~= lines(before).skip(1));
    }
    let ghost kept = state.pending@;
    state.pending.push_back(msg);
    assert(lines(state.pending@) =~= lines(kept).push(msg@));
}

/// The answer to the key that shows or hides the panel.
pub fn toggle_debug_logs() -> (out: InputHandled<DebugLogsEvent>)
    ensures
        out == InputHandled::Handled(Some(DebugLogsEvent::ToggleVisibility)),
{
    handled(DebugLogsEvent::ToggleVisibility)
}

/// Tells the panel of a tick with the given count.
pub fn on_tick(state: &mut DebugLogs, ticks: u64)
    ensures
        final(state)@ == old(state)@.tick(ticks),
{
    if ticks % DRAIN_PERIOD != 0 {
        return;
    }
    state.drain_logs();
}

/// Applies a request to the panel.
pub fn on_event(state: &mut DebugLogs, event: DebugLogsEvent)
    ensures
        final(state)@ == old(state)@.apply(event),
{
    match event {
        DebugLogsEvent::ToggleVisibility => on_logs_visibility_toggle(state),
    }
}

fn on_logs_visibility_toggle(state: &mut DebugLogs)
    ensures
        final(state)@ == old(state)@.apply(DebugLogsEvent::ToggleVisibility),
{
    state.visible = !state.visible;
}

} // verus!
