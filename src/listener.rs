//! The key listener's decisions: grab the chosen source, then read batches
//! of events and flip the flag on each press edge of the toggle key. The
//! caller performs the grab and the reads and reports what came of them.

use vstd::prelude::*;
use crate::toggle::{KeyEvent, ToggleState, toggled_after};

verus! {

/// Where the listener stands.
#[derive(Clone, Copy, Debug, PartialEq, Eq, Structural)]
pub enum ListenerPhase {
    /// Created, not yet started.
    Idle,
    /// Waiting for the outcome of the exclusive grab.
    Grabbing,
    /// Holding the source and reading its events.
    Listening,
    /// Gave up for good: the grab or a read failed.
    Stopped,
}

/// What the caller reports to the listener.
#[derive(Clone, Debug)]
pub enum ListenerEvent {
    /// Begin work.
    Start,
    /// The exclusive grab was granted (`true`) or refused (`false`).
    GrabResult(bool),
    /// A read delivered this batch of events.
    Batch(Vec<KeyEvent>),
    /// A read failed.
    ReadFailed,
}

/// What the caller should do next.
#[derive(Clone, Copy, Debug, PartialEq, Eq, Structural)]
pub enum ListenerAction {
    /// Try to grab the source exclusively.
    Grab,
    /// Block on the next batch of events.
    Read,
    /// End the listener's thread.
    Exit,
    /// The event does not fit the phase; nothing changed, keep waiting.
    Ignore,
}

/// The phase after `event` in `phase`.
pub open spec fn next_phase(phase: ListenerPhase, event: ListenerEvent) -> ListenerPhase {
    match (phase, event) {
        (ListenerPhase::Idle, ListenerEvent::Start) => ListenerPhase::Grabbing,
        (ListenerPhase::Grabbing, ListenerEvent::GrabResult(true)) => ListenerPhase::Listening,
        (ListenerPhase::Grabbing, ListenerEvent::GrabResult(false)) => ListenerPhase::Stopped,
        (ListenerPhase::Listening, ListenerEvent::Batch(_)) => ListenerPhase::Listening,
        (ListenerPhase::Listening, ListenerEvent::ReadFailed) => ListenerPhase::Stopped,
        (p, _) => p,
    }
}

/// The action that goes with `event` in `phase`.
pub open spec fn next_action(phase: ListenerPhase, event: ListenerEvent) -> ListenerAction {
    match (phase, event) {
        (ListenerPhase::Idle, ListenerEvent::Start) => ListenerAction::Grab,
        (ListenerPhase::Grabbing, ListenerEvent::GrabResult(true)) => ListenerAction::Read,
        (ListenerPhase::Grabbing, ListenerEvent::GrabResult(false)) => ListenerAction::Exit,
        (ListenerPhase::Listening, ListenerEvent::Batch(_)) => ListenerAction::Read,
        (ListenerPhase::Listening, ListenerEvent::ReadFailed) => ListenerAction::Exit,
        (ListenerPhase::Stopped, _) => ListenerAction::Exit,
        _ => ListenerAction::Ignore,
    }
}

/// The flag after `event` in `phase`: only a batch read while listening moves it.
pub open spec fn next_enabled(
    phase: ListenerPhase,
    event: ListenerEvent,
    enabled: bool,
    key: u16,
) -> bool {
    match (phase, event) {
        (ListenerPhase::Listening, ListenerEvent::Batch(evs)) => toggled_after(enabled, evs@, key),
        _ => enabled,
    }
}

/// The listener: its phase and the toggle key it watches for.
#[derive(Clone, Copy, Debug, PartialEq, Eq, Structural)]
pub struct KeyListener {
    pub phase: ListenerPhase,
    pub toggle_key: u16,
}

impl KeyListener {
    pub fn new(toggle_key: u16) -> (r: KeyListener)
        ensures
            r.phase == ListenerPhase::Idle,
            r.toggle_key == toggle_key,
    {
        KeyListener { phase: ListenerPhase::Idle, toggle_key }
    }

    /// Takes one report from the caller, moves to the next phase, applies a
    /// batch to the flag, and says what to do next.
    pub fn step(&mut self, event: &ListenerEvent, state: &mut ToggleState) -> (action:
        ListenerAction)
        ensures
            final(self).phase == next_phase(old(self).phase, *event),
            final(self).toggle_key == old(self).toggle_key,
            final(state).enabled == next_enabled(
                old(self).phase,
                *event,
                old(state).enabled,
                old(self).toggle_key,
            ),
            action == next_action(old(self).phase, *event),
    {
        match (self.phase, event) {
            (ListenerPhase::Idle, ListenerEvent::Start) => {
                self.phase = ListenerPhase::Grabbing;
                ListenerAction::Grab
            },
            (ListenerPhase::Grabbing, ListenerEvent::GrabResult(granted)) => {
                if *granted {
                    self.phase = ListenerPhase::Listening;
                    ListenerAction::Read
                } else {
                    self.phase = ListenerPhase::Stopped;
                    ListenerAction::Exit
                }
            },
            (ListenerPhase::Listening, ListenerEvent::Batch(events)) => {
                state.apply_events(events, self.toggle_key);
                ListenerAction::Read
            },
            (ListenerPhase::Listening, ListenerEvent::ReadFailed) => {
                self.phase = ListenerPhase::Stopped;
                ListenerAction::Exit
            },
            (ListenerPhase::Stopped, _) => ListenerAction::Exit,
            _ => ListenerAction::Ignore,
        }
    }
}

/// Once stopped, the listener stays stopped and never moves the flag again.
pub proof fn lemma_stopped_is_final(event: ListenerEvent, enabled: bool, key: u16)
    ensures
        next_phase(ListenerPhase::Stopped, event) == ListenerPhase::Stopped,
        next_enabled(ListenerPhase::Stopped, event, enabled, key) == enabled,
        next_action(ListenerPhase::Stopped, event) == ListenerAction::Exit,
{
}

/// Before the grab is granted no event moves the flag, so a listener that is
/// refused the grab leaves clicking disabled for good.
pub proof fn lemma_no_toggle_before_listening(
    phase: ListenerPhase,
    event: ListenerEvent,
    enabled: bool,
    key: u16,
)
    requires
        phase != ListenerPhase::Listening,
    ensures
        next_enabled(phase, event, enabled, key) == enabled,
{
}

} // verus!
