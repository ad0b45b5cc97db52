//! The decisions of a device worker.
//!
//! A worker owns one device and runs cycles: it reads the shutdown flag, polls
//! the device, hands the accepted events to the shared buffer and pauses. A
//! poll that fails or gives no event ends the cycle at once, without a pause.
//! What the worker does next is decided here, by `WorkerState::step`, from its
//! state and from what the last action gave. Whoever runs the worker carries
//! the actions out and reports back; nothing here touches a device, a lock or
//! a clock.

use crate::input_event::{normalized, normalized_seq, raw_seq_of, InputEvent, RawEvent};
use vstd::prelude::*;

verus! {

/// The pause after a poll that gave raw events, in milliseconds.
pub const POLL_INTERVAL_MS: u64 = 10;

/// Where a worker is in its life. `Stopped` is final.
#[derive(Debug, Clone, Copy, PartialEq, Eq, Structural)]
pub enum WorkerState {
    Running,
    Stopped,
}

/// What carrying out an action gave.
#[derive(Debug, PartialEq, Eq)]
pub enum WorkerEvent {
    /// The shutdown flag was read and held this value.
    ShutdownRead(bool),
    /// The poll failed: nothing to read yet, a device error, a disconnect.
    PollFailed,
    /// The poll gave these raw events, in the device's order; maybe none.
    /// A poll that gave none counts as one that failed.
    Polled(Vec<RawEvent>),
    /// The events were appended to the buffer and the pause is over.
    Delivered,
}

/// What the worker is to do next.
#[derive(Debug, PartialEq, Eq)]
pub enum WorkerAction {
    /// Read the shutdown flag and report `ShutdownRead`.
    CheckShutdown,
    /// Poll the device without blocking and report `Polled` or `PollFailed`.
    Poll,
    /// Append the events to the shared buffer in this order, taking the lock
    /// and waking the reader once for each; then pause for `pause_ms`
    /// milliseconds and report `Delivered`.
    Deliver { events: Vec<InputEvent>, pause_ms: u64 },
    /// Leave the loop and give the device up.
    Exit,
}

/// A `WorkerEvent` as a mathematical value.
pub enum WorkerEventView {
    ShutdownRead(bool),
    PollFailed,
    Polled(Seq<RawEvent>),
    Delivered,
}

/// A `WorkerAction` as a mathematical value.
pub enum WorkerActionView {
    CheckShutdown,
    Poll,
    Deliver { events: Seq<InputEvent>, pause_ms: u64 },
    Exit,
}

impl View for WorkerEvent {
    type V = WorkerEventView;

    open spec fn view(&self) -> WorkerEventView {
        match *self {
            WorkerEvent::ShutdownRead(set) => WorkerEventView::ShutdownRead(set),
            WorkerEvent::PollFailed => WorkerEventView::PollFailed,
            WorkerEvent::Polled(raws) => WorkerEventView::Polled(raws@),
            WorkerEvent::Delivered => WorkerEventView::Delivered,
        }
    }
}

impl View for WorkerAction {
    type V = WorkerActionView;

    open spec fn view(&self) -> WorkerActionView {
        match *self {
            WorkerAction::CheckShutdown => WorkerActionView::CheckShutdown,
            WorkerAction::Poll => WorkerActionView::Poll,
            WorkerAction::Deliver { events, pause_ms } => WorkerActionView::Deliver {
                events: events@,
                pause_ms,
            },
            WorkerAction::Exit => WorkerActionView::Exit,
        }
    }
}

/// The state after an event. Only a shutdown flag that was read as set stops
/// a running worker; a stopped worker stays stopped.
pub open spec fn next_state(state: WorkerState, event: WorkerEventView) -> WorkerState {
    match (state, event) {
        (WorkerState::Running, WorkerEventView::ShutdownRead(true)) => WorkerState::Stopped,
        (WorkerState::Running, _) => WorkerState::Running,
        (WorkerState::Stopped, _) => WorkerState::Stopped,
    }
}

/// The action after an event.
///
/// A stopped worker exits. A running one exits when the flag was set and polls
/// when it was clear; after a poll that failed or gave no raw event it starts
/// the next cycle at once; after a poll that gave raw events it delivers what
/// they normalize to, which may be nothing, and pauses; after a delivery it
/// starts the next cycle.
pub open spec fn next_action(state: WorkerState, event: WorkerEventView) -> WorkerActionView {
    match state {
        WorkerState::Stopped => WorkerActionView::Exit,
        WorkerState::Running => match event {
            WorkerEventView::ShutdownRead(set) => if set {
                WorkerActionView::Exit
            } else {
                WorkerActionView::Poll
            },
            WorkerEventView::PollFailed => WorkerActionView::CheckShutdown,
            WorkerEventView::Polled(raws) => if raws.len() == 0 {
                WorkerActionView::CheckShutdown
            } else {
                WorkerActionView::Deliver {
                    events: normalized_seq(raws),
                    pause_ms: POLL_INTERVAL_MS,
                }
            },
            WorkerEventView::Delivered => WorkerActionView::CheckShutdown,
        },
    }
}

/// Reads a batch of evdev events into raw events, one for one.
pub fn read_batch(events: &Vec<evdev::InputEvent>) -> (raws: Vec<RawEvent>)
    ensures
        raws@ == raw_seq_of(events@),
{
    let mut raws: Vec<RawEvent> = Vec::new();
    let mut i: usize = 0;
    while i < events.len()
        invariant
            i <= events.len(),
            raws@ == raw_seq_of(events@.take(i as int)),
        decreases events.len() - i,
    {
        raws.push(RawEvent::from_evdev(&events[i]));
        i += 1;
    }
    raws
}

/// Normalizes a batch: the key events among `raws`, in their order; all other
/// events dropped.
pub fn normalize_batch(raws: &Vec<RawEvent>) -> (events: Vec<InputEvent>)
    ensures
        events@ == normalized_seq(raws@),
{
    let mut events: Vec<InputEvent> = Vec::new();
    let mut i: usize = 0;
    while i < raws.len()
        invariant
            i <= raws.len(),
            events@ == normalized_seq(raws@.take(i as int)),
        decreases raws.len() - i,
    {
        proof {
            raws@.lemma_filter_map_take_succ(|raw: RawEvent| normalized(raw), i as int);
        }
        match InputEvent::normalize(raws[i]) {
            Some(event) => {
                events.push(event);
            },
            None => {},
        }
        i += 1;
    }
    proof {
        assert(raws@.take(i as int) == raws@);
    }
    events
}

impl WorkerState {
    /// A worker at the start of its life: running, and about to read the
    /// shutdown flag for its first cycle.
    pub fn start() -> (first: (WorkerState, WorkerAction))
        ensures
            first.0 == WorkerState::Running,
            first.1@ == WorkerActionView::CheckShutdown,
    {
        (WorkerState::Running, WorkerAction::CheckShutdown)
    }

    /// One decision: the state and the action that follow `event`.
    pub fn step(self, event: WorkerEvent) -> (next: (WorkerState, WorkerAction))
        ensures
            next.0 == next_state(self, event@),
            next.1@ == next_action(self, event@),
    {
        match self {
            WorkerState::Stopped => (WorkerState::Stopped, WorkerAction::Exit),
            WorkerState::Running => match event {
                WorkerEvent::ShutdownRead(set) => {
                    if set {
                        (WorkerState::Stopped, WorkerAction::Exit)
                    } else {
                        (WorkerState::Running, WorkerAction::Poll)
                    }
                },
                WorkerEvent::PollFailed => (WorkerState::Running, WorkerAction::CheckShutdown),
                WorkerEvent::Polled(raws) => {
                    if raws.len() == 0 {
                        (WorkerState::Running, WorkerAction::CheckShutdown)
                    } else {
                        let events = normalize_batch(&raws);
                        (
                            WorkerState::Running,
                            WorkerAction::Deliver { events, pause_ms: POLL_INTERVAL_MS },
                        )
                    }
                },
                WorkerEvent::Delivered => (WorkerState::Running, WorkerAction::CheckShutdown),
            },
        }
    }
}

} // verus!
