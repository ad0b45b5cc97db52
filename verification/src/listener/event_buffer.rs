//! The queue between the device workers and the reader.
//!
//! The queue is first in, first out and has no bound. It is plain data: whoever
//! shares it between threads puts it behind a lock and takes the lock once for
//! each `push` and each `try_pop`.

use crate::input_event::InputEvent;
use std::collections::VecDeque;
use vstd::prelude::*;

verus! {

/// The event at the head of a queue, if the queue holds any.
pub open spec fn head_of(queue: Seq<InputEvent>) -> Option<InputEvent> {
    if queue.len() > 0 {
        Some(queue[0])
    } else {
        None
    }
}

/// A queue without its head; an empty queue stays as it is.
pub open spec fn rest_of(queue: Seq<InputEvent>) -> Seq<InputEvent> {
    if queue.len() > 0 {
        queue.subrange(1, queue.len() as int)
    } else {
        queue
    }
}

/// An ordered queue of events. Its view is the events it holds, the oldest at
/// index 0.
pub struct EventBuffer {
    queue: VecDeque<InputEvent>,
}

impl View for EventBuffer {
    type V = Seq<InputEvent>;

    closed spec fn view(&self) -> Seq<InputEvent> {
        self.queue@
    }
}

impl EventBuffer {
    /// An empty buffer.
    pub fn new() -> (buffer: EventBuffer)
        ensures
            buffer@ == Seq::<InputEvent>::empty(),
    {
        EventBuffer { queue: VecDeque::new() }
    }

    /// The number of events waiting.
    pub fn len(&self) -> (n: usize)
        ensures
            n == self@.len(),
    {
        self.queue.len()
    }

    /// Whether no event is waiting.
    pub fn is_empty(&self) -> (empty: bool)
        ensures
            empty <==> self@.len() == 0,
    {
        self.queue.len() == 0
    }

    /// Appends an event at the tail, whatever the buffer holds.
    pub fn push(&mut self, event: InputEvent)
        ensures
            final(self)@ == old(self)@.push(event),
    {
        self.queue.push_back(event);
    }

    /// Removes and returns the head. `None` means that the buffer is empty and
    /// stays so: a reader that must have an event waits to be woken and asks
    /// again.
    pub fn try_pop(&mut self) -> (event: Option<InputEvent>)
        ensures
            event == head_of(old(self)@),
            final(self)@ == rest_of(old(self)@),
            event is None <==> old(self)@.len() == 0,
    {
        self.queue.pop_front()
    }
}

} // verus!
