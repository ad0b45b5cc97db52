//! What holds of the path from one device to the reader: the buffer is first
//! in, first out; a worker hands over what its device produced, in the
//! device's order and without the events that are no key events; and a
//! worker stops when it has seen the shutdown flag set, and only then.

use crate::input_event::{normalized, normalized_seq, InputEvent, RawEvent, EV_KEY};
use crate::listener::event_buffer::{head_of, rest_of};
use crate::listener::filter_map::{lemma_filter_map_concat, lemma_filter_map_position};
use crate::listener::worker::{
    next_action, next_state, WorkerActionView, WorkerEventView, WorkerState,
};
use vstd::prelude::*;

verus! {

/// The queue after `events` were pushed onto it one at a time, in order.
pub open spec fn pushed_all(queue: Seq<InputEvent>, events: Seq<InputEvent>) -> Seq<InputEvent>
    decreases events.len(),
{
    if events.len() == 0 {
        queue
    } else {
        pushed_all(queue.push(events.first()), events.drop_first())
    }
}

/// What a reader gets that pops until the queue is empty, in the order in
/// which it gets it.
pub open spec fn drained(queue: Seq<InputEvent>) -> Seq<InputEvent>
    decreases queue.len(),
{
    match head_of(queue) {
        None => Seq::empty(),
        Some(event) => seq![event] + drained(rest_of(queue)),
    }
}

/// The queue after a worker's action was carried out: a delivery pushes its
/// events in order, every other action leaves the queue alone.
pub open spec fn queue_after(queue: Seq<InputEvent>, action: WorkerActionView) -> Seq<InputEvent> {
    match action {
        WorkerActionView::Deliver { events, pause_ms } => pushed_all(queue, events),
        _ => queue,
    }
}

/// The state of a worker after a run of events.
pub open spec fn state_after_run(state: WorkerState, events: Seq<WorkerEventView>) -> WorkerState
    decreases events.len(),
{
    if events.len() == 0 {
        state
    } else {
        state_after_run(next_state(state, events.first()), events.drop_first())
    }
}

/// The queue after a worker went through a run of events and each action it
/// chose was carried out.
pub open spec fn queue_after_run(
    state: WorkerState,
    queue: Seq<InputEvent>,
    events: Seq<WorkerEventView>,
) -> Seq<InputEvent>
    decreases events.len(),
{
    if events.len() == 0 {
        queue
    } else {
        queue_after_run(
            next_state(state, events.first()),
            queue_after(queue, next_action(state, events.first())),
            events.drop_first(),
        )
    }
}

/// The raw events that the device gave to the worker while it was running,
/// poll after poll, in the device's order.
pub open spec fn polled_raws(state: WorkerState, events: Seq<WorkerEventView>) -> Seq<RawEvent>
    decreases events.len(),
{
    if events.len() == 0 {
        Seq::empty()
    } else {
        let batch = match (state, events.first()) {
            (WorkerState::Running, WorkerEventView::Polled(raws)) => raws,
            _ => Seq::empty(),
        };
        batch + polled_raws(next_state(state, events.first()), events.drop_first())
    }
}

/// Pushing events one at a time appends them in their order.
pub proof fn lemma_pushed_all_appends(queue: Seq<InputEvent>, events: Seq<InputEvent>)
    ensures
        pushed_all(queue, events) == queue + events,
    decreases events.len(),
{
    if events.len() > 0 {
        lemma_pushed_all_appends(queue.push(events.first()), events.drop_first());
    }
}

/// Popping until the queue is empty gives the queue's events from the oldest
/// to the newest, each once.
pub proof fn lemma_drained_is_queue(queue: Seq<InputEvent>)
    ensures
        drained(queue) == queue,
    decreases queue.len(),
{
    if queue.len() > 0 {
        lemma_drained_is_queue(rest_of(queue));
    }
}

/// First in, first out: events pushed onto an empty buffer come out in the
/// order in which they went in, none lost and none twice.
pub proof fn lemma_first_in_first_out(events: Seq<InputEvent>)
    ensures
        drained(pushed_all(Seq::empty(), events)) == events,
{
    lemma_pushed_all_appends(Seq::empty(), events);
    lemma_drained_is_queue(Seq::<InputEvent>::empty() + events);
}

/// A reader finds nothing in an empty buffer and leaves it empty, so it finds
/// nothing again however often it is woken and looks; after exactly one push
/// it finds that event, and nothing behind it.
pub proof fn lemma_one_push_one_pop(event: InputEvent)
    ensures
        head_of(Seq::<InputEvent>::empty()) is None,
        rest_of(Seq::<InputEvent>::empty()) == Seq::<InputEvent>::empty(),
        head_of(Seq::<InputEvent>::empty().push(event)) == Some(event),
        rest_of(Seq::<InputEvent>::empty().push(event)) == Seq::<InputEvent>::empty(),
{
}

/// Normalizing two runs of raw events one after the other is normalizing
/// their concatenation.
pub proof fn lemma_normalized_seq_concat(first: Seq<RawEvent>, second: Seq<RawEvent>)
    ensures
        normalized_seq(first + second) == normalized_seq(first) + normalized_seq(second),
{
    lemma_filter_map_concat(first, second, |raw: RawEvent| normalized(raw));
}

/// Raw events that are no key events add nothing: what they normalize to is
/// empty, and a buffer that it is delivered to is unchanged.
pub proof fn lemma_other_events_add_nothing(queue: Seq<InputEvent>, raws: Seq<RawEvent>)
    requires
        forall|i: int| 0 <= i < raws.len() ==> raws[i].event_type != EV_KEY,
    ensures
        normalized_seq(raws) == Seq::<InputEvent>::empty(),
        pushed_all(queue, normalized_seq(raws)) == queue,
        pushed_all(queue, normalized_seq(raws)).len() == queue.len(),
    decreases raws.len(),
{
    if raws.len() > 0 {
        lemma_other_events_add_nothing(queue, raws.drop_last());
    }
}

/// A key event of a run is found in what the run normalizes to, after as
/// many events as there are key events before it.
pub proof fn lemma_key_event_position(raws: Seq<RawEvent>, i: int)
    requires
        0 <= i < raws.len(),
        raws[i].event_type == EV_KEY,
    ensures
        normalized_seq(raws.take(i)).len() < normalized_seq(raws).len(),
        Some(normalized_seq(raws)[normalized_seq(raws.take(i)).len() as int]) == normalized(
            raws[i],
        ),
{
    lemma_filter_map_position(raws, |raw: RawEvent| normalized(raw), i);
}

/// Of two key events of a run, the earlier one comes earlier in what the run
/// normalizes to.
pub proof fn lemma_key_events_keep_their_order(raws: Seq<RawEvent>, i: int, j: int)
    requires
        0 <= i < j < raws.len(),
        raws[i].event_type == EV_KEY,
        raws[j].event_type == EV_KEY,
    ensures
        normalized_seq(raws.take(i)).len() < normalized_seq(raws.take(j)).len(),
        normalized_seq(raws.take(j)).len() < normalized_seq(raws).len(),
{
    lemma_key_event_position(raws, j);
    lemma_key_event_position(raws.take(j), i);
    assert(raws.take(j).take(i) =~= raws.take(i));
}

/// What a running worker leaves in the buffer is what was there before,
/// followed by what the raw events that its device gave normalize to: the
/// key events in the device's order, all others left out.
pub proof fn lemma_worker_appends_normalized(
    state: WorkerState,
    queue: Seq<InputEvent>,
    events: Seq<WorkerEventView>,
)
    ensures
        queue_after_run(state, queue, events) == queue + normalized_seq(
            polled_raws(state, events),
        ),
    decreases events.len(),
{
    if events.len() > 0 {
        let first = events.first();
        let batch = match (state, first) {
            (WorkerState::Running, WorkerEventView::Polled(raws)) => raws,
            _ => Seq::empty(),
        };
        let queue1 = queue_after(queue, next_action(state, first));
        lemma_pushed_all_appends(queue, normalized_seq(batch));
        lemma_worker_appends_normalized(next_state(state, first), queue1, events.drop_first());
        lemma_normalized_seq_concat(
            batch,
            polled_raws(next_state(state, first), events.drop_first()),
        );
    }
}

/// The events of one device reach the reader in the order in which the
/// device produced them: a reader that drains a buffer fed by one worker gets
/// the normalized forms of the device's raw events, in the same order, the
/// events that are no key events left out.
pub proof fn lemma_single_device_order(events: Seq<WorkerEventView>)
    ensures
        drained(queue_after_run(WorkerState::Running, Seq::empty(), events)) == normalized_seq(
            polled_raws(WorkerState::Running, events),
        ),
{
    let raws = polled_raws(WorkerState::Running, events);
    lemma_worker_appends_normalized(WorkerState::Running, Seq::empty(), events);
    lemma_drained_is_queue(normalized_seq(raws));
}

/// A stopped worker stays stopped, whatever is reported to it, and adds
/// nothing to the buffer.
pub proof fn lemma_stopped_is_final(queue: Seq<InputEvent>, events: Seq<WorkerEventView>)
    ensures
        state_after_run(WorkerState::Stopped, events) == WorkerState::Stopped,
        queue_after_run(WorkerState::Stopped, queue, events) == queue,
    decreases events.len(),
{
    if events.len() > 0 {
        lemma_stopped_is_final(queue, events.drop_first());
    }
}

/// A worker that started running has stopped after a run of events if and
/// only if one of them was the shutdown flag read as set.
pub proof fn lemma_stops_only_on_shutdown(events: Seq<WorkerEventView>)
    ensures
        state_after_run(WorkerState::Running, events) == WorkerState::Stopped <==> exists|i: int|
            0 <= i < events.len() && events[i] == WorkerEventView::ShutdownRead(true),
    decreases events.len(),
{
    if events.len() > 0 {
        let rest = events.drop_first();
        if events.first() == WorkerEventView::ShutdownRead(true) {
            lemma_stopped_is_final(Seq::empty(), rest);
        } else {
            lemma_stops_only_on_shutdown(rest);
            if exists|i: int|
                0 <= i < rest.len() && rest[i] == WorkerEventView::ShutdownRead(true) {
                let i = choose|i: int|
                    0 <= i < rest.len() && rest[i] == WorkerEventView::ShutdownRead(true);
            }
            if exists|i: int|
                0 <= i < events.len() && events[i] == WorkerEventView::ShutdownRead(true) {
                let i = choose|i: int|
                    0 <= i < events.len() && events[i] == WorkerEventView::ShutdownRead(true);
                assert(rest[i - 1] == WorkerEventView::ShutdownRead(true));
            }
        }
    }
}

} // verus!
