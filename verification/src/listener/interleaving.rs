//! Many workers, one buffer.
//!
//! Every push happens under the buffer's lock, so the pushes of all workers
//! happen one after the other, in an order that the scheduler picks. A
//! schedule is that order, push by push: which worker pushed, and what. The
//! laws here hold of every schedule.

use crate::input_event::InputEvent;
use crate::listener::filter_map::lemma_filter_map_position;
use crate::listener::ordering::{drained, lemma_drained_is_queue, lemma_pushed_all_appends, pushed_all};
use vstd::multiset::Multiset;
use vstd::prelude::*;

verus! {

/// One push onto the shared buffer: the worker that made it, and the event.
pub struct Push {
    pub producer: nat,
    pub event: InputEvent,
}

/// The events of a schedule, in the order of the pushes.
pub open spec fn events_of(schedule: Seq<Push>) -> Seq<InputEvent> {
    schedule.map_values(|push: Push| push.event)
}

/// The buffer after the pushes of a schedule, made onto an empty buffer.
pub open spec fn merged(schedule: Seq<Push>) -> Seq<InputEvent> {
    pushed_all(Seq::empty(), events_of(schedule))
}

/// The event of a push if `producer` made it.
pub open spec fn event_from(producer: nat, push: Push) -> Option<InputEvent> {
    if push.producer == producer {
        Some(push.event)
    } else {
        None
    }
}

/// What one worker pushed, in the order in which it pushed.
pub open spec fn pushed_by(schedule: Seq<Push>, producer: nat) -> Seq<InputEvent> {
    schedule.filter_map(|push: Push| event_from(producer, push))
}

/// How many events the workers `0 .. producers` pushed between them.
pub open spec fn count_pushed(schedule: Seq<Push>, producers: nat) -> nat
    decreases producers,
{
    if producers == 0 {
        0
    } else {
        count_pushed(schedule, (producers - 1) as nat) + pushed_by(
            schedule,
            (producers - 1) as nat,
        ).len()
    }
}

/// The events that the workers `0 .. producers` pushed between them, each as
/// often as it was pushed.
pub open spec fn bag_pushed(schedule: Seq<Push>, producers: nat) -> Multiset<InputEvent>
    decreases producers,
{
    if producers == 0 {
        Multiset::empty()
    } else {
        bag_pushed(schedule, (producers - 1) as nat).add(
            pushed_by(schedule, (producers - 1) as nat).to_multiset(),
        )
    }
}

/// Whether every push of the schedule was made by one of the workers
/// `0 .. producers`.
pub open spec fn made_by(schedule: Seq<Push>, producers: nat) -> bool {
    forall|i: int| 0 <= i < schedule.len() ==> (#[trigger] schedule[i]).producer < producers
}

/// The buffer holds the events in the order of the pushes, and a reader that
/// drains it gets them in that order.
pub proof fn lemma_merged_in_push_order(schedule: Seq<Push>)
    ensures
        merged(schedule) == events_of(schedule),
        drained(merged(schedule)) == events_of(schedule),
        merged(schedule).len() == schedule.len(),
{
    lemma_pushed_all_appends(Seq::empty(), events_of(schedule));
    lemma_drained_is_queue(events_of(schedule));
}

/// The events of one worker lie in the buffer in the order in which that
/// worker pushed them: of two pushes of one worker, the earlier one's event
/// lies earlier in the buffer, and each lies where the worker's own count of
/// pushes puts it among that worker's events.
pub proof fn lemma_producer_order_is_kept(schedule: Seq<Push>, i: int, j: int)
    requires
        0 <= i < j < schedule.len(),
        schedule[i].producer == schedule[j].producer,
    ensures
        ({
            let producer = schedule[i].producer;
            let own = pushed_by(schedule, producer);
            let rank_i = pushed_by(schedule.take(i), producer).len() as int;
            let rank_j = pushed_by(schedule.take(j), producer).len() as int;
            &&& rank_i < rank_j < own.len()
            &&& merged(schedule)[i] == own[rank_i]
            &&& merged(schedule)[j] == own[rank_j]
        }),
{
    let producer = schedule[i].producer;
    let f = |push: Push| event_from(producer, push);
    lemma_merged_in_push_order(schedule);
    lemma_filter_map_position(schedule, f, i);
    lemma_filter_map_position(schedule, f, j);
    lemma_filter_map_position(schedule.take(j), f, i);
    assert(schedule.take(j).take(i) =~= schedule.take(i));
}

/// One more push adds its event to what its worker pushed, and to nothing
/// that another worker pushed.
proof fn lemma_pushed_by_one_more(schedule: Seq<Push>, push: Push, producer: nat)
    ensures
        pushed_by(schedule.push(push), producer) == if push.producer == producer {
            pushed_by(schedule, producer).push(push.event)
        } else {
            pushed_by(schedule, producer)
        },
{
    let longer = schedule.push(push);
    assert(longer.drop_last() =~= schedule);
    if push.producer == producer {
        assert(pushed_by(schedule, producer) + seq![push.event] =~= pushed_by(
            schedule,
            producer,
        ).push(push.event));
    }
}

/// One more push adds one to the count, and its event to the bag, if one of
/// the workers counted made it.
proof fn lemma_totals_one_more(schedule: Seq<Push>, push: Push, producers: nat)
    ensures
        count_pushed(schedule.push(push), producers) == count_pushed(schedule, producers) + (
        if push.producer < producers {
            1nat
        } else {
            0nat
        }),
        bag_pushed(schedule.push(push), producers) == if push.producer < producers {
            bag_pushed(schedule, producers).insert(push.event)
        } else {
            bag_pushed(schedule, producers)
        },
    decreases producers,
{
    if producers > 0 {
        let last = (producers - 1) as nat;
        lemma_totals_one_more(schedule, push, last);
        lemma_pushed_by_one_more(schedule, push, last);
        pushed_by(schedule, last).to_multiset_ensures();
    }
}

/// No event is lost and none is there twice: whatever the schedule, the
/// buffer holds as many events as the workers pushed between them, and holds
/// each event as often as it was pushed.
pub proof fn lemma_nothing_lost_nothing_twice(schedule: Seq<Push>, producers: nat)
    requires
        made_by(schedule, producers),
    ensures
        merged(schedule).len() == count_pushed(schedule, producers),
        merged(schedule).to_multiset() == bag_pushed(schedule, producers),
        drained(merged(schedule)).to_multiset() == bag_pushed(schedule, producers),
    decreases schedule.len(),
{
    lemma_merged_in_push_order(schedule);
    if schedule.len() == 0 {
        lemma_nothing_pushed(producers);
        assert(schedule =~= Seq::<Push>::empty());
        events_of(schedule).to_multiset_ensures();
    } else {
        let rest = schedule.drop_last();
        let push = schedule.last();
        assert(schedule =~= rest.push(push));
        lemma_nothing_lost_nothing_twice(rest, producers);
        lemma_merged_in_push_order(rest);
        lemma_totals_one_more(rest, push, producers);
        assert(events_of(schedule) =~= events_of(rest).push(push.event));
        events_of(rest).to_multiset_ensures();
    }
}

/// With no push made, nothing was pushed.
proof fn lemma_nothing_pushed(producers: nat)
    ensures
        count_pushed(Seq::empty(), producers) == 0,
        bag_pushed(Seq::empty(), producers) == Multiset::<InputEvent>::empty(),
    decreases producers,
{
    if producers > 0 {
        let last = (producers - 1) as nat;
        lemma_nothing_pushed(last);
        assert(pushed_by(Seq::empty(), last) =~= Seq::<InputEvent>::empty());
        pushed_by(Seq::empty(), last).to_multiset_ensures();
        assert(pushed_by(Seq::empty(), last).to_multiset() =~= Multiset::<InputEvent>::empty());
    }
}

/// Workers that each pushed `each` events pushed `producers * each` between
/// them.
proof fn lemma_count_of_equal_shares(schedule: Seq<Push>, producers: nat, each: nat)
    requires
        forall|p: nat| p < producers ==> (#[trigger] pushed_by(schedule, p)).len() == each,
    ensures
        count_pushed(schedule, producers) == producers * each,
    decreases producers,
{
    if producers > 0 {
        let last = (producers - 1) as nat;
        lemma_count_of_equal_shares(schedule, last, each);
        assert(pushed_by(schedule, last).len() == each);
        assert(last * each + each == producers * each) by (nonlinear_arith)
            requires
                last + 1 == producers,
        ;
    } else {
        assert(producers * each == 0) by (nonlinear_arith)
            requires
                producers == 0,
        ;
    }
}

/// When each of `producers` workers has pushed `each` events, in whatever
/// order the pushes were made, the buffer holds exactly `producers * each`
/// events, and a reader that drains it gets that many.
pub proof fn lemma_all_pushes_arrive(schedule: Seq<Push>, producers: nat, each: nat)
    requires
        made_by(schedule, producers),
        forall|p: nat| p < producers ==> (#[trigger] pushed_by(schedule, p)).len() == each,
    ensures
        merged(schedule).len() == producers * each,
        drained(merged(schedule)).len() == producers * each,
{
    lemma_nothing_lost_nothing_twice(schedule, producers);
    lemma_count_of_equal_shares(schedule, producers, each);
    lemma_merged_in_push_order(schedule);
}

} // verus!
