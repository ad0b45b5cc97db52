use input_aggregator::input_event::{InputEvent, KeyEvent, KeyState, RawEvent};
use input_aggregator::listener::event_buffer::EventBuffer;
use input_aggregator::listener::worker::{WorkerAction, WorkerEvent, WorkerState};

fn press(key_code: u16) -> InputEvent {
    InputEvent::Key(KeyEvent { key_code, state: KeyState::Pressed })
}

fn release(key_code: u16) -> InputEvent {
    InputEvent::Key(KeyEvent { key_code, state: KeyState::Released })
}

fn raw(event_type: u16, code: u16, value: i32) -> RawEvent {
    RawEvent { event_type, code, value }
}

/// A device that gives what is scripted, poll after poll; `None` is a poll
/// that fails. The worker is told to shut down once the script is used up.
struct SimulatedWorker {
    polls: Vec<Option<Vec<RawEvent>>>,
    next_poll: usize,
    state: WorkerState,
    action: WorkerAction,
    pauses: Vec<u64>,
}

impl SimulatedWorker {
    fn new(polls: Vec<Option<Vec<RawEvent>>>) -> SimulatedWorker {
        let (state, action) = WorkerState::start();
        SimulatedWorker { polls, next_poll: 0, state, action, pauses: Vec::new() }
    }

    fn done(&self) -> bool {
        self.action == WorkerAction::Exit
    }

    /// Carries out the pending action and lets the worker decide on the next.
    fn advance(&mut self, buffer: &mut EventBuffer) {
        let action = std::mem::replace(&mut self.action, WorkerAction::Exit);
        let event = match action {
            WorkerAction::CheckShutdown => {
                WorkerEvent::ShutdownRead(self.next_poll == self.polls.len())
            }
            WorkerAction::Poll => {
                let outcome = self.polls[self.next_poll].clone();
                self.next_poll += 1;
                match outcome {
                    Some(raws) => WorkerEvent::Polled(raws),
                    None => WorkerEvent::PollFailed,
                }
            }
            WorkerAction::Deliver { events, pause_ms } => {
                for event in events {
                    buffer.push(event);
                }
                self.pauses.push(pause_ms);
                WorkerEvent::Delivered
            }
            WorkerAction::Exit => return,
        };
        let (state, action) = self.state.step(event);
        self.state = state;
        self.action = action;
    }

    fn run(&mut self, buffer: &mut EventBuffer) {
        while !self.done() {
            self.advance(buffer);
        }
    }
}

fn drain(buffer: &mut EventBuffer) -> Vec<InputEvent> {
    let mut events = Vec::new();
    while let Some(event) = buffer.try_pop() {
        events.push(event);
    }
    events
}

#[test]
fn single_device_order_is_kept() {
    let mut buffer = EventBuffer::new();
    let mut worker = SimulatedWorker::new(vec![
        Some(vec![raw(4, 4, 30), raw(1, 30, 1), raw(0, 0, 0)]),
        None,
        Some(vec![]),
        Some(vec![raw(1, 30, 2), raw(0, 0, 0), raw(1, 30, 0), raw(1, 42, 1)]),
        Some(vec![raw(2, 0, 5), raw(1, 42, 0)]),
    ]);
    worker.run(&mut buffer);
    assert_eq!(worker.state, WorkerState::Stopped);
    assert_eq!(
        drain(&mut buffer),
        vec![press(30), release(30), release(30), press(42), release(42)]
    );
    // a pause after each poll that gave events, none after the one that
    // failed nor after the empty one
    assert_eq!(worker.pauses, vec![10, 10, 10]);
}

#[test]
fn unrecognized_event_then_key_press_gives_one_event() {
    let mut buffer = EventBuffer::new();
    let mut worker = SimulatedWorker::new(vec![Some(vec![raw(0, 0, 0), raw(1, 30, 1)])]);
    worker.run(&mut buffer);
    assert_eq!(buffer.len(), 1);
    assert_eq!(buffer.try_pop(), Some(press(30)));
    assert_eq!(buffer.try_pop(), None);
}

#[test]
fn unrecognized_events_leave_the_buffer_as_it_is() {
    let mut buffer = EventBuffer::new();
    buffer.push(press(1));
    let mut worker = SimulatedWorker::new(vec![
        Some(vec![raw(0, 0, 0), raw(2, 0, 1)]),
        Some(vec![raw(3, 1, 7), raw(4, 4, 30), raw(0x11, 0, 1)]),
    ]);
    worker.run(&mut buffer);
    assert_eq!(buffer.len(), 1);
    assert_eq!(drain(&mut buffer), vec![press(1)]);
}

#[test]
fn two_devices_every_interleaving() {
    // A gives press(30) then release(30); B gives press(42). A takes seven
    // decisions and B six; every way to take them in turns is tried.
    let steps_a: u32 = 7;
    let steps_b: u32 = 6;
    let mut seen = Vec::new();
    for mask in 0u32..(1 << (steps_a + steps_b)) {
        if mask.count_ones() != steps_b {
            continue;
        }
        let mut buffer = EventBuffer::new();
        let mut a = SimulatedWorker::new(vec![Some(vec![raw(1, 30, 1)]), Some(vec![raw(1, 30, 0)])]);
        let mut b = SimulatedWorker::new(vec![None, Some(vec![raw(0, 0, 0), raw(1, 42, 1)])]);
        for turn in 0..(steps_a + steps_b) {
            if mask & (1 << turn) == 0 {
                a.advance(&mut buffer);
            } else {
                b.advance(&mut buffer);
            }
        }
        assert!(a.done() && b.done());
        let got = drain(&mut buffer);
        assert_eq!(got.len(), 3);
        assert_eq!(got.iter().filter(|e| **e == press(30)).count(), 1);
        assert_eq!(got.iter().filter(|e| **e == release(30)).count(), 1);
        assert_eq!(got.iter().filter(|e| **e == press(42)).count(), 1);
        let at_press = got.iter().position(|e| *e == press(30));
        let at_release = got.iter().position(|e| *e == release(30));
        assert!(at_press < at_release);
        if !seen.contains(&got) {
            seen.push(got);
        }
    }
    // B's press can land before, between and after the two events of A
    assert_eq!(seen.len(), 3);
}

#[test]
fn many_producers_lose_and_duplicate_nothing() {
    // producer p pushes the keys p*100 .. p*100+M, round robin with the others
    let producers: u16 = 8;
    let each: u16 = 50;
    let mut buffer = EventBuffer::new();
    for k in 0..each {
        for p in 0..producers {
            buffer.push(press(p * 100 + k));
        }
    }
    assert_eq!(buffer.len(), 400);
    let got = drain(&mut buffer);
    assert_eq!(got.len(), 400);
    for p in 0..producers {
        let own: Vec<InputEvent> =
            got.iter().copied().filter(|e| matches!(e, InputEvent::Key(k) if k.key_code / 100 == p)).collect();
        let expected: Vec<InputEvent> = (0..each).map(|k| press(p * 100 + k)).collect();
        assert_eq!(own, expected);
    }
}

#[test]
fn shutdown_is_seen_at_the_start_of_a_cycle_only() {
    // the flag is set while the worker delivers: the batch is still delivered
    // whole, and the worker stops at its next check
    let mut buffer = EventBuffer::new();
    let (state, _) = WorkerState::start();
    let (state, action) = state.step(WorkerEvent::ShutdownRead(false));
    assert_eq!(action, WorkerAction::Poll);
    let (state, action) = state.step(WorkerEvent::Polled(vec![raw(1, 30, 1), raw(1, 30, 0)]));
    match action {
        WorkerAction::Deliver { events, pause_ms } => {
            assert_eq!(pause_ms, 10);
            for event in events {
                buffer.push(event);
            }
        }
        other => panic!("expected a delivery, got {:?}", other),
    }
    let (state, action) = state.step(WorkerEvent::Delivered);
    assert_eq!((state, action), (WorkerState::Running, WorkerAction::CheckShutdown));
    let (state, action) = state.step(WorkerEvent::ShutdownRead(true));
    assert_eq!((state, action), (WorkerState::Stopped, WorkerAction::Exit));
    assert_eq!(drain(&mut buffer), vec![press(30), release(30)]);
}
