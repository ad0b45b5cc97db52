//! Key events, and how a raw device event becomes one.

use crate::evdev_event::{
    event_code, event_type_tag, event_value, evdev_code, evdev_event_type, evdev_value,
};
use vstd::prelude::*;

verus! {

/// The type tag that the kernel gives to key and button events (`EV_KEY`).
pub const EV_KEY: u16 = 0x01;

/// The value that a key event carries when the key goes down.
pub const KEY_DOWN: i32 = 1;

/// The two states a key is reported in. A repeat is not a state of its own.
#[derive(Debug, Clone, Copy, PartialEq, Eq, Structural)]
pub enum KeyState {
    Pressed,
    Released,
}

/// One key changing state.
#[derive(Debug, Clone, Copy, PartialEq, Eq, Structural)]
pub struct KeyEvent {
    pub key_code: u16,
    pub state: KeyState,
}

/// An input occurrence that the library recognises.
#[derive(Debug, Clone, Copy, PartialEq, Eq, Structural)]
pub enum InputEvent {
    Key(KeyEvent),
}

/// What a device reports for one occurrence: the kernel's `input_event`
/// without its timestamp.
#[derive(Debug, Clone, Copy, PartialEq, Eq, Structural)]
pub struct RawEvent {
    pub event_type: u16,
    pub code: u16,
    pub value: i32,
}

/// The raw event that an evdev event holds.
pub open spec fn raw_of(event: evdev::InputEvent) -> RawEvent {
    RawEvent {
        event_type: evdev_event_type(event),
        code: evdev_code(event),
        value: evdev_value(event),
    }
}

/// The raw events that a run of evdev events holds, in the same order.
pub open spec fn raw_seq_of(events: Seq<evdev::InputEvent>) -> Seq<RawEvent> {
    events.map_values(|event: evdev::InputEvent| raw_of(event))
}

/// The state that a key event's value stands for: pressed for `KEY_DOWN`,
/// released for every other value, a repeat included.
pub open spec fn key_state_of(value: i32) -> KeyState {
    if value == KEY_DOWN {
        KeyState::Pressed
    } else {
        KeyState::Released
    }
}

/// The event that a raw event stands for, if it is a key event.
pub open spec fn normalized(raw: RawEvent) -> Option<InputEvent> {
    if raw.event_type == EV_KEY {
        Some(InputEvent::Key(KeyEvent { key_code: raw.code, state: key_state_of(raw.value) }))
    } else {
        None
    }
}

/// The events that a run of raw events stands for: the raw key events, in
/// their order, each normalized; everything else left out.
pub open spec fn normalized_seq(raws: Seq<RawEvent>) -> Seq<InputEvent> {
    raws.filter_map(|raw: RawEvent| normalized(raw))
}

impl KeyState {
    /// The state for a key event's value.
    pub fn from_value(value: i32) -> (state: KeyState)
        ensures
            state == key_state_of(value),
            state is Pressed <==> value == KEY_DOWN,
    {
        if value == KEY_DOWN {
            KeyState::Pressed
        } else {
            KeyState::Released
        }
    }
}

impl RawEvent {
    /// Reads type, code and value out of an evdev event.
    pub fn from_evdev(event: &evdev::InputEvent) -> (raw: RawEvent)
        ensures
            raw == raw_of(*event),
    {
        RawEvent {
            event_type: event_type_tag(event),
            code: event_code(event),
            value: event_value(event),
        }
    }

    /// Whether this is a key event.
    pub fn is_key(&self) -> (key: bool)
        ensures
            key <==> self.event_type == EV_KEY,
            key <==> normalized(*self) is Some,
    {
        self.event_type == EV_KEY
    }
}

impl InputEvent {
    /// Normalizes a raw event: a key event becomes `Key` with the raw code and
    /// the state of `key_state_of`; an event of any other type gives `None`.
    pub fn normalize(raw: RawEvent) -> (event: Option<InputEvent>)
        ensures
            event == normalized(raw),
            event is None <==> raw.event_type != EV_KEY,
            event matches Some(InputEvent::Key(key)) ==> key.key_code == raw.code && (key.state
                is Pressed <==> raw.value == KEY_DOWN),
    {
        if !raw.is_key() {
            return None;
        }
        let state = KeyState::from_value(raw.value);
        Some(InputEvent::Key(KeyEvent { key_code: raw.code, state }))
    }

    /// Normalizes an event as the evdev crate hands it out: reads its three
    /// fields and goes on as `normalize` does.
    pub fn from_evdev_event(evdev_event: evdev::InputEvent) -> (event: Option<InputEvent>)
        ensures
            event == normalized(raw_of(evdev_event)),
            event is None <==> evdev_event_type(evdev_event) != EV_KEY,
    {
        InputEvent::normalize(RawEvent::from_evdev(&evdev_event))
    }
}

} // verus!
