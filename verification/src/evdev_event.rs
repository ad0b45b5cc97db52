//! The evdev crate's event type, and the three reads that the library makes of it.

// The crate's event goes by another name in this file: the library has an
// `InputEvent` of its own.
use evdev::InputEvent as DeviceEvent;
use vstd::prelude::*;

verus! {

/// `evdev::InputEvent`, the kernel's `input_event` as the evdev crate hands
/// it out. Its fields are read through the three functions below.
#[verifier::external_type_specification]
#[verifier::external_body]
pub struct ExDeviceEvent(DeviceEvent);

/// What `evdev::InputEvent::event_type` returns for an event, as the bare tag.
pub uninterp spec fn evdev_event_type(event: DeviceEvent) -> u16;

/// What `evdev::InputEvent::code` returns for an event.
pub uninterp spec fn evdev_code(event: DeviceEvent) -> u16;

/// What `evdev::InputEvent::value` returns for an event.
pub uninterp spec fn evdev_value(event: DeviceEvent) -> i32;

/// Calls `evdev::InputEvent::event_type` and unwraps the `EventType` newtype.
/// Trusted: the result is the event's type tag, a function of the event alone.
#[verifier::external_body]
pub(crate) fn event_type_tag(event: &DeviceEvent) -> (tag: u16)
    ensures
        tag == evdev_event_type(*event),
{
    event.event_type().0
}

/// Calls `evdev::InputEvent::code`.
/// Trusted: the result is the event's code field, a function of the event alone.
#[verifier::external_body]
pub(crate) fn event_code(event: &DeviceEvent) -> (code: u16)
    ensures
        code == evdev_code(*event),
{
    event.code()
}

/// Calls `evdev::InputEvent::value`.
/// Trusted: the result is the event's value field, a function of the event alone.
#[verifier::external_body]
pub(crate) fn event_value(event: &DeviceEvent) -> (value: i32)
    ensures
        value == evdev_value(*event),
{
    event.value()
}

} // verus!
