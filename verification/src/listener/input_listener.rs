//! The interface of a listener: one capability, to produce the next event.

use crate::input_event::InputEvent;
use vstd::prelude::*;

verus! {

/// A source of input events for one platform.
///
/// `listen` returns the next event and may wait for it as long as it takes;
/// nothing is promised of which event that is beyond what the implementing
/// type says of itself.
pub trait InputListener {
    /// Sets the listener up on the devices that are there now.
    fn new() -> Self where Self: Sized;

    /// The next event, waiting while there is none.
    fn listen(&self) -> InputEvent;
}

} // verus!
