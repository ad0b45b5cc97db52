//! Aggregation of key events from many input devices into one ordered stream.
//!
//! Each device has a worker that polls it; what the worker decides in one poll
//! cycle is a pure transition in [`listener::worker`]. Accepted events go through
//! one shared [`listener::event_buffer::EventBuffer`], first in, first out, to a
//! single reader. Threads, locks and the devices themselves stay with the
//! program that embeds this library.

pub mod evdev_event;
pub mod input_event;
pub mod listener;
