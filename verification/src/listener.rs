//! The listener: the buffer shared by all workers, the decisions of a worker,
//! and the interface that a platform's listener offers.

pub mod event_buffer;
pub mod filter_map;
pub mod input_listener;
pub mod interleaving;
pub mod ordering;
pub mod worker;
