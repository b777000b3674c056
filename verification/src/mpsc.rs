//! A multi-producer, single-consumer channel, bounded or unbounded.
//!
//! A channel is its shared state and the handles of its senders and its
//! receiver. Every operation of a handle takes the shared state as an
//! argument, by exclusive reference: whoever shares a channel between
//! threads gives each operation the state for itself while it runs. What an
//! operation does is stated over a mathematical value of the channel, and
//! what holds over whole histories of operations is proved in `laws`.

pub mod bounded;
pub mod error;
pub mod laws;
pub mod queue;
pub mod state;
pub mod task;
pub mod unbounded;
