//! Locks for asynchronous tasks.

pub mod rwlock;
pub mod waiter;
