//! What runs futures and streams to their end.

pub mod blocking;
