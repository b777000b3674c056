//! Combinators over futures.

pub mod and_then;
pub mod empty;
pub mod first_ok;
pub mod fuse;
pub mod join;
pub mod join_all;
pub mod lazy;
pub mod map;
pub mod poll_fn;
pub mod ready;
pub mod recover;
