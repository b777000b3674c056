//! Combinators over sinks.

pub mod buffer;
pub mod from_err;
pub mod map_err;
pub mod with_flat_map;
