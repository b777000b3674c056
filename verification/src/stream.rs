//! Combinators over streams.

pub mod and_then;
pub mod chunks;
pub mod collect;
pub mod filter;
pub mod filter_sync;
pub mod fold;
pub mod from_err;
pub mod iter;
pub mod map;
pub mod map_err;
pub mod skip_while;
pub mod take_until;
pub mod then;
pub mod try_unfold;
pub mod unfold;
