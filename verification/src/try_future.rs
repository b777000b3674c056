//! Combinators over futures that may fail.

pub mod flatten_sink;
