//! Sequential cores of asynchronous synchronisation primitives, with their
//! behaviour stated as contracts over mathematical models.

pub mod executor;
pub mod future;
pub mod lock;
pub mod mpsc;
pub mod sink;
pub mod stream;
pub mod sync;
pub mod try_future;
pub mod waker;
