//! A future that is ready at once.

use std::task::Poll;
use vstd::prelude::*;

verus! {

/// A future that resolves to a given value on its first poll.
#[must_use]
#[derive(Debug, Clone)]
pub struct ReadyFuture<T>(Option<T>);

impl<T> ReadyFuture<T> {
    /// The value that the future resolves to, until it has been polled.
    pub closed spec fn value(&self) -> Option<T> {
        self.0
    }

    /// Has the value been handed out?
    pub fn is_taken(&self) -> (r: bool)
        ensures
            r == (self.value() is None),
    {
        self.0.is_none()
    }

    /// Hands the value out. The future must not have been polled before.
    pub fn poll(&mut self) -> (r: Poll<T>)
        requires
            old(self).value() is Some,
        ensures
            r == Poll::Ready(old(self).value().unwrap()),
            final(self).value() is None,
    {
        Poll::Ready(self.0.take().unwrap())
    }
}

/// Creates a future that resolves to `t` at once.
pub fn ready<T>(t: T) -> (r: ReadyFuture<T>)
    ensures
        r.value() == Some(t),
{
    ReadyFuture(Some(t))
}

} // verus!
