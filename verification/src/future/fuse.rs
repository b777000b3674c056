//! A future that is not polled again once it has resolved.

use std::task::Poll;
use vstd::prelude::*;

verus! {

/// A future that forgets the future inside it once that has resolved, and
/// is pending for ever after.
#[must_use]
#[derive(Debug)]
pub struct Fuse<A> {
    future: Option<A>,
}

/// Fuses a future.
pub fn new<A>(f: A) -> (r: Fuse<A>)
    ensures
        r.future() == Some(f),
{
    Fuse { future: Some(f) }
}

impl<A> Fuse<A> {
    /// The future inside, until it has resolved.
    pub closed spec fn future(&self) -> Option<A> {
        self.future
    }

    /// Has the future inside resolved?
    pub fn is_done(&self) -> (r: bool)
        ensures
            r == (self.future() is None),
    {
        self.future.is_none()
    }

    /// The future inside, to poll it.
    pub fn get_mut(&mut self) -> (r: &mut Option<A>)
        ensures
            *r == old(self).future(),
            final(self).future() == *final(r),
    {
        &mut self.future
    }

    /// Takes note of a poll of the future inside, and passes the answer on:
    /// a future that has resolved is dropped.
    pub fn polled<T>(&mut self, polled: Poll<T>) -> (r: Poll<T>)
        ensures
            r == polled,
            final(self).future() == (if polled is Ready {
                None
            } else {
                old(self).future()
            }),
    {
        match polled {
            Poll::Pending => Poll::Pending,
            Poll::Ready(v) => {
                self.future = None;
                Poll::Ready(v)
            },
        }
    }

    /// Takes note of a poll of a future inside that may fail, and passes
    /// the answer on: a future that has resolved or failed is dropped.
    pub fn try_polled<T, E>(&mut self, polled: Result<Poll<T>, E>) -> (r: Result<Poll<T>, E>)
        ensures
            r == polled,
            final(self).future() == (if polled matches Ok(Poll::Pending) {
                old(self).future()
            } else {
                None
            }),
    {
        match polled {
            Ok(Poll::Pending) => Ok(Poll::Pending),
            res => {
                self.future = None;
                res
            },
        }
    }
}

} // verus!
