//! A stream whose results are handed to a function that answers with a future.

use std::task::Poll;
use vstd::prelude::*;

verus! {

/// A stream that hands each result of another stream to a function and
/// yields what the futures that come back resolve to.
#[must_use]
#[derive(Debug)]
pub struct Then<S, F, U> {
    stream: S,
    future: Option<U>,
    f: F,
}

/// Wraps the parts into a new `Then`.
pub fn new<S, F, U>(s: S, f: F) -> (r: Then<S, F, U>)
    ensures
        r.stream() == s,
        r.future() == None::<U>,
        r.f() == f,
{
    Then { stream: s, future: None, f }
}

impl<S, F, U> Then<S, F, U> {
    /// The stream whose results are processed.
    pub closed spec fn stream(&self) -> S {
        self.stream
    }

    /// The future of the result that is being processed, if any.
    pub closed spec fn future(&self) -> Option<U> {
        self.future
    }

    /// The function that processes the results.
    pub closed spec fn f(&self) -> F {
        self.f
    }

    /// A shared reference to the underlying stream.
    pub fn get_ref(&self) -> (r: &S)
        ensures
            *r == self.stream(),
    {
        &self.stream
    }

    /// A mutable reference to the underlying stream. What is written through
    /// it is the stream of the combinator from then on; nothing else
    /// changes.
    pub fn get_mut(&mut self) -> (r: &mut S)
        ensures
            *r == old(self).stream(),
            final(self).stream() == *final(r),
            final(self).future() == old(self).future(),
            final(self).f() == old(self).f(),
    {
        &mut self.stream
    }

    /// Consumes the combinator and returns the underlying stream.
    pub fn into_inner(self) -> (r: S)
        ensures
            r == self.stream(),
    {
        self.stream
    }

    /// Hands a result of the stream to the function and keeps the future
    /// that comes back. No future must be at work.
    pub fn start<T>(&mut self, item: T) where F: FnMut(T) -> U
        requires
            old(self).future() is None,
            call_requires(old(self).f(), (item,)),
        ensures
            final(self).stream() == old(self).stream(),
            final(self).future() matches Some(u) && call_ensures(old(self).f(), (item,), u),
    {
        self.future = Some((self.f)(item));
    }

    /// Is a future at work?
    pub fn has_future(&self) -> (r: bool)
        ensures
            r == (self.future() is Some),
    {
        self.future.is_some()
    }

    /// The future that is at work, to poll it.
    pub fn future_mut(&mut self) -> (r: &mut Option<U>)
        ensures
            *r == old(self).future(),
            final(self).future() == *final(r),
            final(self).stream() == old(self).stream(),
            final(self).f() == old(self).f(),
    {
        &mut self.future
    }

    /// Takes note of a poll of the future that is at work, and says what
    /// the stream yields: what the future has resolved to, or its error;
    /// the future is dropped in both cases, and kept while it is pending.
    pub fn future_polled<T, E>(&mut self, polled: Result<Poll<T>, E>) -> (r: Result<
        Poll<Option<T>>,
        E,
    >)
        requires
            old(self).future() is Some,
        ensures
            final(self).stream() == old(self).stream(),
            final(self).f() == old(self).f(),
            final(self).future() == (if polled matches Ok(Poll::Pending) {
                old(self).future()
            } else {
                None
            }),
            r == (match polled {
                Ok(Poll::Ready(e)) => Ok::<Poll<Option<T>>, E>(Poll::Ready(Some(e))),
                Err(e) => Err::<Poll<Option<T>>, E>(e),
                Ok(Poll::Pending) => Ok::<Poll<Option<T>>, E>(Poll::Pending),
            }),
    {
        match polled {
            Ok(Poll::Ready(e)) => {
                self.future = None;
                Ok(Poll::Ready(Some(e)))
            },
            Err(e) => {
                self.future = None;
                Err(e)
            },
            Ok(Poll::Pending) => Ok(Poll::Pending),
        }
    }
}

} // verus!
