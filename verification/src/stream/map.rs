//! A stream whose items are mapped by a function.

use std::task::Poll;
use vstd::prelude::*;

verus! {

/// A stream that hands each item of another stream to a function.
#[must_use]
#[derive(Debug)]
pub struct MapStream<S, F> {
    stream: S,
    f: F,
}

/// Wraps the parts into a new `MapStream`.
pub fn new<S, F>(s: S, f: F) -> (r: MapStream<S, F>)
    ensures
        r.stream() == s,
        r.f() == f,
{
    MapStream { stream: s, f }
}

impl<S, F> MapStream<S, F> {
    /// The stream that is mapped.
    pub closed spec fn stream(&self) -> S {
        self.stream
    }

    /// The function that maps the items.
    pub closed spec fn f(&self) -> F {
        self.f
    }

    /// A shared reference to the underlying stream.
    pub fn get_ref(&self) -> (r: &S)
        ensures
            *r == self.stream(),
    {
        &self.stream
    }

    /// A mutable reference to the underlying stream. What is written through
    /// it is the stream of the combinator from then on; nothing else
    /// changes.
    pub fn get_mut(&mut self) -> (r: &mut S)
        ensures
            *r == old(self).stream(),
            final(self).stream() == *final(r),
            final(self).f() == old(self).f(),
    {
        &mut self.stream
    }

    /// Consumes the combinator and returns the underlying stream.
    pub fn into_inner(self) -> (r: S)
        ensures
            r == self.stream(),
    {
        self.stream
    }

    /// Takes note of a poll of the stream inside, and says what the mapped
    /// stream yields: each item is handed to the function.
    pub fn polled<T, U>(&mut self, polled: Poll<Option<T>>) -> (r: Poll<Option<U>>) where
        F: FnMut(T) -> U,

        requires
            polled matches Poll::Ready(Some(t)) ==> call_requires(old(self).f(), (t,)),
        ensures
            final(self).stream() == old(self).stream(),
            match polled {
                Poll::Pending => r is Pending,
                Poll::Ready(None) => r == Poll::<Option<U>>::Ready(None),
                Poll::Ready(Some(t)) => r matches Poll::Ready(Some(u)) && call_ensures(
                    old(self).f(),
                    (t,),
                    u,
                ),
            },
    {
        match polled {
            Poll::Pending => Poll::Pending,
            Poll::Ready(None) => Poll::Ready(None),
            Poll::Ready(Some(t)) => Poll::Ready(Some((self.f)(t))),
        }
    }
}

} // verus!
