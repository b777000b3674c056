//! A stream whose errors are mapped by a function.

use std::task::Poll;
use vstd::prelude::*;

verus! {

/// A stream that hands each error of another stream to a function.
#[must_use]
#[derive(Debug)]
pub struct MapErr<S, F> {
    stream: S,
    f: F,
}

/// Wraps the parts into a new `MapErr`.
pub fn new<S, F>(s: S, f: F) -> (r: MapErr<S, F>)
    ensures
        r.stream() == s,
        r.f() == f,
{
    MapErr { stream: s, f }
}

impl<S, F> MapErr<S, F> {
    /// The stream whose errors are mapped.
    pub closed spec fn stream(&self) -> S {
        self.stream
    }

    /// The function that maps the errors.
    pub closed spec fn f(&self) -> F {
        self.f
    }

    /// A shared reference to the underlying stream.
    pub fn get_ref(&self) -> (r: &S)
        ensures
            *r == self.stream(),
    {
        &self.stream
    }

    /// A mutable reference to the underlying stream. What is written through
    /// it is the stream of the combinator from then on; nothing else
    /// changes.
    pub fn get_mut(&mut self) -> (r: &mut S)
        ensures
            *r == old(self).stream(),
            final(self).stream() == *final(r),
            final(self).f() == old(self).f(),
    {
        &mut self.stream
    }

    /// Consumes the combinator and returns the underlying stream.
    pub fn into_inner(self) -> (r: S)
        ensures
            r == self.stream(),
    {
        self.stream
    }

    /// Takes note of a poll of the stream inside, and says what the stream
    /// yields: an error is handed to the function, the rest is passed on.
    pub fn polled<T, E, U>(&mut self, polled: Result<Poll<Option<T>>, E>) -> (r: Result<
        Poll<Option<T>>,
        U,
    >) where F: FnMut(E) -> U
        requires
            polled matches Err(e) ==> call_requires(old(self).f(), (e,)),
        ensures
            final(self).stream() == old(self).stream(),
            match polled {
                Ok(p) => r == Ok::<Poll<Option<T>>, U>(p),
                Err(e) => r matches Err(u) && call_ensures(old(self).f(), (e,), u),
            },
    {
        match polled {
            Ok(p) => Ok(p),
            Err(e) => Err((self.f)(e)),
        }
    }
}

} // verus!
