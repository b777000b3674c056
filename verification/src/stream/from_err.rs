//! A stream whose errors are converted into another type.

use std::marker::PhantomData;
use std::task::Poll;
use vstd::prelude::*;

verus! {

/// A stream that converts each error of another stream into `E`.
#[must_use]
#[derive(Debug)]
pub struct FromErr<S, E> {
    stream: S,
    f: PhantomData<E>,
}

/// Wraps the parts into a new `FromErr`.
pub fn new<S, E>(stream: S) -> (r: FromErr<S, E>)
    ensures
        r.stream() == stream,
{
    FromErr { stream, f: PhantomData }
}

impl<S, E> FromErr<S, E> {
    /// The stream whose errors are converted.
    pub closed spec fn stream(&self) -> S {
        self.stream
    }

    /// A shared reference to the underlying stream.
    pub fn get_ref(&self) -> (r: &S)
        ensures
            *r == self.stream(),
    {
        &self.stream
    }

    /// A mutable reference to the underlying stream. What is written through
    /// it is the stream of the combinator from then on; nothing else
    /// changes.
    pub fn get_mut(&mut self) -> (r: &mut S)
        ensures
            *r == old(self).stream(),
            final(self).stream() == *final(r),
    {
        &mut self.stream
    }

    /// Consumes the combinator and returns the underlying stream.
    pub fn into_inner(self) -> (r: S)
        ensures
            r == self.stream(),
    {
        self.stream
    }

    /// Takes note of a poll of the stream inside, and says what the stream
    /// yields: an error is converted, the rest is passed on.
    pub fn polled<T, X>(&mut self, polled: Result<Poll<Option<T>>, X>) -> (r: Result<
        Poll<Option<T>>,
        E,
    >) where E: From<X>
        ensures
            final(self).stream() == old(self).stream(),
            match polled {
                Ok(p) => r == Ok::<Poll<Option<T>>, E>(p),
                Err(e) => r matches Err(u) && call_ensures(E::from, (e,), u),
            },
    {
        match polled {
            Ok(p) => Ok(p),
            Err(e) => Err(E::from(e)),
        }
    }
}

} // verus!
