//! A sink whose errors are converted into another type.

use std::marker::PhantomData;
use vstd::prelude::*;

verus! {

/// A sink that converts each error of another sink into `E`.
#[must_use]
#[derive(Debug)]
pub struct SinkFromErr<S, E> {
    sink: S,
    f: PhantomData<E>,
}

/// Wraps the parts into a new `SinkFromErr`.
pub fn new<S, E>(sink: S) -> (r: SinkFromErr<S, E>)
    ensures
        r.sink() == sink,
{
    SinkFromErr { sink, f: PhantomData }
}

impl<S, E> SinkFromErr<S, E> {
    /// The sink whose errors are converted.
    pub closed spec fn sink(&self) -> S {
        self.sink
    }

    /// A shared reference to the underlying sink.
    pub fn get_ref(&self) -> (r: &S)
        ensures
            *r == self.sink(),
    {
        &self.sink
    }

    /// A mutable reference to the underlying sink. What is written through
    /// it is the sink of the combinator from then on; nothing else
    /// changes.
    pub fn get_mut(&mut self) -> (r: &mut S)
        ensures
            *r == old(self).sink(),
            final(self).sink() == *final(r),
    {
        &mut self.sink
    }

    /// Consumes the combinator and returns the underlying sink.
    pub fn into_inner(self) -> (r: S)
        ensures
            r == self.sink(),
    {
        self.sink
    }

    /// Takes note of what the sink inside has answered, and says what the
    /// sink answers: an error is converted, the rest is passed on.
    pub fn converted<T, X>(&mut self, answer: Result<T, X>) -> (r: Result<T, E>) where E: From<X>
        ensures
            final(self).sink() == old(self).sink(),
            match answer {
                Ok(v) => r == Ok::<T, E>(v),
                Err(e) => r matches Err(u) && call_ensures(E::from, (e,), u),
            },
    {
        match answer {
            Ok(v) => Ok(v),
            Err(e) => Err(E::from(e)),
        }
    }
}

} // verus!
