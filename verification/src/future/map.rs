//! A future whose value is mapped by a function.

use std::task::Poll;
use vstd::prelude::*;

verus! {

/// A future that hands the value of another future to a function and
/// resolves to what comes back.
#[must_use]
#[derive(Debug)]
pub struct MapFuture<A, F> {
    future: A,
    f: Option<F>,
}

/// Wraps the parts into a new `MapFuture`.
pub fn new<A, F>(future: A, f: F) -> (r: MapFuture<A, F>)
    ensures
        r.future() == future,
        r.f() == Some(f),
{
    MapFuture { future, f: Some(f) }
}

impl<A, F> MapFuture<A, F> {
    /// The future whose value is mapped.
    pub closed spec fn future(&self) -> A {
        self.future
    }

    /// The function that maps, until it has been used.
    pub closed spec fn f(&self) -> Option<F> {
        self.f
    }

    /// Takes note of a poll of the future inside, and says what the mapped
    /// future answers: a value is handed to the function, which is used up
    /// by it; an error is passed on, and uses the function up as well. The
    /// function must not have been used before, unless the future inside
    /// is pending.
    pub fn polled<T, E, U>(&mut self, polled: Result<Poll<T>, E>) -> (r: Result<Poll<U>, E>) where
        F: FnOnce(T) -> U,

        requires
            !(polled matches Ok(Poll::Pending)) ==> old(self).f() is Some,
            polled matches Ok(Poll::Ready(t)) ==> call_requires(old(self).f().unwrap(), (t,)),
        ensures
            final(self).future() == old(self).future(),
            match polled {
                Ok(Poll::Pending) => r matches Ok(Poll::Pending) && final(self).f() == old(self).f(),
                Ok(Poll::Ready(t)) => final(self).f() is None && (r matches Ok(Poll::Ready(u))
                    && call_ensures(old(self).f().unwrap(), (t,), u)),
                Err(e) => final(self).f() is None && r == Err::<Poll<U>, E>(e),
            },
    {
        let e = match polled {
            Ok(Poll::Pending) => return Ok(Poll::Pending),
            Ok(Poll::Ready(e)) => Ok(e),
            Err(e) => Err(e),
        };
        let f = self.f.take().unwrap();
        match e {
            Ok(e) => Ok(Poll::Ready(f(e))),
            Err(e) => Err(e),
        }
    }

    /// The future inside, to poll it.
    pub fn future_mut(&mut self) -> (r: &mut A)
        ensures
            *r == old(self).future(),
            final(self).future() == *final(r),
            final(self).f() == old(self).f(),
    {
        &mut self.future
    }

    /// Is the function still there, not used up?
    pub fn has_fn(&self) -> (r: bool)
        ensures
            r == (self.f() is Some),
    {
        self.f.is_some()
    }
}

} // verus!
