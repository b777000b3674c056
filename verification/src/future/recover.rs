//! A future whose error is turned into a value by a function.

use std::task::Poll;
use vstd::prelude::*;

verus! {

/// A future that hands the error of another future to a function and
/// resolves to what comes back.
#[must_use]
#[derive(Debug)]
pub struct Recover<A, F> {
    inner: A,
    f: Option<F>,
}

/// Wraps the parts into a new `Recover`.
pub fn new<A, F>(future: A, f: F) -> (r: Recover<A, F>)
    ensures
        r.inner() == future,
        r.f() == Some(f),
{
    Recover { inner: future, f: Some(f) }
}

impl<A, F> Recover<A, F> {
    /// The future whose error is recovered from.
    pub closed spec fn inner(&self) -> A {
        self.inner
    }

    /// The function that recovers, until it has been used.
    pub closed spec fn f(&self) -> Option<F> {
        self.f
    }

    /// Takes note of a poll of the future inside, and says what the future
    /// answers: a value is passed on, and an error is handed to the
    /// function, which is used up by it. For an error the function must
    /// not have been used before.
    pub fn polled<T, E>(&mut self, polled: Poll<Result<T, E>>) -> (r: Poll<T>) where
        F: FnOnce(E) -> T,

        requires
            polled matches Poll::Ready(Err(e)) ==> old(self).f() is Some && call_requires(
                old(self).f().unwrap(),
                (e,),
            ),
        ensures
            final(self).inner() == old(self).inner(),
            match polled {
                Poll::Pending => r is Pending && final(self).f() == old(self).f(),
                Poll::Ready(Ok(v)) => r == Poll::Ready(v) && final(self).f() == old(self).f(),
                Poll::Ready(Err(e)) => final(self).f() is None && (r matches Poll::Ready(v)
                    && call_ensures(old(self).f().unwrap(), (e,), v)),
            },
    {
        match polled {
            Poll::Pending => Poll::Pending,
            Poll::Ready(Ok(v)) => Poll::Ready(v),
            Poll::Ready(Err(e)) => {
                let f = self.f.take().unwrap();
                Poll::Ready(f(e))
            },
        }
    }

    /// The future inside, to poll it.
    pub fn inner_mut(&mut self) -> (r: &mut A)
        ensures
            *r == old(self).inner(),
            final(self).inner() == *final(r),
            final(self).f() == old(self).f(),
    {
        &mut self.inner
    }

    /// Is the function still there, not used up?
    pub fn has_fn(&self) -> (r: bool)
        ensures
            r == (self.f() is Some),
    {
        self.f.is_some()
    }
}

} // verus!
