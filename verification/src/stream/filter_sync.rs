//! A stream that keeps the items that a predicate accepts.

use std::task::Poll;
use vstd::prelude::*;

verus! {

/// A stream that yields the items of another stream for which a predicate
/// says `true`.
#[must_use]
#[derive(Debug)]
pub struct Filter<S, F> {
    stream: S,
    f: F,
}

/// Filters a stream by a predicate.
pub fn new<S, F>(s: S, f: F) -> (r: Filter<S, F>)
    ensures
        r.stream() == s,
        r.f() == f,
{
    Filter { stream: s, f }
}

impl<S, F> Filter<S, F> {
    /// The stream whose items are filtered.
    pub closed spec fn stream(&self) -> S {
        self.stream
    }

    /// The predicate.
    pub closed spec fn f(&self) -> F {
        self.f
    }

    /// The stream, to poll it.
    pub fn get_mut(&mut self) -> (r: &mut S)
        ensures
            *r == old(self).stream(),
            final(self).stream() == *final(r),
            final(self).f() == old(self).f(),
    {
        &mut self.stream
    }

    /// Takes note of a poll of the stream, and says what the filtered
    /// stream yields: an item that the predicate accepts, the end, an
    /// error, or pending. For an item that the predicate refuses the
    /// stream is to be polled again, and nothing is said.
    pub fn polled<T, E>(&mut self, polled: Result<Poll<Option<T>>, E>) -> (r: Option<
        Result<Poll<Option<T>>, E>,
    >) where F: FnMut(&T) -> bool
        requires
            polled matches Ok(Poll::Ready(Some(e))) ==> call_requires(old(self).f(), (&e,)),
        ensures
            final(self).stream() == old(self).stream(),
            match polled {
                Ok(Poll::Ready(Some(e))) => (r == Some(Ok::<Poll<Option<T>>, E>(Poll::Ready(Some(e))))
                    && call_ensures(old(self).f(), (&e,), true)) || (r is None && call_ensures(
                    old(self).f(),
                    (&e,),
                    false,
                )),
                _ => r == Some(polled),
            },
    {
        match polled {
            Ok(Poll::Ready(Some(e))) => {
                if (self.f)(&e) {
                    Some(Ok(Poll::Ready(Some(e))))
                } else {
                    None
                }
            },
            Ok(Poll::Ready(None)) => Some(Ok(Poll::Ready(None))),
            Ok(Poll::Pending) => Some(Ok(Poll::Pending)),
            Err(e) => Some(Err(e)),
        }
    }
}

} // verus!
