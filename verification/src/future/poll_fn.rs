//! A future made of a function that polls.

use std::task::Poll;
use vstd::prelude::*;

verus! {

/// A future that polls by calling a function.
#[must_use]
#[derive(Debug)]
pub struct PollFn<F> {
    inner: F,
}

/// Makes a future of a function that polls.
pub fn poll_fn<F>(f: F) -> (r: PollFn<F>)
    ensures
        r.inner() == f,
{
    PollFn { inner: f }
}

impl<F> PollFn<F> {
    /// The function that polls.
    pub closed spec fn inner(&self) -> F {
        self.inner
    }

    /// The function, to call it.
    pub fn inner_mut(&mut self) -> (r: &mut F)
        ensures
            *r == old(self).inner(),
            final(self).inner() == *final(r),
    {
        &mut self.inner
    }

    /// Polls by calling the function.
    pub fn poll<T>(&mut self) -> (r: Poll<T>) where F: FnMut() -> Poll<T>
        requires
            call_requires(old(self).inner(), ()),
        ensures
            call_ensures(old(self).inner(), (), r),
    {
        (self.inner)()
    }
}

} // verus!
