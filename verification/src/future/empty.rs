//! A future that never resolves.

use std::marker::PhantomData;
use std::task::Poll;
use vstd::prelude::*;

verus! {

/// A future that is never ready.
#[must_use]
#[derive(Debug)]
pub struct Empty<T> {
    _data: PhantomData<T>,
}

/// Creates a future that never resolves.
pub fn empty<T>() -> Empty<T> {
    Empty { _data: PhantomData }
}

impl<T> Empty<T> {
    /// Answers that nothing is ready, whenever it is asked.
    pub fn poll(&mut self) -> (r: Poll<T>)
        ensures
            r is Pending,
            *final(self) == *old(self),
    {
        Poll::Pending
    }
}

} // verus!
