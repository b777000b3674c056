//! A stream made of an iterator.

use std::task::Poll;
use vstd::prelude::*;

verus! {

/// A stream that yields the items of an iterator.
#[must_use]
#[derive(Debug)]
pub struct IterStream<I> {
    iter: I,
}

/// Turns an iterator of results into a stream.
pub fn iter<I>(i: I) -> (r: IterStream<I>)
    ensures
        r.inner() == i,
{
    IterStream { iter: i }
}

impl<I> IterStream<I> {
    /// The iterator.
    pub closed spec fn inner(&self) -> I {
        self.iter
    }

    /// The iterator, to take its next item.
    pub fn get_mut(&mut self) -> (r: &mut I)
        ensures
            *r == old(self).inner(),
            final(self).inner() == *final(r),
    {
        &mut self.iter
    }

    /// What the stream answers when the iterator has given `next`: an item
    /// is yielded, an error is passed on, and the end of the iterator is
    /// the end of the stream.
    pub fn yielded<T, E>(next: Option<Result<T, E>>) -> (r: Result<Poll<Option<T>>, E>)
        ensures
            r == (match next {
                Some(Ok(e)) => Ok::<Poll<Option<T>>, E>(Poll::Ready(Some(e))),
                Some(Err(e)) => Err::<Poll<Option<T>>, E>(e),
                None => Ok::<Poll<Option<T>>, E>(Poll::Ready(None)),
            }),
    {
        match next {
            Some(Ok(e)) => Ok(Poll::Ready(Some(e))),
            Some(Err(e)) => Err(e),
            None => Ok(Poll::Ready(None)),
        }
    }
}

} // verus!
