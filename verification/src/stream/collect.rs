//! All items of a stream, gathered into a vector.

use std::task::Poll;
use vstd::prelude::*;

verus! {

/// A future that gathers the items of a stream and resolves to them when
/// the stream ends.
#[must_use]
#[derive(Debug)]
pub struct Collect<S, T> {
    stream: S,
    items: Vec<T>,
}

/// Starts to gather the items of a stream.
pub fn new<S, T>(s: S) -> (r: Collect<S, T>)
    ensures
        r.stream() == s,
        r.items() == Seq::<T>::empty(),
{
    Collect { stream: s, items: Vec::new() }
}

impl<S, T> Collect<S, T> {
    /// The stream whose items are gathered.
    pub closed spec fn stream(&self) -> S {
        self.stream
    }

    /// The items gathered so far.
    pub closed spec fn items(&self) -> Seq<T> {
        self.items@
    }

    /// The stream, to poll it.
    pub fn get_mut(&mut self) -> (r: &mut S)
        ensures
            *r == old(self).stream(),
            final(self).stream() == *final(r),
            final(self).items() == old(self).items(),
    {
        &mut self.stream
    }

    /// Hands out the items gathered so far and starts afresh.
    pub fn finish(&mut self) -> (items: Vec<T>)
        ensures
            items@ == old(self).items(),
            final(self).items() == Seq::<T>::empty(),
            final(self).stream() == old(self).stream(),
    {
        let mut items: Vec<T> = Vec::new();
        std::mem::swap(&mut self.items, &mut items);
        items
    }

    /// Takes note of a poll of the stream. An item is kept, and the stream
    /// is to be polled again: the answer is `None`. The end of the stream
    /// hands out all items; an error drops them and is passed on; a
    /// pending stream makes the future pending.
    pub fn polled<E>(&mut self, polled: Result<Poll<Option<T>>, E>) -> (r: Option<
        Result<Poll<Vec<T>>, E>,
    >)
        ensures
            final(self).stream() == old(self).stream(),
            match polled {
                Ok(Poll::Ready(Some(e))) => r is None && final(self).items() == old(self).items().push(e),
                Ok(Poll::Ready(None)) => final(self).items() == Seq::<T>::empty() && (
                r matches Some(Ok(Poll::Ready(v))) && v@ == old(self).items()),
                Ok(Poll::Pending) => final(self).items() == old(self).items() && (
                r matches Some(Ok(Poll::Pending))),
                Err(e) => final(self).items() == Seq::<T>::empty() && r == Some(
                    Err::<Poll<Vec<T>>, E>(e),
                ),
            },
    {
        match polled {
            Ok(Poll::Ready(Some(e))) => {
                self.items.push(e);
                None
            },
            Ok(Poll::Ready(None)) => Some(Ok(Poll::Ready(self.finish()))),
            Ok(Poll::Pending) => Some(Ok(Poll::Pending)),
            Err(e) => {
                self.finish();
                Some(Err(e))
            },
        }
    }
}

} // verus!
