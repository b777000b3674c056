//! The items of a stream, gathered into chunks.

use std::task::Poll;
use vstd::prelude::*;

verus! {

/// A stream that gathers the items of another stream into vectors of a
/// given length; the last one may be shorter.
#[must_use]
#[derive(Debug)]
pub struct Chunks<S, T, E> {
    items: Vec<T>,
    err: Option<E>,
    stream: S,
    cap: usize,
}

/// Gathers the items of a stream into chunks of `capacity` items, which
/// must be more than none.
pub fn new<S, T, E>(s: S, capacity: usize) -> (r: Chunks<S, T, E>)
    requires
        capacity > 0,
    ensures
        r.stream() == s,
        r.items() == Seq::<T>::empty(),
        r.err() is None,
        r.cap() == capacity,
{
    Chunks { items: Vec::with_capacity(capacity), err: None, stream: s, cap: capacity }
}

impl<S, T, E> Chunks<S, T, E> {
    /// The stream whose items are gathered.
    pub closed spec fn stream(&self) -> S {
        self.stream
    }

    /// The items of the chunk that is being gathered.
    pub closed spec fn items(&self) -> Seq<T> {
        self.items@
    }

    /// The error that waits behind a chunk that has been handed out.
    pub closed spec fn err(&self) -> Option<E> {
        self.err
    }

    /// The length of a full chunk.
    pub closed spec fn cap(&self) -> usize {
        self.cap
    }

    /// The length of a full chunk.
    pub fn capacity(&self) -> (r: usize)
        ensures
            r == self.cap(),
    {
        self.cap
    }

    /// A shared reference to the underlying stream.
    pub fn get_ref(&self) -> (r: &S)
        ensures
            *r == self.stream(),
    {
        &self.stream
    }

    /// A mutable reference to the underlying stream. What is written
    /// through it is the stream of the combinator from then on; nothing
    /// else changes.
    pub fn get_mut(&mut self) -> (r: &mut S)
        ensures
            *r == old(self).stream(),
            final(self).stream() == *final(r),
            final(self).items() == old(self).items(),
            final(self).err() == old(self).err(),
            final(self).cap() == old(self).cap(),
    {
        &mut self.stream
    }

    /// Consumes the combinator and returns the underlying stream.
    pub fn into_inner(self) -> (r: S)
        ensures
            r == self.stream(),
    {
        self.stream
    }

    /// Hands out the chunk gathered so far and starts a new one.
    pub fn take(&mut self) -> (items: Vec<T>)
        ensures
            items@ == old(self).items(),
            final(self).items() == Seq::<T>::empty(),
            final(self).stream() == old(self).stream(),
            final(self).err() == old(self).err(),
            final(self).cap() == old(self).cap(),
    {
        let cap = self.cap;
        let mut items: Vec<T> = Vec::with_capacity(cap);
        std::mem::swap(&mut self.items, &mut items);
        items
    }

    /// Takes out the error that waits behind the last chunk, if any: it is
    /// what the stream yields next.
    pub fn take_error(&mut self) -> (r: Option<E>)
        ensures
            r == old(self).err(),
            final(self).err() is None,
            final(self).stream() == old(self).stream(),
            final(self).items() == old(self).items(),
            final(self).cap() == old(self).cap(),
    {
        self.err.take()
    }

    /// Takes note of a poll of the stream, and says what the chunked
    /// stream yields. An item fills the chunk, which is handed out when it
    /// is full; before that the stream is to be polled again, and nothing
    /// is said. The end of the stream hands out the chunk if it has items.
    /// An error hands out the chunk first, if it has items, and waits
    /// behind it.
    pub fn polled(&mut self, polled: Result<Poll<Option<T>>, E>) -> (r: Option<
        Result<Poll<Option<Vec<T>>>, E>,
    >)
        requires
            old(self).cap() > 0,
        ensures
            final(self).stream() == old(self).stream(),
            final(self).cap() == old(self).cap(),
            match polled {
                Ok(Poll::Pending) => (r matches Some(Ok(Poll::Pending))) && final(self).items()
                    == old(self).items() && final(self).err() == old(self).err(),
                Ok(Poll::Ready(Some(item))) => final(self).err() == old(self).err() && (
                if old(self).items().len() + 1 >= old(self).cap() {
                    final(self).items() == Seq::<T>::empty() && (
                    r matches Some(Ok(Poll::Ready(Some(chunk)))) && chunk@ == old(self).items().push(item))
                } else {
                    final(self).items() == old(self).items().push(item) && r is None
                }),
                Ok(Poll::Ready(None)) => final(self).err() == old(self).err() && final(self).items() == Seq::<T>::empty() && (if old(self).items().len() > 0 {
                    r matches Some(Ok(Poll::Ready(Some(chunk)))) && chunk@ == old(self).items()
                } else {
                    r matches Some(Ok(Poll::Ready(None)))
                }),
                Err(e) => final(self).items() == Seq::<T>::empty() && (if old(self).items().len() == 0 {
                    r == Some(Err::<Poll<Option<Vec<T>>>, E>(e)) && final(self).err() == old(self).err()
                } else {
                    final(self).err() == Some(e) && (r matches Some(Ok(Poll::Ready(Some(chunk))))
                        && chunk@ == old(self).items())
                }),
            },
    {
        let cap = self.cap;
        match polled {
            Ok(Poll::Pending) => Some(Ok(Poll::Pending)),
            // Push the item into the buffer and check whether it is full.
            // If so, replace our buffer with a new and empty one and return
            // the full one.
            Ok(Poll::Ready(Some(item))) => {
                self.items.push(item);
                if self.items.len() >= cap {
                    Some(Ok(Poll::Ready(Some(self.take()))))
                } else {
                    None
                }
            },
            // Since the underlying stream ran out of values, return what we
            // have buffered, if we have anything.
            Ok(Poll::Ready(None)) => {
                if self.items.len() > 0 {
                    let mut full_buf: Vec<T> = Vec::new();
                    std::mem::swap(&mut self.items, &mut full_buf);
                    Some(Ok(Poll::Ready(Some(full_buf))))
                } else {
                    Some(Ok(Poll::Ready(None)))
                }
            },
            // If we've got buffered items be sure to return them first,
            // we'll defer our error for later.
            Err(e) => {
                if self.items.len() == 0 {
                    Some(Err(e))
                } else {
                    self.err = Some(e);
                    Some(Ok(Poll::Ready(Some(self.take()))))
                }
            },
        }
    }
}

} // verus!
