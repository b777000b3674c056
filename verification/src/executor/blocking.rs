//! A stream that is turned into an iterator by waiting for each item.

use vstd::prelude::*;

verus! {

/// An iterator over the items of a stream, which blocks on each of them.
#[derive(Debug)]
pub struct BlockingStream<S> {
    stream: Option<S>,
}

/// Turns a stream into a blocking iterator.
pub fn block_on_stream<S>(s: S) -> (r: BlockingStream<S>)
    ensures
        r.stream() == Some(s),
{
    BlockingStream { stream: Some(s) }
}

impl<S> BlockingStream<S> {
    /// The stream, unless it has been taken out to wait for its next item.
    pub closed spec fn stream(&self) -> Option<S> {
        self.stream
    }

    /// Is the stream taken out?
    pub fn is_taken(&self) -> (r: bool)
        ensures
            r == (self.stream() is None),
    {
        self.stream.is_none()
    }

    /// Hands the stream back. It must not be taken out.
    pub fn into_inner(self) -> (s: S)
        requires
            self.stream() is Some,
        ensures
            Some(s) == self.stream(),
    {
        self.stream.unwrap()
    }

    /// Takes the stream out to wait for its next item. It must not be
    /// taken out already.
    pub fn take(&mut self) -> (s: S)
        requires
            old(self).stream() is Some,
        ensures
            Some(s) == old(self).stream(),
            final(self).stream() is None,
    {
        self.stream.take().unwrap()
    }

    /// Puts the stream back after the wait.
    pub fn put_back(&mut self, s: S)
        ensures
            final(self).stream() == Some(s),
    {
        self.stream = Some(s);
    }
}

} // verus!
