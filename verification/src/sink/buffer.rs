//! A sink with a buffer in front of it.

use std::collections::VecDeque;
use vstd::prelude::*;

verus! {

/// A sink that keeps items in a buffer while the sink behind it is not
/// ready for them.
#[must_use]
#[derive(Debug)]
pub struct Buffer<S, T> {
    sink: S,
    buf: VecDeque<T>,

    // Track capacity separately from the `VecDeque`, which may be rounded up
    cap: usize,
}

/// Puts a buffer for `amt` items in front of a sink.
pub fn new<S, T>(sink: S, amt: usize) -> (r: Buffer<S, T>)
    ensures
        r.sink() == sink,
        r.buf() == Seq::<T>::empty(),
        r.cap() == amt,
{
    Buffer { sink, buf: VecDeque::with_capacity(amt), cap: amt }
}

impl<S, T> Buffer<S, T> {
    /// The sink behind the buffer.
    pub closed spec fn sink(&self) -> S {
        self.sink
    }

    /// The items in the buffer, the next to be sent first.
    pub closed spec fn buf(&self) -> Seq<T> {
        self.buf@
    }

    /// The size that the buffer was made for.
    pub closed spec fn cap(&self) -> usize {
        self.cap
    }

    /// A shared reference to the underlying sink.
    pub fn get_ref(&self) -> (r: &S)
        ensures
            *r == self.sink(),
    {
        &self.sink
    }

    /// A mutable reference to the underlying sink. What is written through
    /// it is the sink of the buffer from then on; nothing else changes.
    pub fn get_mut(&mut self) -> (r: &mut S)
        ensures
            *r == old(self).sink(),
            final(self).sink() == *final(r),
            final(self).buf() == old(self).buf(),
            final(self).cap() == old(self).cap(),
    {
        &mut self.sink
    }

    /// Is the buffer empty?
    pub fn is_empty(&self) -> (r: bool)
        ensures
            r == (self.buf().len() == 0),
    {
        self.buf.len() == 0
    }

    /// Takes the next item out of the buffer, to send it on.
    pub fn next_to_send(&mut self) -> (r: Option<T>)
        ensures
            final(self).sink() == old(self).sink(),
            final(self).cap() == old(self).cap(),
            r == (if old(self).buf().len() > 0 {
                Some(old(self).buf()[0])
            } else {
                None
            }),
            final(self).buf() == (if old(self).buf().len() > 0 {
                old(self).buf().drop_first()
            } else {
                old(self).buf()
            }),
    {
        let r = self.buf.pop_front();
        proof {
            if old(self).buf().len() > 0 {
                assert(self.buf@ =~= old(self).buf().drop_first());
            }
        }
        r
    }

    /// Puts back an item that the sink behind the buffer was not ready
    /// for: it is the next to be sent again.
    pub fn put_back(&mut self, item: T)
        ensures
            final(self).sink() == old(self).sink(),
            final(self).cap() == old(self).cap(),
            final(self).buf() == seq![item] + old(self).buf(),
    {
        self.buf.push_front(item);
    }

    /// Takes an item into the buffer, after the buffer has been emptied as
    /// far as the sink behind it allows. A buffer that holds more items
    /// than it was made for hands the item back.
    pub fn start_send(&mut self, item: T) -> (r: Option<T>)
        ensures
            final(self).sink() == old(self).sink(),
            final(self).cap() == old(self).cap(),
            r == (if old(self).buf().len() > old(self).cap() {
                Some(item)
            } else {
                None
            }),
            final(self).buf() == (if old(self).buf().len() > old(self).cap() {
                old(self).buf()
            } else {
                old(self).buf().push(item)
            }),
    {
        if self.buf.len() > self.cap {
            return Some(item);
        }
        self.buf.push_back(item);
        None
    }
}

} // verus!
