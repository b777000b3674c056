//! A sink that turns each item into a stream of items for another sink.

use std::marker::PhantomData;
use vstd::prelude::*;

verus! {

/// A sink that hands each item to a function and sends the items of the
/// stream that comes back to the sink behind it.
#[must_use]
#[derive(Debug)]
pub struct WithFlatMap<S, U, F, St, Item> {
    sink: S,
    f: F,
    stream: Option<St>,
    buffer: Option<Item>,
    _phantom: PhantomData<U>,
}

/// Puts a function that makes streams in front of a sink.
pub fn new<S, U, F, St, Item>(sink: S, f: F) -> (r: WithFlatMap<S, U, F, St, Item>)
    ensures
        r.sink() == sink,
        r.f() == f,
        r.stream() is None,
        r.buffer() is None,
{
    WithFlatMap { sink, f, stream: None, buffer: None, _phantom: PhantomData }
}

impl<S, U, F, St, Item> WithFlatMap<S, U, F, St, Item> {
    /// The sink behind.
    pub closed spec fn sink(&self) -> S {
        self.sink
    }

    /// The function that makes a stream of each item.
    pub closed spec fn f(&self) -> F {
        self.f
    }

    /// The stream whose items are being sent on, if any.
    pub closed spec fn stream(&self) -> Option<St> {
        self.stream
    }

    /// The item that the sink behind was not ready for, if any.
    pub closed spec fn buffer(&self) -> Option<Item> {
        self.buffer
    }

    /// A shared reference to the underlying sink.
    pub fn get_ref(&self) -> (r: &S)
        ensures
            *r == self.sink(),
    {
        &self.sink
    }

    /// A mutable reference to the underlying sink. What is written through
    /// it is the sink of the combinator from then on; nothing else
    /// changes.
    pub fn get_mut(&mut self) -> (r: &mut S)
        ensures
            *r == old(self).sink(),
            final(self).sink() == *final(r),
            final(self).f() == old(self).f(),
            final(self).stream() == old(self).stream(),
            final(self).buffer() == old(self).buffer(),
    {
        &mut self.sink
    }

    /// Consumes the combinator and returns the underlying sink.
    pub fn into_inner(self) -> (r: S)
        ensures
            r == self.sink(),
    {
        self.sink
    }

    /// Is a stream being sent on?
    pub fn has_stream(&self) -> (r: bool)
        ensures
            r == (self.stream() is Some),
    {
        self.stream.is_some()
    }

    /// Takes out the item that the sink behind was not ready for, to try
    /// it again.
    pub fn take_buffer(&mut self) -> (r: Option<Item>)
        ensures
            r == old(self).buffer(),
            final(self).buffer() is None,
            final(self).sink() == old(self).sink(),
            final(self).f() == old(self).f(),
            final(self).stream() == old(self).stream(),
    {
        self.buffer.take()
    }

    /// Takes out the stream that is being sent on, to poll it.
    pub fn take_stream(&mut self) -> (r: Option<St>)
        ensures
            r == old(self).stream(),
            final(self).stream() is None,
            final(self).sink() == old(self).sink(),
            final(self).f() == old(self).f(),
            final(self).buffer() == old(self).buffer(),
    {
        self.stream.take()
    }

    /// Keeps an item that the sink behind was not ready for, and, if the
    /// item came from the stream, the stream with it.
    pub fn stalled(&mut self, stream: Option<St>, item: Item)
        requires
            stream is None ==> old(self).stream() is None,
        ensures
            final(self).buffer() == Some(item),
            final(self).stream() == stream,
            final(self).sink() == old(self).sink(),
            final(self).f() == old(self).f(),
    {
        if let Some(stream) = stream {
            self.stream = Some(stream);
        }
        self.buffer = Some(item);
    }

    /// Hands an item to the function and keeps the stream that comes back.
    /// No stream must be sent on at that time.
    pub fn start(&mut self, i: U) where F: FnMut(U) -> St
        requires
            old(self).stream() is None,
            call_requires(old(self).f(), (i,)),
        ensures
            final(self).stream() matches Some(st) && call_ensures(old(self).f(), (i,), st),
            final(self).sink() == old(self).sink(),
            final(self).buffer() == old(self).buffer(),
    {
        self.stream = Some((self.f)(i));
    }
}

} // verus!
