//! A stream that ends when a future resolves.

use std::task::Poll;
use vstd::prelude::*;

verus! {

/// A stream that yields the items of another stream until a future
/// resolves.
#[must_use]
#[derive(Debug)]
pub struct TakeUntil<St, Fut, Out> {
    stream: St,
    // Contains the inner future on start and None once the inner future is
    // resolved or taken out by the user.
    fut: Option<Fut>,
    // Contains fut's return value once fut is resolved.
    fut_result: Option<Out>,
    // Whether the future was taken out by the user.
    free: bool,
}

impl<St, Fut, Out> TakeUntil<St, Fut, Out> {
    /// The stream whose items are yielded.
    pub closed spec fn stream(&self) -> St {
        self.stream
    }

    /// The future that ends the stream, until it has resolved or has been
    /// taken out.
    pub closed spec fn fut(&self) -> Option<Fut> {
        self.fut
    }

    /// What the future has resolved to, until it is taken out.
    pub closed spec fn fut_result(&self) -> Option<Out> {
        self.fut_result
    }

    /// Whether the future has been taken out.
    pub closed spec fn free(&self) -> bool {
        self.free
    }

    /// Has the stream been stopped?
    pub open spec fn stopped(&self) -> bool {
        !self.free() && self.fut() is None
    }

    /// A stream that yields the items of `stream` until `fut` resolves.
    pub fn new(stream: St, fut: Fut) -> (r: TakeUntil<St, Fut, Out>)
        ensures
            r.stream() == stream,
            r.fut() == Some(fut),
            r.fut_result() is None,
            !r.free(),
    {
        TakeUntil { stream, fut: Some(fut), fut_result: None, free: false }
    }

    /// A shared reference to the underlying stream.
    pub fn get_ref(&self) -> (r: &St)
        ensures
            *r == self.stream(),
    {
        &self.stream
    }

    /// A mutable reference to the underlying stream. What is written
    /// through it is the stream of the combinator from then on; nothing
    /// else changes.
    pub fn get_mut(&mut self) -> (r: &mut St)
        ensures
            *r == old(self).stream(),
            final(self).stream() == *final(r),
            final(self).fut() == old(self).fut(),
            final(self).fut_result() == old(self).fut_result(),
            final(self).free() == old(self).free(),
    {
        &mut self.stream
    }

    /// Consumes the combinator and returns the stream and, if it has not
    /// resolved, the future.
    pub fn into_inner(self) -> (r: (St, Option<Fut>))
        ensures
            r.0 == self.stream(),
            r.1 == self.fut(),
    {
        (self.stream, self.fut)
    }

    /// Takes the future out, if it has not resolved. The stream is then no
    /// longer stopped by it, and can go on even after it had been stopped.
    pub fn take_future(&mut self) -> (r: Option<Fut>)
        ensures
            r == old(self).fut(),
            final(self).fut() is None,
            final(self).free() == (old(self).free() || old(self).fut() is Some),
            final(self).stream() == old(self).stream(),
            final(self).fut_result() == old(self).fut_result(),
    {
        if self.fut.is_some() {
            self.free = true;
        }
        self.fut.take()
    }

    /// Takes out what the future has resolved to, once.
    pub fn take_result(&mut self) -> (r: Option<Out>)
        ensures
            r == old(self).fut_result(),
            final(self).fut_result() is None,
            final(self).stream() == old(self).stream(),
            final(self).fut() == old(self).fut(),
            final(self).free() == old(self).free(),
    {
        self.fut_result.take()
    }

    /// Has the stream been stopped? It has when the future has resolved,
    /// or when the stream has ended, unless the future has been taken out.
    pub fn is_stopped(&self) -> (r: bool)
        ensures
            r == self.stopped(),
    {
        !self.free && self.fut.is_none()
    }

    /// Takes note of a poll of the future: what it has resolved to is kept,
    /// and the future is dropped.
    pub fn future_polled(&mut self, polled: Poll<Out>)
        requires
            old(self).fut() is Some,
        ensures
            final(self).stream() == old(self).stream(),
            final(self).free() == old(self).free(),
            match polled {
                Poll::Ready(result) => final(self).fut() is None && final(self).fut_result()
                    == Some(result),
                Poll::Pending => final(self).fut() == old(self).fut() && final(self).fut_result() == old(self).fut_result(),
            },
    {
        if let Poll::Ready(result) = polled {
            self.fut = None;
            self.fut_result = Some(result);
        }
    }

    /// Takes note of a poll of the stream, and passes the answer on: when
    /// the stream has ended, the future is dropped.
    pub fn stream_polled<T>(&mut self, polled: Poll<Option<T>>) -> (r: Poll<Option<T>>)
        ensures
            r == polled,
            final(self).stream() == old(self).stream(),
            final(self).free() == old(self).free(),
            final(self).fut_result() == old(self).fut_result(),
            final(self).fut() == (if polled == Poll::<Option<T>>::Ready(None) {
                None
            } else {
                old(self).fut()
            }),
    {
        match polled {
            Poll::Pending => Poll::Pending,
            Poll::Ready(item) => {
                if item.is_none() {
                    self.fut = None;
                }
                Poll::Ready(item)
            },
        }
    }

    /// The bounds on the number of items still to come, given those of the
    /// underlying stream: none once the stream has been stopped.
    pub fn size_hint(&self, inner: (usize, Option<usize>)) -> (r: (usize, Option<usize>))
        ensures
            r == (if self.stopped() {
                (0usize, Some(0usize))
            } else {
                inner
            }),
    {
        if self.is_stopped() {
            return (0, Some(0));
        }
        inner
    }

    /// The future that ends the stream, if it has not resolved, to poll it.
    pub fn future_mut(&mut self) -> (r: &mut Option<Fut>)
        ensures
            *r == old(self).fut(),
            final(self).fut() == *final(r),
            final(self).stream() == old(self).stream(),
            final(self).fut_result() == old(self).fut_result(),
            final(self).free() == old(self).free(),
    {
        &mut self.fut
    }
}

} // verus!
