//! A stream that skips items while a predicate resolves to `true`.

use std::task::Poll;
use vstd::prelude::*;

verus! {

/// A stream that asks a predicate about each item of another stream, drops
/// the items until the answer is `false` for the first time, and yields
/// the rest.
#[must_use]
#[derive(Debug)]
pub struct SkipWhile<S, P, R, T> {
    stream: S,
    pred: P,
    pending: Option<(R, T)>,
    done_skipping: bool,
}

/// Wraps the parts into a new `SkipWhile`.
pub fn new<S, P, R, T>(s: S, p: P) -> (r: SkipWhile<S, P, R, T>)
    ensures
        r.stream() == s,
        r.pred() == p,
        r.pending() == None::<(R, T)>,
        r.done_skipping() == false,
{
    SkipWhile { stream: s, pred: p, pending: None, done_skipping: false }
}

impl<S, P, R, T> SkipWhile<S, P, R, T> {
    /// The stream whose first items are skipped.
    pub closed spec fn stream(&self) -> S {
        self.stream
    }

    /// The predicate.
    pub closed spec fn pred(&self) -> P {
        self.pred
    }

    /// The item that is being asked about, with the future of the answer.
    pub closed spec fn pending(&self) -> Option<(R, T)> {
        self.pending
    }

    /// Whether the predicate has answered `false` once.
    pub closed spec fn done_skipping(&self) -> bool {
        self.done_skipping
    }

    /// A shared reference to the underlying stream.
    pub fn get_ref(&self) -> (r: &S)
        ensures
            *r == self.stream(),
    {
        &self.stream
    }

    /// A mutable reference to the underlying stream. What is written through
    /// it is the stream of the combinator from then on; nothing else
    /// changes.
    pub fn get_mut(&mut self) -> (r: &mut S)
        ensures
            *r == old(self).stream(),
            final(self).stream() == *final(r),
            final(self).pred() == old(self).pred(),
            final(self).pending() == old(self).pending(),
            final(self).done_skipping() == old(self).done_skipping(),
    {
        &mut self.stream
    }

    /// Consumes the combinator and returns the underlying stream.
    pub fn into_inner(self) -> (r: S)
        ensures
            r == self.stream(),
    {
        self.stream
    }

    /// Has the predicate answered `false` once? The stream inside is then
    /// polled directly.
    pub fn is_done_skipping(&self) -> (r: bool)
        ensures
            r == self.done_skipping(),
    {
        self.done_skipping
    }

    /// Is an item being asked about?
    pub fn has_pending(&self) -> (r: bool)
        ensures
            r == (self.pending() is Some),
    {
        self.pending.is_some()
    }

    /// Asks the predicate about an item and keeps the item with the future
    /// of the answer. No item must be asked about already.
    pub fn ask(&mut self, item: T) where P: FnMut(&T) -> R
        requires
            old(self).pending() is None,
            call_requires(old(self).pred(), (&item,)),
        ensures
            final(self).stream() == old(self).stream(),
            final(self).done_skipping() == old(self).done_skipping(),
            final(self).pending() matches Some((fut, kept)) && kept == item && call_ensures(
                old(self).pred(),
                (&item,),
                fut,
            ),
    {
        let fut = (self.pred)(&item);
        self.pending = Some((fut, item));
    }

    /// The item that is asked about, with the future of the answer, to
    /// poll the future.
    pub fn pending_mut(&mut self) -> (r: &mut Option<(R, T)>)
        ensures
            *r == old(self).pending(),
            final(self).pending() == *final(r),
            final(self).stream() == old(self).stream(),
            final(self).pred() == old(self).pred(),
            final(self).done_skipping() == old(self).done_skipping(),
    {
        &mut self.pending
    }

    /// Takes note of a poll of the predicate's future, and says what the
    /// stream yields: the item if the answer is `false`, after which
    /// nothing is skipped any more; an error if there is one; and pending
    /// while there is no answer. With the answer `true` the item is
    /// dropped and the next item is to be asked about: the stream says
    /// nothing yet. An item must be asked about.
    pub fn answered<E>(&mut self, polled: Result<Poll<bool>, E>) -> (r: Option<
        Result<Poll<Option<T>>, E>,
    >)
        requires
            old(self).pending() is Some,
        ensures
            final(self).stream() == old(self).stream(),
            final(self).pred() == old(self).pred(),
            final(self).pending() == (if polled matches Ok(Poll::Pending) {
                old(self).pending()
            } else {
                None
            }),
            final(self).done_skipping() == (old(self).done_skipping() || polled matches Ok(
                Poll::Ready(false),
            )),
            r == (match polled {
                Ok(Poll::Ready(true)) => None,
                Ok(Poll::Ready(false)) => Some(
                    Ok::<Poll<Option<T>>, E>(Poll::Ready(Some(old(self).pending().unwrap().1))),
                ),
                Ok(Poll::Pending) => Some(Ok::<Poll<Option<T>>, E>(Poll::Pending)),
                Err(e) => Some(Err::<Poll<Option<T>>, E>(e)),
            }),
    {
        match polled {
            Ok(Poll::Ready(true)) => {
                self.pending = None;
                None
            },
            Ok(Poll::Ready(false)) => {
                let (_, item) = self.pending.take().unwrap();
                self.done_skipping = true;
                Some(Ok(Poll::Ready(Some(item))))
            },
            Ok(Poll::Pending) => Some(Ok(Poll::Pending)),
            Err(e) => {
                self.pending = None;
                Some(Err(e))
            },
        }
    }
}

} // verus!
