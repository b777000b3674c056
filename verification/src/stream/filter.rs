//! A stream that keeps the items for which a predicate resolves to `true`.

use std::task::Poll;
use vstd::prelude::*;

verus! {

/// A stream that asks a predicate about each item of another stream and
/// yields those for which the answer is `true`.
#[must_use]
#[derive(Debug)]
pub struct Filter<S, P, R, T> {
    stream: S,
    pred: P,
    pending: Option<(R, T)>,
}

/// Wraps the parts into a new `Filter`.
pub fn new<S, P, R, T>(s: S, pred: P) -> (r: Filter<S, P, R, T>)
    ensures
        r.stream() == s,
        r.pred() == pred,
        r.pending() == None::<(R, T)>,
{
    Filter { stream: s, pred, pending: None }
}

impl<S, P, R, T> Filter<S, P, R, T> {
    /// The stream whose items are filtered.
    pub closed spec fn stream(&self) -> S {
        self.stream
    }

    /// The predicate.
    pub closed spec fn pred(&self) -> P {
        self.pred
    }

    /// The item that is being asked about, with the future of the answer.
    pub closed spec fn pending(&self) -> Option<(R, T)> {
        self.pending
    }

    /// A shared reference to the underlying stream.
    pub fn get_ref(&self) -> (r: &S)
        ensures
            *r == self.stream(),
    {
        &self.stream
    }

    /// A mutable reference to the underlying stream. What is written through
    /// it is the stream of the combinator from then on; nothing else
    /// changes.
    pub fn get_mut(&mut self) -> (r: &mut S)
        ensures
            *r == old(self).stream(),
            final(self).stream() == *final(r),
            final(self).pred() == old(self).pred(),
            final(self).pending() == old(self).pending(),
    {
        &mut self.stream
    }

    /// Consumes the combinator and returns the underlying stream.
    pub fn into_inner(self) -> (r: S)
        ensures
            r == self.stream(),
    {
        self.stream
    }

    /// Is an item being asked about?
    pub fn has_pending(&self) -> (r: bool)
        ensures
            r == (self.pending() is Some),
    {
        self.pending.is_some()
    }

    /// Asks the predicate about an item and keeps the item with the future
    /// of the answer. No item must be asked about already.
    pub fn ask(&mut self, item: T) where P: FnMut(&T) -> R
        requires
            old(self).pending() is None,
            call_requires(old(self).pred(), (&item,)),
        ensures
            final(self).stream() == old(self).stream(),
            final(self).pending() matches Some((fut, kept)) && kept == item && call_ensures(
                old(self).pred(),
                (&item,),
                fut,
            ),
    {
        let fut = (self.pred)(&item);
        self.pending = Some((fut, item));
    }

    /// The item that is asked about, with the future of the answer, to
    /// poll the future.
    pub fn pending_mut(&mut self) -> (r: &mut Option<(R, T)>)
        ensures
            *r == old(self).pending(),
            final(self).pending() == *final(r),
            final(self).stream() == old(self).stream(),
            final(self).pred() == old(self).pred(),
    {
        &mut self.pending
    }

    /// Takes note of a poll of the predicate's future, and says what the
    /// stream yields: the item if the answer is `true`, an error if there
    /// is one, and pending while there is no answer. With the answer
    /// `false` the item is dropped and the next item is to be asked about:
    /// the stream says nothing yet. An item must be asked about.
    pub fn answered<E>(&mut self, polled: Result<Poll<bool>, E>) -> (r: Option<
        Result<Poll<Option<T>>, E>,
    >)
        requires
            old(self).pending() is Some,
        ensures
            final(self).stream() == old(self).stream(),
            final(self).pred() == old(self).pred(),
            final(self).pending() == (if polled matches Ok(Poll::Pending) {
                old(self).pending()
            } else {
                None
            }),
            r == (match polled {
                Ok(Poll::Ready(true)) => Some(
                    Ok::<Poll<Option<T>>, E>(Poll::Ready(Some(old(self).pending().unwrap().1))),
                ),
                Ok(Poll::Ready(false)) => None,
                Ok(Poll::Pending) => Some(Ok::<Poll<Option<T>>, E>(Poll::Pending)),
                Err(e) => Some(Err::<Poll<Option<T>>, E>(e)),
            }),
    {
        match polled {
            Ok(Poll::Ready(true)) => {
                let (_, item) = self.pending.take().unwrap();
                Some(Ok(Poll::Ready(Some(item))))
            },
            Ok(Poll::Ready(false)) => {
                self.pending = None;
                None
            },
            Ok(Poll::Pending) => Some(Ok(Poll::Pending)),
            Err(e) => {
                self.pending = None;
                Some(Err(e))
            },
        }
    }
}

} // verus!
