//! The items of a stream, folded into one value.

use std::task::Poll;
use vstd::prelude::*;

verus! {

/// Where a fold stands.
#[derive(Debug)]
pub enum State<T, Fut> {
    /// The fold has given its value away.
    Empty,
    /// The value so far; the next item is awaited.
    Ready(T),
    /// The function works on the value and an item.
    Processing(Fut),
}

/// A future that hands a value and each item of a stream to a function and
/// resolves to the last value.
#[must_use]
#[derive(Debug)]
pub struct Fold<S, F, Fut, T> {
    stream: S,
    f: F,
    state: State<T, Fut>,
}

/// Starts a fold of a stream with a first value.
pub fn new<S, F, Fut, T>(s: S, f: F, t: T) -> (r: Fold<S, F, Fut, T>)
    ensures
        r.stream() == s,
        r.f() == f,
        r.state() == State::<T, Fut>::Ready(t),
{
    Fold { stream: s, f, state: State::Ready(t) }
}

impl<S, F, Fut, T> Fold<S, F, Fut, T> {
    /// The stream that is folded.
    pub closed spec fn stream(&self) -> S {
        self.stream
    }

    /// The function that folds.
    pub closed spec fn f(&self) -> F {
        self.f
    }

    /// Where the fold stands.
    pub closed spec fn state(&self) -> State<T, Fut> {
        self.state
    }

    /// Takes the state out to work on it, and leaves the fold empty.
    pub fn take_state(&mut self) -> (state: State<T, Fut>)
        ensures
            state == old(self).state(),
            final(self).state() == State::<T, Fut>::Empty,
            final(self).stream() == old(self).stream(),
            final(self).f() == old(self).f(),
    {
        let mut state = State::Empty;
        std::mem::swap(&mut self.state, &mut state);
        state
    }

    /// Takes note of a poll of the function's future, which had been taken
    /// out of the fold: a value is kept for the next item, and a pending
    /// future is put back.
    pub fn processed(&mut self, fut: Fut, polled: Poll<T>) -> (r: Poll<()>)
        ensures
            final(self).stream() == old(self).stream(),
            final(self).f() == old(self).f(),
            match polled {
                Poll::Ready(state) => r is Ready && final(self).state() == State::<
                    T,
                    Fut,
                >::Ready(state),
                Poll::Pending => r is Pending && final(self).state() == State::<
                    T,
                    Fut,
                >::Processing(fut),
            },
    {
        match polled {
            Poll::Ready(state) => {
                self.state = State::Ready(state);
                Poll::Ready(())
            },
            Poll::Pending => {
                self.state = State::Processing(fut);
                Poll::Pending
            },
        }
    }

    /// Takes note of a poll of the stream while the value waits for the
    /// next item; `state` is the value, which had been taken out of the
    /// fold. An item is handed to the function with the value, and the
    /// future that comes back is kept; the end of the stream hands the
    /// value out; a pending stream puts the value back.
    pub fn stream_polled<Item>(&mut self, state: T, polled: Poll<Option<Item>>) -> (r: Option<
        Poll<T>,
    >) where F: FnMut(T, Item) -> Fut
        requires
            old(self).state() is Empty,
            polled matches Poll::Ready(Some(e)) ==> call_requires(old(self).f(), (state, e)),
        ensures
            final(self).stream() == old(self).stream(),
            match polled {
                Poll::Ready(Some(e)) => r is None && (final(self).state() matches State::Processing(
                    fut,
                ) && call_ensures(old(self).f(), (state, e), fut)),
                Poll::Ready(None) => r == Some(Poll::Ready(state)) && final(self).state()
                    == old(self).state(),
                Poll::Pending => r == Some(Poll::<T>::Pending) && final(self).state() == State::<
                    T,
                    Fut,
                >::Ready(state),
            },
    {
        match polled {
            Poll::Ready(Some(e)) => {
                let future = (self.f)(state, e);
                self.state = State::Processing(future);
                None
            },
            Poll::Ready(None) => Some(Poll::Ready(state)),
            Poll::Pending => {
                self.state = State::Ready(state);
                Some(Poll::Pending)
            },
        }
    }

    /// The stream, to poll it.
    pub fn stream_mut(&mut self) -> (r: &mut S)
        ensures
            *r == old(self).stream(),
            final(self).stream() == *final(r),
            final(self).f() == old(self).f(),
            final(self).state() == old(self).state(),
    {
        &mut self.stream
    }
}

} // verus!
