//! A stream that is unfolded from a seed by a function.

use std::task::Poll;
use vstd::prelude::*;

verus! {

/// Where an unfolded stream stands.
#[derive(Debug)]
pub enum State<T, R> {
    /// The seed for the next item.
    Value(T),
    /// The function works on the seed.
    Future(R),
    /// The stream has ended.
    Empty,
}

impl<T, R> State<T, R> {
    /// Takes the seed out, if there is one, and leaves the state empty.
    pub fn take_value(&mut self) -> (r: Option<T>)
        ensures
            match *old(self) {
                State::Value(v) => r == Some(v) && *final(self) == State::<T, R>::Empty,
                _ => r is None && *final(self) == *old(self),
            },
    {
        match self {
            State::Value(_) => {
                let mut state = State::Empty;
                std::mem::swap(self, &mut state);
                match state {
                    State::Value(v) => Some(v),
                    _ => vstd::pervasive::unreached(),
                }
            },
            _ => None,
        }
    }

    /// The future, if the function is at work, to poll it.
    pub fn project_future(&mut self) -> (r: Option<&mut R>)
        ensures
            match *old(self) {
                State::Future(f) => r matches Some(fut) && *fut == f && *final(self) == State::<
                    T,
                    R,
                >::Future(*final(fut)),
                _ => r is None && *final(self) == *old(self),
            },
    {
        match self {
            State::Future(f) => Some(f),
            _ => None,
        }
    }
}

/// A stream that a function makes from a seed, item by item.
#[must_use]
#[derive(Debug)]
pub struct Unfold<T, F, Fut> {
    f: F,
    state: State<T, Fut>,
}

/// Creates a stream from a seed and a function that makes, from a seed, a
/// future of the next item and the next seed, or of the end.
pub fn unfold<T, F, Fut>(init: T, f: F) -> (r: Unfold<T, F, Fut>)
    ensures
        r.f() == f,
        r.state() == State::<T, Fut>::Value(init),
{
    Unfold { f, state: State::Value(init) }
}

impl<T, F, Fut> Unfold<T, F, Fut> {
    /// The function that unfolds.
    pub closed spec fn f(&self) -> F {
        self.f
    }

    /// Where the stream stands.
    pub closed spec fn state(&self) -> State<T, Fut> {
        self.state
    }

    /// Has the stream ended?
    pub fn is_terminated(&self) -> (r: bool)
        ensures
            r == (self.state() is Empty),
    {
        if let State::Empty = self.state {
            true
        } else {
            false
        }
    }

    /// Takes the seed out for the function to work on, if there is one.
    pub fn take_value(&mut self) -> (r: Option<T>)
        ensures
            final(self).f() == old(self).f(),
            match old(self).state() {
                State::Value(v) => r == Some(v) && final(self).state() == State::<
                    T,
                    Fut,
                >::Empty,
                _ => r is None && final(self).state() == old(self).state(),
            },
    {
        self.state.take_value()
    }

    /// Stores the future that the function has made from the seed.
    pub fn set_future(&mut self, fut: Fut)
        ensures
            final(self).f() == old(self).f(),
            final(self).state() == State::<T, Fut>::Future(fut),
    {
        self.state = State::Future(fut);
    }

    /// Takes note of what the function's future has resolved to, and says
    /// what the stream yields: an item, with the next seed kept, or the
    /// end.
    pub fn resolved<Item>(&mut self, step: Option<(Item, T)>) -> (r: Poll<Option<Item>>)
        ensures
            final(self).f() == old(self).f(),
            match step {
                Some((item, next_state)) => r == Poll::Ready(Some(item)) && final(self).state()
                    == State::<T, Fut>::Value(next_state),
                None => r == Poll::<Option<Item>>::Ready(None) && final(self).state() == State::<
                    T,
                    Fut,
                >::Empty,
            },
    {
        if let Some((item, next_state)) = step {
            self.state = State::Value(next_state);
            Poll::Ready(Some(item))
        } else {
            self.state = State::Empty;
            Poll::Ready(None)
        }
    }

    /// Hands the seed to the function and keeps the future that comes
    /// back, if there is a seed: the function is then at work.
    pub fn start(&mut self) where F: FnMut(T) -> Fut
        requires
            old(self).state() matches State::Value(v) ==> call_requires(old(self).f(), (v,)),
        ensures
            match old(self).state() {
                State::Value(v) => final(self).state() matches State::Future(fut)
                    && call_ensures(old(self).f(), (v,), fut),
                _ => final(self).state() == old(self).state() && final(self).f() == old(self).f(),
            },
    {
        if let Some(state) = self.state.take_value() {
            self.state = State::Future((self.f)(state));
        }
    }

    /// The future that the function has made, if it is at work, to poll
    /// it.
    pub fn future_mut(&mut self) -> (r: Option<&mut Fut>)
        ensures
            final(self).f() == old(self).f(),
            match old(self).state() {
                State::Future(f) => r matches Some(fut) && *fut == f && final(self).state()
                    == State::<T, Fut>::Future(*final(fut)),
                _ => r is None && final(self).state() == old(self).state(),
            },
    {
        self.state.project_future()
    }
}

} // verus!
