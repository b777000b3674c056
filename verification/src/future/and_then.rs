//! Two futures in a chain: the second is made from the value of the first.

use vstd::prelude::*;

verus! {

/// Where a chain of two futures stands.
#[derive(Debug)]
pub enum State<Fut1, Fut2, F> {
    /// The first future runs; the function waits for its value.
    First(Fut1, Option<F>),
    /// The second future runs.
    Second(Fut2),
}

/// A future that runs one future and, if that succeeds, a second one that a
/// function makes from its value.
#[must_use]
#[derive(Debug)]
pub struct AndThen<A, B, F> {
    state: State<A, B, F>,
}

/// Chains a future and a function that makes the next future.
pub fn new<A, B, F>(future: A, f: F) -> (r: AndThen<A, B, F>)
    ensures
        r.state() == State::<A, B, F>::First(future, Some(f)),
{
    AndThen { state: State::First(future, Some(f)) }
}

impl<A, B, F> AndThen<A, B, F> {
    /// Where the chain stands.
    pub closed spec fn state(&self) -> State<A, B, F> {
        self.state
    }

    /// The state of the chain, to poll the future that runs.
    pub fn state_mut(&mut self) -> (r: &mut State<A, B, F>)
        ensures
            *r == old(self).state(),
            final(self).state() == *final(r),
    {
        &mut self.state
    }

    /// Starts the second future: the function is called with the value of
    /// the first. The first future must have run until now, and the
    /// function must still be there.
    pub fn start_second<T>(&mut self, value: T) where F: FnOnce(T) -> B
        requires
            old(self).state() matches State::First(_, Some(f)) && call_requires(f, (value,)),
        ensures
            final(self).state() matches State::Second(second) && (
            old(self).state() matches State::First(_, Some(f)) && call_ensures(
                f,
                (value,),
                second,
            )),
    {
        let f = match &mut self.state {
            State::First(_, data) => data.take().unwrap(),
            State::Second(_) => vstd::pervasive::unreached(),
        };
        self.state = State::Second(f(value));
    }

    /// Does the first future run, with the function still there?
    pub fn has_fn(&self) -> (r: bool)
        ensures
            r == (self.state() matches State::First(_, Some(_))),
    {
        match &self.state {
            State::First(_, data) => data.is_some(),
            State::Second(_) => false,
        }
    }

    /// Does the second future run?
    pub fn is_second(&self) -> (r: bool)
        ensures
            r == (self.state() is Second),
    {
        match self.state {
            State::First(_, _) => false,
            State::Second(_) => true,
        }
    }
}

} // verus!
