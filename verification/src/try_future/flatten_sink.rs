//! A sink that a future resolves to.

use vstd::prelude::*;

verus! {

/// Where the sink stands.
#[derive(Debug)]
pub enum State<F, S> {
    /// The future that resolves to the sink has not resolved.
    Waiting(F),
    /// The sink is there.
    Ready(S),
    /// The sink has been closed.
    Closed,
}

/// A sink that is first a future of a sink.
#[derive(Debug)]
pub struct FlattenSink<F, S>(State<F, S>);

/// Makes a sink of a future that resolves to a sink.
pub fn new<F, S>(fut: F) -> (r: FlattenSink<F, S>)
    ensures
        r.state() == State::<F, S>::Waiting(fut),
{
    FlattenSink(State::Waiting(fut))
}

impl<F, S> FlattenSink<F, S> {
    /// Where the sink stands.
    pub closed spec fn state(&self) -> State<F, S> {
        self.0
    }

    /// May `poll_ready` be called? Not once the sink has been closed.
    pub fn may_poll_ready(&self) -> (r: bool)
        ensures
            r == !(self.state() is Closed),
    {
        match self.0 {
            State::Closed => false,
            _ => true,
        }
    }

    /// May `start_send` be called? Only while the sink is there.
    pub fn may_start_send(&self) -> (r: bool)
        ensures
            r == (self.state() is Ready),
    {
        match self.0 {
            State::Ready(_) => true,
            _ => false,
        }
    }

    /// Takes note that the future has resolved to a sink.
    pub fn resolved(&mut self, sink: S)
        requires
            old(self).state() is Waiting,
        ensures
            final(self).state() == State::<F, S>::Ready(sink),
    {
        self.0 = State::Ready(sink);
    }

    /// Takes note that a poll to close the sink has given an answer: the
    /// sink is closed from then on.
    pub fn close_polled(&mut self, is_ready: bool)
        ensures
            final(self).state() == (if is_ready {
                State::<F, S>::Closed
            } else {
                old(self).state()
            }),
    {
        if is_ready {
            self.0 = State::Closed;
        }
    }

    /// The state, to poll the future or the sink in it.
    pub fn state_mut(&mut self) -> (r: &mut State<F, S>)
        ensures
            *r == old(self).state(),
            final(self).state() == *final(r),
    {
        &mut self.0
    }
}

} // verus!
