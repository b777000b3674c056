//! Two futures that run side by side.

use std::task::Poll;
use vstd::prelude::*;

verus! {

/// A future that is run until it has resolved, and its value until it is
/// taken.
#[derive(Debug)]
pub enum MaybeDone<A, T> {
    /// The future has not resolved.
    NotYet(A),
    /// The future has resolved to this value.
    Done(T),
    /// The value has been taken.
    Gone,
}

impl<A, T> MaybeDone<A, T> {
    /// Has the future resolved, with its value still here?
    pub fn is_done(&self) -> (r: bool)
        ensures
            r == (*self is Done),
    {
        match self {
            MaybeDone::Done(_) => true,
            _ => false,
        }
    }

    /// Has the value been taken?
    pub fn is_gone(&self) -> (r: bool)
        ensures
            r == (*self is Gone),
    {
        match self {
            MaybeDone::Gone => true,
            _ => false,
        }
    }

    /// The future, if it has not resolved, to poll it.
    pub fn future_mut(&mut self) -> (r: Option<&mut A>)
        ensures
            match *old(self) {
                MaybeDone::NotYet(a) => r matches Some(fut) && *fut == a && *final(self)
                    == MaybeDone::<A, T>::NotYet(*final(fut)),
                _ => r is None && *final(self) == *old(self),
            },
    {
        match self {
            MaybeDone::NotYet(a) => Some(a),
            _ => None,
        }
    }

    /// Takes note of a poll of the future, which must not have resolved
    /// before: a value is kept. It says whether the future has resolved,
    /// or passes the error on.
    pub fn polled<E>(&mut self, polled: Result<Poll<T>, E>) -> (r: Result<bool, E>)
        requires
            *old(self) is NotYet,
        ensures
            match polled {
                Ok(Poll::Ready(res)) => r == Ok::<bool, E>(true) && *final(self) == MaybeDone::<
                    A,
                    T,
                >::Done(res),
                Ok(Poll::Pending) => r == Ok::<bool, E>(false) && *final(self) == *old(self),
                Err(e) => r == Err::<bool, E>(e) && *final(self) == *old(self),
            },
    {
        match polled {
            Ok(Poll::Ready(res)) => {
                *self = MaybeDone::Done(res);
                Ok(true)
            },
            Ok(Poll::Pending) => Ok(false),
            Err(e) => Err(e),
        }
    }

    /// Takes the value out. The future must have resolved, and the value
    /// must not have been taken before.
    pub fn take(&mut self) -> (t: T)
        requires
            *old(self) is Done,
        ensures
            *old(self) == MaybeDone::<A, T>::Done(t),
            *final(self) == MaybeDone::<A, T>::Gone,
    {
        let mut this = MaybeDone::Gone;
        std::mem::swap(self, &mut this);
        match this {
            MaybeDone::Done(a) => a,
            _ => vstd::pervasive::unreached(),
        }
    }
}

/// A future that runs two futures and resolves to both values, or to the
/// first error.
#[must_use]
#[derive(Debug)]
pub struct Join<A, B, TA, TB> {
    a: MaybeDone<A, TA>,
    b: MaybeDone<B, TB>,
}

/// Joins two futures.
pub fn new<A, B, TA, TB>(a: A, b: B) -> (r: Join<A, B, TA, TB>)
    ensures
        r.first() == MaybeDone::<A, TA>::NotYet(a),
        r.second() == MaybeDone::<B, TB>::NotYet(b),
{
    Join { a: MaybeDone::NotYet(a), b: MaybeDone::NotYet(b) }
}

impl<A, B, TA, TB> Join<A, B, TA, TB> {
    /// Where the first future stands.
    pub closed spec fn first(&self) -> MaybeDone<A, TA> {
        self.a
    }

    /// Where the second future stands.
    pub closed spec fn second(&self) -> MaybeDone<B, TB> {
        self.b
    }

    /// The first future, to poll it and take note of the answer.
    pub fn first_mut(&mut self) -> (r: &mut MaybeDone<A, TA>)
        ensures
            *r == old(self).first(),
            final(self).first() == *final(r),
            final(self).second() == old(self).second(),
    {
        &mut self.a
    }

    /// The second future, to poll it and take note of the answer.
    pub fn second_mut(&mut self) -> (r: &mut MaybeDone<B, TB>)
        ensures
            *r == old(self).second(),
            final(self).second() == *final(r),
            final(self).first() == old(self).first(),
    {
        &mut self.b
    }

    /// Drops both futures and their values, after an error.
    pub fn erase(&mut self)
        ensures
            final(self).first() == MaybeDone::<A, TA>::Gone,
            final(self).second() == MaybeDone::<B, TB>::Gone,
    {
        self.a = MaybeDone::Gone;
        self.b = MaybeDone::Gone;
    }

    /// What the joined future answers after both futures have been looked
    /// at: both values once both have resolved, and pending before.
    pub fn joined(&mut self) -> (r: Poll<(TA, TB)>)
        requires
            !(old(self).first() is Gone),
            !(old(self).second() is Gone),
        ensures
            match (old(self).first(), old(self).second()) {
                (MaybeDone::Done(a), MaybeDone::Done(b)) => r == Poll::Ready((a, b)) && final(self).first() is Gone && final(self).second() is Gone,
                _ => r is Pending && final(self).first() == old(self).first() && final(self).second() == old(self).second(),
            },
    {
        let all_done = self.a.is_done() && self.b.is_done();
        if all_done {
            Poll::Ready((self.a.take(), self.b.take()))
        } else {
            Poll::Pending
        }
    }
}

} // verus!
