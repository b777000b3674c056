//! A future that is made by a function on its first poll.

use vstd::prelude::*;

verus! {

/// Where a lazy future stands.
#[derive(Debug)]
pub enum LazyState<F, R> {
    /// The function has not been called yet.
    First(F),
    /// The function has made the future.
    Second(R),
    /// The function is being called.
    Moved,
}

/// A future that calls a function on its first poll and then polls the
/// future that the function has made.
#[must_use]
#[derive(Debug)]
pub struct Lazy<F, R> {
    inner: LazyState<F, R>,
}

/// Creates a future that will call `f` on its first poll.
pub fn lazy<F, R>(f: F) -> (r: Lazy<F, R>)
    ensures
        r.inner() == LazyState::<F, R>::First(f),
{
    Lazy { inner: LazyState::First(f) }
}

impl<F, R> Lazy<F, R> {
    /// Where the future stands.
    pub closed spec fn inner(&self) -> LazyState<F, R> {
        self.inner
    }

    /// Has the function made the future?
    pub fn is_started(&self) -> (r: bool)
        ensures
            r == (self.inner() is Second),
    {
        match self.inner {
            LazyState::Second(_) => true,
            _ => false,
        }
    }

    /// Is the function being called?
    pub fn is_moved(&self) -> (r: bool)
        ensures
            r == (self.inner() is Moved),
    {
        match self.inner {
            LazyState::Moved => true,
            _ => false,
        }
    }

    /// Takes the function out to call it. It must not have been called
    /// before.
    pub fn take_fn(&mut self) -> (f: F)
        requires
            old(self).inner() is First,
        ensures
            old(self).inner() == LazyState::<F, R>::First(f),
            final(self).inner() == LazyState::<F, R>::Moved,
    {
        let mut state = LazyState::Moved;
        std::mem::swap(&mut self.inner, &mut state);
        match state {
            LazyState::First(f) => f,
            _ => vstd::pervasive::unreached(),
        }
    }

    /// Stores the future that the function has made.
    pub fn set_future(&mut self, future: R)
        ensures
            final(self).inner() == LazyState::<F, R>::Second(future),
    {
        self.inner = LazyState::Second(future);
    }

    /// The future that the function has made, to poll it. The function
    /// must have been called.
    pub fn get(&mut self) -> (r: &mut R)
        requires
            old(self).inner() is Second,
        ensures
            old(self).inner() == LazyState::<F, R>::Second(*r),
            final(self).inner() == LazyState::<F, R>::Second(*final(r)),
    {
        match &mut self.inner {
            LazyState::Second(f) => f,
            _ => vstd::pervasive::unreached(),
        }
    }

    /// Calls the function, if it has not been called, and keeps the future
    /// that it makes.
    pub fn start(&mut self) where F: FnOnce() -> R
        requires
            !(old(self).inner() is Moved),
            old(self).inner() matches LazyState::First(f) ==> call_requires(f, ()),
        ensures
            match old(self).inner() {
                LazyState::First(f) => final(self).inner() matches LazyState::Second(fut)
                    && call_ensures(f, (), fut),
                _ => final(self).inner() == old(self).inner(),
            },
    {
        if !self.is_started() {
            let f = self.take_fn();
            self.set_future(f());
        }
    }
}

} // verus!
