//! A stream that is unfolded from a seed by a function that may fail.

use std::task::Poll;
use vstd::prelude::*;

verus! {

/// A stream that a function makes from a seed, item by item, until the
/// function says that it has ended or fails.
#[must_use]
#[derive(Debug)]
pub struct TryUnfold<T, F, Fut> {
    f: F,
    state: Option<T>,
    fut: Option<Fut>,
}

/// Creates a stream from a seed and a function that makes, from a seed, a
/// future of the next item and the next seed, of the end, or of an error.
pub fn try_unfold<T, F, Fut>(init: T, f: F) -> (r: TryUnfold<T, F, Fut>)
    ensures
        r.f() == f,
        r.state() == Some(init),
        r.fut() is None,
{
    TryUnfold { f, state: Some(init), fut: None }
}

/// Creates a stream as `try_unfold` does, from a function that is given as
/// a value of a function type of its own.
pub fn try_unfold_fns<T, F, Fut>(init: T, f: F) -> (r: TryUnfold<T, F, Fut>)
    ensures
        r.f() == f,
        r.state() == Some(init),
        r.fut() is None,
{
    TryUnfold { f, state: Some(init), fut: None }
}

impl<T, F, Fut> TryUnfold<T, F, Fut> {
    /// The function that unfolds.
    pub closed spec fn f(&self) -> F {
        self.f
    }

    /// The seed for the next item, if the function is not at work.
    pub closed spec fn state(&self) -> Option<T> {
        self.state
    }

    /// The future that the function has made, while it is at work.
    pub closed spec fn fut(&self) -> Option<Fut> {
        self.fut
    }

    /// Takes the seed out for the function to work on, if there is one.
    pub fn take_state(&mut self) -> (r: Option<T>)
        ensures
            r == old(self).state(),
            final(self).state() is None,
            final(self).f() == old(self).f(),
            final(self).fut() == old(self).fut(),
    {
        self.state.take()
    }

    /// Stores the future that the function has made from the seed.
    pub fn set_future(&mut self, fut: Fut)
        ensures
            final(self).fut() == Some(fut),
            final(self).f() == old(self).f(),
            final(self).state() == old(self).state(),
    {
        self.fut = Some(fut);
    }

    /// Takes note of a poll of the function's future, and says what the
    /// stream yields. A future that has resolved is dropped; an item comes
    /// with the next seed, which is kept; the end and an error leave no
    /// seed, so that the stream has ended.
    pub fn polled<Item, E>(&mut self, step: Poll<Result<Option<(Item, T)>, E>>) -> (r: Poll<
        Option<Result<Item, E>>,
    >)
        ensures
            final(self).f() == old(self).f(),
            match step {
                Poll::Pending => r is Pending && final(self).fut() == old(self).fut() && final(self).state() == old(self).state(),
                Poll::Ready(Ok(Some((item, next_state)))) => r == Poll::Ready(
                    Some(Ok::<Item, E>(item)),
                ) && final(self).fut() is None && final(self).state() == Some(next_state),
                Poll::Ready(Ok(None)) => r == Poll::<Option<Result<Item, E>>>::Ready(None)
                    && final(self).fut() is None && final(self).state() == old(self).state(),
                Poll::Ready(Err(e)) => r == Poll::Ready(Some(Err::<Item, E>(e))) && final(self).fut() is None && final(self).state() == old(self).state(),
            },
    {
        match step {
            Poll::Pending => Poll::Pending,
            Poll::Ready(step) => {
                self.fut = None;

                match step {
                    Ok(Some((item, next_state))) => {
                        self.state = Some(next_state);
                        Poll::Ready(Some(Ok(item)))
                    },
                    Ok(None) => Poll::Ready(None),
                    Err(e) => Poll::Ready(Some(Err(e))),
                }
            },
        }
    }

    /// Hands the seed to the function and keeps the future that comes
    /// back, if there is a seed.
    pub fn start(&mut self) where F: FnMut(T) -> Fut
        requires
            old(self).state() matches Some(v) ==> call_requires(old(self).f(), (v,)),
        ensures
            final(self).state() is None,
            match old(self).state() {
                Some(v) => final(self).fut() matches Some(fut) && call_ensures(
                    old(self).f(),
                    (v,),
                    fut,
                ),
                None => final(self).fut() == old(self).fut() && final(self).f() == old(self).f(),
            },
    {
        if let Some(state) = self.state.take() {
            self.fut = Some((self.f)(state));
        }
    }

    /// The future that the function has made, to poll it.
    pub fn future_mut(&mut self) -> (r: &mut Option<Fut>)
        ensures
            *r == old(self).fut(),
            final(self).fut() == *final(r),
            final(self).f() == old(self).f(),
            final(self).state() == old(self).state(),
    {
        &mut self.fut
    }
}

} // verus!
