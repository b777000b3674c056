//! A sink whose errors are mapped by a function.

use vstd::prelude::*;

verus! {

/// A sink that hands each error of another sink to a function, which is
/// used up by the first error.
#[must_use]
#[derive(Debug)]
pub struct SinkMapErr<S, F> {
    sink: S,
    f: Option<F>,
}

/// Wraps the parts into a new `SinkMapErr`.
pub fn new<S, F>(s: S, f: F) -> (r: SinkMapErr<S, F>)
    ensures
        r.sink() == s,
        r.f() == Some(f),
{
    SinkMapErr { sink: s, f: Some(f) }
}

impl<S, F> SinkMapErr<S, F> {
    /// The sink whose errors are mapped.
    pub closed spec fn sink(&self) -> S {
        self.sink
    }

    /// The function that maps the errors, until it has been used.
    pub closed spec fn f(&self) -> Option<F> {
        self.f
    }

    /// A shared reference to the underlying sink.
    pub fn get_ref(&self) -> (r: &S)
        ensures
            *r == self.sink(),
    {
        &self.sink
    }

    /// A mutable reference to the underlying sink. What is written through
    /// it is the sink of the combinator from then on; nothing else
    /// changes.
    pub fn get_mut(&mut self) -> (r: &mut S)
        ensures
            *r == old(self).sink(),
            final(self).sink() == *final(r),
            final(self).f() == old(self).f(),
    {
        &mut self.sink
    }

    /// Consumes the combinator and returns the underlying sink.
    pub fn into_inner(self) -> (r: S)
        ensures
            r == self.sink(),
    {
        self.sink
    }

    /// Takes the function out, to map an error with it. The function must
    /// not have been used before.
    pub fn expect_f(&mut self) -> (f: F)
        requires
            old(self).f() is Some,
        ensures
            Some(f) == old(self).f(),
            final(self).f() is None,
            final(self).sink() == old(self).sink(),
    {
        self.f.take().unwrap()
    }

    /// Takes note of what the sink inside has answered, and says what the
    /// sink answers: an error is handed to the function, which is used up
    /// by it. For an error the function must not have been used before.
    pub fn mapped<T, E, U>(&mut self, answer: Result<T, E>) -> (r: Result<T, U>) where
        F: FnOnce(E) -> U,

        requires
            answer matches Err(e) ==> old(self).f() is Some && call_requires(
                old(self).f().unwrap(),
                (e,),
            ),
        ensures
            final(self).sink() == old(self).sink(),
            match answer {
                Ok(v) => r == Ok::<T, U>(v) && final(self).f() == old(self).f(),
                Err(e) => final(self).f() is None && (r matches Err(u) && call_ensures(
                    old(self).f().unwrap(),
                    (e,),
                    u,
                )),
            },
    {
        match answer {
            Ok(v) => Ok(v),
            Err(e) => {
                let f = self.expect_f();
                Err(f(e))
            },
        }
    }

    /// Is the function still there, not used up?
    pub fn has_fn(&self) -> (r: bool)
        ensures
            r == (self.f() is Some),
    {
        self.f.is_some()
    }
}

} // verus!
