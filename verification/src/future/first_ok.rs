//! The first success among several futures.

use std::task::Poll;
use vstd::prelude::*;

verus! {

/// A future that resolves to the first success among its futures, or to an
/// error once all of them have failed.
#[must_use]
#[derive(Debug, Clone)]
pub struct FirstOk<F> {
    futures: Vec<F>,
}

/// What one round of polls has shown so far.
#[derive(Debug)]
pub enum Seen<E> {
    /// No future has failed or is pending.
    NoErrors,
    /// A future has failed, and none is pending.
    SeenError(E),
    /// A future is pending.
    SeenPending,
}

impl<E> Seen<E> {
    /// Notes a failure: it counts unless a future is pending.
    pub fn apply_error(&mut self, err: E)
        ensures
            *final(self) == (match *old(self) {
                Seen::SeenPending => Seen::SeenPending,
                _ => Seen::SeenError(err),
            }),
    {
        match self {
            Seen::SeenError(_) | Seen::NoErrors => *self = Seen::SeenError(err),
            Seen::SeenPending => {},
        }
    }

    /// Notes a pending future: failures no longer count.
    pub fn apply_pending(&mut self)
        ensures
            *final(self) == Seen::<E>::SeenPending,
    {
        *self = Seen::SeenPending;
    }
}

/// What a round of polls shows, when none of them is a success.
pub open spec fn seen<T, E>(polls: Seq<Poll<Result<T, E>>>) -> Seen<E>
    decreases polls.len(),
{
    if polls.len() == 0 {
        Seen::NoErrors
    } else {
        match polls.last() {
            Poll::Pending => Seen::SeenPending,
            Poll::Ready(Err(e)) => match seen(polls.drop_last()) {
                Seen::SeenPending => Seen::SeenPending,
                _ => Seen::SeenError(e),
            },
            Poll::Ready(Ok(_)) => seen(polls.drop_last()),
        }
    }
}

/// Is the answer a success?
pub open spec fn is_success<T, E>(poll: Poll<Result<T, E>>) -> bool {
    poll matches Poll::Ready(Ok(_))
}

/// The place of the first success in a round of polls, or the number of
/// polls if there is none.
pub open spec fn first_success<T, E>(polls: Seq<Poll<Result<T, E>>>) -> int
    decreases polls.len(),
{
    if polls.len() == 0 {
        0
    } else if is_success(polls[0]) {
        0
    } else {
        1 + first_success(polls.drop_first())
    }
}

/// What the combined future answers to a round of polls, one from each
/// future that has not ended, in order: the first success if there is one;
/// else pending if one is pending; else the last failure; and pending if
/// there was nothing to poll.
pub open spec fn outcome<T, E>(polls: Seq<Poll<Result<T, E>>>) -> Poll<Result<T, E>> {
    if first_success(polls) < polls.len() {
        polls[first_success(polls)]
    } else {
        match seen(polls) {
            Seen::SeenError(e) => Poll::Ready(Err(e)),
            _ => Poll::Pending,
        }
    }
}

/// The first success stands at a place in the round, or there is none and
/// no poll before that place is a success.
pub proof fn lemma_first_success<T, E>(polls: Seq<Poll<Result<T, E>>>)
    ensures
        0 <= first_success(polls) <= polls.len(),
        first_success(polls) < polls.len() ==> is_success(polls[first_success(polls)]),
        forall|i: int|
            0 <= i < first_success(polls) ==> !is_success(#[trigger] polls[i]),
    decreases polls.len(),
{
    if polls.len() > 0 && !(is_success(polls[0])) {
        lemma_first_success(polls.drop_first());
        assert forall|i: int| 0 <= i < first_success(polls) implies !is_success(#[trigger] polls[i]) by {
            if i > 0 {
                assert(polls.drop_first()[i - 1] == polls[i]);
            }
        }
    }
}

impl<F> FirstOk<F> {
    /// The futures, in the order in which they are polled.
    pub closed spec fn futures(&self) -> Seq<F> {
        self.futures@
    }

    /// The futures, to poll them.
    pub fn futures_mut(&mut self) -> (r: &mut Vec<F>)
        ensures
            r@ == old(self).futures(),
            final(self).futures() == final(r)@,
    {
        &mut self.futures
    }

    /// The number of futures.
    pub fn len(&self) -> (n: usize)
        ensures
            n == self.futures().len(),
    {
        self.futures.len()
    }

    /// Combines the answers of one round of polls into the answer of the
    /// combined future.
    pub fn resolve<T, E>(polls: Vec<Poll<Result<T, E>>>) -> (r: Poll<Result<T, E>>)
        ensures
            r == outcome(polls@),
    {
        let mut state: Seen<E> = Seen::NoErrors;
        let ghost all = polls@;
        let mut left = polls;
        let mut rest: Vec<Poll<Result<T, E>>> = Vec::new();
        // The polls are taken from the back, so turn them round first.
        while left.len() > 0
            invariant
                left@.len() + rest@.len() == all.len(),
                forall|i: int| 0 <= i < left@.len() ==> left@[i] == all[i],
                forall|i: int| 0 <= i < rest@.len() ==> rest@[i] == all[all.len() - 1 - i],
            decreases left.len(),
        {
            let poll = left.pop().unwrap();
            rest.push(poll);
        }
        let ghost mut done: int = 0;
        proof {
            lemma_first_success(all);
            assert(all.take(0) =~= Seq::<Poll<Result<T, E>>>::empty());
        }
        while rest.len() > 0
            invariant
                all == polls@,
                0 <= done <= all.len(),
                rest@.len() + done == all.len(),
                forall|i: int| 0 <= i < rest@.len() ==> rest@[i] == all[all.len() - 1 - i],
                done <= first_success(all),
                state == seen(all.take(done)),
            decreases rest.len(),
        {
            let poll = rest.pop().unwrap();
            proof {
                lemma_first_success(all);
                assert(poll == all[done]);
                assert(all.take(done + 1).drop_last() =~= all.take(done));
                assert(all.take(done + 1).last() == all[done]);
            }
            match poll {
                Poll::Ready(Ok(out)) => {
                    assert(is_success(all[done]));
                    assert(first_success(all) == done);
                    assert(polls@ == all);
                    return Poll::Ready(Ok(out));
                },
                Poll::Ready(Err(err)) => state.apply_error(err),
                Poll::Pending => state.apply_pending(),
            }
            proof {
                done = done + 1;
            }
        }
        proof {
            lemma_first_success(all);
            assert(all.take(done) =~= all);
        }
        match state {
            Seen::SeenError(err) => Poll::Ready(Err(err)),
            Seen::SeenPending | Seen::NoErrors => Poll::Pending,
        }
    }
}

/// Creates a future that resolves to the first success among the given
/// futures. There must be at least one.
pub fn first_ok_fused<F>(futures: Vec<F>) -> (r: FirstOk<F>)
    requires
        futures@.len() > 0,
    ensures
        r.futures() == futures@,
{
    FirstOk { futures }
}

} // verus!
