//! A lock between exactly two owners, kept in one counter.

use crate::waker::clone_task;
use crate::waker::wake_task;
use std::task::Waker;
use vstd::prelude::*;

verus! {

/// From this value on the counter is brought down again, so that it never
/// wraps: the limit is a multiple of six.
pub const UPPER_LIMIT: usize = !63usize;

/// Who holds the lock.
pub enum Holder {
    /// Nobody.
    Free,
    /// The owner with index `false`.
    First,
    /// The owner with index `true`.
    Second,
}

/// The lock as a mathematical value.
pub struct BiLockModel<T> {
    /// Who holds the lock.
    pub holder: Holder,
    /// Whether a wake handle has been left for the first owner.
    pub first_waits: bool,
    /// Whether a wake handle has been left for the second owner.
    pub second_waits: bool,
    /// What the lock guards.
    pub value: T,
}

impl<T> BiLockModel<T> {
    /// Does the owner with this index hold the lock?
    pub open spec fn held_by(self, index: bool) -> bool {
        if index {
            self.holder is Second
        } else {
            self.holder is First
        }
    }

    /// The lock after the owner with this index has asked for it: a free
    /// lock is taken, and for a lock that the other owner holds the wake
    /// handle is left.
    pub open spec fn after_poll_lock(self, index: bool) -> Self {
        match self.holder {
            Holder::Free => BiLockModel {
                holder: if index {
                    Holder::Second
                } else {
                    Holder::First
                },
                ..self
            },
            _ => if index {
                BiLockModel { second_waits: true, ..self }
            } else {
                BiLockModel { first_waits: true, ..self }
            },
        }
    }

    /// The lock after the owner with this index has given it back: the
    /// other owner's wake handle is woken and gone.
    pub open spec fn after_unlock(self, index: bool) -> Self {
        if index {
            BiLockModel { holder: Holder::Free, first_waits: false, ..self }
        } else {
            BiLockModel { holder: Holder::Free, second_waits: false, ..self }
        }
    }
}

/// The state that the two owners of a lock share.
#[derive(Debug)]
pub struct Inner<T> {
    state: usize,
    // The wake handle left for the owner with index `true`.
    task0: Option<Waker>,
    // The wake handle left for the owner with index `false`.
    task1: Option<Waker>,
    value: T,
}

/// One of the two owners of a lock.
#[derive(Debug)]
pub struct BiLock {
    index: bool,
}

/// The right to use what the lock guards, until it is given back.
#[derive(Debug)]
pub struct BiLockGuard {
    index: bool,
}

/// The limit is a multiple of six and leaves room above it.
proof fn lemma_upper_limit()
    ensures
        UPPER_LIMIT % 6 == 0,
        UPPER_LIMIT + 63 == usize::MAX,
        UPPER_LIMIT >= 6,
{
    assert(UPPER_LIMIT % 6 == 0) by (bit_vector);
    assert(UPPER_LIMIT + 63 == !0usize) by (bit_vector);
    assert(UPPER_LIMIT >= 6) by (bit_vector);
    let top: usize = usize::MAX;
    assert(top <= !0usize) by (bit_vector);
}

impl<T> View for Inner<T> {
    type V = BiLockModel<T>;

    closed spec fn view(&self) -> BiLockModel<T> {
        BiLockModel {
            holder: if self.state % 6 == 3 {
                Holder::Free
            } else if self.state % 6 == 2 {
                Holder::First
            } else {
                Holder::Second
            },
            first_waits: self.task1 is Some,
            second_waits: self.task0 is Some,
            value: self.value,
        }
    }
}

impl<T> Inner<T> {
    /// The counter stands at rest and has room to count on.
    pub closed spec fn wf(&self) -> bool {
        &&& self.state % 6 == 3 || self.state % 6 == 2 || self.state % 6 == 0
        &&& self.state < UPPER_LIMIT + 6
        &&& self.state % 6 == 0 ==> self.state < UPPER_LIMIT + 3
    }

    /// Hands out what the lock guarded. The lock must be free.
    pub fn into_inner(self) -> (t: T)
        requires
            self@.holder is Free,
        ensures
            t == self@.value,
    {
        self.value
    }

    /// Is the lock free?
    pub fn is_free(&self) -> (r: bool)
        ensures
            r == (self@.holder is Free),
    {
        self.state % 6 == 3
    }

    // Asks for the lock on behalf of the owner with this index, and says
    // whether it was free.
    fn poll_lock(&mut self, caller_index: bool, waker: &Waker) -> (r: bool)
        requires
            old(self).wf(),
            !old(self)@.held_by(caller_index),
        ensures
            final(self).wf(),
            r == (old(self)@.holder is Free),
            final(self)@ == old(self)@.after_poll_lock(caller_index),
    {
        proof {
            lemma_upper_limit();
        }
        let mut state: usize;
        if caller_index {
            state = self.state;
            self.state = state + 3;
            if state % 6 == 2 {
                self.task0 = Some(clone_task(waker));
                state = self.state;
                self.state = state + 3;
            }
            if state >= UPPER_LIMIT {
                self.state = self.state - UPPER_LIMIT;
            }
        } else {
            state = self.state;
            assert(state ^ 1 == if state % 2 == 0 {
                state + 1
            } else {
                state - 1
            }) by (bit_vector);
            self.state = state ^ 1;
            if state % 6 == 0 {
                self.task1 = Some(clone_task(waker));
                state = self.state;
                assert(state ^ 1 == if state % 2 == 0 {
                    state + 1
                } else {
                    state - 1
                }) by (bit_vector);
                self.state = state ^ 1;
            }
        }
        match state % 6 {
            3 | 4 => true,
            _ => false,
        }
    }

    // Gives the lock back on behalf of the owner with this index, and
    // wakes the other owner if it has left a wake handle.
    fn unlock(&mut self, caller_index: bool)
        requires
            old(self).wf(),
            old(self)@.held_by(caller_index),
        ensures
            final(self).wf(),
            final(self)@ == old(self)@.after_unlock(caller_index),
    {
        proof {
            lemma_upper_limit();
        }
        if caller_index {
            let state = self.state;
            self.state = state + 3;
            if let Some(t) = self.task1.take() {
                wake_task(t);
            }
        } else {
            let state = self.state;
            assert(state ^ 1 == if state % 2 == 0 {
                state + 1
            } else {
                state - 1
            }) by (bit_vector);
            self.state = state ^ 1;
            if let Some(t) = self.task0.take() {
                wake_task(t);
            }
        }
    }
}

impl BiLock {
    /// The index of this owner.
    pub closed spec fn index(&self) -> bool {
        self.index
    }

    /// Creates a lock around a value, with its two owners.
    pub fn new<T>(t: T) -> (r: (BiLock, BiLock, Inner<T>))
        ensures
            r.2.wf(),
            r.2@ == (BiLockModel {
                holder: Holder::Free,
                first_waits: false,
                second_waits: false,
                value: t,
            }),
            !r.0.index(),
            r.1.index(),
    {
        proof {
            lemma_upper_limit();
        }
        let inner = Inner { state: 3, task0: None, task1: None, value: t };
        (BiLock { index: false }, BiLock { index: true }, inner)
    }

    /// Asks for the lock, which this owner must not hold: a free lock is
    /// taken and its guard handed out; else the wake handle is left for
    /// the other owner to wake when it gives the lock back.
    pub fn poll_lock<T>(&mut self, inner: &mut Inner<T>, waker: &Waker) -> (r: Option<BiLockGuard>)
        requires
            old(inner).wf(),
            !old(inner)@.held_by(old(self).index()),
        ensures
            final(inner).wf(),
            final(self).index() == old(self).index(),
            r is Some <==> old(inner)@.holder is Free,
            final(inner)@ == old(inner)@.after_poll_lock(old(self).index()),
            r matches Some(guard) ==> guard.index() == old(self).index(),
    {
        if inner.poll_lock(self.index, waker) {
            Some(BiLockGuard { index: self.index })
        } else {
            None
        }
    }
}

/// An owner that asks for the lock until it gets it.
#[derive(Debug)]
pub struct BiLockAcquire {
    inner: Option<BiLock>,
}

/// An owner that holds the lock.
#[derive(Debug)]
pub struct BiLockAcquired {
    inner: Option<BiLock>,
}

impl BiLock {
    /// Turns the owner into a future of the lock.
    pub fn lock(self) -> (r: BiLockAcquire)
        ensures
            r.owner() == Some(self),
    {
        BiLockAcquire { inner: Some(self) }
    }
}

impl BiLockAcquire {
    /// The owner, until it has got the lock.
    pub closed spec fn owner(&self) -> Option<BiLock> {
        self.inner
    }

    /// Has the owner got the lock, so that the future is used up?
    pub fn is_done(&self) -> (r: bool)
        ensures
            r == (self.owner() is None),
    {
        self.inner.is_none()
    }

    /// Asks for the lock: a free lock is taken, and the owner is handed out
    /// as its holder; else the wake handle is left. The future must not
    /// have handed the owner out before, and the owner must not hold the
    /// lock.
    pub fn poll<T>(&mut self, inner: &mut Inner<T>, waker: &Waker) -> (r: Option<BiLockAcquired>)
        requires
            old(inner).wf(),
            old(self).owner() matches Some(owner) && !old(inner)@.held_by(owner.index()),
        ensures
            final(inner).wf(),
            r is Some <==> old(inner)@.holder is Free,
            final(inner)@ == old(inner)@.after_poll_lock(old(self).owner().unwrap().index()),
            match r {
                Some(held) => held.owner() == old(self).owner() && final(self).owner() is None,
                None => final(self).owner() == old(self).owner(),
            },
    {
        let got = match &mut self.inner {
            Some(owner) => inner.poll_lock(owner.index, waker),
            None => vstd::pervasive::unreached(),
        };
        if got {
            Some(BiLockAcquired { inner: self.inner.take() })
        } else {
            None
        }
    }
}

impl BiLockAcquired {
    /// The owner that holds the lock.
    pub closed spec fn owner(&self) -> Option<BiLock> {
        self.inner
    }

    /// What the lock guards.
    pub fn get<'a, T>(&self, inner: &'a Inner<T>) -> (value: &'a T)
        ensures
            *value == inner@.value,
    {
        &inner.value
    }

    /// What the lock guards, to change.
    pub fn get_mut<'a, T>(&mut self, inner: &'a mut Inner<T>) -> (value: &'a mut T)
        requires
            old(inner).wf(),
        ensures
            *value == old(inner)@.value,
            final(inner).wf(),
            final(inner)@ == (BiLockModel { value: *final(value), ..old(inner)@ }),
    {
        &mut inner.value
    }

    /// Gives the lock back, wakes the other owner if it waits, and hands
    /// the owner out again.
    pub fn unlock<T>(self, inner: &mut Inner<T>) -> (r: BiLock)
        requires
            old(inner).wf(),
            self.owner() matches Some(owner) && old(inner)@.held_by(owner.index()),
        ensures
            final(inner).wf(),
            Some(r) == self.owner(),
            final(inner)@ == old(inner)@.after_unlock(r.index()),
    {
        let mut this = self;
        let bi_lock = this.inner.take().unwrap();
        inner.unlock(bi_lock.index);
        bi_lock
    }
}

impl BiLockGuard {
    /// The index of the owner that holds the guard.
    pub closed spec fn index(&self) -> bool {
        self.index
    }

    /// What the lock guards.
    pub fn get<'a, T>(&self, inner: &'a Inner<T>) -> (value: &'a T)
        ensures
            *value == inner@.value,
    {
        &inner.value
    }

    /// What the lock guards, to change.
    pub fn get_mut<'a, T>(&mut self, inner: &'a mut Inner<T>) -> (value: &'a mut T)
        requires
            old(inner).wf(),
        ensures
            *value == old(inner)@.value,
            final(inner).wf(),
            final(inner)@ == (BiLockModel { value: *final(value), ..old(inner)@ }),
    {
        &mut inner.value
    }

    /// Gives the lock back and wakes the other owner, if it waits.
    pub fn unlock<T>(self, inner: &mut Inner<T>)
        requires
            old(inner).wf(),
            old(inner)@.held_by(self.index()),
        ensures
            final(inner).wf(),
            final(inner)@ == old(inner)@.after_unlock(self.index()),
    {
        inner.unlock(self.index);
    }
}

} // verus!
