//! A set of wake handles, each under a key.

use crate::waker::clone_task;
use crate::waker::wake_task_by_ref;
use std::task::Waker;
use vstd::prelude::*;

verus! {

/// The wake handles of the tasks that wait for one event. A key stays with
/// its handle until the handle is removed; the key of a removed handle is
/// given out again.
#[derive(Debug)]
pub struct WaiterSet {
    waiters: Vec<Option<Waker>>,
}

impl View for WaiterSet {
    type V = Seq<bool>;

    /// For each key given out so far, whether a handle is under it.
    closed spec fn view(&self) -> Seq<bool> {
        self.waiters@.map_values(|w: Option<Waker>| w is Some)
    }
}

/// The smallest key under which `taken` has no handle.
pub open spec fn first_free(taken: Seq<bool>) -> int
    decreases taken.len(),
{
    if taken.len() == 0 || !taken[0] {
        0
    } else {
        1 + first_free(taken.drop_first())
    }
}

/// The first free key is a key without a handle, or the next new key, and
/// every key before it has a handle.
pub proof fn lemma_first_free(taken: Seq<bool>)
    ensures
        0 <= first_free(taken) <= taken.len(),
        first_free(taken) < taken.len() ==> !taken[first_free(taken)],
        forall|i: int| 0 <= i < first_free(taken) ==> taken[i],
    decreases taken.len(),
{
    if taken.len() > 0 && taken[0] {
        lemma_first_free(taken.drop_first());
        assert forall|i: int| 0 <= i < first_free(taken) implies taken[i] by {
            if i > 0 {
                assert(taken.drop_first()[i - 1] == taken[i]);
            }
        }
    }
}

impl WaiterSet {
    /// An empty set.
    pub fn new() -> (set: Self)
        ensures
            set@ == Seq::<bool>::empty(),
    {
        let set = WaiterSet { waiters: Vec::new() };
        assert(set@ =~= Seq::<bool>::empty());
        set
    }

    /// Puts a handle into the set and returns its key: the smallest key
    /// that is free.
    pub fn insert(&mut self, waker: &Waker) -> (key: usize)
        ensures
            key == first_free(old(self)@),
            final(self)@ == (if key < old(self)@.len() {
                old(self)@.update(key as int, true)
            } else {
                old(self)@.push(true)
            }),
    {
        proof {
            lemma_first_free(self@);
        }
        let mut key: usize = 0;
        while key < self.waiters.len() && self.waiters[key].is_some()
            invariant
                self.waiters@ == old(self).waiters@,
                key <= self.waiters.len(),
                forall|i: int| 0 <= i < key ==> (#[trigger] self@[i]),
            decreases self.waiters.len() - key,
        {
            key = key + 1;
        }
        proof {
            lemma_first_free(self@);
            if key < first_free(self@) {
                assert(self@[key as int]);
            }
            if first_free(self@) < key {
                assert(self@[first_free(self@)]);
            }
        }
        if key < self.waiters.len() {
            self.waiters[key] = Some(clone_task(waker));
            assert(self@ =~= old(self)@.update(key as int, true));
        } else {
            self.waiters.push(Some(clone_task(waker)));
            assert(self@ =~= old(self)@.push(true));
        }
        key
    }

    /// Puts a handle in the place of the one under `key`. Under a key that
    /// was never given out it does nothing.
    pub fn register(&mut self, key: usize, waker: &Waker)
        ensures
            final(self)@ == (if key < old(self)@.len() {
                old(self)@.update(key as int, true)
            } else {
                old(self)@
            }),
    {
        if key < self.waiters.len() {
            self.waiters[key] = Some(clone_task(waker));
            assert(self@ =~= old(self)@.update(key as int, true));
        }
    }

    /// Takes the handle under `key` out of the set, if there is one.
    pub fn remove(&mut self, key: usize)
        ensures
            final(self)@ == (if key < old(self)@.len() {
                old(self)@.update(key as int, false)
            } else {
                old(self)@
            }),
    {
        if key < self.waiters.len() {
            self.waiters[key] = None;
            assert(self@ =~= old(self)@.update(key as int, false));
        }
    }

    /// Wakes every handle in the set; the handles stay.
    pub fn notify_all(&self) {
        let mut key: usize = 0;
        while key < self.waiters.len()
            invariant
                key <= self.waiters.len(),
            decreases self.waiters.len() - key,
        {
            match &self.waiters[key] {
                Some(waker) => wake_task_by_ref(waker),
                None => {},
            }
            key = key + 1;
        }
    }
}

} // verus!
