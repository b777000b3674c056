//! Many futures that run side by side.

use super::join::MaybeDone;
use vstd::prelude::*;

verus! {

/// Up to this number of futures are polled one by one in each round.
pub const SMALL: usize = 30;

/// How the futures are kept.
#[derive(Debug)]
pub enum JoinAllKind<F, T> {
    /// A few futures, each with its value once it has resolved.
    Small { elems: Vec<MaybeDone<F, T>> },
    /// Many futures, in the order in which their values are wanted.
    Big { fut: Vec<F> },
}

/// A future that runs a collection of futures and resolves to their
/// values, in the order of the futures.
#[must_use]
#[derive(Debug)]
pub struct JoinAll<F, T> {
    kind: JoinAllKind<F, T>,
}

/// Each future of `futures`, not yet resolved.
pub open spec fn not_yet<F, T>(futures: Seq<F>) -> Seq<MaybeDone<F, T>> {
    futures.map_values(|f: F| MaybeDone::<F, T>::NotYet(f))
}

/// Are all of these futures resolved, with their values still there?
pub open spec fn all_done<F, T>(elems: Seq<MaybeDone<F, T>>) -> bool {
    forall|i: int| 0 <= i < elems.len() ==> (#[trigger] elems[i]) is Done
}

/// The values of these futures, which are all resolved.
pub open spec fn values<F, T>(elems: Seq<MaybeDone<F, T>>) -> Seq<T> {
    elems.map_values(|e: MaybeDone<F, T>| e->Done_0)
}

/// Creates a future which represents a collection of the outputs of the
/// futures given. A few futures are kept one by one, many in one ordered
/// collection.
pub fn join_all<F, T>(futures: Vec<F>) -> (r: JoinAll<F, T>)
    ensures
        futures@.len() <= SMALL ==> r.kind().small() == Some(not_yet::<F, T>(futures@)),
        futures@.len() > SMALL ==> r.kind().big() == Some(futures@),
{
    let kind = if futures.len() <= SMALL {
        let ghost all = futures@;
        let mut left = futures;
        let mut back: Vec<F> = Vec::new();
        while left.len() > 0
            invariant
                left@.len() + back@.len() == all.len(),
                forall|i: int| 0 <= i < left@.len() ==> left@[i] == all[i],
                forall|i: int| 0 <= i < back@.len() ==> back@[i] == all[all.len() - 1 - i],
            decreases left.len(),
        {
            let f = left.pop().unwrap();
            back.push(f);
        }
        let mut elems: Vec<MaybeDone<F, T>> = Vec::new();
        while back.len() > 0
            invariant
                elems@.len() + back@.len() == all.len(),
                forall|i: int| 0 <= i < back@.len() ==> back@[i] == all[all.len() - 1 - i],
                forall|i: int|
                    0 <= i < elems@.len() ==> elems@[i] == MaybeDone::<F, T>::NotYet(all[i]),
            decreases back.len(),
        {
            let f = back.pop().unwrap();
            elems.push(MaybeDone::NotYet(f));
        }
        assert(elems@ =~= not_yet::<F, T>(all));
        JoinAllKind::Small { elems }
    } else {
        join_all_big(futures)
    };
    JoinAll { kind }
}

// Keeps many futures in one ordered collection.
fn join_all_big<F, T>(futures: Vec<F>) -> (r: JoinAllKind<F, T>)
    ensures
        r.big() == Some(futures@),
{
    JoinAllKind::Big { fut: futures }
}

impl<F, T> JoinAllKind<F, T> {
    /// The futures kept one by one, if they are few.
    pub open spec fn small(self) -> Option<Seq<MaybeDone<F, T>>> {
        match self {
            JoinAllKind::Small { elems } => Some(elems@),
            JoinAllKind::Big { .. } => None,
        }
    }

    /// The futures kept in one collection, if they are many.
    pub open spec fn big(self) -> Option<Seq<F>> {
        match self {
            JoinAllKind::Small { .. } => None,
            JoinAllKind::Big { fut } => Some(fut@),
        }
    }
}

impl<F, T> JoinAll<F, T> {
    /// How the futures are kept.
    pub closed spec fn kind(&self) -> JoinAllKind<F, T> {
        self.kind
    }

    /// How the futures are kept, to poll them.
    pub fn kind_mut(&mut self) -> (r: &mut JoinAllKind<F, T>)
        ensures
            *r == old(self).kind(),
            final(self).kind() == *final(r),
    {
        &mut self.kind
    }

    /// Hands out the values of the futures that are kept one by one, once
    /// all of them have resolved: the values come in the order of the
    /// futures, and no future is left. Before that, nothing changes.
    pub fn take_outputs(&mut self) -> (r: Option<Vec<T>>)
        requires
            old(self).kind() is Small,
        ensures
            match old(self).kind() {
                JoinAllKind::Small { elems } => if all_done(elems@) {
                    (r matches Some(v) && v@ == values(elems@)) && final(self).kind().small()
                        == Some(Seq::<MaybeDone<F, T>>::empty())
                } else {
                    r is None && final(self).kind() == old(self).kind()
                },
                JoinAllKind::Big { .. } => true,
            },
    {
        match &mut self.kind {
            JoinAllKind::Small { elems } => {
                let ghost all = elems@;
                let mut i: usize = 0;
                let mut done = true;
                while i < elems.len()
                    invariant
                        i <= elems.len(),
                        elems@ == all,
                        done == (forall|j: int| 0 <= j < i ==> (#[trigger] all[j]) is Done),
                    decreases elems.len() - i,
                {
                    if !elems[i].is_done() {
                        done = false;
                    }
                    i = i + 1;
                }
                if !done {
                    return None;
                }
                let mut back: Vec<T> = Vec::new();
                while elems.len() > 0
                    invariant
                        all_done(all),
                        elems@.len() + back@.len() == all.len(),
                        forall|j: int| 0 <= j < elems@.len() ==> elems@[j] == all[j],
                        forall|j: int|
                            0 <= j < back@.len() ==> back@[j] == all[all.len() - 1 - j]->Done_0,
                    decreases elems.len(),
                {
                    let mut e = elems.pop().unwrap();
                    assert(e == all[elems@.len() as int]);
                    back.push(e.take());
                }
                let mut result: Vec<T> = Vec::new();
                while back.len() > 0
                    invariant
                        result@.len() + back@.len() == all.len(),
                        forall|j: int|
                            0 <= j < back@.len() ==> back@[j] == all[all.len() - 1 - j]->Done_0,
                        forall|j: int| 0 <= j < result@.len() ==> result@[j] == all[j]->Done_0,
                    decreases back.len(),
                {
                    let t = back.pop().unwrap();
                    result.push(t);
                }
                assert(result@ =~= values(all));
                Some(result)
            },
            JoinAllKind::Big { .. } => vstd::pervasive::unreached(),
        }
    }
}

} // verus!
