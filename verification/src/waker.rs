//! Wake handles and poll results: what the library has from the executor.

use std::task::Poll;
use std::task::Waker;
use vstd::prelude::*;

verus! {

/// `std::task::Waker`, carried through as a value of which nothing is
/// known.
#[verifier::external_type_specification]
#[verifier::external_body]
pub struct ExWaker(Waker);

/// `std::task::Poll`, with its two variants `Ready` and `Pending` as std
/// declares them.
#[verifier::external_type_specification]
#[verifier::reject_recursive_types(T)]
pub struct ExPoll<T>(Poll<T>);

/// Calls `Waker::wake`, which consumes the handle and asks the executor to
/// poll its task again. Nothing is claimed of the call.
#[verifier::external_body]
pub(crate) fn wake_task(waker: Waker) {
    waker.wake()
}

/// Calls `Waker::wake_by_ref`, which asks the executor to poll the task of
/// the handle again and leaves the handle as it is. Nothing is claimed of
/// the call.
#[verifier::external_body]
pub(crate) fn wake_task_by_ref(waker: &Waker) {
    waker.wake_by_ref()
}

/// Calls `Waker::clone`, which makes another handle to the same task.
/// Nothing is claimed of the handle that comes back.
#[verifier::external_body]
pub(crate) fn clone_task(waker: &Waker) -> (copy: Waker) {
    waker.clone()
}

} // verus!
