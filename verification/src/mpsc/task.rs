//! The receiver's wake slot and the parking slot of a bounded sender.

use crate::waker::clone_task;
use crate::waker::wake_task;
use std::task::Waker;
use vstd::prelude::*;

verus! {

/// A slot for at most one wake handle: a handle registered later takes the
/// place of an earlier one, and waking empties the slot.
#[derive(Debug)]
pub struct WakerSlot {
    waker: Option<Waker>,
}

impl WakerSlot {
    /// Is a handle registered?
    pub closed spec fn is_waiting(&self) -> bool {
        self.waker is Some
    }

    /// An empty slot.
    pub fn new() -> (slot: Self)
        ensures
            !slot.is_waiting(),
    {
        WakerSlot { waker: None }
    }

    /// Registers a handle in place of any earlier one.
    pub fn register(&mut self, waker: &Waker)
        ensures
            final(self).is_waiting(),
    {
        self.waker = Some(clone_task(waker));
    }

    /// Wakes the registered handle, if there is one, and empties the slot.
    pub fn wake(&mut self)
        ensures
            !final(self).is_waiting(),
    {
        if let Some(waker) = self.waker.take() {
            wake_task(waker);
        }
    }
}

/// What is known of a parking slot: whether a wake handle is stored in it,
/// and whether its sender is parked.
pub struct Parking {
    pub has_waker: bool,
    pub is_parked: bool,
}

/// The parking slot of one bounded sender, shared with the receiver.
#[derive(Debug)]
pub struct SenderTask {
    task: Option<Waker>,
    is_parked: bool,
}

impl View for SenderTask {
    type V = Parking;

    closed spec fn view(&self) -> Parking {
        Parking { has_waker: self.task is Some, is_parked: self.is_parked }
    }
}

impl SenderTask {
    /// The slot of a sender that is not parked.
    pub fn new() -> (slot: Self)
        ensures
            slot@ == (Parking { has_waker: false, is_parked: false }),
    {
        SenderTask { task: None, is_parked: false }
    }

    /// Is the sender parked?
    pub fn is_parked(&self) -> (r: bool)
        ensures
            r == self@.is_parked,
    {
        self.is_parked
    }

    /// Parks the sender, with no wake handle yet.
    pub fn park(&mut self)
        ensures
            final(self)@ == (Parking { has_waker: false, is_parked: true }),
    {
        self.task = None;
        self.is_parked = true;
    }

    /// Leaves the wake handle of the task that waits for the sender to be
    /// unparked, in place of any earlier one; without a handle, it removes
    /// the earlier one.
    pub fn register(&mut self, lw: Option<&Waker>)
        ensures
            final(self)@ == (Parking { has_waker: lw is Some, is_parked: old(self)@.is_parked }),
    {
        self.task = match lw {
            Some(lw) => Some(clone_task(lw)),
            None => None,
        };
    }

    /// Unparks the sender and wakes the handle that it left, if any.
    pub fn notify(&mut self)
        ensures
            final(self)@ == (Parking { has_waker: false, is_parked: false }),
    {
        self.is_parked = false;

        if let Some(task) = self.task.take() {
            wake_task(task);
        }
    }
}

} // verus!
