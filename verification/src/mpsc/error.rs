//! The errors of sending and receiving.

use vstd::prelude::*;

verus! {

/// Why a send failed.
#[derive(Clone, Copy, Debug, PartialEq, Eq, Structural)]
pub enum SendErrorKind {
    /// The sender has used up its capacity; it may retry later.
    Full,
    /// The channel is closed for good.
    Disconnected,
}

/// The error of a send that carries no value back.
#[derive(Clone, Debug, PartialEq, Eq, Structural)]
pub struct SendError {
    kind: SendErrorKind,
}

/// The error of a send, with the rejected value.
#[derive(Clone, Debug, PartialEq, Eq)]
pub struct TrySendError<T> {
    err: SendError,
    val: T,
}

/// The error of a receive attempt on an open channel that is empty.
#[derive(Debug)]
pub struct TryRecvError {
    _inner: (),
}

impl View for SendError {
    type V = SendErrorKind;

    closed spec fn view(&self) -> SendErrorKind {
        self.kind
    }
}

impl SendError {
    /// The error of a send that failed for this reason.
    pub fn new(kind: SendErrorKind) -> (err: Self)
        ensures
            err@ == kind,
    {
        SendError { kind }
    }

    /// Is the reason that the channel was full?
    pub fn is_full(&self) -> (r: bool)
        ensures
            r == (self@ == SendErrorKind::Full),
    {
        match self.kind {
            SendErrorKind::Full => true,
            _ => false,
        }
    }

    /// Is the reason that the channel was closed?
    pub fn is_disconnected(&self) -> (r: bool)
        ensures
            r == (self@ == SendErrorKind::Disconnected),
    {
        match self.kind {
            SendErrorKind::Disconnected => true,
            _ => false,
        }
    }

    /// The message that goes with the error.
    pub fn message(&self) -> (s: &'static str)
        ensures
            s@ == (if self@ == SendErrorKind::Full {
                "send failed because channel is full"@
            } else {
                "send failed because receiver is gone"@
            }),
    {
        if self.is_full() {
            "send failed because channel is full"
        } else {
            "send failed because receiver is gone"
        }
    }
}

impl<T> TrySendError<T> {
    /// The reason of the failure.
    pub closed spec fn kind(&self) -> SendErrorKind {
        self.err.kind
    }

    /// The value that was not sent.
    pub closed spec fn value(&self) -> T {
        self.val
    }

    /// The error of a send of `val` that failed for this reason.
    pub fn new(kind: SendErrorKind, val: T) -> (err: Self)
        ensures
            err.kind() == kind,
            err.value() == val,
    {
        TrySendError { err: SendError { kind }, val }
    }

    /// Is the reason that the channel was full?
    pub fn is_full(&self) -> (r: bool)
        ensures
            r == (self.kind() == SendErrorKind::Full),
    {
        self.err.is_full()
    }

    /// Is the reason that the channel was closed?
    pub fn is_disconnected(&self) -> (r: bool)
        ensures
            r == (self.kind() == SendErrorKind::Disconnected),
    {
        self.err.is_disconnected()
    }

    /// Hands back the value that was not sent.
    pub fn into_inner(self) -> (val: T)
        ensures
            val == self.value(),
    {
        self.val
    }

    /// Drops the value and keeps the reason.
    pub fn into_send_error(self) -> (err: SendError)
        ensures
            err@ == self.kind(),
    {
        self.err
    }

    /// The message that goes with the error.
    pub fn message(&self) -> (s: &'static str)
        ensures
            s@ == (if self.kind() == SendErrorKind::Full {
                "send failed because channel is full"@
            } else {
                "send failed because receiver is gone"@
            }),
    {
        self.err.message()
    }
}

impl TryRecvError {
    /// The error of a receive attempt that found nothing.
    pub fn new() -> Self {
        TryRecvError { _inner: () }
    }

    /// The message that goes with the error.
    pub fn message(&self) -> (s: &'static str)
        ensures
            s@ == "receiver channel is empty"@,
    {
        "receiver channel is empty"
    }
}

} // verus!
