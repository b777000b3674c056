//! The unbounded channel: senders never wait, and the receiver finds the
//! end of the stream by comparing two wrapping counters.

use super::error::SendError;
use super::error::SendErrorKind;
use super::error::TryRecvError;
use super::error::TrySendError;
use super::queue::Queue;
use super::state::close;
use super::state::decode;
use super::state::decode_state;
use super::state::increment_wrapping;
use super::state::lemma_constants;
use super::state::INIT_STATE;
use super::state::OPEN_MASK;
use super::task::WakerSlot;
use std::task::Poll;
use std::task::Waker;
use vstd::arithmetic::div_mod::lemma_add_mod_noop;
use vstd::arithmetic::div_mod::lemma_mod_mod;
use vstd::arithmetic::div_mod::lemma_mod_self_0;
use vstd::arithmetic::div_mod::lemma_small_mod;
use vstd::prelude::*;

verus! {

/// The unbounded channel as a mathematical value.
pub struct UnboundedModel<T> {
    /// `false` once the channel has been closed.
    pub is_open: bool,
    /// The messages in flight, oldest first.
    pub messages: Seq<T>,
    /// How many messages the channel has accepted so far.
    pub sent: nat,
    /// The number of senders that have not been dropped.
    pub num_senders: nat,
    /// Whether the receiver has left a wake handle.
    pub recv_waiting: bool,
}

impl<T> UnboundedModel<T> {
    /// What holds of every unbounded channel, whatever has been done with
    /// it.
    pub open spec fn inv(self) -> bool {
        &&& self.messages.len() <= self.sent
        &&& self.is_open ==> self.num_senders >= 1
    }

    /// A new channel: open, empty, with one sender.
    pub open spec fn initial() -> Self {
        UnboundedModel {
            is_open: true,
            messages: Seq::empty(),
            sent: 0,
            num_senders: 1,
            recv_waiting: false,
        }
    }

    /// How many messages the receiver has taken so far.
    pub open spec fn received(self) -> nat {
        (self.sent - self.messages.len()) as nat
    }

    /// The channel after a sender has tried to send: an open channel
    /// accepts the message and wakes the receiver.
    pub open spec fn after_send(self, msg: T) -> Self {
        if self.is_open {
            UnboundedModel {
                messages: self.messages.push(msg),
                sent: self.sent + 1,
                recv_waiting: false,
                ..self
            }
        } else {
            self
        }
    }

    /// What the receiver gets when it asks for the next message: the oldest
    /// message if there is one, the end of the stream if the channel is
    /// closed and empty, and else nothing yet.
    pub open spec fn next(self) -> Poll<Option<T>> {
        if self.messages.len() > 0 {
            Poll::Ready(Some(self.messages[0]))
        } else if self.is_open {
            Poll::Pending
        } else {
            Poll::Ready(None)
        }
    }

    /// The channel after the receiver has asked for the next message.
    pub open spec fn after_next(self) -> Self {
        if self.messages.len() > 0 {
            UnboundedModel { messages: self.messages.drop_first(), ..self }
        } else {
            self
        }
    }

    /// The channel after the receiver has polled for the next message with
    /// a wake handle: the handle stays behind if nothing was ready.
    pub open spec fn after_poll_next(self) -> Self {
        if self.messages.len() > 0 {
            UnboundedModel { messages: self.messages.drop_first(), ..self }
        } else if self.is_open {
            UnboundedModel { recv_waiting: true, ..self }
        } else {
            self
        }
    }

    /// The channel after the receiver has closed it.
    pub open spec fn closed_by_receiver(self) -> Self {
        UnboundedModel { is_open: false, ..self }
    }

    /// The channel after a sender has closed it: the receiver is woken.
    pub open spec fn closed_by_sender(self) -> Self {
        UnboundedModel { is_open: false, recv_waiting: false, ..self }
    }

    /// The channel after one more sender has been made.
    pub open spec fn cloned(self) -> Self {
        UnboundedModel { num_senders: self.num_senders + 1, ..self }
    }

    /// The channel after a sender has been dropped: the last one closes it.
    pub open spec fn dropped(self) -> Self {
        if self.num_senders == 1 {
            UnboundedModel { num_senders: 0, ..self }.closed_by_sender()
        } else {
            UnboundedModel { num_senders: (self.num_senders - 1) as nat, ..self }
        }
    }

    /// The channel after the receiver has been dropped: closed, with no
    /// message left in it.
    pub open spec fn drained(self) -> Self {
        UnboundedModel { is_open: false, messages: Seq::empty(), ..self }
    }
}

/// The counter after one more count, when it wraps at `modulus`.
proof fn lemma_wrapping_step(count: int, total: int, modulus: int)
    requires
        modulus > 1,
        0 <= count < modulus,
        count == total % modulus,
    ensures
        (total + 1) % modulus == (if count + 1 == modulus {
            0
        } else {
            count + 1
        }),
{
    lemma_add_mod_noop(total, 1, modulus);
    lemma_small_mod(1, modulus as nat);
    if count + 1 == modulus {
        lemma_mod_self_0(modulus);
    } else {
        lemma_small_mod((count + 1) as nat, modulus as nat);
    }
}

/// The state that the handles of one unbounded channel share.
pub struct UnboundedInner<T> {
    // The open flag and the number of accepted messages, wrapping below
    // the flag, packed into one word.
    state: usize,
    // The messages on their way to the receiver.
    message_queue: Queue<T>,
    // The receiver's wake handle.
    recv_task: WakerSlot,
    // Number of senders in existence.
    num_senders: usize,
    sent: Ghost<nat>,
}

impl<T> View for UnboundedInner<T> {
    type V = UnboundedModel<T>;

    closed spec fn view(&self) -> UnboundedModel<T> {
        UnboundedModel {
            is_open: decode(self.state).is_open,
            messages: self.message_queue@,
            sent: self.sent@,
            num_senders: self.num_senders as nat,
            recv_waiting: self.recv_task.is_waiting(),
        }
    }
}

impl<T> UnboundedInner<T> {
    /// The counter agrees with what it counts.
    pub closed spec fn consistent(&self) -> bool {
        decode(self.state).num_messages == self.sent@ % (OPEN_MASK as nat)
    }

    /// The shared state is in order.
    pub open spec fn wf(&self) -> bool {
        self.consistent() && self@.inv()
    }

    /// The number of senders that have not been dropped.
    pub fn num_senders(&self) -> (n: usize)
        ensures
            n == self@.num_senders,
    {
        self.num_senders
    }

    /// The number of messages in flight.
    pub fn num_messages(&self) -> (n: usize)
        ensures
            n == self@.messages.len(),
    {
        self.message_queue.len()
    }

    // Push message to the queue and signal to the receiver
    fn queue_push_and_signal(&mut self, msg: T)
        ensures
            final(self).message_queue@ == old(self).message_queue@.push(msg),
            !final(self).recv_task.is_waiting(),
            final(self).state == old(self).state,
            final(self).num_senders == old(self).num_senders,
            final(self).sent == old(self).sent,
    {
        // Push the message onto the message queue
        self.message_queue.push(msg);

        // Signal to the receiver that a message has been enqueued. If the
        // receiver is parked, this will unpark the task.
        self.recv_task.wake();
    }

    // Increment the number of queued messages. Says whether the channel
    // was open.
    fn inc_num_messages(&mut self) -> (r: bool)
        requires
            old(self).consistent(),
        ensures
            r == decode(old(self).state).is_open,
            decode(final(self).state).is_open == decode(old(self).state).is_open,
            final(self).consistent(),
            final(self).sent@ == (if r {
                old(self).sent@ + 1
            } else {
                old(self).sent@
            }),
            final(self).message_queue == old(self).message_queue,
            final(self).recv_task == old(self).recv_task,
            final(self).num_senders == old(self).num_senders,
    {
        proof {
            lemma_constants();
            lemma_wrapping_step(
                decode(self.state).num_messages as int,
                self.sent@ as int,
                OPEN_MASK as int,
            );
            if decode(self.state).num_messages + 1 == OPEN_MASK {
                lemma_mod_self_0(OPEN_MASK as int);
            } else {
                lemma_small_mod((decode(self.state).num_messages + 1) as nat, OPEN_MASK as nat);
            }
        }
        match increment_wrapping(self.state) {
            Some(next) => {
                self.state = next;
                proof {
                    self.sent@ = self.sent@ + 1;
                }
                true
            },
            None => false,
        }
    }

    // Clear `open` flag in the state, keep `num_messages` intact.
    fn set_closed(&mut self)
        ensures
            !decode(final(self).state).is_open,
            decode(final(self).state).num_messages == decode(old(self).state).num_messages,
            final(self).message_queue == old(self).message_queue,
            final(self).recv_task == old(self).recv_task,
            final(self).num_senders == old(self).num_senders,
            final(self).sent == old(self).sent,
    {
        self.state = close(self.state);
    }
}

/// The sending end of an unbounded channel.
#[derive(Debug)]
pub struct UnboundedSender {
    _inner: (),
}

/// The receiving end of an unbounded channel.
pub struct UnboundedReceiver {
    // The number of messages taken so far, wrapping at the width of the
    // word.
    num_received: usize,
    received: Ghost<nat>,
}

/// Creates an unbounded channel: its shared state, its first sender and its
/// receiver. A send succeeds as long as the channel is open.
pub fn unbounded<T>() -> (r: (UnboundedSender, UnboundedReceiver, UnboundedInner<T>))
    ensures
        r.2.wf(),
        r.2@ == UnboundedModel::<T>::initial(),
        r.1.wf(r.2@),
{
    let inner = UnboundedInner {
        state: INIT_STATE,
        message_queue: Queue::new(),
        recv_task: WakerSlot::new(),
        num_senders: 1,
        sent: Ghost(0nat),
    };
    let tx = UnboundedSender { _inner: () };
    let rx = UnboundedReceiver { num_received: 0, received: Ghost(0nat) };
    proof {
        lemma_constants();
        lemma_small_mod(0, OPEN_MASK as nat);
        lemma_small_mod(0, (usize::MAX + 1) as nat);
    }
    (tx, rx, inner)
}

impl UnboundedSender {
    /// Check if the channel is ready to receive a message: an open channel
    /// always is, a closed one never.
    pub fn poll_ready<T>(&self, inner: &UnboundedInner<T>, _lw: &Waker) -> (r: Poll<
        Result<(), SendError>,
    >)
        ensures
            match r {
                Poll::Ready(Ok(())) => inner@.is_open,
                Poll::Ready(Err(e)) => !inner@.is_open && e@ == SendErrorKind::Disconnected,
                Poll::Pending => false,
            },
    {
        let state = decode_state(inner.state);
        if state.is_open {
            Poll::Ready(Ok(()))
        } else {
            Poll::Ready(Err(SendError::new(SendErrorKind::Disconnected)))
        }
    }

    /// Returns whether this channel is closed without needing a context.
    pub fn is_closed<T>(&self, inner: &UnboundedInner<T>) -> (r: bool)
        ensures
            r == !inner@.is_open,
    {
        !decode_state(inner.state).is_open
    }

    /// Closes this channel from the sender side, preventing any new messages.
    pub fn close_channel<T>(&self, inner: &mut UnboundedInner<T>)
        requires
            old(inner).wf(),
        ensures
            final(inner).wf(),
            final(inner)@ == old(inner)@.closed_by_sender(),
    {
        inner.set_closed();
        inner.recv_task.wake();
    }

    // Do the send without parking current task.
    fn do_send_nb<T>(&self, inner: &mut UnboundedInner<T>, msg: T) -> (r: Result<
        (),
        TrySendError<T>,
    >)
        requires
            old(inner).wf(),
        ensures
            final(inner).wf(),
            final(inner)@ == old(inner)@.after_send(msg),
            r is Ok <==> old(inner)@.is_open,
            r matches Err(e) ==> e.value() == msg && e.kind() == SendErrorKind::Disconnected,
    {
        if !inner.inc_num_messages() {
            return Err(TrySendError::new(SendErrorKind::Disconnected, msg));
        }
        inner.queue_push_and_signal(msg);

        Ok(())
    }

    /// Sends a message on the channel. It is meant to be called after
    /// `poll_ready` has reported that the channel is open.
    pub fn start_send<T>(&mut self, inner: &mut UnboundedInner<T>, msg: T) -> (r: Result<
        (),
        SendError,
    >)
        requires
            old(inner).wf(),
        ensures
            final(inner).wf(),
            final(inner)@ == old(inner)@.after_send(msg),
            r is Ok <==> old(inner)@.is_open,
            r matches Err(e) ==> e@ == SendErrorKind::Disconnected,
    {
        match self.do_send_nb(inner, msg) {
            Ok(()) => Ok(()),
            Err(e) => Err(e.into_send_error()),
        }
    }

    /// Sends a message along this channel. It fails only if the channel is
    /// closed, and then hands the message back in the error.
    pub fn unbounded_send<T>(&self, inner: &mut UnboundedInner<T>, msg: T) -> (r: Result<
        (),
        TrySendError<T>,
    >)
        requires
            old(inner).wf(),
        ensures
            final(inner).wf(),
            final(inner)@ == old(inner)@.after_send(msg),
            r is Ok <==> old(inner)@.is_open,
            r matches Err(e) ==> e.value() == msg && e.kind() == SendErrorKind::Disconnected,
    {
        self.do_send_nb(inner, msg)
    }

    /// Makes one more sender for the channel.
    pub fn clone<T>(&self, inner: &mut UnboundedInner<T>) -> (tx: UnboundedSender)
        requires
            old(inner).wf(),
            old(inner)@.num_senders < usize::MAX,
        ensures
            final(inner).wf(),
            final(inner)@ == old(inner)@.cloned(),
    {
        inner.num_senders = inner.num_senders + 1;
        UnboundedSender { _inner: () }
    }

    /// Gives the sender up. The last sender to go closes the channel and
    /// wakes the receiver.
    pub fn drop<T>(self, inner: &mut UnboundedInner<T>)
        requires
            old(inner).wf(),
            old(inner)@.num_senders >= 1,
        ensures
            final(inner).wf(),
            final(inner)@ == old(inner)@.dropped(),
    {
        let prev = inner.num_senders;
        inner.num_senders = prev - 1;
        if prev == 1 {
            inner.set_closed();
            inner.recv_task.wake();
        }
    }
}

impl UnboundedReceiver {
    /// How many messages this receiver has taken so far.
    pub closed spec fn received(&self) -> nat {
        self.received@
    }

    /// The wrapping counter agrees with what it counts.
    pub closed spec fn consistent(&self) -> bool {
        self.num_received == self.received@ % ((usize::MAX + 1) as nat)
    }

    /// The receiver is in order and has taken every message that has left
    /// the channel.
    pub open spec fn wf<T>(&self, channel: UnboundedModel<T>) -> bool {
        self.consistent() && self.received() == channel.received()
    }

    /// Closes the receiving half of the channel, without dropping it: no
    /// further message is accepted, the buffered ones can still be taken.
    pub fn close<T>(&mut self, inner: &mut UnboundedInner<T>)
        requires
            old(inner).wf(),
        ensures
            final(inner).wf(),
            final(inner)@ == old(inner)@.closed_by_receiver(),
            *final(self) == *old(self),
    {
        inner.set_closed();
    }

    /// Takes the oldest message, if there is one. With no message, it says
    /// whether the stream has ended or more may come.
    pub fn next_message<T>(&mut self, inner: &mut UnboundedInner<T>) -> (r: Poll<Option<T>>)
        requires
            old(inner).wf(),
            old(self).wf(old(inner)@),
        ensures
            final(inner).wf(),
            final(self).wf(final(inner)@),
            final(inner)@ == old(inner)@.after_next(),
            r == old(inner)@.next(),
    {
        // Pop off a message
        match inner.message_queue.pop() {
            Some(msg) => {
                proof {
                    lemma_wrapping_step(
                        self.num_received as int,
                        self.received@ as int,
                        usize::MAX + 1,
                    );
                }
                // Decrement number of messages
                self.num_received = self.num_received.wrapping_add(1);
                proof {
                    self.received@ = self.received@ + 1;
                }

                Poll::Ready(Some(msg))
            },
            None => {
                if !self.is_end_of_queue_from_state(inner) {
                    // If queue is open, we need to return Pending
                    // to be woken up when new messages arrive.
                    // If queue is closed but num_messages is non-zero,
                    // it means that senders updated the state,
                    // but didn't put message to queue yet,
                    // so we need to park until sender unparks the task
                    // after queueing the message.
                    Poll::Pending
                } else {
                    // If closed flag is set AND there are no pending messages
                    // it means end of stream
                    Poll::Ready(None)
                }
            },
        }
    }

    /// Does the state word say that the stream has ended? It does when the
    /// channel is closed and the number of accepted messages equals the
    /// number of messages taken, both counted as the state word counts.
    pub fn is_end_of_queue_from_state<T>(&self, inner: &UnboundedInner<T>) -> (r: bool)
        requires
            inner.wf(),
            self.consistent(),
        ensures
            r == (!inner@.is_open && inner@.sent % (OPEN_MASK as nat) == self.received() % (
            OPEN_MASK as nat)),
    {
        let state = decode_state(inner.state);
        if state.is_open {
            false
        } else {
            // The condition is true when either:
            // * queue is empty
            // * a multiple of `OPEN_MASK` messages are in the queue
            //   or being added to the queue at this moment
            // The latter is very improbable because receiver has checked the queue recently.
            let taken: usize = self.num_received;
            assert(taken & !OPEN_MASK == taken % OPEN_MASK) by (bit_vector);
            proof {
                lemma_constants();
                lemma_mod_mod(self.received@ as int, OPEN_MASK as int, 2);
                assert(OPEN_MASK * 2 == usize::MAX + 1);
            }
            state.num_messages == (self.num_received & !OPEN_MASK)
        }
    }

    /// Tries to receive the next message without leaving a wake handle.
    /// The error says that the channel is open and empty.
    pub fn try_next<T>(&mut self, inner: &mut UnboundedInner<T>) -> (r: Result<
        Option<T>,
        TryRecvError,
    >)
        requires
            old(inner).wf(),
            old(self).wf(old(inner)@),
        ensures
            final(inner).wf(),
            final(self).wf(final(inner)@),
            final(inner)@ == old(inner)@.after_next(),
            match r {
                Ok(msg) => old(inner)@.next() == Poll::Ready(msg),
                Err(_) => old(inner)@.next() is Pending,
            },
    {
        match self.next_message(inner) {
            Poll::Ready(msg) => { Ok(msg) },
            Poll::Pending => Err(TryRecvError::new()),
        }
    }

    /// Takes the next message as `next_message` does; when nothing is
    /// ready, it leaves the wake handle for a sender to wake.
    pub fn poll_next<T>(&mut self, inner: &mut UnboundedInner<T>, lw: &Waker) -> (r: Poll<
        Option<T>,
    >)
        requires
            old(inner).wf(),
            old(self).wf(old(inner)@),
        ensures
            final(inner).wf(),
            final(self).wf(final(inner)@),
            final(inner)@ == old(inner)@.after_poll_next(),
            r == old(inner)@.next(),
    {
        match self.next_message(inner) {
            Poll::Ready(msg) => Poll::Ready(msg),
            Poll::Pending => {
                // There are no messages to read, in this case, park.
                inner.recv_task.register(lw);
                // Check queue again after parking to prevent race condition:
                // a message could be added to the queue after previous `next_message`
                // before `register` call.
                self.next_message(inner)
            },
        }
    }

    /// Gives the receiver up: the channel is closed and every message left
    /// in it is dropped.
    pub fn drop<T>(self, inner: &mut UnboundedInner<T>)
        requires
            old(inner).wf(),
            self.wf(old(inner)@),
        ensures
            final(inner).wf(),
            final(inner)@ == old(inner)@.drained(),
    {
        let mut this = self;
        // Drain the channel of all pending messages
        this.close(inner);
        let ghost closed = inner@;
        let ghost mut done: int = 0;
        proof {
            assert(closed.messages.subrange(0, closed.messages.len() as int) =~= closed.messages);
        }
        loop
            invariant
                !closed.is_open,
                inner.wf(),
                this.wf(inner@),
                0 <= done <= closed.messages.len(),
                inner@ == (UnboundedModel {
                    messages: closed.messages.subrange(done, closed.messages.len() as int),
                    ..closed
                }),
            ensures
                done == closed.messages.len(),
            decreases inner@.messages.len(),
        {
            match this.next_message(inner) {
                Poll::Ready(Some(_)) => {
                    proof {
                        assert(inner@.messages =~= closed.messages.subrange(
                            done + 1,
                            closed.messages.len() as int,
                        ));
                        done = done + 1;
                    }
                },
                _ => {
                    break ;
                },
            }
        }
        proof {
            assert(inner@.messages =~= Seq::<T>::empty());
        }
    }
}

} // verus!
