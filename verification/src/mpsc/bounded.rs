//! The bounded channel: a buffer shared by all senders, one guaranteed slot
//! for each sender beyond it, and parking for a sender that has used its
//! slot.

use super::error::SendError;
use super::error::SendErrorKind;
use super::error::TryRecvError;
use super::error::TrySendError;
use super::queue::Queue;
use super::state::decode;
use super::state::close;
use super::state::decode_state;
use super::state::decrement;
use super::state::increment;
use super::state::lemma_constants;
use super::state::INIT_STATE;
use super::state::MAX_BUFFER;
use super::state::MAX_CAPACITY;
use super::task::Parking;
use super::task::SenderTask;
use super::task::WakerSlot;
use std::task::Poll;
use std::task::Waker;
use vstd::prelude::*;

verus! {

/// The bounded channel as a mathematical value.
pub struct BoundedModel<T> {
    /// The size of the buffer that all senders share.
    pub buffer: nat,
    /// `false` once the channel has been closed.
    pub is_open: bool,
    /// The messages in flight, oldest first.
    pub messages: Seq<T>,
    /// The parking slots of the parked senders, in the order of parking.
    pub parked: Seq<usize>,
    /// The parking slot of every sender that has ever existed.
    pub slots: Seq<Parking>,
    /// The parking slots of the senders that have not been dropped.
    pub live: Set<usize>,
    /// The parking slots of the senders that have a message in flight
    /// beyond the buffer: those that a send has parked and that no read has
    /// unparked since.
    pub holding: Set<usize>,
    /// Whether the receiver has left a wake handle.
    pub recv_waiting: bool,
    /// How many messages the receiver has taken so far.
    pub received: nat,
    /// For each entry of `parked`, the number of the message whose sending
    /// parked that sender: messages are numbered from 0 in the order in
    /// which they were accepted.
    pub causes: Seq<nat>,
}

impl<T> BoundedModel<T> {
    /// What holds of every bounded channel, whatever has been done with it.
    pub open spec fn inv(self) -> bool {
        &&& self.buffer <= MAX_BUFFER
        &&& self.messages.len() <= MAX_CAPACITY
        &&& self.slots.len() <= usize::MAX
        &&& self.live.finite()
        &&& self.live.len() <= MAX_CAPACITY - self.buffer
        &&& forall|s: usize| #[trigger] self.live.contains(s) ==> s < self.slots.len()
        &&& self.is_open ==> self.live.len() >= 1
        &&& self.parked.no_duplicates()
        &&& forall|j: int|
            0 <= j < self.parked.len() ==> (#[trigger] self.parked[j]) < self.slots.len()
                && self.slots[self.parked[j] as int].is_parked
        &&& forall|i: int|
            0 <= i < self.slots.len() && (#[trigger] self.slots[i]).is_parked
                ==> self.parked.contains(i as usize)
        &&& forall|i: int|
            0 <= i < self.slots.len() && !(#[trigger] self.slots[i]).is_parked
                ==> !self.slots[i].has_waker
        &&& self.holding.finite()
        &&& self.messages.len() <= self.buffer + self.holding.len()
        &&& forall|j: int|
            0 <= j < self.parked.len() ==> self.holding.contains(#[trigger] self.parked[j])
        &&& self.is_open ==> forall|s: usize| #[trigger]
            self.holding.contains(s) ==> self.parked.contains(s)
        &&& self.causes.len() == self.parked.len()
        &&& forall|j: int|
            0 <= j < self.causes.len() ==> self.received + j <= (#[trigger] self.causes[j])
                < self.received + self.messages.len()
    }

    /// A new channel: open, empty, with one sender.
    pub open spec fn initial(buffer: nat) -> Self {
        BoundedModel {
            buffer,
            is_open: true,
            messages: Seq::empty(),
            parked: Seq::empty(),
            slots: seq![Parking { has_waker: false, is_parked: false }],
            live: Set::empty().insert(0usize),
            holding: Set::empty(),
            recv_waiting: false,
            received: 0,
            causes: Seq::empty(),
        }
    }

    /// Is the sender with this parking slot parked?
    pub open spec fn is_parked(self, slot: usize) -> bool {
        self.slots[slot as int].is_parked
    }

    /// Would a send from this sender be accepted?
    pub open spec fn accepts(self, slot: usize) -> bool {
        !self.is_parked(slot) && self.is_open
    }

    /// Would an accepted send from any sender park that sender?
    pub open spec fn next_send_parks(self) -> bool {
        self.messages.len() + 1 > self.buffer
    }

    /// The channel with one parking slot replaced.
    pub open spec fn with_slot(self, slot: usize, parking: Parking) -> Self {
        BoundedModel { slots: self.slots.update(slot as int, parking), ..self }
    }

    /// The channel after it has accepted a message from a sender: the
    /// message is last in the queue, the receiver has been woken, and the
    /// sender is parked if the message went beyond the buffer.
    pub open spec fn sent(self, slot: usize, msg: T) -> Self {
        if self.next_send_parks() {
            BoundedModel {
                messages: self.messages.push(msg),
                parked: self.parked.push(slot),
                slots: self.slots.update(
                    slot as int,
                    Parking { has_waker: false, is_parked: true },
                ),
                causes: self.causes.push(self.received + self.messages.len()),
                holding: self.holding.insert(slot),
                recv_waiting: false,
                ..self
            }
        } else {
            BoundedModel { messages: self.messages.push(msg), recv_waiting: false, ..self }
        }
    }

    /// The channel after a sender has tried to send: a parked sender loses
    /// the wake handle that it had left, a closed channel stays as it is,
    /// and otherwise the message is accepted.
    pub open spec fn after_try_send(self, slot: usize, msg: T) -> Self {
        if self.is_parked(slot) {
            self.with_slot(slot, Parking { has_waker: false, is_parked: true })
        } else if !self.is_open {
            self
        } else {
            self.sent(slot, msg)
        }
    }
}

impl<T> BoundedModel<T> {
    /// What a poll of this sender for capacity answers.
    pub open spec fn ready(self, slot: usize) -> Poll<Result<(), SendErrorKind>> {
        if !self.is_open {
            Poll::Ready(Err(SendErrorKind::Disconnected))
        } else if self.is_parked(slot) {
            Poll::Pending
        } else {
            Poll::Ready(Ok(()))
        }
    }

    /// The channel after a sender has polled for capacity: a parked sender
    /// of an open channel has left its wake handle.
    pub open spec fn after_poll_ready(self, slot: usize) -> Self {
        if self.is_open && self.is_parked(slot) {
            self.with_slot(slot, Parking { has_waker: true, is_parked: true })
        } else {
            self
        }
    }

    /// What the receiver gets when it asks for the next message: the oldest
    /// message if there is one, the end of the stream if the channel is
    /// closed and empty, and else nothing yet.
    pub open spec fn next(self) -> Poll<Option<T>> {
        if self.messages.len() > 0 {
            Poll::Ready(Some(self.messages[0]))
        } else if self.is_open {
            Poll::Pending
        } else {
            Poll::Ready(None)
        }
    }

    /// The channel after the receiver has taken the oldest message: the
    /// sender that has been parked longest is unparked.
    pub open spec fn taken(self) -> Self {
        if self.parked.len() > 0 {
            BoundedModel {
                messages: self.messages.drop_first(),
                received: self.received + 1,
                parked: self.parked.drop_first(),
                causes: self.causes.drop_first(),
                holding: self.holding.remove(self.parked[0]),
                slots: self.slots.update(
                    self.parked[0] as int,
                    Parking { has_waker: false, is_parked: false },
                ),
                ..self
            }
        } else {
            BoundedModel {
                messages: self.messages.drop_first(),
                received: self.received + 1,
                ..self
            }
        }
    }

    /// The channel after the receiver has asked for the next message.
    pub open spec fn after_next(self) -> Self {
        if self.messages.len() > 0 {
            self.taken()
        } else {
            self
        }
    }

    /// The channel after the receiver has polled for the next message with
    /// a wake handle: the handle stays behind if nothing was ready.
    pub open spec fn after_poll_next(self) -> Self {
        if self.messages.len() > 0 {
            self.taken()
        } else if self.is_open {
            BoundedModel { recv_waiting: true, ..self }
        } else {
            self
        }
    }

    /// The channel after the receiver has closed it: every parked sender is
    /// unparked, the messages stay.
    pub open spec fn closed_by_receiver(self) -> Self {
        BoundedModel {
            is_open: false,
            parked: Seq::empty(),
            causes: Seq::empty(),
            slots: Seq::new(
                self.slots.len(),
                |i: int|
                    if self.slots[i].is_parked {
                        Parking { has_waker: false, is_parked: false }
                    } else {
                        self.slots[i]
                    },
            ),
            ..self
        }
    }

    /// The channel after a sender has closed it: the receiver is woken.
    pub open spec fn closed_by_sender(self) -> Self {
        BoundedModel { is_open: false, recv_waiting: false, ..self }
    }

    /// The channel after one more sender has been made.
    pub open spec fn cloned(self) -> Self {
        BoundedModel {
            slots: self.slots.push(Parking { has_waker: false, is_parked: false }),
            live: self.live.insert(self.slots.len() as usize),
            ..self
        }
    }

    /// The channel after a sender has been dropped: the last one closes it.
    pub open spec fn dropped(self, slot: usize) -> Self {
        if self.live.len() == 1 {
            BoundedModel { live: self.live.remove(slot), ..self }.closed_by_sender()
        } else {
            BoundedModel { live: self.live.remove(slot), ..self }
        }
    }

    /// The channel after the receiver has been dropped: closed, with no
    /// message left in it.
    pub open spec fn drained(self) -> Self {
        BoundedModel {
            messages: Seq::empty(),
            received: self.received + self.messages.len(),
            ..self.closed_by_receiver()
        }
    }

    /// An accepted send keeps the channel in order.
    pub proof fn lemma_sent_inv(self, slot: usize, msg: T)
        requires
            self.inv(),
            self.live.contains(slot),
            self.accepts(slot),
            self.messages.len() < MAX_CAPACITY,
        ensures
            self.sent(slot, msg).inv(),
    {
        let next = self.sent(slot, msg);
        if self.next_send_parks() {
            if self.holding.contains(slot) {
                assert(self.parked.contains(slot));
                let j = choose|j: int| 0 <= j < self.parked.len() && self.parked[j] == slot;
                assert(self.slots[self.parked[j] as int].is_parked);
            }
            assert forall|j: int| 0 <= j < next.parked.len() implies next.holding.contains(
                #[trigger] next.parked[j],
            ) by {
                if j < self.parked.len() {
                    assert(self.parked[j] == next.parked[j]);
                }
            }
            assert forall|s: usize| #[trigger] next.holding.contains(s) implies next.parked.contains(
                s,
            ) by {
                if s == slot {
                    assert(next.parked[self.parked.len() as int] == slot);
                } else {
                    assert(self.holding.contains(s));
                    let j = choose|j: int| 0 <= j < self.parked.len() && self.parked[j] == s;
                    assert(next.parked[j] == s);
                }
            }
            assert forall|j: int| 0 <= j < next.parked.len() implies (#[trigger] next.parked[j])
                < next.slots.len() && next.slots[next.parked[j] as int].is_parked by {
                if j < self.parked.len() {
                    assert(self.parked[j] == next.parked[j]);
                }
            }
            assert forall|i: int|
                0 <= i < next.slots.len() && (#[trigger] next.slots[i]).is_parked implies next.parked.contains(
                i as usize,
            ) by {
                if i == slot as int {
                    assert(next.parked[self.parked.len() as int] == slot);
                } else {
                    assert(self.slots[i].is_parked);
                    let j = choose|j: int| 0 <= j < self.parked.len() && self.parked[j] == i as usize;
                    assert(next.parked[j] == i as usize);
                }
            }
            assert(next.parked.no_duplicates()) by {
                assert forall|i: int, j: int|
                    0 <= i < next.parked.len() && 0 <= j < next.parked.len() && i != j implies next.parked[i]
                    != next.parked[j] by {
                    if i < self.parked.len() {
                        assert(self.slots[self.parked[i] as int].is_parked);
                    }
                    if j < self.parked.len() {
                        assert(self.slots[self.parked[j] as int].is_parked);
                    }
                }
            }
            assert forall|j: int| 0 <= j < next.causes.len() implies next.received + j <= (
            #[trigger] next.causes[j]) < next.received + next.messages.len() by {
                if j < self.causes.len() {
                    assert(next.causes[j] == self.causes[j]);
                } else if j > 0 {
                    assert(self.received + (j - 1) <= self.causes[j - 1]);
                }
            }
        } else {
            assert forall|j: int| 0 <= j < next.causes.len() implies next.received + j <= (
            #[trigger] next.causes[j]) < next.received + next.messages.len() by {
                assert(next.causes[j] == self.causes[j]);
            }
        }
    }

    /// An attempt to send keeps the channel in order.
    pub proof fn lemma_try_send_inv(self, slot: usize, msg: T)
        requires
            self.inv(),
            self.live.contains(slot),
            self.accepts(slot) ==> self.messages.len() < MAX_CAPACITY,
        ensures
            self.after_try_send(slot, msg).inv(),
    {
        if self.is_parked(slot) {
            self.lemma_with_waker_inv(slot, false);
        } else if self.is_open {
            self.lemma_sent_inv(slot, msg);
        }
    }

    /// A parked sender may leave or lose its wake handle.
    pub proof fn lemma_with_waker_inv(self, slot: usize, has_waker: bool)
        requires
            self.inv(),
            slot < self.slots.len(),
            self.is_parked(slot),
        ensures
            self.with_slot(slot, Parking { has_waker, is_parked: true }).inv(),
    {
        let next = self.with_slot(slot, Parking { has_waker, is_parked: true });
        assert forall|j: int| 0 <= j < next.parked.len() implies (#[trigger] next.parked[j])
            < next.slots.len() && next.slots[next.parked[j] as int].is_parked by {
            assert(self.slots[self.parked[j] as int].is_parked);
        }
        assert forall|i: int|
            0 <= i < next.slots.len() && (#[trigger] next.slots[i]).is_parked implies next.parked.contains(
            i as usize,
        ) by {
            assert(self.slots[i].is_parked);
        }
        assert forall|i: int|
            0 <= i < next.slots.len() && !(#[trigger] next.slots[i]).is_parked implies !next.slots[i].has_waker by {
            assert(!self.slots[i].is_parked);
        }
    }

    /// A poll for capacity keeps the channel in order.
    pub proof fn lemma_poll_ready_inv(self, slot: usize)
        requires
            self.inv(),
            self.live.contains(slot),
        ensures
            self.after_poll_ready(slot).inv(),
    {
        if self.is_open && self.is_parked(slot) {
            self.lemma_with_waker_inv(slot, true);
        }
    }

    /// Taking the oldest message keeps the channel in order.
    pub proof fn lemma_taken_inv(self)
        requires
            self.inv(),
            self.messages.len() > 0,
        ensures
            self.taken().inv(),
    {
        let next = self.taken();
        if self.parked.len() > 0 {
            let first = self.parked[0];
            assert(self.holding.contains(self.parked[0]));
            assert forall|j: int| 0 <= j < next.parked.len() implies next.holding.contains(
                #[trigger] next.parked[j],
            ) by {
                assert(next.parked[j] == self.parked[j + 1]);
                assert(self.holding.contains(self.parked[j + 1]));
            }
            if self.is_open {
                assert forall|s: usize| #[trigger] next.holding.contains(s) implies next.parked.contains(
                    s,
                ) by {
                    assert(self.holding.contains(s));
                    let j = choose|j: int| 0 <= j < self.parked.len() && self.parked[j] == s;
                    assert(next.parked[j - 1] == s);
                }
            }
            assert forall|j: int| 0 <= j < next.parked.len() implies (#[trigger] next.parked[j])
                < next.slots.len() && next.slots[next.parked[j] as int].is_parked by {
                assert(next.parked[j] == self.parked[j + 1]);
                assert(self.slots[self.parked[j + 1] as int].is_parked);
                assert(self.parked[j + 1] != self.parked[0]);
            }
            assert forall|i: int|
                0 <= i < next.slots.len() && (#[trigger] next.slots[i]).is_parked implies next.parked.contains(
                i as usize,
            ) by {
                assert(self.slots[i].is_parked);
                let j = choose|j: int| 0 <= j < self.parked.len() && self.parked[j] == i as usize;
                assert(j != 0);
                assert(next.parked[j - 1] == i as usize);
            }
            assert forall|i: int|
                0 <= i < next.slots.len() && !(#[trigger] next.slots[i]).is_parked implies !next.slots[i].has_waker by {
                if i != first as int {
                    assert(!self.slots[i].is_parked);
                }
            }
            assert(next.parked.no_duplicates()) by {
                assert forall|i: int, j: int|
                    0 <= i < next.parked.len() && 0 <= j < next.parked.len() && i != j implies next.parked[i]
                    != next.parked[j] by {
                    assert(next.parked[i] == self.parked[i + 1]);
                    assert(next.parked[j] == self.parked[j + 1]);
                }
            }
            assert forall|j: int| 0 <= j < next.causes.len() implies next.received + j <= (
            #[trigger] next.causes[j]) < next.received + next.messages.len() by {
                assert(next.causes[j] == self.causes[j + 1]);
            }
        }
    }

    /// Asking for the next message keeps the channel in order.
    pub proof fn lemma_next_inv(self)
        requires
            self.inv(),
        ensures
            self.after_next().inv(),
            self.after_poll_next().inv(),
    {
        if self.messages.len() > 0 {
            self.lemma_taken_inv();
        }
    }

    /// Closing from the receiver's side keeps the channel in order.
    pub proof fn lemma_closed_by_receiver_inv(self)
        requires
            self.inv(),
        ensures
            self.closed_by_receiver().inv(),
            self.drained().inv(),
    {
        let next = self.closed_by_receiver();
        assert forall|i: int|
            0 <= i < next.slots.len() && !(#[trigger] next.slots[i]).is_parked implies !next.slots[i].has_waker by {
            if !self.slots[i].is_parked {
                assert(!self.slots[i].has_waker);
            }
        }
    }

    /// Closing from a sender's side keeps the channel in order.
    pub proof fn lemma_closed_by_sender_inv(self)
        requires
            self.inv(),
        ensures
            self.closed_by_sender().inv(),
    {
    }

    /// Making one more sender keeps the channel in order, as long as the
    /// limit on senders is not reached.
    pub proof fn lemma_cloned_inv(self)
        requires
            self.inv(),
            self.live.len() < MAX_CAPACITY - self.buffer,
            self.slots.len() < usize::MAX,
        ensures
            self.cloned().inv(),
            !self.live.contains(self.slots.len() as usize),
            self.cloned().live.len() == self.live.len() + 1,
    {
        let next = self.cloned();
        let fresh = self.slots.len() as usize;
        if self.live.contains(fresh) {
            assert(fresh < self.slots.len());
        }
        assert forall|j: int| 0 <= j < next.parked.len() implies (#[trigger] next.parked[j])
            < next.slots.len() && next.slots[next.parked[j] as int].is_parked by {
            assert(self.slots[self.parked[j] as int].is_parked);
        }
        assert forall|i: int|
            0 <= i < next.slots.len() && (#[trigger] next.slots[i]).is_parked implies next.parked.contains(
            i as usize,
        ) by {
            assert(self.slots[i].is_parked);
        }
        assert forall|i: int|
            0 <= i < next.slots.len() && !(#[trigger] next.slots[i]).is_parked implies !next.slots[i].has_waker by {
            if i < self.slots.len() {
                assert(!self.slots[i].is_parked);
            }
        }
        assert forall|s: usize| #[trigger] next.live.contains(s) implies s < next.slots.len() by {
            if s != fresh {
                assert(self.live.contains(s));
            }
        }
    }

    /// Dropping a sender keeps the channel in order.
    pub proof fn lemma_dropped_inv(self, slot: usize)
        requires
            self.inv(),
            self.live.contains(slot),
        ensures
            self.dropped(slot).inv(),
            self.dropped(slot).live.len() == self.live.len() - 1,
    {
        let next = self.dropped(slot);
        assert forall|s: usize| #[trigger] next.live.contains(s) implies s < next.slots.len() by {
            assert(self.live.contains(s));
        }
    }
}

/// The state that the handles of one bounded channel share.
pub struct BoundedInner<T> {
    // Size of the buffer that all senders share.
    buffer: usize,
    // The open flag and the number of messages, packed into one word.
    state: usize,
    // The messages on their way to the receiver.
    message_queue: Queue<T>,
    // The receiver's wake handle.
    recv_task: WakerSlot,
    // The parking slots of the parked senders, for the receiver to unpark.
    parked_queue: Queue<usize>,
    // Number of senders in existence.
    num_senders: usize,
    // One parking slot for each sender that has ever existed.
    sender_tasks: Vec<SenderTask>,
    live: Ghost<Set<usize>>,
    holding: Ghost<Set<usize>>,
    received: Ghost<nat>,
    causes: Ghost<Seq<nat>>,
}

impl<T> View for BoundedInner<T> {
    type V = BoundedModel<T>;

    closed spec fn view(&self) -> BoundedModel<T> {
        BoundedModel {
            buffer: self.buffer as nat,
            is_open: decode(self.state).is_open,
            messages: self.message_queue@,
            parked: self.parked_queue@,
            slots: self.sender_tasks@.map_values(|t: SenderTask| t@),
            live: self.live@,
            holding: self.holding@,
            recv_waiting: self.recv_task.is_waiting(),
            received: self.received@,
            causes: self.causes@,
        }
    }
}

impl<T> BoundedInner<T> {
    /// The counters agree with what they count.
    pub closed spec fn consistent(&self) -> bool {
        &&& decode(self.state).num_messages == self.message_queue@.len()
        &&& self.num_senders == self.live@.len()
    }

    /// The shared state is in order.
    pub open spec fn wf(&self) -> bool {
        self.consistent() && self@.inv()
    }

    // Everything but the parking slots is as in `other`.
    spec fn same_but_slots(&self, other: &Self) -> bool {
        &&& self.buffer == other.buffer
        &&& self.state == other.state
        &&& self.message_queue == other.message_queue
        &&& self.recv_task == other.recv_task
        &&& self.parked_queue == other.parked_queue
        &&& self.num_senders == other.num_senders
        &&& self.live == other.live
        &&& self.holding == other.holding
        &&& self.received == other.received
        &&& self.causes == other.causes
    }

    // Everything but the parking slots and the queue of parked senders is as
    // in `other`.
    spec fn same_but_queues(&self, other: &Self) -> bool {
        &&& self.buffer == other.buffer
        &&& self.state == other.state
        &&& self.message_queue == other.message_queue
        &&& self.recv_task == other.recv_task
        &&& self.num_senders == other.num_senders
        &&& self.live == other.live
        &&& self.received == other.received
    }

    // The parking slots are as in `other`, but for one.
    spec fn slots_but(&self, other: &Self, slot: usize) -> bool {
        &&& self.sender_tasks@.len() == other.sender_tasks@.len()
        &&& forall|i: int|
            0 <= i < self.sender_tasks@.len() && i != slot ==> self.sender_tasks@[i]
                == other.sender_tasks@[i]
    }

    // Push message to the queue and signal to the receiver
    fn queue_push_and_signal(&mut self, msg: T)
        ensures
            final(self).message_queue@ == old(self).message_queue@.push(msg),
            !final(self).recv_task.is_waiting(),
            final(self).buffer == old(self).buffer,
            final(self).state == old(self).state,
            final(self).parked_queue == old(self).parked_queue,
            final(self).num_senders == old(self).num_senders,
            final(self).sender_tasks == old(self).sender_tasks,
            final(self).live == old(self).live,
            final(self).holding == old(self).holding,
            final(self).received == old(self).received,
            final(self).causes == old(self).causes,
    {
        // Push the message onto the message queue
        self.message_queue.push(msg);

        // Signal to the receiver that a message has been enqueued. If the
        // receiver is parked, this will unpark the task.
        self.recv_task.wake();
    }

    // Increment the number of queued messages. Returns new `num_messages`.
    fn inc_num_messages(&mut self) -> (r: Option<usize>)
        requires
            decode(old(self).state).is_open ==> decode(old(self).state).num_messages
                < MAX_CAPACITY,
        ensures
            r == (if decode(old(self).state).is_open {
                Some((decode(old(self).state).num_messages + 1) as usize)
            } else {
                None
            }),
            decode(final(self).state).is_open == decode(old(self).state).is_open,
            decode(final(self).state).num_messages == (if decode(old(self).state).is_open {
                decode(old(self).state).num_messages + 1
            } else {
                decode(old(self).state).num_messages as int
            }),
            final(self).buffer == old(self).buffer,
            final(self).message_queue == old(self).message_queue,
            final(self).recv_task == old(self).recv_task,
            final(self).parked_queue == old(self).parked_queue,
            final(self).num_senders == old(self).num_senders,
            final(self).sender_tasks == old(self).sender_tasks,
            final(self).live == old(self).live,
            final(self).holding == old(self).holding,
            final(self).received == old(self).received,
            final(self).causes == old(self).causes,
    {
        match increment(self.state) {
            Some((next, num_messages)) => {
                self.state = next;
                Some(num_messages)
            },
            None => None,
        }
    }

    // Clear `open` flag in the state, keep `num_messages` intact.
    fn set_closed(&mut self)
        ensures
            !decode(final(self).state).is_open,
            decode(final(self).state).num_messages == decode(old(self).state).num_messages,
            final(self).buffer == old(self).buffer,
            final(self).message_queue == old(self).message_queue,
            final(self).recv_task == old(self).recv_task,
            final(self).parked_queue == old(self).parked_queue,
            final(self).num_senders == old(self).num_senders,
            final(self).sender_tasks == old(self).sender_tasks,
            final(self).live == old(self).live,
            final(self).holding == old(self).holding,
            final(self).received == old(self).received,
            final(self).causes == old(self).causes,
    {
        self.state = close(self.state);
    }

    fn dec_num_messages(&mut self)
        requires
            decode(old(self).state).num_messages > 0,
        ensures
            decode(final(self).state).is_open == decode(old(self).state).is_open,
            decode(final(self).state).num_messages == decode(old(self).state).num_messages - 1,
            final(self).buffer == old(self).buffer,
            final(self).message_queue == old(self).message_queue,
            final(self).recv_task == old(self).recv_task,
            final(self).parked_queue == old(self).parked_queue,
            final(self).num_senders == old(self).num_senders,
            final(self).sender_tasks == old(self).sender_tasks,
            final(self).live == old(self).live,
            final(self).holding == old(self).holding,
            final(self).received == old(self).received,
            final(self).causes == old(self).causes,
    {
        self.state = decrement(self.state);
    }

    // Unpark a single task handle if there is one pending in the parked queue
    fn unpark_one(&mut self)
        requires
            forall|j: int|
                0 <= j < old(self).parked_queue@.len() ==> (#[trigger] old(self).parked_queue@[j])
                    < old(self).sender_tasks@.len(),
            old(self).causes@.len() == old(self).parked_queue@.len(),
        ensures
            final(self).same_but_queues(old(self)),
            old(self).parked_queue@.len() == 0 ==> {
                &&& final(self).parked_queue@ == old(self).parked_queue@
                &&& final(self).causes@ == old(self).causes@
                &&& final(self).holding@ == old(self).holding@
                &&& final(self).sender_tasks@ == old(self).sender_tasks@
            },
            old(self).parked_queue@.len() > 0 ==> {
                &&& final(self).parked_queue@ == old(self).parked_queue@.drop_first()
                &&& final(self).causes@ == old(self).causes@.drop_first()
                &&& final(self).holding@ == old(self).holding@.remove(old(self).parked_queue@[0])
                &&& final(self).slots_but(old(self), old(self).parked_queue@[0])
                &&& final(self).sender_tasks@[old(self).parked_queue@[0] as int]@ == (Parking {
                    has_waker: false,
                    is_parked: false,
                })
            },
    {
        if let Some(task) = self.parked_queue.pop() {
            assert(task == old(self).parked_queue@[0]);
            self.sender_tasks[task].notify();
            proof {
                self.causes@ = self.causes@.drop_first();
                self.holding@ = self.holding@.remove(task);
            }
        }
    }

    /// The most senders that the channel may have at one time: with no
    /// more, the messages in flight never go beyond what the state word can
    /// count.
    pub fn max_senders(&self) -> (n: usize)
        requires
            self.wf(),
        ensures
            n == MAX_CAPACITY - self@.buffer,
    {
        proof {
            lemma_constants();
        }
        MAX_CAPACITY - self.buffer
    }

    /// The number of senders that have not been dropped.
    pub fn num_senders(&self) -> (n: usize)
        requires
            self.wf(),
        ensures
            n == self@.live.len(),
    {
        self.num_senders
    }

    /// The number of messages in flight.
    pub fn num_messages(&self) -> (n: usize)
        requires
            self.wf(),
        ensures
            n == self@.messages.len(),
    {
        decode_state(self.state).num_messages
    }

    /// The size of the buffer that all senders share.
    pub fn buffer(&self) -> (n: usize)
        ensures
            n == self@.buffer,
    {
        self.buffer
    }

    /// The number of senders that are parked.
    pub fn num_parked(&self) -> (n: usize)
        ensures
            n == self@.parked.len(),
    {
        self.parked_queue.len()
    }
}

/// The sending end of a bounded channel.
#[derive(Debug)]
pub struct Sender {
    // The parking slot of this sender in the shared state.
    sender_task: usize,
    // True if the sender might be parked: it saves a look at the slot.
    maybe_parked: bool,
}

/// The receiving end of a bounded channel.
#[derive(Debug)]
pub struct Receiver {
    _inner: (),
}

/// Creates a bounded channel: its shared state, its first sender and its
/// receiver. Each sender may always have one message in flight; `buffer`
/// more are shared by all senders.
pub fn channel<T>(buffer: usize) -> (r: (Sender, Receiver, BoundedInner<T>))
    requires
        buffer <= MAX_BUFFER,
    ensures
        r.2.wf(),
        r.2@ == BoundedModel::<T>::initial(buffer as nat),
        r.0.slot() == 0,
        !r.0.maybe_parked(),
        r.0.wf(r.2@),
{
    let mut sender_tasks: Vec<SenderTask> = Vec::new();
    sender_tasks.push(SenderTask::new());
    let inner = BoundedInner {
        buffer,
        state: INIT_STATE,
        message_queue: Queue::new(),
        recv_task: WakerSlot::new(),
        parked_queue: Queue::new(),
        num_senders: 1,
        sender_tasks,
        live: Ghost(Set::empty().insert(0usize)),
        holding: Ghost(Set::empty()),
        received: Ghost(0nat),
        causes: Ghost(Seq::empty()),
    };
    let tx = Sender { sender_task: 0, maybe_parked: false };
    let rx = Receiver { _inner: () };
    proof {
        lemma_constants();
        assert(inner@.slots =~= seq![Parking { has_waker: false, is_parked: false }]);
        assert(inner@.live.len() == 1);
    }
    (tx, rx, inner)
}

impl Sender {
    /// The parking slot of this sender.
    pub closed spec fn slot(&self) -> usize {
        self.sender_task
    }

    /// Whether this sender believes that it may be parked.
    pub closed spec fn maybe_parked(&self) -> bool {
        self.maybe_parked
    }

    /// The sender belongs to the channel, has not been dropped, and knows
    /// of it when it is parked.
    pub open spec fn wf<T>(&self, channel: BoundedModel<T>) -> bool {
        &&& channel.live.contains(self.slot())
        &&& channel.is_parked(self.slot()) ==> self.maybe_parked()
    }

    /// Attempts to send a message, and hands it back in the error if the
    /// sender is parked or the channel is closed. Where the message would
    /// be accepted, the count of messages must have room for it.
    pub fn try_send<T>(&mut self, inner: &mut BoundedInner<T>, msg: T) -> (r: Result<
        (),
        TrySendError<T>,
    >)
        requires
            old(inner).wf(),
            old(self).wf(old(inner)@),
            old(inner)@.accepts(old(self).slot()) ==> old(inner)@.messages.len() < MAX_CAPACITY,
        ensures
            final(inner).wf(),
            final(self).wf(final(inner)@),
            final(self).slot() == old(self).slot(),
            final(self).maybe_parked() == final(inner)@.is_parked(old(self).slot()),
            final(inner)@ == old(inner)@.after_try_send(old(self).slot(), msg),
            r is Ok <==> old(inner)@.accepts(old(self).slot()),
            r matches Err(e) ==> e.value() == msg && e.kind() == (if old(inner)@.is_parked(
                old(self).slot(),
            ) {
                SendErrorKind::Full
            } else {
                SendErrorKind::Disconnected
            }),
    {
        proof {
            old(inner)@.lemma_try_send_inv(self.sender_task, msg);
        }
        // If the sender is currently blocked, reject the message
        if !is_ready(&self.poll_unparked(inner, None)) {
            proof {
                assert(inner@.slots =~= old(inner)@.after_try_send(
                    self.sender_task,
                    msg,
                ).slots);
            }
            return Err(TrySendError::new(SendErrorKind::Full, msg));
        }
        proof {
            assert(inner.sender_tasks@ =~= old(inner).sender_tasks@);
        }

        // The channel has capacity to accept the message, so send it
        self.do_send_b(inner, msg)
    }

    /// Sends a message on the channel. It is meant to be called after
    /// `poll_ready` has reported capacity.
    pub fn start_send<T>(&mut self, inner: &mut BoundedInner<T>, msg: T) -> (r: Result<
        (),
        SendError,
    >)
        requires
            old(inner).wf(),
            old(self).wf(old(inner)@),
            old(inner)@.accepts(old(self).slot()) ==> old(inner)@.messages.len() < MAX_CAPACITY,
        ensures
            final(inner).wf(),
            final(self).wf(final(inner)@),
            final(self).slot() == old(self).slot(),
            final(self).maybe_parked() == final(inner)@.is_parked(old(self).slot()),
            final(inner)@ == old(inner)@.after_try_send(old(self).slot(), msg),
            r is Ok <==> old(inner)@.accepts(old(self).slot()),
            r matches Err(e) ==> e@ == (if old(inner)@.is_parked(old(self).slot()) {
                SendErrorKind::Full
            } else {
                SendErrorKind::Disconnected
            }),
    {
        match self.try_send(inner, msg) {
            Ok(()) => Ok(()),
            Err(e) => Err(e.into_send_error()),
        }
    }

    // Do the send without failing.
    // Can be called only by bounded sender.
    fn do_send_b<T>(&mut self, inner: &mut BoundedInner<T>, msg: T) -> (r: Result<
        (),
        TrySendError<T>,
    >)
        requires
            old(inner).wf(),
            old(inner)@.live.contains(old(self).sender_task),
            !old(inner)@.is_parked(old(self).sender_task),
            !old(self).maybe_parked,
            old(inner)@.is_open ==> old(inner)@.messages.len() < MAX_CAPACITY,
        ensures
            final(inner).consistent(),
            final(self).sender_task == old(self).sender_task,
            final(self).maybe_parked == final(inner)@.is_parked(old(self).sender_task),
            final(inner)@ == old(inner)@.after_try_send(old(self).sender_task, msg),
            r is Ok <==> old(inner)@.is_open,
            r matches Err(e) ==> e.value() == msg && e.kind() == SendErrorKind::Disconnected,
    {
        // First, increment the number of messages contained by the channel.
        // This operation will also atomically determine if the sender task
        // should be parked.
        //
        // None is returned in the case that the channel has been closed by the
        // receiver. This happens when `Receiver::close` is called or the
        // receiver is dropped.
        let park_self = match inner.inc_num_messages() {
            Some(num_messages) => {
                // Block if the current number of pending messages has exceeded
                // the configured buffer size
                num_messages > inner.buffer
            },
            None => {
                proof {
                    assert(inner.sender_tasks@ =~= old(inner).sender_tasks@);
                }
                return Err(TrySendError::new(SendErrorKind::Disconnected, msg));
            },
        };

        // If the channel has reached capacity, then the sender task needs to
        // be parked. This will send the task handle on the parked task queue.
        if park_self {
            self.park(inner);
        }
        inner.queue_push_and_signal(msg);

        proof {
            let want = old(inner)@.sent(self.sender_task, msg);
            assert(inner@.slots =~= want.slots);
            assert(inner@.parked =~= want.parked);
            assert(inner@.causes =~= want.causes);
        }
        Ok(())
    }

    fn park<T>(&mut self, inner: &mut BoundedInner<T>)
        requires
            old(self).sender_task < old(inner).sender_tasks.len(),
        ensures
            final(self).sender_task == old(self).sender_task,
            final(self).maybe_parked == decode(old(inner).state).is_open,
            final(inner).slots_but(old(inner), old(self).sender_task),
            final(inner).sender_tasks@[old(self).sender_task as int]@ == (Parking {
                has_waker: false,
                is_parked: true,
            }),
            final(inner).parked_queue@ == old(inner).parked_queue@.push(old(self).sender_task),
            final(inner).causes@ == old(inner).causes@.push(
                old(inner).received@ + old(inner).message_queue@.len(),
            ),
            final(inner).buffer == old(inner).buffer,
            final(inner).state == old(inner).state,
            final(inner).message_queue == old(inner).message_queue,
            final(inner).recv_task == old(inner).recv_task,
            final(inner).num_senders == old(inner).num_senders,
            final(inner).live == old(inner).live,
            final(inner).holding@ == old(inner).holding@.insert(old(self).sender_task),
            final(inner).received == old(inner).received,
    {
        inner.sender_tasks[self.sender_task].park();

        // Send handle over queue
        let t = self.sender_task;
        inner.parked_queue.push(t);
        proof {
            inner.causes@ = inner.causes@.push(inner.received@ + inner.message_queue@.len());
            inner.holding@ = inner.holding@.insert(self.sender_task);
        }

        // Check to make sure we weren't closed after we sent our task on the
        // queue
        let state = decode_state(inner.state);
        self.maybe_parked = state.is_open;
    }

    /// Polls the channel for capacity: ready if this sender may send, an
    /// error if the channel is closed, and pending if the sender is parked,
    /// in which case the wake handle is left for the receiver to wake.
    pub fn poll_ready<T>(&mut self, inner: &mut BoundedInner<T>, lw: &Waker) -> (r: Poll<
        Result<(), SendError>,
    >)
        requires
            old(inner).wf(),
            old(self).wf(old(inner)@),
        ensures
            final(inner).wf(),
            final(self).wf(final(inner)@),
            final(self).slot() == old(self).slot(),
            final(inner)@ == old(inner)@.after_poll_ready(old(self).slot()),
            match r {
                Poll::Ready(Ok(())) => old(inner)@.ready(old(self).slot()) == Poll::<
                    Result<(), SendErrorKind>,
                >::Ready(Ok(())),
                Poll::Ready(Err(e)) => old(inner)@.ready(old(self).slot()) == Poll::<
                    Result<(), SendErrorKind>,
                >::Ready(Err(e@)),
                Poll::Pending => old(inner)@.ready(old(self).slot()) is Pending,
            },
    {
        proof {
            old(inner)@.lemma_poll_ready_inv(self.sender_task);
        }
        let state = decode_state(inner.state);
        if !state.is_open {
            return Poll::Ready(Err(SendError::new(SendErrorKind::Disconnected)));
        }
        let r = match self.poll_unparked(inner, Some(lw)) {
            Poll::Ready(()) => Poll::Ready(Ok(())),
            Poll::Pending => Poll::Pending,
        };
        proof {
            assert(inner@.slots =~= old(inner)@.after_poll_ready(self.sender_task).slots);
        }
        r
    }

    /// Returns whether this channel is closed without needing a context.
    pub fn is_closed<T>(&self, inner: &BoundedInner<T>) -> (r: bool)
        ensures
            r == !inner@.is_open,
    {
        !decode_state(inner.state).is_open
    }

    /// Closes this channel from the sender side, preventing any new messages.
    pub fn close_channel<T>(&mut self, inner: &mut BoundedInner<T>)
        requires
            old(inner).wf(),
        ensures
            final(inner).wf(),
            final(inner)@ == old(inner)@.closed_by_sender(),
            *final(self) == *old(self),
    {
        proof {
            old(inner)@.lemma_closed_by_sender_inv();
        }
        // There's no need to park this sender, its dropping,
        // and we don't want to check for capacity, so skip
        // that stuff from `do_send`.
        inner.set_closed();
        inner.recv_task.wake();
    }

    fn poll_unparked<T>(&mut self, inner: &mut BoundedInner<T>, lw: Option<&Waker>) -> (r: Poll<
        (),
    >)
        requires
            old(self).sender_task < old(inner).sender_tasks.len(),
            old(inner).sender_tasks[old(self).sender_task as int]@.is_parked ==> old(self).maybe_parked,
        ensures
            final(self).sender_task == old(self).sender_task,
            final(inner).same_but_slots(old(inner)),
            final(inner).slots_but(old(inner), old(self).sender_task),
            old(inner).sender_tasks[old(self).sender_task as int]@.is_parked ==> r is Pending
                && final(self).maybe_parked && final(inner).sender_tasks[old(self).sender_task as int]@ == (Parking { has_waker: lw is Some, is_parked: true }),
            !old(inner).sender_tasks[old(self).sender_task as int]@.is_parked ==> r is Ready
                && !final(self).maybe_parked && final(inner).sender_tasks[old(self).sender_task as int] == old(inner).sender_tasks[old(self).sender_task as int],
    {
        // First check the `maybe_parked` variable. This avoids acquiring the
        // lock in most cases
        if self.maybe_parked {
            // Get a lock on the task handle
            let task = &mut inner.sender_tasks[self.sender_task];

            if !task.is_parked() {
                self.maybe_parked = false;
                return Poll::Ready(());
            }
            // At this point, an unpark request is pending, so there will be an
            // unpark sometime in the future. We just need to make sure that
            // the correct task will be notified.
            //
            // Update the task in case the `Sender` has been moved to another
            // task
            task.register(lw);

            Poll::Pending
        } else {
            Poll::Ready(())
        }
    }
}

impl Sender {
    /// Makes one more sender for the channel, with a parking slot of its
    /// own. The number of senders must stay under the channel's limit on
    /// senders.
    pub fn clone<T>(&self, inner: &mut BoundedInner<T>) -> (tx: Sender)
        requires
            old(inner).wf(),
            old(inner)@.live.len() < MAX_CAPACITY - old(inner)@.buffer,
        ensures
            final(inner).wf(),
            final(inner)@ == old(inner)@.cloned(),
            tx.slot() == old(inner)@.slots.len(),
            !tx.maybe_parked(),
            tx.wf(final(inner)@),
            self.wf(old(inner)@) ==> self.wf(final(inner)@),
    {
        let curr = inner.num_senders;
        let slot = inner.sender_tasks.len();

        proof {
            lemma_constants();
        }
        let next = curr + 1;
        inner.num_senders = next;
        inner.sender_tasks.push(SenderTask::new());
        proof {
            assert(inner.sender_tasks.len() == inner.sender_tasks@.len());
            old(inner)@.lemma_cloned_inv();
            inner.live@ = inner.live@.insert(slot);
            assert(inner@.slots =~= old(inner)@.cloned().slots);
        }
        Sender { sender_task: slot, maybe_parked: false }
    }

    /// Gives the sender up. The last sender to go closes the channel and
    /// wakes the receiver.
    pub fn drop<T>(self, inner: &mut BoundedInner<T>)
        requires
            old(inner).wf(),
            self.wf(old(inner)@),
        ensures
            final(inner).wf(),
            final(inner)@ == old(inner)@.dropped(self.slot()),
    {
        proof {
            old(inner)@.lemma_dropped_inv(self.sender_task);
        }
        // Ordering between variables don't matter here
        let prev = inner.num_senders;
        inner.num_senders = prev - 1;
        proof {
            inner.live@ = inner.live@.remove(self.sender_task);
        }

        if prev == 1 {
            inner.set_closed();
            inner.recv_task.wake();
        }
    }
}

impl Receiver {
    /// Closes the receiving half of a channel, without dropping it: no
    /// further message is accepted, the buffered ones can still be taken,
    /// and every parked sender is unparked.
    pub fn close<T>(&mut self, inner: &mut BoundedInner<T>)
        requires
            old(inner).wf(),
        ensures
            final(inner).wf(),
            final(inner)@ == old(inner)@.closed_by_receiver(),
    {
        let ghost start = inner@;
        inner.set_closed();

        // Wake up any threads waiting as they'll see that we've closed the
        // channel and will continue on their merry way.
        let ghost mut done: int = 0;
        loop
            invariant
                start.inv(),
                inner.consistent(),
                0 <= done <= start.parked.len(),
                inner@.parked == start.parked.subrange(done, start.parked.len() as int),
                inner@.slots.len() == start.slots.len(),
                forall|i: int|
                    0 <= i < start.slots.len() ==> (#[trigger] inner@.slots[i]) == (if exists|
                        j: int,
                    |
                        0 <= j < done && start.parked[j] == i {
                        Parking { has_waker: false, is_parked: false }
                    } else {
                        start.slots[i]
                    }),
                inner@.buffer == start.buffer,
                !inner@.is_open,
                inner@.messages == start.messages,
                inner@.live == start.live,
                inner@.holding == start.holding,
                inner@.recv_waiting == start.recv_waiting,
                inner@.received == start.received,
                inner@.causes == start.causes,
            ensures
                done == start.parked.len(),
                inner@.parked.len() == 0,
            decreases inner@.parked.len(),
        {
            let ghost before = inner@;
            match inner.parked_queue.pop() {
                Some(task) => {
                    assert(task == start.parked[done]);
                    inner.sender_tasks[task].notify();
                    proof {
                        assert forall|i: int| 0 <= i < start.slots.len() implies (
                        #[trigger] inner@.slots[i]) == (if exists|j: int|
                            0 <= j < done + 1 && start.parked[j] == i {
                            Parking { has_waker: false, is_parked: false }
                        } else {
                            start.slots[i]
                        }) by {
                            if i == task as int {
                                assert(start.parked[done] == i);
                            } else {
                                assert(inner@.slots[i] == before.slots[i]);
                                if exists|j: int| 0 <= j < done + 1 && start.parked[j] == i {
                                    let j = choose|j: int| 0 <= j < done + 1 && start.parked[j] == i;
                                    assert(j < done);
                                }
                            }
                        }
                        assert(inner@.parked =~= start.parked.subrange(
                            done + 1,
                            start.parked.len() as int,
                        ));
                        done = done + 1;
                    }
                },
                None => {
                    break ;
                },
            }
        }
        proof {
            inner.causes@ = Seq::empty();
            let want = start.closed_by_receiver();
            start.lemma_closed_by_receiver_inv();
            assert forall|i: int| 0 <= i < want.slots.len() implies inner@.slots[i]
                == want.slots[i] by {
                if start.slots[i].is_parked {
                    let j = choose|j: int| 0 <= j < start.parked.len() && start.parked[j] == i as usize;
                    assert(start.parked[j] == i);
                } else {
                    if exists|j: int| 0 <= j < done && start.parked[j] == i {
                        let j = choose|j: int| 0 <= j < done && start.parked[j] == i;
                        assert(start.slots[start.parked[j] as int].is_parked);
                    }
                }
            }
            assert(inner@.slots =~= want.slots);
            assert(inner@.parked =~= want.parked);
        }
    }

    /// Tries to receive the next message without leaving a wake handle.
    /// The error says that the channel is open and empty.
    pub fn try_next<T>(&mut self, inner: &mut BoundedInner<T>) -> (r: Result<
        Option<T>,
        TryRecvError,
    >)
        requires
            old(inner).wf(),
        ensures
            final(inner).wf(),
            final(inner)@ == old(inner)@.after_next(),
            match r {
                Ok(msg) => old(inner)@.next() == Poll::Ready(msg),
                Err(_) => old(inner)@.next() is Pending,
            },
    {
        match self.next_message(inner) {
            Poll::Ready(msg) => { Ok(msg) },
            Poll::Pending => Err(TryRecvError::new()),
        }
    }

    /// Takes the oldest message, if there is one, and unparks the sender
    /// that has been parked longest. With no message, it says whether the
    /// stream has ended or more may come.
    pub fn next_message<T>(&mut self, inner: &mut BoundedInner<T>) -> (r: Poll<Option<T>>)
        requires
            old(inner).wf(),
        ensures
            final(inner).wf(),
            final(inner)@ == old(inner)@.after_next(),
            r == old(inner)@.next(),
    {
        proof {
            old(inner)@.lemma_next_inv();
        }
        // Pop off a message
        match inner.message_queue.pop() {
            Some(msg) => {
                // If there are any parked task handles in the parked queue,
                // pop one and unpark it.
                inner.unpark_one();

                // Decrement number of messages
                inner.dec_num_messages();
                proof {
                    inner.received@ = inner.received@ + 1;
                    let want = old(inner)@.taken();
                    assert(inner@.slots =~= want.slots);
                }

                Poll::Ready(Some(msg))
            },
            None => {
                let state = decode_state(inner.state);
                if state.is_open || state.num_messages != 0 {
                    // If queue is open, we need to return Pending
                    // to be woken up when new messages arrive.
                    // If queue is closed but num_messages is non-zero,
                    // it means that senders updated the state,
                    // but didn't put message to queue yet,
                    // so we need to park until sender unparks the task
                    // after queueing the message.
                    Poll::Pending
                } else {
                    // If closed flag is set AND there are no pending messages
                    // it means end of stream
                    Poll::Ready(None)
                }
            },
        }
    }

    /// Takes the next message as `next_message` does; when nothing is
    /// ready, it leaves the wake handle for a sender to wake.
    pub fn poll_next<T>(&mut self, inner: &mut BoundedInner<T>, lw: &Waker) -> (r: Poll<
        Option<T>,
    >)
        requires
            old(inner).wf(),
        ensures
            final(inner).wf(),
            final(inner)@ == old(inner)@.after_poll_next(),
            r == old(inner)@.next(),
    {
        // Try to read a message off of the message queue.
        match self.next_message(inner) {
            Poll::Ready(msg) => Poll::Ready(msg),
            Poll::Pending => {
                // There are no messages to read, in this case, park.
                inner.recv_task.register(lw);
                // Check queue again after parking to prevent race condition:
                // a message could be added to the queue after previous `next_message`
                // before `register` call.
                self.next_message(inner)
            },
        }
    }

    /// Gives the receiver up: the channel is closed and every message left
    /// in it is dropped.
    pub fn drop<T>(self, inner: &mut BoundedInner<T>)
        requires
            old(inner).wf(),
        ensures
            final(inner).wf(),
            final(inner)@ == old(inner)@.drained(),
    {
        let mut this = self;
        // Drain the channel of all pending messages
        this.close(inner);
        let ghost closed = inner@;
        let ghost mut done: int = 0;
        proof {
            old(inner)@.lemma_closed_by_receiver_inv();
            assert(closed.messages.subrange(0, closed.messages.len() as int) =~= closed.messages);
        }
        loop
            invariant
                closed.parked.len() == 0,
                !closed.is_open,
                inner.wf(),
                0 <= done <= closed.messages.len(),
                inner@ == (BoundedModel {
                    messages: closed.messages.subrange(done, closed.messages.len() as int),
                    received: (closed.received + done) as nat,
                    ..closed
                }),
            ensures
                done == closed.messages.len(),
            decreases inner@.messages.len(),
        {
            match this.next_message(inner) {
                Poll::Ready(Some(_)) => {
                    proof {
                        assert(inner@.messages =~= closed.messages.subrange(
                            done + 1,
                            closed.messages.len() as int,
                        ));
                        done = done + 1;
                    }
                },
                _ => {
                    break ;
                },
            }
        }
        proof {
            assert(inner@.messages =~= Seq::<T>::empty());
        }
    }
}

/// Is the poll ready?
fn is_ready(p: &Poll<()>) -> (r: bool)
    ensures
        r == (*p is Ready),
{
    match p {
        Poll::Ready(_) => true,
        Poll::Pending => false,
    }
}

} // verus!
