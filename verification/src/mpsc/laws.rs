//! What holds of the channels over whole histories: nothing is lost,
//! nothing comes twice, and everything comes in the order of sending.

use super::bounded::BoundedModel;
use super::state::MAX_CAPACITY;
use super::unbounded::UnboundedModel;
use std::task::Poll;
use vstd::prelude::*;

verus! {

/// One operation on a bounded channel.
pub enum Event<T> {
    /// The sender with this parking slot tries to send a message.
    TrySend(usize, T),
    /// The sender with this parking slot polls for capacity.
    PollReady(usize),
    /// The receiver asks for the next message.
    Next,
    /// The receiver polls for the next message with a wake handle.
    PollNext,
    /// A sender closes the channel.
    CloseChannel,
    /// The receiver closes the channel.
    CloseReceiver,
    /// One more sender is made.
    CloneSender,
    /// The sender with this parking slot is dropped.
    DropSender(usize),
}

impl<T> BoundedModel<T> {
    /// May this operation be called on the channel?
    pub open spec fn allows(self, event: Event<T>) -> bool {
        match event {
            Event::TrySend(slot, _) => self.live.contains(slot) && (self.accepts(slot)
                ==> self.messages.len() < MAX_CAPACITY),
            Event::PollReady(slot) => self.live.contains(slot),
            Event::CloneSender => self.live.len() < MAX_CAPACITY - self.buffer && self.slots.len()
                < usize::MAX,
            Event::DropSender(slot) => self.live.contains(slot),
            _ => true,
        }
    }

    /// The channel after the operation.
    pub open spec fn step(self, event: Event<T>) -> Self {
        match event {
            Event::TrySend(slot, msg) => self.after_try_send(slot, msg),
            Event::PollReady(slot) => self.after_poll_ready(slot),
            Event::Next => self.after_next(),
            Event::PollNext => self.after_poll_next(),
            Event::CloseChannel => self.closed_by_sender(),
            Event::CloseReceiver => self.closed_by_receiver(),
            Event::CloneSender => self.cloned(),
            Event::DropSender(slot) => self.dropped(slot),
        }
    }

    /// The message that the operation puts into the channel, if any.
    pub open spec fn accepted_by(self, event: Event<T>) -> Seq<T> {
        match event {
            Event::TrySend(slot, msg) => if self.accepts(slot) {
                seq![msg]
            } else {
                Seq::empty()
            },
            _ => Seq::empty(),
        }
    }

    /// The message that the operation hands to the receiver, if any.
    pub open spec fn delivered_by(self, event: Event<T>) -> Seq<T> {
        match event {
            Event::Next | Event::PollNext => if self.messages.len() > 0 {
                seq![self.messages[0]]
            } else {
                Seq::empty()
            },
            _ => Seq::empty(),
        }
    }

    /// May these operations be called one after the other?
    pub open spec fn allows_all(self, trace: Seq<Event<T>>) -> bool
        decreases trace.len(),
    {
        trace.len() > 0 ==> self.allows(trace[0]) && self.step(trace[0]).allows_all(
            trace.drop_first(),
        )
    }

    /// The channel after the operations, one after the other.
    pub open spec fn run(self, trace: Seq<Event<T>>) -> Self
        decreases trace.len(),
    {
        if trace.len() == 0 {
            self
        } else {
            self.step(trace[0]).run(trace.drop_first())
        }
    }

    /// The messages that the operations put into the channel, in order.
    pub open spec fn accepted(self, trace: Seq<Event<T>>) -> Seq<T>
        decreases trace.len(),
    {
        if trace.len() == 0 {
            Seq::empty()
        } else {
            self.accepted_by(trace[0]) + self.step(trace[0]).accepted(trace.drop_first())
        }
    }

    /// The messages that the operations hand to the receiver, in order.
    pub open spec fn delivered(self, trace: Seq<Event<T>>) -> Seq<T>
        decreases trace.len(),
    {
        if trace.len() == 0 {
            Seq::empty()
        } else {
            self.delivered_by(trace[0]) + self.step(trace[0]).delivered(trace.drop_first())
        }
    }

    /// The channel after the receiver has asked for the next message `n`
    /// times.
    pub open spec fn after_takes(self, n: nat) -> Self
        decreases n,
    {
        if n == 0 {
            self
        } else {
            self.after_next().after_takes((n - 1) as nat)
        }
    }

    /// Every operation keeps the channel in order.
    pub proof fn lemma_step_inv(self, event: Event<T>)
        requires
            self.inv(),
            self.allows(event),
        ensures
            self.step(event).inv(),
    {
        match event {
            Event::TrySend(slot, msg) => self.lemma_try_send_inv(slot, msg),
            Event::PollReady(slot) => self.lemma_poll_ready_inv(slot),
            Event::Next => self.lemma_next_inv(),
            Event::PollNext => self.lemma_next_inv(),
            Event::CloseChannel => self.lemma_closed_by_sender_inv(),
            Event::CloseReceiver => self.lemma_closed_by_receiver_inv(),
            Event::CloneSender => self.lemma_cloned_inv(),
            Event::DropSender(slot) => self.lemma_dropped_inv(slot),
        }
    }

    /// Whatever is done with a channel, it stays in order, and the messages
    /// that were in it or went into it are those that came out, followed by
    /// those that are still in it: none is lost, none comes twice, and they
    /// come out in the order in which they went in.
    pub proof fn lemma_conservation(self, trace: Seq<Event<T>>)
        requires
            self.inv(),
            self.allows_all(trace),
        ensures
            self.run(trace).inv(),
            self.messages + self.accepted(trace) == self.delivered(trace) + self.run(
                trace,
            ).messages,
        decreases trace.len(),
    {
        if trace.len() == 0 {
            assert(self.messages + self.accepted(trace) =~= self.delivered(trace) + self.run(
                trace,
            ).messages);
        } else {
            let event = trace[0];
            let next = self.step(event);
            let rest = trace.drop_first();
            self.lemma_step_inv(event);
            next.lemma_conservation(rest);
            assert(self.messages + self.accepted_by(event) =~= self.delivered_by(event)
                + next.messages);
            assert(self.messages + self.accepted(trace) =~= (self.messages + self.accepted_by(
                event,
            )) + next.accepted(rest));
            assert(self.delivered(trace) + self.run(trace).messages =~= self.delivered_by(event)
                + (next.delivered(rest) + next.run(rest).messages));
            assert((self.delivered_by(event) + next.messages) + next.accepted(rest)
                =~= self.delivered_by(event) + (next.messages + next.accepted(rest)));
        }
    }

    /// A receiver that keeps asking gets the messages one by one, oldest
    /// first: the message at place `n` in the channel comes after `n`
    /// others have been taken, whether or not the channel has been closed
    /// in between.
    pub proof fn lemma_takes_in_order(self, n: nat)
        requires
            self.inv(),
            n <= self.messages.len(),
        ensures
            self.after_takes(n).inv(),
            self.after_takes(n).messages == self.messages.skip(n as int),
            self.after_takes(n).is_open == self.is_open,
            self.after_takes(n).live == self.live,
            n < self.messages.len() ==> self.after_takes(n).next() == Poll::Ready(
                Some(self.messages[n as int]),
            ),
        decreases n,
    {
        if n == 0 {
            assert(self.messages.skip(0) =~= self.messages);
        } else {
            self.lemma_next_inv();
            self.after_next().lemma_takes_in_order((n - 1) as nat);
            assert(self.messages.drop_first().skip(n - 1) =~= self.messages.skip(n as int));
        }
    }

    /// Closing a channel leaves every accepted message in it, so that the
    /// receiver still gets it.
    pub proof fn lemma_close_keeps_messages(self)
        ensures
            self.closed_by_receiver().messages == self.messages,
            self.closed_by_sender().messages == self.messages,
    {
    }

    /// An accepted message is handed to the receiver once the messages
    /// before it have been taken.
    pub proof fn lemma_eventual_delivery(self, slot: usize, msg: T)
        requires
            self.inv(),
            self.live.contains(slot),
            self.accepts(slot),
            self.messages.len() < MAX_CAPACITY,
        ensures
            self.sent(slot, msg).after_takes(self.messages.len()).next() == Poll::Ready(Some(msg)),
    {
        self.lemma_sent_inv(slot, msg);
        self.sent(slot, msg).lemma_takes_in_order(self.messages.len());
    }

    /// Do these operations leave the receiver out?
    pub open spec fn takes_nothing(trace: Seq<Event<T>>) -> bool {
        forall|i: int|
            0 <= i < trace.len() ==> !((#[trigger] trace[i]) is Next) && !(trace[i] is PollNext)
    }

    /// Operations that leave the receiver out hand it nothing.
    pub proof fn lemma_delivered_nothing(self, trace: Seq<Event<T>>)
        requires
            Self::takes_nothing(trace),
        ensures
            self.delivered(trace) == Seq::<T>::empty(),
        decreases trace.len(),
    {
        if trace.len() > 0 {
            let rest = trace.drop_first();
            assert(!(trace[0] is Next) && !(trace[0] is PollNext));
            assert forall|i: int| 0 <= i < rest.len() implies !((#[trigger] rest[i]) is Next) && !(
            rest[i] is PollNext) by {
                assert(rest[i] == trace[i + 1]);
            }
            self.step(trace[0]).lemma_delivered_nothing(rest);
            assert(self.delivered(trace) =~= Seq::<T>::empty());
        }
    }

    /// An accepted message is handed to the receiver once the messages
    /// before it have been taken, whatever the senders do in between: send
    /// more, close the channel, or go.
    pub proof fn lemma_delivery_survives(self, slot: usize, msg: T, trace: Seq<Event<T>>)
        requires
            self.inv(),
            self.live.contains(slot),
            self.accepts(slot),
            self.messages.len() < MAX_CAPACITY,
            self.sent(slot, msg).allows_all(trace),
            Self::takes_nothing(trace),
        ensures
            self.sent(slot, msg).run(trace).after_takes(self.messages.len()).next() == Poll::Ready(
                Some(msg),
            ),
    {
        let sent = self.sent(slot, msg);
        self.lemma_sent_inv(slot, msg);
        sent.lemma_conservation(trace);
        sent.lemma_delivered_nothing(trace);
        let later = sent.run(trace);
        assert(later.messages =~= sent.messages + sent.accepted(trace));
        assert(later.messages[self.messages.len() as int] == msg);
        later.lemma_takes_in_order(self.messages.len());
    }

    /// Once every sender has been dropped the channel is closed; the
    /// receiver then gets each message left in it, oldest first, and after
    /// them the end of the stream, again and again.
    pub proof fn lemma_termination(self)
        requires
            self.inv(),
            self.live.len() == 0,
        ensures
            !self.is_open,
            forall|n: nat|
                n < self.messages.len() ==> #[trigger] self.after_takes(n).next() == Poll::Ready(
                    Some(self.messages[n as int]),
                ),
            self.after_takes(self.messages.len()).next() == Poll::<Option<T>>::Ready(None),
            self.after_takes(self.messages.len()).after_next() == self.after_takes(
                self.messages.len(),
            ),
    {
        assert forall|n: nat| n < self.messages.len() implies #[trigger] self.after_takes(
            n,
        ).next() == Poll::Ready(Some(self.messages[n as int])) by {
            self.lemma_takes_in_order(n);
        }
        self.lemma_takes_in_order(self.messages.len());
    }

    /// The messages in flight are at most the buffer and one for each
    /// sender, as long as no sender has been dropped while it had a message
    /// in flight beyond the buffer.
    pub proof fn lemma_no_overrun(self)
        requires
            self.inv(),
            self.holding.subset_of(self.live),
        ensures
            self.messages.len() <= self.buffer + self.live.len(),
    {
        vstd::set_lib::lemma_len_subset(self.holding, self.live);
    }

    /// While the channel is open, the messages in flight are at most the
    /// buffer and one for each parked sender.
    pub proof fn lemma_no_overrun_open(self)
        requires
            self.inv(),
            self.is_open,
        ensures
            self.messages.len() <= self.buffer + self.parked.len(),
    {
        self.parked.unique_seq_to_set();
        assert(self.parked.to_set() =~= self.holding) by {
            assert forall|s: usize| self.parked.to_set().contains(s) implies self.holding.contains(
                s,
            ) by {
                let j = choose|j: int| 0 <= j < self.parked.len() && self.parked[j] == s;
                assert(self.holding.contains(self.parked[j]));
            }
        }
    }

    /// As long as no sender is dropped while it has a message in flight
    /// beyond the buffer, every sender that has one is still there.
    pub proof fn lemma_holders_stay(self, event: Event<T>)
        requires
            self.inv(),
            self.allows(event),
            self.holding.subset_of(self.live),
            event matches Event::DropSender(slot) ==> !self.holding.contains(slot),
        ensures
            self.step(event).holding.subset_of(self.step(event).live),
    {
        let next = self.step(event);
        assert forall|s: usize| next.holding.contains(s) implies next.live.contains(s) by {
            match event {
                Event::TrySend(slot, _) => {
                    if s != slot {
                        assert(self.holding.contains(s));
                    }
                },
                _ => {
                    assert(self.holding.contains(s));
                },
            }
        }
    }

    /// A closed channel takes no more message, so the number in flight can
    /// only go down.
    pub proof fn lemma_closed_never_grows(self, event: Event<T>)
        requires
            self.inv(),
            !self.is_open,
        ensures
            !self.step(event).is_open,
            self.step(event).messages.len() <= self.messages.len(),
    {
    }

    /// The sender whose message the receiver takes is unparked by that very
    /// call, if the sending of that message had parked it.
    pub proof fn lemma_unpark_on_read(self, j: int)
        requires
            self.inv(),
            0 <= j < self.parked.len(),
            self.causes[j] == self.received,
        ensures
            self.messages.len() > 0,
            !self.after_next().is_parked(self.parked[j]),
    {
        assert(self.received + j <= self.causes[j]);
    }

    /// The sending of a message parks its sender exactly when the message
    /// goes beyond the buffer, and the sender is then noted as parked by
    /// that message.
    pub proof fn lemma_park_on_send(self, slot: usize, msg: T)
        requires
            self.inv(),
            self.live.contains(slot),
            self.accepts(slot),
        ensures
            self.sent(slot, msg).is_parked(slot) == (self.messages.len() >= self.buffer),
            self.sent(slot, msg).is_parked(slot) ==> self.sent(slot, msg).parked.last() == slot
                && self.sent(slot, msg).causes.last() == self.received + self.messages.len(),
    {
    }

    /// To close a closed channel again changes nothing, and a closed
    /// channel refuses every send as disconnected, not as full.
    pub proof fn lemma_close_idempotent(self, slot: usize)
        requires
            self.inv(),
            slot < self.slots.len(),
        ensures
            self.closed_by_receiver().closed_by_receiver() == self.closed_by_receiver(),
            !self.closed_by_receiver().accepts(slot),
            !self.closed_by_receiver().is_parked(slot),
    {
        let once = self.closed_by_receiver();
        assert(once.closed_by_receiver().slots =~= once.slots);
    }
}

/// One operation on an unbounded channel.
pub enum UnboundedEvent<T> {
    /// A sender sends a message.
    Send(T),
    /// The receiver asks for the next message.
    Next,
    /// The receiver polls for the next message with a wake handle.
    PollNext,
    /// A sender closes the channel.
    CloseChannel,
    /// The receiver closes the channel.
    CloseReceiver,
    /// One more sender is made.
    CloneSender,
    /// A sender is dropped.
    DropSender,
}

impl<T> UnboundedModel<T> {
    /// May this operation be called on the channel?
    pub open spec fn allows(self, event: UnboundedEvent<T>) -> bool {
        match event {
            UnboundedEvent::DropSender => self.num_senders >= 1,
            _ => true,
        }
    }

    /// The channel after the operation.
    pub open spec fn step(self, event: UnboundedEvent<T>) -> Self {
        match event {
            UnboundedEvent::Send(msg) => self.after_send(msg),
            UnboundedEvent::Next => self.after_next(),
            UnboundedEvent::PollNext => self.after_poll_next(),
            UnboundedEvent::CloseChannel => self.closed_by_sender(),
            UnboundedEvent::CloseReceiver => self.closed_by_receiver(),
            UnboundedEvent::CloneSender => self.cloned(),
            UnboundedEvent::DropSender => self.dropped(),
        }
    }

    /// The message that the operation puts into the channel, if any.
    pub open spec fn accepted_by(self, event: UnboundedEvent<T>) -> Seq<T> {
        match event {
            UnboundedEvent::Send(msg) => if self.is_open {
                seq![msg]
            } else {
                Seq::empty()
            },
            _ => Seq::empty(),
        }
    }

    /// The message that the operation hands to the receiver, if any.
    pub open spec fn delivered_by(self, event: UnboundedEvent<T>) -> Seq<T> {
        match event {
            UnboundedEvent::Next | UnboundedEvent::PollNext => if self.messages.len() > 0 {
                seq![self.messages[0]]
            } else {
                Seq::empty()
            },
            _ => Seq::empty(),
        }
    }

    /// May these operations be called one after the other?
    pub open spec fn allows_all(self, trace: Seq<UnboundedEvent<T>>) -> bool
        decreases trace.len(),
    {
        trace.len() > 0 ==> self.allows(trace[0]) && self.step(trace[0]).allows_all(
            trace.drop_first(),
        )
    }

    /// The channel after the operations, one after the other.
    pub open spec fn run(self, trace: Seq<UnboundedEvent<T>>) -> Self
        decreases trace.len(),
    {
        if trace.len() == 0 {
            self
        } else {
            self.step(trace[0]).run(trace.drop_first())
        }
    }

    /// The messages that the operations put into the channel, in order.
    pub open spec fn accepted(self, trace: Seq<UnboundedEvent<T>>) -> Seq<T>
        decreases trace.len(),
    {
        if trace.len() == 0 {
            Seq::empty()
        } else {
            self.accepted_by(trace[0]) + self.step(trace[0]).accepted(trace.drop_first())
        }
    }

    /// The messages that the operations hand to the receiver, in order.
    pub open spec fn delivered(self, trace: Seq<UnboundedEvent<T>>) -> Seq<T>
        decreases trace.len(),
    {
        if trace.len() == 0 {
            Seq::empty()
        } else {
            self.delivered_by(trace[0]) + self.step(trace[0]).delivered(trace.drop_first())
        }
    }

    /// The channel after the receiver has asked for the next message `n`
    /// times.
    pub open spec fn after_takes(self, n: nat) -> Self
        decreases n,
    {
        if n == 0 {
            self
        } else {
            self.after_next().after_takes((n - 1) as nat)
        }
    }

    /// Every operation keeps the channel in order.
    pub proof fn lemma_step_inv(self, event: UnboundedEvent<T>)
        requires
            self.inv(),
            self.allows(event),
        ensures
            self.step(event).inv(),
    {
    }

    /// Whatever is done with a channel, it stays in order, and the messages
    /// that were in it or went into it are those that came out, followed by
    /// those that are still in it: none is lost, none comes twice, and they
    /// come out in the order in which they went in.
    pub proof fn lemma_conservation(self, trace: Seq<UnboundedEvent<T>>)
        requires
            self.inv(),
            self.allows_all(trace),
        ensures
            self.run(trace).inv(),
            self.messages + self.accepted(trace) == self.delivered(trace) + self.run(
                trace,
            ).messages,
        decreases trace.len(),
    {
        if trace.len() == 0 {
            assert(self.messages + self.accepted(trace) =~= self.delivered(trace) + self.run(
                trace,
            ).messages);
        } else {
            let event = trace[0];
            let next = self.step(event);
            let rest = trace.drop_first();
            self.lemma_step_inv(event);
            next.lemma_conservation(rest);
            assert(self.messages + self.accepted_by(event) =~= self.delivered_by(event)
                + next.messages);
            assert(self.messages + self.accepted(trace) =~= (self.messages + self.accepted_by(
                event,
            )) + next.accepted(rest));
            assert(self.delivered(trace) + self.run(trace).messages =~= self.delivered_by(event)
                + (next.delivered(rest) + next.run(rest).messages));
            assert((self.delivered_by(event) + next.messages) + next.accepted(rest)
                =~= self.delivered_by(event) + (next.messages + next.accepted(rest)));
        }
    }

    /// A receiver that keeps asking gets the messages one by one, oldest
    /// first, whether or not the channel has been closed in between.
    pub proof fn lemma_takes_in_order(self, n: nat)
        requires
            self.inv(),
            n <= self.messages.len(),
        ensures
            self.after_takes(n).inv(),
            self.after_takes(n).messages == self.messages.skip(n as int),
            self.after_takes(n).is_open == self.is_open,
            n < self.messages.len() ==> self.after_takes(n).next() == Poll::Ready(
                Some(self.messages[n as int]),
            ),
        decreases n,
    {
        if n == 0 {
            assert(self.messages.skip(0) =~= self.messages);
        } else {
            self.after_next().lemma_takes_in_order((n - 1) as nat);
            assert(self.messages.drop_first().skip(n - 1) =~= self.messages.skip(n as int));
        }
    }

    /// An accepted message is handed to the receiver once the messages
    /// before it have been taken.
    pub proof fn lemma_eventual_delivery(self, msg: T)
        requires
            self.inv(),
            self.is_open,
        ensures
            self.after_send(msg).after_takes(self.messages.len()).next() == Poll::Ready(Some(msg)),
    {
        self.after_send(msg).lemma_takes_in_order(self.messages.len());
    }

    /// Do these operations leave the receiver out?
    pub open spec fn takes_nothing(trace: Seq<UnboundedEvent<T>>) -> bool {
        forall|i: int|
            0 <= i < trace.len() ==> !((#[trigger] trace[i]) is Next) && !(trace[i] is PollNext)
    }

    /// Operations that leave the receiver out hand it nothing.
    pub proof fn lemma_delivered_nothing(self, trace: Seq<UnboundedEvent<T>>)
        requires
            Self::takes_nothing(trace),
        ensures
            self.delivered(trace) == Seq::<T>::empty(),
        decreases trace.len(),
    {
        if trace.len() > 0 {
            let rest = trace.drop_first();
            assert(!(trace[0] is Next) && !(trace[0] is PollNext));
            assert forall|i: int| 0 <= i < rest.len() implies !((#[trigger] rest[i]) is Next) && !(
            rest[i] is PollNext) by {
                assert(rest[i] == trace[i + 1]);
            }
            self.step(trace[0]).lemma_delivered_nothing(rest);
            assert(self.delivered(trace) =~= Seq::<T>::empty());
        }
    }

    /// An accepted message is handed to the receiver once the messages
    /// before it have been taken, whatever the senders do in between: send
    /// more, close the channel, or go.
    pub proof fn lemma_delivery_survives(self, msg: T, trace: Seq<UnboundedEvent<T>>)
        requires
            self.inv(),
            self.is_open,
            self.after_send(msg).allows_all(trace),
            Self::takes_nothing(trace),
        ensures
            self.after_send(msg).run(trace).after_takes(self.messages.len()).next() == Poll::Ready(
                Some(msg),
            ),
    {
        let sent = self.after_send(msg);
        sent.lemma_conservation(trace);
        sent.lemma_delivered_nothing(trace);
        let later = sent.run(trace);
        assert(later.messages =~= sent.messages + sent.accepted(trace));
        assert(later.messages[self.messages.len() as int] == msg);
        later.lemma_takes_in_order(self.messages.len());
    }

    /// Once every sender has been dropped the channel is closed; the
    /// receiver then gets each message left in it, oldest first, and after
    /// them the end of the stream, again and again.
    pub proof fn lemma_termination(self)
        requires
            self.inv(),
            self.num_senders == 0,
        ensures
            !self.is_open,
            forall|n: nat|
                n < self.messages.len() ==> #[trigger] self.after_takes(n).next() == Poll::Ready(
                    Some(self.messages[n as int]),
                ),
            self.after_takes(self.messages.len()).next() == Poll::<Option<T>>::Ready(None),
            self.after_takes(self.messages.len()).after_next() == self.after_takes(
                self.messages.len(),
            ),
    {
        assert forall|n: nat| n < self.messages.len() implies #[trigger] self.after_takes(
            n,
        ).next() == Poll::Ready(Some(self.messages[n as int])) by {
            self.lemma_takes_in_order(n);
        }
        self.lemma_takes_in_order(self.messages.len());
    }

    /// To close a closed channel again changes nothing, and a closed
    /// channel accepts no message.
    pub proof fn lemma_close_idempotent(self, msg: T)
        ensures
            self.closed_by_receiver().closed_by_receiver() == self.closed_by_receiver(),
            self.closed_by_receiver().after_send(msg) == self.closed_by_receiver(),
    {
    }
}

} // verus!
