//! A read-write lock for asynchronous tasks: tickets counted in four
//! counters decide who may enter, and those who may not leave a wake
//! handle.

use super::waiter::first_free;
use super::waiter::lemma_first_free;
use super::waiter::WaiterSet;
use std::task::Poll;
use std::task::Waker;
use vstd::prelude::*;

verus! {

/// The phase bit of the readers' entry counter: set while a writer is at
/// the door.
pub const PHASE: usize = 1;

/// The step by which a waiting writer raises the readers' entry counter.
pub const ONE_WRITER: usize = 2;

/// The step by which a reader raises the readers' counters.
pub const ONE_READER: usize = 4;

/// The bits of the readers' entry counter that writers use.
pub const WRITE_BITS: usize = 3;

/// The wait key of a future that has left no wake handle.
pub const WAIT_KEY_NONE: usize = usize::MAX;

/// The four counters as plain numbers.
pub struct Counters {
    /// Raised by every reader that enters, and by writers at the door.
    pub read_ins: usize,
    /// Raised by every reader that leaves.
    pub read_out: usize,
    /// Raised by every writer that takes a ticket.
    pub write_ins: usize,
    /// Raised by every writer that leaves.
    pub write_out: usize,
}

impl Counters {
    /// The writers' bits of the readers' entry counter.
    pub open spec fn phase(self) -> usize {
        (self.read_ins % 4) as usize
    }

    /// No reader and no writer holds the lock or stands at the door.
    pub open spec fn is_free(self) -> bool {
        &&& self.phase() == 0
        &&& self.write_ins == self.write_out
        &&& self.read_ins == self.read_out
    }

    /// The counters after a reader has entered.
    pub open spec fn reader_in(self) -> Self {
        Counters { read_ins: self.read_ins.wrapping_add(ONE_READER), ..self }
    }

    /// The counters after a reader has left.
    pub open spec fn reader_out(self) -> Self {
        Counters { read_out: self.read_out.wrapping_add(ONE_READER), ..self }
    }

    /// The counters after a writer has taken a ticket.
    pub open spec fn writer_in(self) -> Self {
        Counters { write_ins: self.write_ins.wrapping_add(1), ..self }
    }

    /// The counters after a writer has left.
    pub open spec fn writer_out(self) -> Self {
        Counters { write_out: self.write_out.wrapping_add(1), ..self }
    }

    /// The counters after a writer with this ticket has come to the door.
    pub open spec fn writer_at_door(self, ticket: usize) -> Self {
        Counters {
            read_ins: self.read_ins.wrapping_add((ONE_WRITER + ticket % 2) as usize),
            ..self
        }
    }

    /// The counters after a writer has come to the door for a moment.
    pub open spec fn transient_writer(self) -> Self {
        Counters { read_ins: self.read_ins.wrapping_add(PHASE), ..self }
    }

    /// The counters after the writers' bits have been cleared.
    pub open spec fn phase_cleared(self) -> Self {
        Counters { read_ins: (self.read_ins - self.read_ins % 4) as usize, ..self }
    }

    /// The counters after an attempt to read at once: the reader enters if
    /// no writer is at the door.
    pub open spec fn after_try_read(self) -> Self {
        if self.phase() == 0 {
            self.reader_in()
        } else {
            self
        }
    }

    /// Does an attempt to write at once succeed? It does if no writer is at
    /// the door, every writer has left and every reader has left.
    pub open spec fn try_write_succeeds(self) -> bool {
        self.is_free()
    }

    /// The counters after an attempt to write at once.
    pub open spec fn after_try_write(self) -> Self {
        if self.phase() != 0 || self.write_ins != self.write_out {
            self
        } else if self.read_ins == self.read_out {
            self.transient_writer().writer_in()
        } else if self.transient_writer().phase() != 0 {
            self.transient_writer().phase_cleared()
        } else {
            self.transient_writer()
        }
    }
}

/// One pair of counters: entries and exits.
#[derive(Debug)]
pub struct State {
    ins: usize,
    out: usize,
}

/// The four counters of a read-write lock.
#[derive(Debug)]
pub struct AtomicState {
    read: State,
    write: State,
}

impl View for AtomicState {
    type V = Counters;

    closed spec fn view(&self) -> Counters {
        Counters {
            read_ins: self.read.ins,
            read_out: self.read.out,
            write_ins: self.write.ins,
            write_out: self.write.out,
        }
    }
}

impl AtomicState {
    /// Counters that have counted nothing.
    pub fn new() -> (state: Self)
        ensures
            state@ == (Counters { read_ins: 0, read_out: 0, write_ins: 0, write_out: 0 }),
    {
        AtomicState { read: State { ins: 0, out: 0 }, write: State { ins: 0, out: 0 } }
    }

    /// Counts a writer that takes a ticket, and returns the ticket: the
    /// number of writers before it.
    pub fn insert_writer(&mut self) -> (ticket: usize)
        ensures
            ticket == old(self)@.write_ins,
            final(self)@ == old(self)@.writer_in(),
    {
        let ticket = self.write.ins;
        self.write.ins = ticket.wrapping_add(1);
        ticket
    }

    /// Counts a writer that leaves, and returns the count before.
    pub fn remove_writer(&mut self) -> (before: usize)
        ensures
            before == old(self)@.write_out,
            final(self)@ == old(self)@.writer_out(),
    {
        let before = self.write.out;
        self.write.out = before.wrapping_add(1);
        before
    }

    /// Counts a reader that leaves, and returns the count before.
    pub fn remove_reader(&mut self) -> (before: usize)
        ensures
            before == old(self)@.read_out,
            final(self)@ == old(self)@.reader_out(),
    {
        let before = self.read.out;
        self.read.out = before.wrapping_add(ONE_READER);
        before
    }

    /// The readers' entry counter.
    pub fn waiting_readers(&self) -> (n: usize)
        ensures
            n == self@.read_ins,
    {
        self.read.ins
    }

    /// The writers' entry counter.
    pub fn waiting_writers(&self) -> (n: usize)
        ensures
            n == self@.write_ins,
    {
        self.write.ins
    }

    /// Counts a reader that enters, and returns the phase that it found.
    pub fn reserve_reader(&mut self) -> (phase: usize)
        ensures
            phase == old(self)@.phase(),
            final(self)@ == old(self)@.reader_in(),
    {
        let before = self.read.ins;
        self.read.ins = before.wrapping_add(ONE_READER);
        assert(before & WRITE_BITS == before % 4) by (bit_vector);
        before & WRITE_BITS
    }

    /// Counts a writer with this ticket that comes to the door, and returns
    /// the readers' entry counter before.
    pub fn reserve_writer(&mut self, ticket: usize) -> (before: usize)
        ensures
            before == old(self)@.read_ins,
            final(self)@ == old(self)@.writer_at_door(ticket),
    {
        let before = self.read.ins;
        assert(ONE_WRITER | (ticket & PHASE) == 2 + ticket % 2) by (bit_vector);
        self.read.ins = before.wrapping_add(ONE_WRITER | (ticket & PHASE));
        before
    }

    /// Counts a writer that comes to the door for a moment, and returns the
    /// readers' entry counter before.
    pub fn reserve_transient_writer(&mut self) -> (before: usize)
        ensures
            before == old(self)@.read_ins,
            final(self)@ == old(self)@.transient_writer(),
    {
        let before = self.read.ins;
        self.read.ins = before.wrapping_add(PHASE);
        before
    }

    /// The writers' bits of the readers' entry counter.
    pub fn phase(&self) -> (phase: usize)
        ensures
            phase == self@.phase(),
    {
        let ins = self.read.ins;
        assert(ins & WRITE_BITS == ins % 4) by (bit_vector);
        ins & WRITE_BITS
    }

    /// Clears the writers' bits, and returns the readers' entry counter
    /// before.
    pub fn clear_phase(&mut self) -> (before: usize)
        ensures
            before == old(self)@.read_ins,
            final(self)@ == old(self)@.phase_cleared(),
    {
        let before = self.read.ins;
        assert(before & !WRITE_BITS == before - before % 4) by (bit_vector);
        self.read.ins = before & !WRITE_BITS;
        before
    }

    /// The readers' exit counter.
    pub fn finished_readers(&self) -> (n: usize)
        ensures
            n == self@.read_out,
    {
        self.read.out
    }

    /// The writers' exit counter.
    pub fn finished_writers(&self) -> (n: usize)
        ensures
            n == self@.write_out,
    {
        self.write.out
    }
}

/// A read-write lock for asynchronous tasks.
#[derive(Debug)]
pub struct RwLock<T> {
    atomic: AtomicState,
    readers: WaiterSet,
    writers: WaiterSet,
    value: T,
}

/// The right to read what the lock guards, until it is given back.
#[derive(Debug)]
pub struct RwLockReadGuard {
    _guard: (),
}

/// The right to read and change what the lock guards, until it is given
/// back.
#[derive(Debug)]
pub struct RwLockWriteGuard {
    _guard: (),
}

/// The ticket of a writer that waits.
#[derive(Clone, Copy, Debug)]
pub enum Ticket {
    /// The readers' entry counter as the writer found it at the door: the
    /// writer enters when as many readers have left.
    Read(usize),
    /// The number of writers before this one: the writer comes to the door
    /// when as many writers have left.
    Write(usize),
}

/// The attempt of a task to get read access, polled until it succeeds.
#[derive(Debug)]
pub struct RwLockReadFuture {
    acquired: bool,
    phase: Option<usize>,
    wait_key: usize,
}

/// The attempt of a task to get write access, polled until it succeeds.
#[derive(Debug)]
pub struct RwLockWriteFuture {
    acquired: bool,
    ticket: Option<Ticket>,
    wait_key: usize,
}

impl<T> RwLock<T> {
    /// The counters of the lock.
    pub closed spec fn counters(&self) -> Counters {
        self.atomic@
    }

    /// What the lock guards.
    pub closed spec fn value(&self) -> T {
        self.value
    }

    /// For each key of the readers' wake handles, whether a handle is under
    /// it.
    pub closed spec fn reader_keys(&self) -> Seq<bool> {
        self.readers@
    }

    /// For each key of the writers' wake handles, whether a handle is under
    /// it.
    pub closed spec fn writer_keys(&self) -> Seq<bool> {
        self.writers@
    }

    /// Creates a new lock around a value.
    pub fn new(t: T) -> (lock: RwLock<T>)
        ensures
            lock.counters() == (Counters { read_ins: 0, read_out: 0, write_ins: 0, write_out: 0 }),
            lock.value() == t,
            lock.reader_keys() == Seq::<bool>::empty(),
            lock.writer_keys() == Seq::<bool>::empty(),
    {
        RwLock {
            atomic: AtomicState::new(),
            readers: WaiterSet::new(),
            writers: WaiterSet::new(),
            value: t,
        }
    }

    /// Consumes the lock, returning the underlying data.
    pub fn into_inner(self) -> (t: T)
        ensures
            t == self.value(),
    {
        self.value
    }

    /// The counters of the lock, to look at.
    pub fn atomic(&self) -> (atomic: &AtomicState)
        ensures
            atomic@ == self.counters(),
    {
        &self.atomic
    }

    /// Starts an attempt to get read access.
    pub fn read(&self) -> (future: RwLockReadFuture)
        ensures
            !future.acquired(),
            future.phase() is None,
            future.wait_key() == WAIT_KEY_NONE,
    {
        RwLockReadFuture { acquired: false, phase: None, wait_key: WAIT_KEY_NONE }
    }

    /// Starts an attempt to get write access.
    pub fn write(&self) -> (future: RwLockWriteFuture)
        ensures
            !future.acquired(),
            future.ticket() is None,
            future.wait_key() == WAIT_KEY_NONE,
    {
        RwLockWriteFuture { acquired: false, ticket: None, wait_key: WAIT_KEY_NONE }
    }

    /// Attempts to get read access at once: it succeeds if no writer is at
    /// the door. The waiting writers are woken either way.
    pub fn try_read(&mut self) -> (guard: Option<RwLockReadGuard>)
        ensures
            guard is Some <==> old(self).counters().phase() == 0,
            final(self).counters() == old(self).counters().after_try_read(),
            final(self).value() == old(self).value(),
            final(self).reader_keys() == old(self).reader_keys(),
            final(self).writer_keys() == old(self).writer_keys(),
    {
        if self.atomic.phase() == 0 {
            self.atomic.reserve_reader();
            self.writers.notify_all();
            Some(RwLockReadGuard { _guard: () })
        } else {
            self.writers.notify_all();
            None
        }
    }

    /// Attempts to get write access at once: it succeeds if nobody holds
    /// the lock or stands at the door. The waiting tasks are woken.
    pub fn try_write(&mut self) -> (guard: Option<RwLockWriteGuard>)
        ensures
            guard is Some <==> old(self).counters().try_write_succeeds(),
            final(self).counters() == old(self).counters().after_try_write(),
            final(self).value() == old(self).value(),
            final(self).reader_keys() == old(self).reader_keys(),
            final(self).writer_keys() == old(self).writer_keys(),
    {
        if self.atomic.phase() == 0 {
            if self.atomic.waiting_writers() == self.atomic.finished_writers()
                && self.atomic.reserve_transient_writer() == self.atomic.finished_readers() {
                self.atomic.insert_writer();
                self.writers.notify_all();
                Some(RwLockWriteGuard { _guard: () })
            } else if self.atomic.phase() != 0 {
                self.atomic.clear_phase();
                self.writers.notify_all();
                self.readers.notify_all();
                None
            } else {
                self.writers.notify_all();
                None
            }
        } else {
            self.writers.notify_all();
            None
        }
    }

    /// Returns a mutable reference to the underlying data. The exclusive
    /// borrow of the lock shows that nobody else holds it.
    pub fn get_mut(&mut self) -> (value: &mut T)
        ensures
            *value == old(self).value(),
            final(self).value() == *final(value),
            final(self).counters() == old(self).counters(),
            final(self).reader_keys() == old(self).reader_keys(),
            final(self).writer_keys() == old(self).writer_keys(),
    {
        &mut self.value
    }
}

impl RwLockReadGuard {
    /// What the lock guards.
    pub fn get<'a, T>(&self, rwlock: &'a RwLock<T>) -> (value: &'a T)
        ensures
            *value == rwlock.value(),
    {
        &rwlock.value
    }

    /// Gives the read access back and wakes the waiting writers.
    pub fn drop<T>(self, rwlock: &mut RwLock<T>)
        ensures
            final(rwlock).counters() == old(rwlock).counters().reader_out(),
            final(rwlock).value() == old(rwlock).value(),
            final(rwlock).reader_keys() == old(rwlock).reader_keys(),
            final(rwlock).writer_keys() == old(rwlock).writer_keys(),
    {
        rwlock.atomic.remove_reader();
        rwlock.writers.notify_all();
    }
}

impl RwLockWriteGuard {
    /// What the lock guards.
    pub fn get<'a, T>(&self, rwlock: &'a RwLock<T>) -> (value: &'a T)
        ensures
            *value == rwlock.value(),
    {
        &rwlock.value
    }

    /// What the lock guards, to change.
    pub fn get_mut<'a, T>(&mut self, rwlock: &'a mut RwLock<T>) -> (value: &'a mut T)
        ensures
            *value == old(rwlock).value(),
            final(rwlock).value() == *final(value),
            final(rwlock).counters() == old(rwlock).counters(),
            final(rwlock).reader_keys() == old(rwlock).reader_keys(),
            final(rwlock).writer_keys() == old(rwlock).writer_keys(),
    {
        &mut rwlock.value
    }

    /// Gives the write access back, clears the writers' bits and wakes the
    /// waiting tasks.
    pub fn drop<T>(self, rwlock: &mut RwLock<T>)
        ensures
            final(rwlock).counters() == old(rwlock).counters().writer_out().phase_cleared(),
            final(rwlock).value() == old(rwlock).value(),
            final(rwlock).reader_keys() == old(rwlock).reader_keys(),
            final(rwlock).writer_keys() == old(rwlock).writer_keys(),
    {
        rwlock.atomic.remove_writer();
        rwlock.atomic.clear_phase();
        rwlock.writers.notify_all();
        rwlock.readers.notify_all();
    }
}

/// The keys of a set of wake handles after a future has been polled: a
/// future that is let in takes its handle out, and one that has to wait
/// leaves its handle, under its key if it has one.
pub open spec fn keys_after_poll(keys: Seq<bool>, wait_key: usize, ready: bool) -> Seq<bool> {
    if ready {
        if wait_key != WAIT_KEY_NONE && wait_key < keys.len() {
            keys.update(wait_key as int, false)
        } else {
            keys
        }
    } else if wait_key == WAIT_KEY_NONE {
        if first_free(keys) < keys.len() {
            keys.update(first_free(keys), true)
        } else {
            keys.push(true)
        }
    } else if wait_key < keys.len() {
        keys.update(wait_key as int, true)
    } else {
        keys
    }
}

/// The wait key of a future after it has been polled: one that has to wait
/// without a key gets the first free key.
pub open spec fn wait_key_after_poll(keys: Seq<bool>, wait_key: usize, ready: bool) -> usize {
    if !ready && wait_key == WAIT_KEY_NONE {
        first_free(keys) as usize
    } else {
        wait_key
    }
}

impl RwLockReadFuture {
    /// Has the future handed out its guard?
    pub closed spec fn acquired(&self) -> bool {
        self.acquired
    }

    /// The phase that the future found when it entered, once it has.
    pub closed spec fn phase(&self) -> Option<usize> {
        self.phase
    }

    /// The key of the wake handle that the future has left.
    pub closed spec fn wait_key(&self) -> usize {
        self.wait_key
    }

    /// The phase that the future goes by when it is polled: the one that it
    /// found before, or the one that it finds now.
    pub open spec fn entry_phase(&self, counters: Counters) -> usize {
        match self.phase() {
            Some(phase) => phase,
            None => counters.phase(),
        }
    }

    /// The counters after the future has been polled: it enters on its
    /// first poll.
    pub open spec fn counters_after_poll(&self, counters: Counters) -> Counters {
        if self.phase() is None {
            counters.reader_in()
        } else {
            counters
        }
    }

    /// Is the future let in when it is polled? It is if no writer was at
    /// the door when it entered, or if the writers' bits have changed
    /// since.
    pub open spec fn ready(&self, counters: Counters) -> bool {
        self.entry_phase(counters) == 0 || self.entry_phase(counters) != self.counters_after_poll(
            counters,
        ).phase()
    }

    /// Has the future handed out its guard?
    pub fn is_terminated(&self) -> (r: bool)
        ensures
            r == self.acquired(),
    {
        self.acquired
    }

    /// Has the future left a wake handle?
    pub fn has_wait_key(&self) -> (r: bool)
        ensures
            r == (self.wait_key() != WAIT_KEY_NONE),
    {
        self.wait_key != WAIT_KEY_NONE
    }

    /// Polls for read access. The future must not have handed out its guard
    /// yet.
    pub fn poll<T>(&mut self, rwlock: &mut RwLock<T>, waker: &Waker) -> (r: Poll<
        RwLockReadGuard,
    >)
        requires
            !old(self).acquired(),
        ensures
            r is Ready <==> old(self).ready(old(rwlock).counters()),
            final(self).acquired() == (r is Ready),
            final(self).phase() == Some(old(self).entry_phase(old(rwlock).counters())),
            final(self).wait_key() == wait_key_after_poll(
                old(rwlock).reader_keys(),
                old(self).wait_key(),
                r is Ready,
            ),
            final(rwlock).counters() == old(self).counters_after_poll(old(rwlock).counters()),
            final(rwlock).reader_keys() == keys_after_poll(
                old(rwlock).reader_keys(),
                old(self).wait_key(),
                r is Ready,
            ),
            final(rwlock).writer_keys() == old(rwlock).writer_keys(),
            final(rwlock).value() == old(rwlock).value(),
    {
        // The phase is defined by the write bits stored within the read-in count
        let phase = match self.phase {
            Some(phase) => phase,
            None => {
                let phase = rwlock.atomic.reserve_reader();
                self.phase = Some(phase);
                phase
            },
        };

        // Safe to create guard when either there are no writers (phase == 0) or if
        // at least one of the two write bits change.
        // Writers always wait until the current reader phase completes before acquiring
        // the lock; thus the PHASE bit both maintains the read-write condition and
        // prevents deadlock in the case that this line isn't reached before a writer sets
        // the ONE_WRITER bit.
        if phase == 0 || phase != rwlock.atomic.phase() {
            if self.wait_key != WAIT_KEY_NONE {
                rwlock.readers.remove(self.wait_key);
            }
            self.acquired = true;
            Poll::Ready(RwLockReadGuard { _guard: () })
        } else {
            proof {
                lemma_first_free(rwlock.readers@);
            }
            if self.wait_key == WAIT_KEY_NONE {
                self.wait_key = rwlock.readers.insert(waker);
            } else {
                rwlock.readers.register(self.wait_key, waker);
            }
            Poll::Pending
        }
    }

    /// Gives the future up. A future that waits with a wake handle must be
    /// polled to its end first.
    pub fn drop(self)
        requires
            self.acquired() || self.wait_key() == WAIT_KEY_NONE,
    {
    }
}

impl RwLockWriteFuture {
    /// Has the future handed out its guard?
    pub closed spec fn acquired(&self) -> bool {
        self.acquired
    }

    /// The ticket of the future, once it has taken one.
    pub closed spec fn ticket(&self) -> Option<Ticket> {
        self.ticket
    }

    /// The key of the wake handle that the future has left.
    pub closed spec fn wait_key(&self) -> usize {
        self.wait_key
    }

    /// The writers' ticket that the future goes by when it is polled: the
    /// one that it has, or the one that it takes now; none once it has come
    /// to the door.
    pub open spec fn write_ticket(&self, counters: Counters) -> Option<usize> {
        match self.ticket() {
            None => Some(counters.write_ins),
            Some(Ticket::Write(ticket)) => Some(ticket),
            Some(Ticket::Read(_)) => None,
        }
    }

    /// Does the future come to the door when it is polled? It does when as
    /// many writers have left as were before it.
    pub open spec fn comes_to_door(&self, counters: Counters) -> bool {
        self.write_ticket(counters) == Some(counters.write_out)
    }

    /// The readers' ticket that the future goes by when it is polled: the
    /// readers' entry counter as it finds it at the door, or as it found
    /// it there before.
    pub open spec fn read_ticket(&self, counters: Counters) -> Option<usize> {
        if self.comes_to_door(counters) {
            Some(counters.read_ins)
        } else {
            match self.ticket() {
                Some(Ticket::Read(ticket)) => Some(ticket),
                _ => None,
            }
        }
    }

    /// The counters after the future has been polled: it takes its ticket
    /// on the first poll, and marks the readers' entry counter when it
    /// comes to the door.
    pub open spec fn counters_after_poll(&self, counters: Counters) -> Counters {
        let taken = if self.ticket() is None {
            counters.writer_in()
        } else {
            counters
        };
        if self.comes_to_door(counters) {
            taken.writer_at_door(counters.write_out)
        } else {
            taken
        }
    }

    /// Is the future let in when it is polled? It is when it stands at the
    /// door and as many readers have left as had entered when it came.
    pub open spec fn ready(&self, counters: Counters) -> bool {
        self.read_ticket(counters) == Some(counters.read_out)
    }

    /// The ticket of the future after it has been polled.
    pub open spec fn ticket_after_poll(&self, counters: Counters) -> Ticket {
        match self.read_ticket(counters) {
            Some(ticket) => Ticket::Read(ticket),
            None => Ticket::Write(self.write_ticket(counters).unwrap()),
        }
    }

    /// Has the future handed out its guard?
    pub fn is_terminated(&self) -> (r: bool)
        ensures
            r == self.acquired(),
    {
        self.acquired
    }

    /// Has the future left a wake handle?
    pub fn has_wait_key(&self) -> (r: bool)
        ensures
            r == (self.wait_key() != WAIT_KEY_NONE),
    {
        self.wait_key != WAIT_KEY_NONE
    }

    /// Polls for write access. The future must not have handed out its
    /// guard yet.
    pub fn poll<T>(&mut self, rwlock: &mut RwLock<T>, waker: &Waker) -> (r: Poll<
        RwLockWriteGuard,
    >)
        requires
            !old(self).acquired(),
        ensures
            r is Ready <==> old(self).ready(old(rwlock).counters()),
            final(self).acquired() == (r is Ready),
            final(self).ticket() == Some(old(self).ticket_after_poll(old(rwlock).counters())),
            final(self).wait_key() == (if old(self).ticket() is None && r is Ready {
                old(self).wait_key()
            } else if old(self).ticket() is None {
                first_free(old(rwlock).writer_keys()) as usize
            } else {
                old(self).wait_key()
            }),
            final(rwlock).counters() == old(self).counters_after_poll(old(rwlock).counters()),
            final(rwlock).writer_keys() == (if old(self).ticket() is None {
                if r is Ready {
                    old(rwlock).writer_keys()
                } else if first_free(old(rwlock).writer_keys()) < old(rwlock).writer_keys().len() {
                    old(rwlock).writer_keys().update(first_free(old(rwlock).writer_keys()), true)
                } else {
                    old(rwlock).writer_keys().push(true)
                }
            } else if old(self).wait_key() < old(rwlock).writer_keys().len() {
                old(rwlock).writer_keys().update(old(self).wait_key() as int, !(r is Ready))
            } else {
                old(rwlock).writer_keys()
            }),
            final(rwlock).reader_keys() == old(rwlock).reader_keys(),
            final(rwlock).value() == old(rwlock).value(),
    {
        proof {
            lemma_first_free(rwlock.writers@);
        }
        match self.ticket {
            None => {
                let ticket = rwlock.atomic.insert_writer();
                self.ticket = Some(Ticket::Write(ticket));
                if ticket == rwlock.atomic.finished_writers() {
                    // Note that the WRITE_BITS are always cleared at this point.
                    let ticket = rwlock.atomic.reserve_writer(ticket);
                    self.ticket = Some(Ticket::Read(ticket));
                    if ticket == rwlock.atomic.finished_readers() {
                        self.acquired = true;
                        Poll::Ready(RwLockWriteGuard { _guard: () })
                    } else {
                        self.wait_key = rwlock.writers.insert(waker);
                        Poll::Pending
                    }
                } else {
                    self.wait_key = rwlock.writers.insert(waker);
                    Poll::Pending
                }
            },
            Some(Ticket::Write(ticket)) => {
                if ticket == rwlock.atomic.finished_writers() {
                    // Note that the WRITE_BITS are always cleared at this point.
                    let ticket = rwlock.atomic.reserve_writer(ticket);
                    self.ticket = Some(Ticket::Read(ticket));
                    if ticket == rwlock.atomic.finished_readers() {
                        rwlock.writers.remove(self.wait_key);
                        self.acquired = true;
                        Poll::Ready(RwLockWriteGuard { _guard: () })
                    } else {
                        rwlock.writers.register(self.wait_key, waker);
                        Poll::Pending
                    }
                } else {
                    rwlock.writers.register(self.wait_key, waker);
                    Poll::Pending
                }
            },
            Some(Ticket::Read(ticket)) => {
                if ticket == rwlock.atomic.finished_readers() {
                    rwlock.writers.remove(self.wait_key);
                    self.acquired = true;
                    Poll::Ready(RwLockWriteGuard { _guard: () })
                } else {
                    rwlock.writers.register(self.wait_key, waker);
                    Poll::Pending
                }
            },
        }
    }

    /// Gives the future up. A future that waits with a wake handle must be
    /// polled to its end first.
    pub fn drop(self)
        requires
            self.acquired() || self.wait_key() == WAIT_KEY_NONE,
    {
    }
}

} // verus!
