use futures_prims::lock::rwlock::AtomicState;
use futures_prims::lock::rwlock::ONE_READER;
use futures_prims::lock::rwlock::ONE_WRITER;
use futures_prims::lock::rwlock::PHASE;
use futures_prims::lock::rwlock::WRITE_BITS;
use futures_prims::lock::waiter::WaiterSet;
use futures_prims::mpsc::queue::Queue;
use futures_prims::mpsc::state::close;
use futures_prims::mpsc::state::decode_state;
use futures_prims::mpsc::state::decrement;
use futures_prims::mpsc::state::increment;
use futures_prims::mpsc::state::increment_wrapping;
use futures_prims::mpsc::state::MAX_CAPACITY;
use futures_prims::mpsc::state::OPEN_MASK;
use futures_prims::mpsc::task::SenderTask;
use futures_prims::mpsc::task::WakerSlot;
use futures_prims::sync::bilock::BiLock;
use std::sync::atomic::AtomicUsize;
use std::sync::atomic::Ordering;
use std::sync::Arc;
use std::task::Wake;
use std::task::Waker;

struct CountingWaker {
    wakes: AtomicUsize,
}

impl Wake for CountingWaker {
    fn wake(self: Arc<Self>) {
        self.wakes.fetch_add(1, Ordering::SeqCst);
    }

    fn wake_by_ref(self: &Arc<Self>) {
        self.wakes.fetch_add(1, Ordering::SeqCst);
    }
}

fn counting_waker() -> (Arc<CountingWaker>, Waker) {
    let counter = Arc::new(CountingWaker { wakes: AtomicUsize::new(0) });
    (counter.clone(), Waker::from(counter))
}

#[test]
fn counters_wrap_and_keep_the_phase_apart() {
    assert_eq!(PHASE, 1);
    assert_eq!(ONE_WRITER, 2);
    assert_eq!(ONE_READER, 4);
    assert_eq!(WRITE_BITS, 3);
    let mut state = AtomicState::new();
    assert_eq!(state.insert_writer(), 0);
    assert_eq!(state.insert_writer(), 1);
    assert_eq!(state.remove_writer(), 0);
    assert_eq!(state.waiting_writers(), 2);
    assert_eq!(state.finished_writers(), 1);
    assert_eq!(state.reserve_reader(), 0);
    assert_eq!(state.waiting_readers(), 4);
    assert_eq!(state.reserve_writer(7), 4);
    assert_eq!(state.waiting_readers(), 4 + 3);
    assert_eq!(state.phase(), 3);
    assert_eq!(state.reserve_reader(), 3);
    assert_eq!(state.clear_phase(), 11);
    assert_eq!(state.waiting_readers(), 8);
    assert_eq!(state.phase(), 0);
    assert_eq!(state.reserve_writer(6), 8);
    assert_eq!(state.phase(), 2);
    assert_eq!(state.clear_phase(), 10);
    assert_eq!(state.reserve_transient_writer(), 8);
    assert_eq!(state.phase(), 1);
    assert_eq!(state.remove_reader(), 0);
    assert_eq!(state.finished_readers(), 4);
}

#[test]
fn waiter_set_gives_freed_keys_out_again() {
    let (counter, waker) = counting_waker();
    let mut set = WaiterSet::new();
    assert_eq!(set.insert(&waker), 0);
    assert_eq!(set.insert(&waker), 1);
    assert_eq!(set.insert(&waker), 2);
    set.remove(1);
    set.notify_all();
    assert_eq!(counter.wakes.load(Ordering::SeqCst), 2);
    assert_eq!(set.insert(&waker), 1);
    set.register(0, &waker);
    set.register(9, &waker);
    set.remove(9);
    set.notify_all();
    assert_eq!(counter.wakes.load(Ordering::SeqCst), 5);
    assert_eq!(set.insert(&waker), 3);
}

#[test]
fn state_word_counts_up_and_down() {
    assert_eq!(increment(OPEN_MASK), Some((OPEN_MASK + 1, 1)));
    assert_eq!(increment(OPEN_MASK + 41), Some((OPEN_MASK + 42, 42)));
    assert_eq!(increment(41), None);
    assert_eq!(increment_wrapping(OPEN_MASK + 41), Some(OPEN_MASK + 42));
    assert_eq!(increment_wrapping(OPEN_MASK + MAX_CAPACITY), Some(OPEN_MASK));
    assert_eq!(increment_wrapping(3), None);
    assert_eq!(decrement(OPEN_MASK + 42), OPEN_MASK + 41);
    assert_eq!(decrement(42), 41);
    assert_eq!(close(OPEN_MASK + 42), 42);
    assert_eq!(close(42), 42);
    assert!(!decode_state(close(usize::MAX)).is_open);
    assert_eq!(decode_state(close(usize::MAX)).num_messages, MAX_CAPACITY);
}

#[test]
fn queue_is_first_in_first_out() {
    let mut queue = Queue::new();
    assert!(queue.is_empty());
    assert_eq!(queue.pop(), None);
    queue.push(1);
    queue.push(2);
    queue.push(3);
    assert_eq!(queue.len(), 3);
    assert_eq!(queue.pop(), Some(1));
    queue.push(4);
    assert_eq!(queue.pop(), Some(2));
    assert_eq!(queue.pop(), Some(3));
    assert_eq!(queue.pop(), Some(4));
    assert_eq!(queue.pop(), None);
}

#[test]
fn parking_slot_wakes_its_task_once() {
    let (counter, waker) = counting_waker();
    let mut slot = SenderTask::new();
    assert!(!slot.is_parked());
    slot.park();
    assert!(slot.is_parked());
    slot.register(Some(&waker));
    slot.register(Some(&waker));
    slot.notify();
    assert!(!slot.is_parked());
    assert_eq!(counter.wakes.load(Ordering::SeqCst), 1);
    slot.notify();
    assert_eq!(counter.wakes.load(Ordering::SeqCst), 1);
    slot.park();
    slot.register(Some(&waker));
    slot.register(None);
    slot.notify();
    assert_eq!(counter.wakes.load(Ordering::SeqCst), 1);

    let mut recv = WakerSlot::new();
    recv.wake();
    recv.register(&waker);
    recv.register(&waker);
    recv.wake();
    recv.wake();
    assert_eq!(counter.wakes.load(Ordering::SeqCst), 2);
}

#[test]
fn two_owners_take_turns() {
    let (counter, waker) = counting_waker();
    let (mut first, mut second, mut inner) = BiLock::new(5u32);
    let mut guard = first.poll_lock(&mut inner, &waker).unwrap();
    assert_eq!(*guard.get(&inner), 5);
    *guard.get_mut(&mut inner) += 1;
    assert!(second.poll_lock(&mut inner, &waker).is_none());
    assert!(second.poll_lock(&mut inner, &waker).is_none());
    assert_eq!(counter.wakes.load(Ordering::SeqCst), 0);
    guard.unlock(&mut inner);
    assert_eq!(counter.wakes.load(Ordering::SeqCst), 1);
    let guard = second.poll_lock(&mut inner, &waker).unwrap();
    assert_eq!(*guard.get(&inner), 6);
    assert!(first.poll_lock(&mut inner, &waker).is_none());
    guard.unlock(&mut inner);
    assert_eq!(counter.wakes.load(Ordering::SeqCst), 2);
    let guard = first.poll_lock(&mut inner, &waker).unwrap();
    guard.unlock(&mut inner);
    assert_eq!(counter.wakes.load(Ordering::SeqCst), 2);
    assert_eq!(inner.into_inner(), 6);
}

#[test]
fn lock_future_hands_the_owner_out_as_holder() {
    let (_, waker) = counting_waker();
    let (first, mut second, mut inner) = BiLock::new(String::from("a"));
    assert!(inner.is_free());
    let mut acquire = first.lock();
    assert!(!acquire.is_done());
    let mut held = acquire.poll(&mut inner, &waker).unwrap();
    assert!(acquire.is_done());
    assert!(!inner.is_free());
    held.get_mut(&mut inner).push('b');
    assert_eq!(held.get(&inner), "ab");
    assert!(second.poll_lock(&mut inner, &waker).is_none());
    let first = held.unlock(&mut inner);
    assert!(inner.is_free());
    let mut again = first.lock();
    let guard = second.poll_lock(&mut inner, &waker).unwrap();
    assert!(again.poll(&mut inner, &waker).is_none());
    assert!(!again.is_done());
    guard.unlock(&mut inner);
    assert!(again.poll(&mut inner, &waker).is_some());
}
