use futures_prims::lock::rwlock::RwLock;
use futures_prims::lock::rwlock::RwLockReadGuard;
use futures_prims::lock::rwlock::RwLockWriteGuard;
use futures_prims::lock::rwlock::WAIT_KEY_NONE;
use std::sync::atomic::AtomicUsize;
use std::sync::atomic::Ordering;
use std::sync::Arc;
use std::task::Poll;
use std::task::Wake;
use std::task::Waker;

struct CountingWaker {
    wakes: AtomicUsize,
}

impl Wake for CountingWaker {
    fn wake(self: Arc<Self>) {
        self.wakes.fetch_add(1, Ordering::SeqCst);
    }

    fn wake_by_ref(self: &Arc<Self>) {
        self.wakes.fetch_add(1, Ordering::SeqCst);
    }
}

fn counting_waker() -> (Arc<CountingWaker>, Waker) {
    let counter = Arc::new(CountingWaker { wakes: AtomicUsize::new(0) });
    (counter.clone(), Waker::from(counter))
}

fn read_now(rwlock: &mut RwLock<i32>, waker: &Waker) -> RwLockReadGuard {
    let mut future = rwlock.read();
    match future.poll(rwlock, waker) {
        Poll::Ready(guard) => guard,
        Poll::Pending => panic!("read access was not given at once"),
    }
}

fn write_now(rwlock: &mut RwLock<i32>, waker: &Waker) -> RwLockWriteGuard {
    let mut future = rwlock.write();
    match future.poll(rwlock, waker) {
        Poll::Ready(guard) => guard,
        Poll::Pending => panic!("write access was not given at once"),
    }
}

#[test]
fn single_read() {
    let (_, waker) = counting_waker();
    let mut rwlock = RwLock::new(0);
    let guard = read_now(&mut rwlock, &waker);
    assert_eq!(*guard.get(&rwlock), 0);
}

#[test]
fn multiple_reads() {
    let (_, waker) = counting_waker();
    let mut rwlock = RwLock::new(0);
    let mut first = rwlock.read();
    let mut second = rwlock.read();
    let mut third = rwlock.read();
    assert!(first.poll(&mut rwlock, &waker).is_ready());
    assert!(second.poll(&mut rwlock, &waker).is_ready());
    assert!(third.poll(&mut rwlock, &waker).is_ready());
}

#[test]
fn single_thread_multiple_reads() {
    let (_, waker) = counting_waker();
    let mut rwlock = RwLock::new(0);
    let guard1 = read_now(&mut rwlock, &waker);
    let guard2 = read_now(&mut rwlock, &waker);
    assert_eq!(*guard1.get(&rwlock), *guard2.get(&rwlock));
}

#[test]
fn single_write() {
    let (_, waker) = counting_waker();
    let mut rwlock = RwLock::new(0);
    let mut guard = write_now(&mut rwlock, &waker);
    *guard.get_mut(&mut rwlock) += 1;
    guard.drop(&mut rwlock);
    let guard = read_now(&mut rwlock, &waker);
    assert_eq!(*guard.get(&rwlock), 1);
}

#[test]
fn write_among_two_reads() {
    let (counter, waker) = counting_waker();
    let mut rwlock = RwLock::new(0);
    let mut write = rwlock.write();
    let mut read1 = rwlock.read();
    let mut read2 = rwlock.read();
    let guard = match write.poll(&mut rwlock, &waker) {
        Poll::Ready(guard) => guard,
        Poll::Pending => panic!("the first writer has to get in"),
    };
    assert!(read1.poll(&mut rwlock, &waker).is_pending());
    assert!(read2.poll(&mut rwlock, &waker).is_pending());
    guard.drop(&mut rwlock);
    assert_eq!(counter.wakes.load(Ordering::SeqCst), 2);
    assert!(read1.poll(&mut rwlock, &waker).is_ready());
    assert!(read2.poll(&mut rwlock, &waker).is_ready());
    assert!(read1.is_terminated());
    read1.drop();
    read2.drop();
}

#[test]
fn two_writes_among_two_reads() {
    let (_, waker) = counting_waker();
    let mut rwlock = RwLock::new(0);
    let mut write1 = rwlock.write();
    let mut read1 = rwlock.read();
    let mut write2 = rwlock.write();
    let mut read2 = rwlock.read();
    let guard1 = match write1.poll(&mut rwlock, &waker) {
        Poll::Ready(guard) => guard,
        Poll::Pending => panic!("the first writer has to get in"),
    };
    assert!(read1.poll(&mut rwlock, &waker).is_pending());
    assert!(write2.poll(&mut rwlock, &waker).is_pending());
    assert!(read2.poll(&mut rwlock, &waker).is_pending());
    assert!(!write2.is_terminated());
    guard1.drop(&mut rwlock);
    assert!(read1.poll(&mut rwlock, &waker).is_ready());
    assert!(read2.poll(&mut rwlock, &waker).is_ready());
}

#[test]
fn read_state_progression() {
    let (_, waker) = counting_waker();
    let mut rwlock = RwLock::new(0);
    let guard1 = read_now(&mut rwlock, &waker);
    assert_eq!(rwlock.atomic().waiting_readers(), 1 << 2);
    let guard2 = read_now(&mut rwlock, &waker);
    assert_eq!(rwlock.atomic().waiting_readers(), 2 << 2);
    assert_eq!(rwlock.atomic().finished_readers(), 0);
    guard1.drop(&mut rwlock);
    guard2.drop(&mut rwlock);
    assert_eq!(rwlock.atomic().finished_readers(), 2 << 2);
}

#[test]
fn write_state_progression() {
    let (_, waker) = counting_waker();
    let mut rwlock = RwLock::new(0);
    let guard1 = write_now(&mut rwlock, &waker);
    assert_eq!(rwlock.atomic().waiting_writers(), 1);
    assert_eq!(rwlock.atomic().phase(), 2);
    guard1.drop(&mut rwlock);
    assert_eq!(rwlock.atomic().phase(), 0);
    let guard2 = write_now(&mut rwlock, &waker);
    assert_eq!(rwlock.atomic().waiting_writers(), 2);
    assert_eq!(rwlock.atomic().phase(), 3);
    guard2.drop(&mut rwlock);
    assert_eq!(rwlock.atomic().finished_writers(), 2);
}

#[test]
fn try_read_and_write() {
    let mut rwlock = RwLock::new(0);
    let mut guard = rwlock.try_write().unwrap();
    assert!(rwlock.try_read().is_none());
    assert_eq!(rwlock.atomic().phase(), 1);
    *guard.get_mut(&mut rwlock) += 1;
    guard.drop(&mut rwlock);
    let guard = rwlock.try_read().unwrap();
    assert!(rwlock.try_write().is_none());
    assert_eq!(*guard.get(&rwlock), 1);
    guard.drop(&mut rwlock);
    assert_eq!(rwlock.atomic().phase(), 0);
    assert_eq!(rwlock.atomic().waiting_readers(), 1 << 2);
    assert_eq!(rwlock.atomic().finished_readers(), 1 << 2);
    assert_eq!(rwlock.atomic().waiting_writers(), 1);
    assert_eq!(rwlock.atomic().finished_writers(), 1);
}

#[test]
fn lock_gives_its_value_back() {
    let mut rwlock = RwLock::new(7);
    *rwlock.get_mut() += 1;
    assert_eq!(rwlock.into_inner(), 8);
}

#[test]
fn new_futures_hold_no_wait_key() {
    let (_, waker) = counting_waker();
    let mut rwlock = RwLock::new(0);
    let guard = rwlock.try_write().unwrap();
    let mut read = rwlock.read();
    assert!(read.poll(&mut rwlock, &waker).is_pending());
    assert!(!read.is_terminated());
    guard.drop(&mut rwlock);
    assert!(read.poll(&mut rwlock, &waker).is_ready());
    assert!(read.is_terminated());
    assert_eq!(WAIT_KEY_NONE, usize::MAX);
}
