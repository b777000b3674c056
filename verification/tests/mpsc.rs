use futures_prims::mpsc::bounded::channel;
use futures_prims::mpsc::bounded::BoundedInner;
use futures_prims::mpsc::bounded::Receiver;
use futures_prims::mpsc::bounded::Sender;
use futures_prims::mpsc::state::decode_state;
use futures_prims::mpsc::state::encode_state;
use futures_prims::mpsc::state::State;
use futures_prims::mpsc::state::INIT_STATE;
use futures_prims::mpsc::state::MAX_BUFFER;
use futures_prims::mpsc::state::MAX_CAPACITY;
use futures_prims::mpsc::state::OPEN_MASK;
use futures_prims::mpsc::unbounded::unbounded;
use std::sync::atomic::AtomicUsize;
use std::sync::atomic::Ordering;
use std::sync::Arc;
use std::task::Poll;
use std::task::Wake;
use std::task::Waker;

struct CountingWaker {
    wakes: AtomicUsize,
}

impl Wake for CountingWaker {
    fn wake(self: Arc<Self>) {
        self.wakes.fetch_add(1, Ordering::SeqCst);
    }

    fn wake_by_ref(self: &Arc<Self>) {
        self.wakes.fetch_add(1, Ordering::SeqCst);
    }
}

fn counting_waker() -> (Arc<CountingWaker>, Waker) {
    let counter = Arc::new(CountingWaker { wakes: AtomicUsize::new(0) });
    (counter.clone(), Waker::from(counter))
}

fn wakes(counter: &Arc<CountingWaker>) -> usize {
    counter.wakes.load(Ordering::SeqCst)
}

// Sends `n`, `n - 1`, ..., 1, each as soon as the sender has capacity, and
// hands every message that stands in the way to `taken`.
fn send_down(
    n: u32,
    tx: &mut Sender,
    rx: &mut Receiver,
    inner: &mut BoundedInner<u32>,
    taken: &mut Vec<u32>,
) {
    let mut next = n;
    while next > 0 {
        match tx.try_send(inner, next) {
            Ok(()) => next -= 1,
            Err(e) => {
                assert!(e.is_full());
                assert_eq!(e.into_inner(), next);
                match rx.try_next(inner) {
                    Ok(Some(v)) => taken.push(v),
                    _ => panic!("a parked sender has a message in flight"),
                }
            }
        }
    }
}

#[test]
fn channel_is_not_ready_when_created() {
    let (_, waker) = counting_waker();
    let (_tx, mut rx, mut inner) = channel::<()>(0);

    assert!(rx.poll_next(&mut inner, &waker).is_pending());
    assert!(rx.poll_next(&mut inner, &waker).is_pending());
}

#[test]
fn multiple_senders() {
    let (mut tx, mut rx, mut inner) = channel::<u32>(0);
    let mut tx2 = tx.clone(&mut inner);
    let mut tx3 = tx.clone(&mut inner);
    let amt = 40;
    let mut taken = Vec::new();
    send_down(amt, &mut tx, &mut rx, &mut inner, &mut taken);
    send_down(amt, &mut tx2, &mut rx, &mut inner, &mut taken);
    send_down(amt, &mut tx3, &mut rx, &mut inner, &mut taken);
    tx.drop(&mut inner);
    tx2.drop(&mut inner);
    tx3.drop(&mut inner);
    let mut count = taken.len() as u32;
    for _ in (count + 1)..(amt * 3 + 1) {
        assert!(rx.try_next(&mut inner).unwrap().is_some());
        count += 1;
    }
    assert_eq!(count, amt * 3);
    assert_eq!(rx.try_next(&mut inner).unwrap(), None);
}

#[test]
fn sequence() {
    let (mut tx, mut rx, mut inner) = channel::<u32>(0);

    let amt = 20;
    let mut taken = Vec::new();
    send_down(amt, &mut tx, &mut rx, &mut inner, &mut taken);
    tx.drop(&mut inner);
    loop {
        match rx.try_next(&mut inner).unwrap() {
            Some(v) => taken.push(v),
            None => break,
        }
    }
    let mut expected = Vec::new();
    for i in (1..amt + 1).rev() {
        expected.push(i);
    }
    assert_eq!(taken, expected);
    assert_eq!(rx.try_next(&mut inner).unwrap(), None);
}

#[test]
fn drop_sender() {
    let (_, waker) = counting_waker();
    let (tx, mut rx, mut inner) = channel::<u32>(0);
    tx.drop(&mut inner);
    assert_eq!(rx.poll_next(&mut inner, &waker), Poll::Ready(None));
}

#[test]
fn drop_rx() {
    let (mut tx, rx, mut inner) = channel::<u32>(0);
    assert!(tx.try_send(&mut inner, 1).is_ok());
    rx.drop(&mut inner);
    assert!(tx.try_send(&mut inner, 1).is_err());
}

#[test]
fn poll_future_then_drop() {
    let (_, waker) = counting_waker();
    let (mut tx, _rx, mut inner) = channel::<u32>(0);

    // First poll succeeds
    assert_eq!(tx.poll_ready(&mut inner, &waker), Poll::Ready(Ok(())));
    assert!(tx.start_send(&mut inner, 1).is_ok());

    // Second poll doesn't
    assert!(tx.poll_ready(&mut inner, &waker).is_pending());

    tx.drop(&mut inner);
}

struct Noisy {
    drops: Arc<AtomicUsize>,
}

impl Drop for Noisy {
    fn drop(&mut self) {
        self.drops.fetch_add(1, Ordering::SeqCst);
    }
}

#[test]
fn drop_order() {
    let drops = Arc::new(AtomicUsize::new(0));
    let (mut tx, rx, mut inner) = channel::<Noisy>(0);

    assert!(tx.try_send(&mut inner, Noisy { drops: drops.clone() }).is_ok());
    assert_eq!(drops.load(Ordering::SeqCst), 0);
    rx.drop(&mut inner);
    assert_eq!(drops.load(Ordering::SeqCst), 1);
    assert!(tx.try_send(&mut inner, Noisy { drops: drops.clone() }).is_err());
    assert_eq!(drops.load(Ordering::SeqCst), 2);
}

#[test]
fn zero_buffer_gives_each_sender_one_slot() {
    let (mut tx, mut rx, mut inner) = channel::<i32>(0);
    assert!(tx.try_send(&mut inner, 1).is_ok());
    let err = tx.try_send(&mut inner, 2).unwrap_err();
    assert!(err.is_full());
    assert!(!err.is_disconnected());
    assert_eq!(err.into_inner(), 2);
    assert_eq!(rx.try_next(&mut inner).unwrap(), Some(1));
    assert!(tx.try_send(&mut inner, 2).is_ok());
}

#[test]
fn capacity_is_buffer_plus_senders() {
    let (mut tx1, mut rx, mut inner) = channel::<i32>(2);
    let mut tx2 = tx1.clone(&mut inner);
    let mut tx3 = tx1.clone(&mut inner);
    assert_eq!(inner.num_senders(), 3);
    // The buffer takes two messages without parking anybody.
    assert!(tx1.try_send(&mut inner, 1).is_ok());
    assert!(tx2.try_send(&mut inner, 2).is_ok());
    assert_eq!(inner.num_parked(), 0);
    // Each sender has one slot beyond the buffer.
    assert!(tx3.try_send(&mut inner, 3).is_ok());
    assert!(tx1.try_send(&mut inner, 4).is_ok());
    assert!(tx2.try_send(&mut inner, 5).is_ok());
    assert_eq!(inner.num_messages(), 5);
    assert_eq!(inner.num_parked(), 3);
    // Nobody can go further.
    assert!(tx1.try_send(&mut inner, 6).unwrap_err().is_full());
    assert!(tx2.try_send(&mut inner, 6).unwrap_err().is_full());
    assert!(tx3.try_send(&mut inner, 6).unwrap_err().is_full());
    assert_eq!(inner.num_messages(), 5);
    assert!(inner.num_messages() <= inner.buffer() + inner.num_senders());
    for expected in 1..6 {
        assert_eq!(rx.try_next(&mut inner).unwrap(), Some(expected));
    }
    assert!(rx.try_next(&mut inner).is_err());
}

#[test]
fn unbounded_ends_after_the_senders_are_gone() {
    let (tx, mut rx, mut inner) = unbounded::<i32>();
    assert!(tx.unbounded_send(&mut inner, 1).is_ok());
    assert!(tx.unbounded_send(&mut inner, 2).is_ok());
    tx.drop(&mut inner);
    assert_eq!(rx.try_next(&mut inner).unwrap(), Some(1));
    assert_eq!(rx.try_next(&mut inner).unwrap(), Some(2));
    assert_eq!(rx.try_next(&mut inner).unwrap(), None);
    assert_eq!(rx.try_next(&mut inner).unwrap(), None);
}

#[test]
fn unbounded_send_after_close_is_disconnected() {
    let (tx, mut rx, mut inner) = unbounded::<i32>();
    rx.close(&mut inner);
    let err = tx.unbounded_send(&mut inner, 5).unwrap_err();
    assert!(err.is_disconnected());
    assert!(!err.is_full());
    assert_eq!(err.into_inner(), 5);
}

#[test]
fn dropped_receiver_drops_unread_messages() {
    let drops = Arc::new(AtomicUsize::new(0));
    let (mut tx, rx, mut inner) = channel::<Noisy>(3);
    for _ in 0..3 {
        assert!(tx.try_send(&mut inner, Noisy { drops: drops.clone() }).is_ok());
    }
    assert_eq!(drops.load(Ordering::SeqCst), 0);
    rx.drop(&mut inner);
    assert_eq!(drops.load(Ordering::SeqCst), 3);
    assert_eq!(inner.num_messages(), 0);

    let drops = Arc::new(AtomicUsize::new(0));
    let (tx, rx, mut inner) = unbounded::<Noisy>();
    for _ in 0..3 {
        assert!(tx.unbounded_send(&mut inner, Noisy { drops: drops.clone() }).is_ok());
    }
    rx.drop(&mut inner);
    assert_eq!(drops.load(Ordering::SeqCst), 3);
    assert_eq!(inner.num_messages(), 0);
}

#[test]
fn one_producer_is_received_in_order() {
    let (mut tx, mut rx, mut inner) = channel::<u32>(4);
    let mut other = tx.clone(&mut inner);
    assert!(tx.try_send(&mut inner, 10).is_ok());
    assert!(other.try_send(&mut inner, 99).is_ok());
    assert!(tx.try_send(&mut inner, 11).is_ok());
    assert!(tx.try_send(&mut inner, 12).is_ok());
    let mut mine = Vec::new();
    while let Ok(Some(v)) = rx.try_next(&mut inner) {
        if v != 99 {
            mine.push(v);
        }
    }
    assert_eq!(mine, vec![10, 11, 12]);
}

#[test]
fn accepted_message_survives_the_close_of_another_sender() {
    let (mut tx, mut rx, mut inner) = channel::<u32>(1);
    let mut other = tx.clone(&mut inner);
    assert!(tx.try_send(&mut inner, 7).is_ok());
    other.close_channel(&mut inner);
    assert!(tx.is_closed(&inner));
    assert!(tx.try_send(&mut inner, 8).unwrap_err().is_disconnected());
    assert_eq!(rx.try_next(&mut inner).unwrap(), Some(7));
    assert_eq!(rx.try_next(&mut inner).unwrap(), None);
}

#[test]
fn stream_ends_and_stays_ended() {
    let (_, waker) = counting_waker();
    let (mut tx, mut rx, mut inner) = channel::<u32>(2);
    assert!(tx.try_send(&mut inner, 1).is_ok());
    assert!(tx.try_send(&mut inner, 2).is_ok());
    tx.drop(&mut inner);
    assert_eq!(rx.poll_next(&mut inner, &waker), Poll::Ready(Some(1)));
    assert_eq!(rx.poll_next(&mut inner, &waker), Poll::Ready(Some(2)));
    assert_eq!(rx.poll_next(&mut inner, &waker), Poll::Ready(None));
    assert_eq!(rx.poll_next(&mut inner, &waker), Poll::Ready(None));
    assert_eq!(rx.next_message(&mut inner), Poll::Ready(None));
}

#[test]
fn parked_sender_is_woken_by_the_read_of_its_message() {
    let (counter, waker) = counting_waker();
    let (mut tx, mut rx, mut inner) = channel::<u32>(1);
    assert!(tx.try_send(&mut inner, 1).is_ok());
    assert_eq!(inner.num_parked(), 0);
    assert!(tx.try_send(&mut inner, 2).is_ok());
    assert_eq!(inner.num_parked(), 1);
    assert!(tx.poll_ready(&mut inner, &waker).is_pending());
    assert_eq!(wakes(&counter), 0);
    // One read unparks the sender that has been parked longest.
    assert_eq!(rx.next_message(&mut inner), Poll::Ready(Some(1)));
    assert_eq!(wakes(&counter), 1);
    assert_eq!(inner.num_parked(), 0);
    assert_eq!(tx.poll_ready(&mut inner, &waker), Poll::Ready(Ok(())));
}

#[test]
fn close_twice_is_close_once() {
    let (counter, waker) = counting_waker();
    let (mut tx, mut rx, mut inner) = channel::<u32>(0);
    assert!(tx.try_send(&mut inner, 1).is_ok());
    assert!(tx.poll_ready(&mut inner, &waker).is_pending());
    rx.close(&mut inner);
    assert_eq!(wakes(&counter), 1);
    assert_eq!(inner.num_parked(), 0);
    assert_eq!(inner.num_messages(), 1);
    rx.close(&mut inner);
    rx.close(&mut inner);
    assert_eq!(wakes(&counter), 1);
    assert_eq!(inner.num_parked(), 0);
    assert_eq!(inner.num_messages(), 1);
    assert!(tx.try_send(&mut inner, 2).unwrap_err().is_disconnected());
    assert!(tx.try_send(&mut inner, 3).unwrap_err().is_disconnected());
    match tx.poll_ready(&mut inner, &waker) {
        Poll::Ready(Err(e)) => assert!(e.is_disconnected()),
        _ => panic!("a closed channel is never ready"),
    }
    assert_eq!(rx.try_next(&mut inner).unwrap(), Some(1));
    assert_eq!(rx.try_next(&mut inner).unwrap(), None);
}

#[test]
fn rejected_value_comes_back_unchanged() {
    let (mut tx, mut rx, mut inner) = channel::<Vec<String>>(0);
    assert!(tx.try_send(&mut inner, vec!["first".to_string()]).is_ok());
    let value = vec!["a".to_string(), "b".to_string()];
    let err = tx.try_send(&mut inner, value.clone()).unwrap_err();
    assert!(err.is_full());
    assert_eq!(err.message(), "send failed because channel is full");
    assert_eq!(err.into_inner(), value);
    rx.close(&mut inner);
    let err = tx.try_send(&mut inner, value.clone()).unwrap_err();
    assert!(err.is_disconnected());
    assert_eq!(err.message(), "send failed because receiver is gone");
    let plain = tx.try_send(&mut inner, value.clone()).unwrap_err().into_send_error();
    assert!(plain.is_disconnected());
    assert!(!plain.is_full());
    assert_eq!(plain.message(), "send failed because receiver is gone");
}

#[test]
fn empty_open_channel_has_nothing_yet() {
    let (_tx, mut rx, mut inner) = channel::<u32>(1);
    let err = rx.try_next(&mut inner).unwrap_err();
    assert_eq!(err.message(), "receiver channel is empty");
    let (_tx, mut rx, mut inner) = unbounded::<u32>();
    assert!(rx.try_next(&mut inner).is_err());
    assert!(!rx.is_end_of_queue_from_state(&inner));
    rx.close(&mut inner);
    assert!(rx.is_end_of_queue_from_state(&inner));
}

#[test]
fn state_word_packs_flag_and_count() {
    assert_eq!(OPEN_MASK, 1usize << (usize::BITS - 1));
    assert_eq!(MAX_CAPACITY, usize::MAX >> 1);
    assert_eq!(MAX_BUFFER, usize::MAX >> 2);
    assert_eq!(INIT_STATE, OPEN_MASK);
    let state = decode_state(INIT_STATE);
    assert!(state.is_open);
    assert_eq!(state.num_messages, 0);
    let state = decode_state(5);
    assert!(!state.is_open);
    assert_eq!(state.num_messages, 5);
    let state = decode_state(OPEN_MASK | 17);
    assert!(state.is_open);
    assert_eq!(state.num_messages, 17);
    assert_eq!(encode_state(&State { is_open: true, num_messages: 17 }), OPEN_MASK + 17);
    assert_eq!(encode_state(&State { is_open: false, num_messages: 17 }), 17);
    assert_eq!(
        encode_state(&State { is_open: true, num_messages: MAX_CAPACITY }),
        usize::MAX
    );
    assert_eq!(decode_state(usize::MAX).num_messages, MAX_CAPACITY);
}

#[test]
fn largest_buffer_leaves_room_for_senders() {
    let (tx, _rx, mut inner) = channel::<u8>(MAX_BUFFER);
    assert_eq!(inner.buffer(), MAX_BUFFER);
    assert_eq!(inner.max_senders(), MAX_CAPACITY - MAX_BUFFER);
    let tx2 = tx.clone(&mut inner);
    assert_eq!(inner.num_senders(), 2);
    tx2.drop(&mut inner);
    assert!(!tx.is_closed(&inner));
    tx.drop(&mut inner);
    assert_eq!(inner.num_senders(), 0);
}

#[test]
fn last_sender_closes_and_wakes_the_receiver() {
    let (counter, waker) = counting_waker();
    let (tx, mut rx, mut inner) = channel::<u32>(0);
    let tx2 = tx.clone(&mut inner);
    assert!(rx.poll_next(&mut inner, &waker).is_pending());
    tx.drop(&mut inner);
    assert_eq!(wakes(&counter), 0);
    assert!(rx.poll_next(&mut inner, &waker).is_pending());
    tx2.drop(&mut inner);
    assert_eq!(wakes(&counter), 1);
    assert_eq!(rx.poll_next(&mut inner, &waker), Poll::Ready(None));
}

#[test]
fn send_wakes_the_waiting_receiver() {
    let (counter, waker) = counting_waker();
    let (mut tx, mut rx, mut inner) = channel::<u32>(1);
    assert!(rx.poll_next(&mut inner, &waker).is_pending());
    assert!(tx.try_send(&mut inner, 4).is_ok());
    assert_eq!(wakes(&counter), 1);
    assert_eq!(rx.poll_next(&mut inner, &waker), Poll::Ready(Some(4)));

    let (counter, waker) = counting_waker();
    let (mut tx, mut rx, mut inner) = unbounded::<u32>();
    assert!(rx.poll_next(&mut inner, &waker).is_pending());
    assert!(tx.start_send(&mut inner, 4).is_ok());
    assert_eq!(wakes(&counter), 1);
    assert_eq!(rx.poll_next(&mut inner, &waker), Poll::Ready(Some(4)));
}

#[test]
fn unbounded_senders_are_counted() {
    let (_, waker) = counting_waker();
    let (tx, mut rx, mut inner) = unbounded::<u32>();
    assert_eq!(tx.poll_ready(&inner, &waker), Poll::Ready(Ok(())));
    let tx2 = tx.clone(&mut inner);
    assert_eq!(inner.num_senders(), 2);
    tx.drop(&mut inner);
    assert!(!tx2.is_closed(&inner));
    assert!(tx2.unbounded_send(&mut inner, 1).is_ok());
    tx2.close_channel(&mut inner);
    assert!(tx2.is_closed(&inner));
    match tx2.poll_ready(&inner, &waker) {
        Poll::Ready(Err(e)) => assert!(e.is_disconnected()),
        _ => panic!("a closed channel is never ready"),
    }
    assert_eq!(rx.try_next(&mut inner).unwrap(), Some(1));
    assert_eq!(rx.try_next(&mut inner).unwrap(), None);
    tx2.drop(&mut inner);
    assert_eq!(inner.num_senders(), 0);
}

#[test]
fn try_send_of_a_parked_sender_forgets_its_waker() {
    let (counter, waker) = counting_waker();
    let (mut tx, mut rx, mut inner) = channel::<u32>(0);
    assert!(tx.try_send(&mut inner, 1).is_ok());
    assert!(tx.poll_ready(&mut inner, &waker).is_pending());
    assert!(tx.try_send(&mut inner, 2).unwrap_err().is_full());
    assert_eq!(rx.try_next(&mut inner).unwrap(), Some(1));
    assert_eq!(wakes(&counter), 0);
    assert!(tx.try_send(&mut inner, 2).is_ok());
}
