use futures_prims::future::and_then;
use futures_prims::future::empty::empty;
use futures_prims::future::first_ok::first_ok_fused;
use futures_prims::future::first_ok::FirstOk;
use futures_prims::future::first_ok::Seen;
use futures_prims::future::fuse;
use futures_prims::future::join;
use futures_prims::future::join::MaybeDone;
use futures_prims::future::join_all::join_all;
use futures_prims::future::join_all::JoinAllKind;
use futures_prims::future::join_all::SMALL;
use futures_prims::future::lazy::lazy;
use futures_prims::future::lazy::Lazy;
use futures_prims::future::poll_fn::poll_fn;
use futures_prims::future::ready::ready;
use futures_prims::future::ready::ReadyFuture;
use futures_prims::future::recover;
use std::task::Poll;

#[derive(Debug, PartialEq)]
struct Canceled;

fn poll_fused(future: &mut fuse::Fuse<ReadyFuture<i32>>) -> Poll<i32> {
    let polled = match future.get_mut().as_mut() {
        Some(inner) => inner.poll(),
        None => return Poll::Pending,
    };
    future.polled(polled)
}

#[test]
fn fuse() {
    let mut future = fuse::new(ready::<i32>(2));
    assert!(poll_fused(&mut future).is_ready());
    assert!(poll_fused(&mut future).is_pending());
}

#[test]
fn fuse_keeps_a_pending_future() {
    let mut future = fuse::new(7u8);
    assert!(!future.is_done());
    assert_eq!(future.polled(Poll::<u32>::Pending), Poll::Pending);
    assert!(!future.is_done());
    assert_eq!(future.polled(Poll::Ready(3u32)), Poll::Ready(3));
    assert!(future.is_done());
}

#[test]
fn test_first_ok_ok() {
    let futures: Vec<u32> = (0..21).collect();
    let fut = first_ok_fused(futures);
    assert_eq!(fut.len(), 21);

    let mut polls: Vec<Poll<Result<i32, Canceled>>> = Vec::new();
    for _ in 0..21 {
        polls.push(Poll::Pending);
    }
    let poll = FirstOk::<u32>::resolve(polls);
    assert_eq!(poll, Poll::Pending);

    let mut polls: Vec<Poll<Result<i32, Canceled>>> = Vec::new();
    for _ in 0..10 {
        polls.push(Poll::Pending);
    }
    polls.push(Poll::Ready(Ok(10)));
    let poll = FirstOk::<u32>::resolve(polls);
    assert_eq!(poll, Poll::Ready(Ok(10)));
}

#[test]
fn test_first_ok_err() {
    // Each round polls the futures that have not ended: one more has
    // failed each time, and the others are pending.
    for failed in 0..10 {
        let mut polls: Vec<Poll<Result<u32, Canceled>>> = Vec::new();
        if failed > 0 {
            polls.push(Poll::Ready(Err(Canceled)));
        }
        for _ in failed..10 {
            polls.push(Poll::Pending);
        }
        let poll = FirstOk::<u32>::resolve(polls);
        assert_eq!(poll, Poll::Pending);
    }

    let polls: Vec<Poll<Result<u32, Canceled>>> = vec![Poll::Ready(Err(Canceled))];
    let poll = FirstOk::<u32>::resolve(polls);
    assert_eq!(poll, Poll::Ready(Err(Canceled)));
}

#[test]
fn first_ok_takes_the_first_success_and_the_last_failure() {
    let polls: Vec<Poll<Result<u32, u8>>> =
        vec![Poll::Ready(Err(1)), Poll::Pending, Poll::Ready(Ok(5)), Poll::Ready(Ok(6))];
    assert_eq!(FirstOk::<u32>::resolve(polls), Poll::Ready(Ok(5)));
    let polls: Vec<Poll<Result<u32, u8>>> = vec![Poll::Ready(Err(1)), Poll::Ready(Err(2))];
    assert_eq!(FirstOk::<u32>::resolve(polls), Poll::Ready(Err(2)));
    let polls: Vec<Poll<Result<u32, u8>>> = vec![Poll::Pending, Poll::Ready(Err(2))];
    assert_eq!(FirstOk::<u32>::resolve(polls), Poll::Pending);
    let polls: Vec<Poll<Result<u32, u8>>> = Vec::new();
    assert_eq!(FirstOk::<u32>::resolve(polls), Poll::Pending);

    let mut seen: Seen<u8> = Seen::NoErrors;
    seen.apply_error(1);
    assert!(matches!(seen, Seen::SeenError(1)));
    seen.apply_error(2);
    assert!(matches!(seen, Seen::SeenError(2)));
    seen.apply_pending();
    seen.apply_error(3);
    assert!(matches!(seen, Seen::SeenPending));
}

#[test]
fn ready_and_empty() {
    let mut future = ready("value");
    assert!(!future.is_taken());
    assert_eq!(future.poll(), Poll::Ready("value"));
    assert!(future.is_taken());
    let mut never = empty::<u8>();
    assert_eq!(never.poll(), Poll::Pending);
    assert_eq!(never.poll(), Poll::Pending);
}

#[test]
fn map_uses_its_function_once() {
    let mut future = futures_prims::future::map::new((), |x: u32| x + 1);
    assert!(future.has_fn());
    assert_eq!(future.polled(Ok::<Poll<u32>, u8>(Poll::Pending)), Ok(Poll::Pending));
    assert!(future.has_fn());
    assert_eq!(future.polled(Ok::<Poll<u32>, u8>(Poll::Ready(4))), Ok(Poll::Ready(5)));
    assert!(!future.has_fn());

    let mut future = futures_prims::future::map::new((), |x: u32| x + 1);
    assert_eq!(future.polled(Err::<Poll<u32>, u8>(9)), Err(9));
    assert!(!future.has_fn());
    *future.future_mut() = ();
}

#[test]
fn recover_turns_an_error_into_a_value() {
    let mut future = recover::new((), |e: u8| u32::from(e) * 2);
    assert_eq!(future.polled(Poll::Pending), Poll::Pending);
    assert!(future.has_fn());
    assert_eq!(future.polled(Poll::Ready(Ok(3))), Poll::Ready(3));
    assert!(future.has_fn());
    assert_eq!(future.polled(Poll::Ready(Err(4))), Poll::Ready(8));
    assert!(!future.has_fn());
    *future.inner_mut() = ();
}

#[test]
fn lazy_calls_its_function_on_the_first_start() {
    let mut future: Lazy<_, u32> = lazy(|| 11u32);
    assert!(!future.is_started());
    assert!(!future.is_moved());
    future.start();
    assert!(future.is_started());
    assert_eq!(*future.get(), 11);
    *future.get() = 12;
    future.start();
    assert_eq!(*future.get(), 12);

    let mut by_hand: Lazy<u8, u32> = lazy(3u8);
    let f = by_hand.take_fn();
    assert!(by_hand.is_moved());
    by_hand.set_future(u32::from(f));
    assert_eq!(*by_hand.get(), 3);
}

#[test]
fn poll_fn_calls_its_function() {
    let mut calls = 0;
    let mut future = poll_fn(|| {
        calls += 1;
        if calls < 3 {
            Poll::Pending
        } else {
            Poll::Ready(calls)
        }
    });
    assert_eq!(future.poll(), Poll::Pending);
    assert_eq!(future.poll(), Poll::Pending);
    assert_eq!(future.poll(), Poll::Ready(3));
}

#[test]
fn and_then_starts_the_second_future_with_the_value() {
    let mut chain = and_then::new("first", |v: u32| v * 10);
    assert!(chain.has_fn());
    assert!(!chain.is_second());
    assert!(matches!(chain.state_mut(), and_then::State::First("first", Some(_))));
    chain.start_second(4);
    assert!(chain.is_second());
    assert!(!chain.has_fn());
    assert!(matches!(chain.state_mut(), and_then::State::Second(40)));
}

#[test]
fn join_hands_out_both_values_once() {
    let mut joined = join::new::<u8, u8, &str, u32>(1, 2);
    assert_eq!(joined.joined(), Poll::Pending);
    assert!(joined.first_mut().future_mut().is_some());
    assert_eq!(joined.first_mut().polled(Ok::<Poll<&str>, ()>(Poll::Ready("a"))), Ok(true));
    assert!(joined.first_mut().is_done());
    assert!(joined.first_mut().future_mut().is_none());
    assert_eq!(joined.joined(), Poll::Pending);
    assert_eq!(joined.second_mut().polled(Ok::<Poll<u32>, ()>(Poll::Pending)), Ok(false));
    assert_eq!(joined.second_mut().polled(Err::<Poll<u32>, u8>(7)), Err(7));
    assert!(!joined.second_mut().is_done());
    assert_eq!(joined.second_mut().polled(Ok::<Poll<u32>, ()>(Poll::Ready(5))), Ok(true));
    assert_eq!(joined.joined(), Poll::Ready(("a", 5)));
    assert!(joined.first_mut().is_gone());
    assert!(joined.second_mut().is_gone());

    let mut erased = join::new::<u8, u8, &str, u32>(1, 2);
    erased.erase();
    assert!(erased.first_mut().is_gone());

    let mut done: MaybeDone<u8, u32> = MaybeDone::Done(4);
    assert_eq!(done.take(), 4);
    assert!(done.is_gone());
}

#[test]
fn join_all_keeps_few_futures_one_by_one() {
    let mut all = join_all::<u8, u32>(vec![1, 2, 3]);
    assert_eq!(all.take_outputs(), None);
    match all.kind_mut() {
        JoinAllKind::Small { elems } => {
            assert_eq!(elems.len(), 3);
            for (i, elem) in elems.iter_mut().enumerate() {
                assert_eq!(elem.future_mut(), Some(&mut (i as u8 + 1)));
                assert_eq!(elem.polled(Ok::<Poll<u32>, ()>(Poll::Ready(10 * (i as u32 + 1)))), Ok(true));
            }
        }
        JoinAllKind::Big { .. } => panic!("three futures are few"),
    }
    assert_eq!(all.take_outputs(), Some(vec![10, 20, 30]));
    assert_eq!(all.take_outputs(), Some(Vec::new()));

    assert_eq!(SMALL, 30);
    let mut few = join_all::<u8, u32>(vec![0; 30]);
    assert!(matches!(few.kind_mut(), JoinAllKind::Small { .. }));
    let mut many = join_all::<u8, u32>(vec![0; 31]);
    match many.kind_mut() {
        JoinAllKind::Big { fut } => assert_eq!(fut.len(), 31),
        JoinAllKind::Small { .. } => panic!("thirty-one futures are many"),
    }
}

#[test]
fn fuse_drops_a_future_that_has_failed() {
    let mut future = fuse::new(7u8);
    assert_eq!(future.try_polled(Ok::<Poll<u32>, u8>(Poll::Pending)), Ok(Poll::Pending));
    assert!(!future.is_done());
    assert_eq!(future.try_polled(Err::<Poll<u32>, u8>(1)), Err(1));
    assert!(future.is_done());
}
