use futures_prims::executor::blocking::block_on_stream;
use futures_prims::sink::buffer;
use futures_prims::sink::from_err;
use futures_prims::sink::map_err as sink_map_err;
use futures_prims::sink::with_flat_map;
use futures_prims::stream::and_then;
use futures_prims::stream::chunks;
use futures_prims::stream::collect;
use futures_prims::stream::filter;
use futures_prims::stream::filter::Filter;
use futures_prims::stream::filter_sync;
use futures_prims::stream::fold;
use futures_prims::stream::from_err as stream_from_err;
use futures_prims::stream::iter::iter;
use futures_prims::stream::iter::IterStream;
use futures_prims::stream::map_err;
use futures_prims::stream::skip_while;
use futures_prims::stream::skip_while::SkipWhile;
use futures_prims::stream::take_until::TakeUntil;
use futures_prims::stream::then;
use futures_prims::stream::try_unfold::try_unfold;
use futures_prims::stream::try_unfold::try_unfold_fns;
use futures_prims::stream::unfold;
use futures_prims::stream::unfold::unfold;
use futures_prims::try_future::flatten_sink;
use std::task::Poll;

#[test]
fn accessors_reach_the_underlying_value() {
    let mut mapped = futures_prims::stream::map::new(vec![1, 2], |x: u32| x + 1);
    assert_eq!(mapped.get_ref(), &vec![1, 2]);
    mapped.get_mut().push(3);
    assert_eq!(mapped.into_inner(), vec![1, 2, 3]);

    let mut errs = map_err::new(5u8, |e: u8| e);
    *errs.get_mut() += 1;
    assert_eq!(*errs.get_ref(), 6);
    assert_eq!(errs.into_inner(), 6);

    let mut converted = stream_from_err::new::<u8, String>(1);
    *converted.get_mut() = 2;
    assert_eq!(*converted.get_ref(), 2);
    assert_eq!(converted.into_inner(), 2);

    let mut sink = from_err::new::<u8, String>(1);
    *sink.get_mut() = 2;
    assert_eq!(*sink.get_ref(), 2);
    assert_eq!(sink.into_inner(), 2);

    let mut filtered: Filter<u8, _, bool, u32> = filter::new(1u8, |x: &u32| *x > 1);
    *filtered.get_mut() = 2;
    assert_eq!(*filtered.get_ref(), 2);
    assert_eq!(filtered.into_inner(), 2);

    let mut chained: and_then::AndThen<u8, _, u32> = and_then::new(1u8, |x: u32| x);
    *chained.get_mut() = 2;
    assert_eq!(*chained.get_ref(), 2);
    assert_eq!(chained.into_inner(), 2);
}

#[test]
fn map_hands_each_item_to_the_function() {
    let mut mapped = futures_prims::stream::map::new((), |x: u32| x * 2);
    assert_eq!(mapped.polled(Poll::Ready(Some(4))), Poll::Ready(Some(8)));
    assert_eq!(mapped.polled(Poll::Pending), Poll::Pending);
    assert_eq!(mapped.polled(Poll::Ready(None)), Poll::Ready(None));

    let mut errs = map_err::new((), |e: u8| u32::from(e) + 100);
    assert_eq!(errs.polled(Ok::<Poll<Option<u8>>, u8>(Poll::Ready(Some(1)))), Ok(Poll::Ready(Some(1))));
    assert_eq!(errs.polled(Err::<Poll<Option<u8>>, u8>(1)), Err(101));
}

#[test]
fn then_keeps_its_future_while_it_is_pending() {
    let mut stream: then::Then<(), _, u32> = then::new((), |r: Result<u32, u8>| r.unwrap_or(0));
    assert!(!stream.has_future());
    stream.start(Ok(6));
    assert!(stream.has_future());
    assert_eq!(*stream.future_mut(), Some(6));
    assert_eq!(stream.future_polled(Ok::<Poll<u32>, u8>(Poll::Pending)), Ok(Poll::Pending));
    assert!(stream.has_future());
    assert_eq!(stream.future_polled(Ok::<Poll<u32>, u8>(Poll::Ready(6))), Ok(Poll::Ready(Some(6))));
    assert!(!stream.has_future());
    stream.start(Err(1));
    assert_eq!(stream.future_polled(Err::<Poll<u32>, u8>(3)), Err(3));
    assert!(!stream.has_future());
    assert_eq!(*stream.get_ref(), ());

    let mut stream: and_then::AndThen<(), _, u32> = and_then::new((), |x: u32| x + 1);
    stream.start(6);
    assert_eq!(*stream.future_mut(), Some(7));
    assert_eq!(stream.future_polled(Ok::<Poll<u32>, u8>(Poll::Ready(7))), Ok(Poll::Ready(Some(7))));
    assert!(!stream.has_future());
}

#[test]
fn filter_yields_what_the_predicate_accepts() {
    let mut stream: Filter<(), _, bool, u32> = filter::new((), |x: &u32| *x % 2 == 0);
    assert!(!stream.has_pending());
    stream.ask(4);
    assert!(stream.has_pending());
    assert_eq!(*stream.pending_mut(), Some((true, 4)));
    assert_eq!(stream.answered(Ok::<Poll<bool>, u8>(Poll::Pending)), Some(Ok(Poll::Pending)));
    assert!(stream.has_pending());
    assert_eq!(stream.answered(Ok::<Poll<bool>, u8>(Poll::Ready(true))), Some(Ok(Poll::Ready(Some(4)))));
    assert!(!stream.has_pending());
    stream.ask(5);
    assert_eq!(stream.answered(Ok::<Poll<bool>, u8>(Poll::Ready(false))), None);
    assert!(!stream.has_pending());
    stream.ask(6);
    assert_eq!(stream.answered(Err::<Poll<bool>, u8>(1)), Some(Err(1)));
    assert!(!stream.has_pending());
}

#[test]
fn skip_while_yields_from_the_first_refusal_on() {
    let mut stream: SkipWhile<u8, _, bool, u32> = skip_while::new(0u8, |x: &u32| *x < 3);
    assert!(!stream.is_done_skipping());
    stream.ask(1);
    assert_eq!(*stream.pending_mut(), Some((true, 1)));
    assert_eq!(stream.answered(Ok::<Poll<bool>, u8>(Poll::Ready(true))), None);
    assert!(!stream.is_done_skipping());
    assert!(!stream.has_pending());
    stream.ask(3);
    assert_eq!(stream.answered(Ok::<Poll<bool>, u8>(Poll::Pending)), Some(Ok(Poll::Pending)));
    assert_eq!(stream.answered(Ok::<Poll<bool>, u8>(Poll::Ready(false))), Some(Ok(Poll::Ready(Some(3)))));
    assert!(stream.is_done_skipping());
    *stream.get_mut() = 1;
    assert_eq!(*stream.get_ref(), 1);
    assert_eq!(stream.into_inner(), 1);
}

#[test]
fn fold_threads_the_value_through() {
    let mut folded: fold::Fold<u8, _, u32, u32> = fold::new(0u8, |acc: u32, x: u32| acc + x, 10);
    let state = match folded.take_state() {
        fold::State::Ready(state) => state,
        _ => panic!("a new fold holds its first value"),
    };
    assert_eq!(state, 10);
    assert!(matches!(folded.take_state(), fold::State::Empty));
    assert_eq!(folded.stream_polled(state, Poll::Ready(Some(5))), None);
    let future = match folded.take_state() {
        fold::State::Processing(future) => future,
        _ => panic!("the function is at work"),
    };
    assert_eq!(future, 15);
    assert_eq!(folded.processed(future, Poll::Pending), Poll::Pending);
    let future = match folded.take_state() {
        fold::State::Processing(future) => future,
        _ => panic!("a pending future is put back"),
    };
    assert_eq!(folded.processed(future, Poll::Ready(15)), Poll::Ready(()));
    let state = match folded.take_state() {
        fold::State::Ready(state) => state,
        _ => panic!("the value waits for the next item"),
    };
    assert_eq!(folded.stream_polled(state, Poll::<Option<u32>>::Pending), Some(Poll::Pending));
    let state = match folded.take_state() {
        fold::State::Ready(state) => state,
        _ => panic!("a pending stream puts the value back"),
    };
    assert_eq!(folded.stream_polled(state, Poll::<Option<u32>>::Ready(None)), Some(Poll::Ready(15)));
    *folded.stream_mut() = 1;
}

#[test]
fn collect_gathers_until_the_end() {
    let mut collected: collect::Collect<u8, u32> = collect::new(0);
    assert_eq!(collected.polled(Ok::<Poll<Option<u32>>, u8>(Poll::Ready(Some(1)))), None);
    assert_eq!(collected.polled(Ok::<Poll<Option<u32>>, u8>(Poll::Ready(Some(2)))), None);
    assert_eq!(collected.polled(Ok::<Poll<Option<u32>>, u8>(Poll::Pending)), Some(Ok(Poll::Pending)));
    assert_eq!(
        collected.polled(Ok::<Poll<Option<u32>>, u8>(Poll::Ready(None))),
        Some(Ok(Poll::Ready(vec![1, 2])))
    );
    assert_eq!(collected.polled(Ok::<Poll<Option<u32>>, u8>(Poll::Ready(Some(3)))), None);
    assert_eq!(collected.polled(Err::<Poll<Option<u32>>, u8>(9)), Some(Err(9)));
    assert_eq!(collected.finish(), Vec::<u32>::new());
    *collected.get_mut() = 1;
}

#[test]
fn chunks_are_handed_out_when_full() {
    let mut chunked: chunks::Chunks<u8, u32, u8> = chunks::new(0, 2);
    assert_eq!(chunked.capacity(), 2);
    assert_eq!(chunked.polled(Ok(Poll::Ready(Some(1)))), None);
    assert_eq!(chunked.polled(Ok(Poll::Pending)), Some(Ok(Poll::Pending)));
    assert_eq!(chunked.polled(Ok(Poll::Ready(Some(2)))), Some(Ok(Poll::Ready(Some(vec![1, 2])))));
    assert_eq!(chunked.polled(Ok(Poll::Ready(Some(3)))), None);
    assert_eq!(chunked.polled(Ok(Poll::Ready(None))), Some(Ok(Poll::Ready(Some(vec![3])))));
    assert_eq!(chunked.polled(Ok(Poll::Ready(None))), Some(Ok(Poll::Ready(None))));
    // An error waits behind the items that came before it.
    assert_eq!(chunked.polled(Ok(Poll::Ready(Some(4)))), None);
    assert_eq!(chunked.polled(Err(7)), Some(Ok(Poll::Ready(Some(vec![4])))));
    assert_eq!(chunked.take_error(), Some(7));
    assert_eq!(chunked.take_error(), None);
    assert_eq!(chunked.polled(Err(8)), Some(Err(8)));
    assert_eq!(chunked.take(), Vec::<u32>::new());
    *chunked.get_mut() = 1;
    assert_eq!(*chunked.get_ref(), 1);
    assert_eq!(chunked.into_inner(), 1);
}

#[test]
fn take_until_stops_when_the_future_resolves() {
    let mut stream: TakeUntil<u8, &str, u32> = TakeUntil::new(0, "future");
    assert!(!stream.is_stopped());
    assert_eq!(stream.size_hint((3, Some(4))), (3, Some(4)));
    stream.future_polled(Poll::Pending);
    assert!(!stream.is_stopped());
    assert_eq!(stream.stream_polled(Poll::Ready(Some(1u8))), Poll::Ready(Some(1)));
    stream.future_polled(Poll::Ready(9));
    assert!(stream.is_stopped());
    assert_eq!(stream.size_hint((3, Some(4))), (0, Some(0)));
    assert_eq!(stream.take_result(), Some(9));
    assert_eq!(stream.take_result(), None);
    assert_eq!(stream.take_future(), None);
    assert!(stream.is_stopped());
    *stream.get_mut() = 5;
    assert_eq!(*stream.get_ref(), 5);
    assert_eq!(stream.into_inner(), (5, None));

    let mut stream: TakeUntil<u8, &str, u32> = TakeUntil::new(0, "future");
    assert_eq!(stream.take_future(), Some("future"));
    assert!(!stream.is_stopped());
    assert_eq!(*stream.future_mut(), None);

    let mut stream: TakeUntil<u8, &str, u32> = TakeUntil::new(0, "future");
    assert_eq!(stream.stream_polled(Poll::<Option<u8>>::Ready(None)), Poll::Ready(None));
    assert!(stream.is_stopped());
}

#[test]
fn unfold_walks_from_seed_to_seed() {
    let mut stream = unfold(1u32, |seed: u32| seed * 2);
    assert!(!stream.is_terminated());
    stream.start();
    assert_eq!(stream.future_mut(), Some(&mut 2));
    assert_eq!(stream.resolved(Some(("item", 5))), Poll::Ready(Some("item")));
    assert_eq!(stream.take_value(), Some(5));
    assert_eq!(stream.take_value(), None);
    assert!(stream.is_terminated());
    stream.set_future(1);
    assert!(!stream.is_terminated());
    assert_eq!(stream.resolved(None::<(&str, u32)>), Poll::Ready(None));
    assert!(stream.is_terminated());
    stream.start();
    assert_eq!(stream.future_mut(), None);

    let mut state: unfold::State<u8, u32> = unfold::State::Future(3);
    assert_eq!(state.take_value(), None);
    assert_eq!(state.project_future(), Some(&mut 3));
}

#[test]
fn try_unfold_ends_on_the_first_error() {
    let mut stream = try_unfold(1u32, |seed: u32| seed + 1);
    assert_eq!(*stream.future_mut(), None);
    stream.start();
    assert_eq!(*stream.future_mut(), Some(2));
    assert_eq!(stream.polled(Poll::<Result<Option<(u8, u32)>, u8>>::Pending), Poll::Pending);
    assert_eq!(*stream.future_mut(), Some(2));
    assert_eq!(
        stream.polled(Poll::Ready(Ok::<Option<(u8, u32)>, u8>(Some((7, 3))))),
        Poll::Ready(Some(Ok(7)))
    );
    assert_eq!(*stream.future_mut(), None);
    assert_eq!(stream.take_state(), Some(3));
    stream.set_future(9);
    assert_eq!(stream.polled(Poll::Ready(Err::<Option<(u8, u32)>, u8>(1))), Poll::Ready(Some(Err(1))));
    assert_eq!(stream.take_state(), None);
    assert_eq!(stream.polled(Poll::Ready(Ok::<Option<(u8, u32)>, u8>(None))), Poll::Ready(None));

    let mut other = try_unfold_fns(4u32, |seed: u32| seed + 1);
    other.start();
    assert_eq!(*other.future_mut(), Some(5));
}

#[test]
fn iter_yields_what_the_iterator_gives() {
    let mut stream = iter(vec![Ok::<u32, u8>(1), Err(2)].into_iter());
    let next = stream.get_mut().next();
    assert_eq!(IterStream::<()>::yielded(next), Ok(Poll::Ready(Some(1))));
    let next = stream.get_mut().next();
    assert_eq!(IterStream::<()>::yielded(next), Err(2));
    let next = stream.get_mut().next();
    assert_eq!(IterStream::<()>::yielded(next), Ok(Poll::Ready(None)));
}

#[test]
fn buffer_takes_one_item_more_than_its_size() {
    let mut buffered: buffer::Buffer<u8, u32> = buffer::new(0, 1);
    assert!(buffered.is_empty());
    assert_eq!(buffered.start_send(1), None);
    assert_eq!(buffered.start_send(2), None);
    assert_eq!(buffered.start_send(3), Some(3));
    assert_eq!(buffered.next_to_send(), Some(1));
    buffered.put_back(1);
    assert_eq!(buffered.next_to_send(), Some(1));
    assert_eq!(buffered.next_to_send(), Some(2));
    assert_eq!(buffered.next_to_send(), None);
    assert!(buffered.is_empty());
    *buffered.get_mut() = 4;
    assert_eq!(*buffered.get_ref(), 4);
}

#[test]
fn sink_map_err_uses_its_function_once() {
    let mut sink = sink_map_err::new(0u8, |e: u8| u32::from(e) + 1);
    assert!(sink.has_fn());
    assert_eq!(sink.mapped(Ok::<(), u8>(())), Ok(()));
    assert!(sink.has_fn());
    assert_eq!(sink.mapped(Err::<(), u8>(4)), Err(5));
    assert!(!sink.has_fn());
    *sink.get_mut() = 2;
    assert_eq!(*sink.get_ref(), 2);
    assert_eq!(sink.into_inner(), 2);

    let mut sink = sink_map_err::new(0u8, 7u32);
    assert_eq!(sink.expect_f(), 7);
    assert!(!sink.has_fn());
}

#[test]
fn flatten_sink_goes_from_waiting_to_ready_to_closed() {
    let mut sink: flatten_sink::FlattenSink<&str, u8> = flatten_sink::new("future");
    assert!(sink.may_poll_ready());
    assert!(!sink.may_start_send());
    sink.close_polled(false);
    assert!(matches!(sink.state_mut(), flatten_sink::State::Waiting("future")));
    sink.resolved(3);
    assert!(sink.may_start_send());
    assert!(matches!(sink.state_mut(), flatten_sink::State::Ready(3)));
    sink.close_polled(true);
    assert!(!sink.may_poll_ready());
    assert!(!sink.may_start_send());
}

#[test]
fn blocking_stream_gives_its_stream_back() {
    let mut blocking = block_on_stream(5u8);
    assert!(!blocking.is_taken());
    let stream = blocking.take();
    assert!(blocking.is_taken());
    blocking.put_back(stream + 1);
    assert_eq!(blocking.into_inner(), 6);
}

#[test]
fn sync_filter_asks_its_predicate() {
    let mut stream = filter_sync::new(0u8, |x: &u32| *x > 2);
    assert_eq!(stream.polled(Ok::<Poll<Option<u32>>, u8>(Poll::Ready(Some(3)))), Some(Ok(Poll::Ready(Some(3)))));
    assert_eq!(stream.polled(Ok::<Poll<Option<u32>>, u8>(Poll::Ready(Some(1)))), None);
    assert_eq!(stream.polled(Ok::<Poll<Option<u32>>, u8>(Poll::Ready(None))), Some(Ok(Poll::Ready(None))));
    assert_eq!(stream.polled(Ok::<Poll<Option<u32>>, u8>(Poll::Pending)), Some(Ok(Poll::Pending)));
    assert_eq!(stream.polled(Err::<Poll<Option<u32>>, u8>(4)), Some(Err(4)));
    *stream.get_mut() = 1;
}

#[test]
fn flat_map_sink_keeps_what_stalls() {
    let mut sink: with_flat_map::WithFlatMap<u8, u32, _, Vec<u32>, u32> =
        with_flat_map::new(0u8, |x: u32| vec![x, x + 1]);
    assert!(!sink.has_stream());
    assert_eq!(sink.take_buffer(), None);
    sink.start(5);
    assert!(sink.has_stream());
    let stream = sink.take_stream();
    assert_eq!(stream, Some(vec![5, 6]));
    assert!(!sink.has_stream());
    sink.stalled(stream, 5);
    assert!(sink.has_stream());
    assert_eq!(sink.take_buffer(), Some(5));
    assert_eq!(sink.take_stream(), Some(vec![5, 6]));
    sink.stalled(None, 7);
    assert!(!sink.has_stream());
    assert_eq!(sink.take_buffer(), Some(7));
    *sink.get_mut() = 1;
    assert_eq!(*sink.get_ref(), 1);
    assert_eq!(sink.into_inner(), 1);
}

#[test]
fn errors_are_converted() {
    let mut stream = stream_from_err::new::<u8, u64>(0);
    assert_eq!(stream.polled(Ok::<Poll<Option<u8>>, u32>(Poll::Ready(Some(1)))), Ok(Poll::Ready(Some(1))));
    assert_eq!(stream.polled(Err::<Poll<Option<u8>>, u32>(7)), Err(7u64));
    let mut sink = from_err::new::<u8, u64>(0);
    assert_eq!(sink.converted(Ok::<(), u32>(())), Ok(()));
    assert_eq!(sink.converted(Err::<(), u32>(7)), Err(7u64));
}
