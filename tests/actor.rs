use atomic_actor::addr::{Addr, SendError};
use atomic_actor::context::{Context, Step};
use atomic_actor::task::HandlerTask;

use std::sync::atomic::{AtomicBool, Ordering};
use std::sync::Arc;

/// An actor without state that answers each number with its successor.
struct AddOne;

/// An actor whose state is a running total.
struct Total(i32);

/// Adds every element of the message to the total, yielding between
/// additions, and answers with the new total.
async fn add_all(actor: &mut Total, message: Vec<i32>) -> i32 {
    for value in message {
        tokio::task::yield_now().await;
        actor.0 += value;
    }
    actor.0
}

/// Starts the dispatch loop of a `Total` actor on `runtime`. The flag is set
/// when the loop ends, and `busy` catches two handlers running at once.
fn spawn_total(
    runtime: &tokio::runtime::Runtime,
    initial: i32,
    stopped: Arc<AtomicBool>,
    busy: Arc<AtomicBool>,
) -> (Addr<Vec<i32>, i32>, tokio::task::JoinHandle<()>) {
    let (mut context, mut receiver, addr) = Context::start(Total(initial));
    let handle = runtime.spawn(async move {
        loop {
            let event = receiver.recv().await;
            match context.step(event) {
                Step::Run(mut actor, task) => {
                    assert!(!busy.swap(true, Ordering::SeqCst));
                    let (message, responder) = task.into_parts();
                    let result = add_all(&mut actor, message).await;
                    let _ = responder.respond(result);
                    busy.store(false, Ordering::SeqCst);
                    context.resume(actor);
                }
                Step::Stop(actor) => {
                    drop(actor);
                    stopped.store(true, Ordering::SeqCst);
                    break;
                }
            }
        }
    });
    (addr, handle)
}

fn runtime() -> tokio::runtime::Runtime {
    tokio::runtime::Builder::new_multi_thread()
        .worker_threads(4)
        .enable_all()
        .build()
        .unwrap()
}

fn flags() -> (Arc<AtomicBool>, Arc<AtomicBool>) {
    (Arc::new(AtomicBool::new(false)), Arc::new(AtomicBool::new(false)))
}

#[test]
fn sum_of_first_message() {
    let rt = runtime();
    let (stopped, busy) = flags();
    let (addr, _handle) = spawn_total(&rt, 0, stopped, busy);
    let result = rt.block_on(addr.send(vec![1, 2, 3]).unwrap()).unwrap();
    assert_eq!(result, 6);
}

#[test]
fn scenario_two_clones_reach_twelve() {
    let rt = runtime();
    let (stopped, busy) = flags();
    let (addr, handle) = spawn_total(&rt, 0, stopped.clone(), busy);
    // Start from a state of 0 and bring it to 3 first.
    let first = rt.block_on(addr.send(vec![3]).unwrap()).unwrap();
    assert_eq!(first, 3);
    let a = addr.clone();
    let b = addr.clone();
    drop(addr);
    let ta = rt.spawn(async move { a.send(vec![4]).unwrap().await.unwrap() });
    let tb = rt.spawn(async move { b.send(vec![5]).unwrap().await.unwrap() });
    let ra = rt.block_on(ta).unwrap();
    let rb = rt.block_on(tb).unwrap();
    assert!((ra == 7 && rb == 12) || (rb == 8 && ra == 12));
    // Both clones went with their tasks: the loop ends.
    rt.block_on(handle).unwrap();
    assert!(stopped.load(Ordering::SeqCst));
}

#[test]
fn concurrent_producers_never_overlap() {
    let rt = runtime();
    let (stopped, busy) = flags();
    let (addr, handle) = spawn_total(&rt, 0, stopped, busy);
    let mut producers = Vec::new();
    for _ in 0..8 {
        let a = addr.clone();
        producers.push(rt.spawn(async move {
            let mut seen = Vec::new();
            for _ in 0..25 {
                seen.push(a.send(vec![1]).unwrap().await.unwrap());
            }
            seen
        }));
    }
    drop(addr);
    let mut all = Vec::new();
    for p in producers {
        let seen = rt.block_on(p).unwrap();
        // Each producer's own messages come back in its send order.
        assert!(seen.windows(2).all(|w| w[0] < w[1]));
        all.extend(seen);
    }
    all.sort();
    // Every message applied exactly once: the totals are 1..=200.
    assert_eq!(all, (1..=200).collect::<Vec<i32>>());
    rt.block_on(handle).unwrap();
}

#[test]
fn late_await_gives_same_value() {
    let rt = runtime();
    let (stopped, busy) = flags();
    let (addr, _handle) = spawn_total(&rt, 10, stopped, busy);
    let late = addr.send(vec![5]).unwrap();
    // A later message is answered only after the first one was handled.
    let after = rt.block_on(addr.send(vec![0]).unwrap()).unwrap();
    assert_eq!(after, 15);
    assert_eq!(rt.block_on(late).unwrap(), 15);
}

#[test]
fn abandoned_future_is_harmless() {
    let rt = runtime();
    let (stopped, busy) = flags();
    let (addr, _handle) = spawn_total(&rt, 0, stopped.clone(), busy);
    drop(addr.send(vec![7]).unwrap());
    let next = rt.block_on(addr.send(vec![1]).unwrap()).unwrap();
    assert_eq!(next, 8);
    assert!(!stopped.load(Ordering::SeqCst));
}

#[test]
fn send_after_stop_returns_message() {
    let rt = runtime();
    let (stopped, busy) = flags();
    let (addr, _handle) = spawn_total(&rt, 0, stopped, busy);
    assert_eq!(rt.block_on(addr.send(vec![1]).unwrap()).unwrap(), 1);
    // Shutting the runtime down drops the loop and its receiver.
    drop(rt);
    let error = addr.send(vec![1, 2, 3]).unwrap_err();
    assert_eq!(error, SendError(vec![1, 2, 3]));
}

#[test]
fn dropping_every_address_stops_the_loop() {
    let rt = runtime();
    let (stopped, busy) = flags();
    let (addr, handle) = spawn_total(&rt, 0, stopped.clone(), busy);
    let clone = addr.clone();
    drop(addr);
    assert_eq!(rt.block_on(clone.send(vec![2]).unwrap()).unwrap(), 2);
    drop(clone);
    rt.block_on(handle).unwrap();
    assert!(stopped.load(Ordering::SeqCst));
}

#[test]
fn task_gives_back_its_message() {
    let (sender, _receiver) = tokio::sync::oneshot::channel::<i32>();
    let task = HandlerTask::new(vec![4, 5], sender);
    assert_eq!(task.into_message(), vec![4, 5]);
}

#[test]
fn respond_delivers_result() {
    let (sender, receiver) = tokio::sync::oneshot::channel::<i32>();
    let (message, responder) = HandlerTask::new(3u8, sender).into_parts();
    assert_eq!(message, 3u8);
    assert_eq!(responder.respond(42), None);
    assert_eq!(receiver.blocking_recv().unwrap(), 42);
}

#[test]
fn respond_to_dropped_receiver_hands_result_back() {
    let (sender, receiver) = tokio::sync::oneshot::channel::<i32>();
    drop(receiver);
    let (_, responder) = HandlerTask::new((), sender).into_parts();
    assert_eq!(responder.respond(42), Some(42));
}

#[test]
fn settle_maps_outcome() {
    let (sender, receiver) = tokio::sync::oneshot::channel::<i32>();
    let task = HandlerTask::new(9u32, sender);
    let r = Addr::<u32, i32>::settle(Err(task), receiver);
    assert_eq!(r.unwrap_err(), SendError(9u32));
    let (_sender, receiver) = tokio::sync::oneshot::channel::<i32>();
    assert!(Addr::<u32, i32>::settle(Ok(()), receiver).is_ok());
}

#[test]
fn context_steps_without_runtime() {
    let (mut context, mut receiver, addr) = Context::<Total, u8, i32>::start(Total(5));
    assert!(context.is_idle());
    let _reply = addr.send(1).unwrap();
    let event = receiver.try_recv().ok();
    match context.step(event) {
        Step::Run(actor, task) => {
            assert!(!context.is_idle());
            assert_eq!(actor.0, 5);
            assert_eq!(task.into_message(), 1);
            context.resume(actor);
        }
        Step::Stop(_) => panic!("the queue is open"),
    }
    assert!(context.is_idle());
    assert!(context.addr().is_some());
    drop(addr);
    // No address is left: the context cannot make one out of nothing.
    assert!(context.addr().is_none());
    let event = receiver.try_recv().ok();
    assert!(event.is_none());
    match context.step(event) {
        Step::Stop(actor) => assert_eq!(actor.0, 5),
        Step::Run(..) => panic!("nothing was queued"),
    }
}

#[test]
fn context_address_reaches_same_actor() {
    let (context, mut receiver, addr) = Context::<Total, u8, i32>::start(Total(0));
    let own = context.addr().unwrap();
    let _r1 = addr.send(1).unwrap();
    let _r2 = own.send(2).unwrap();
    assert_eq!(receiver.try_recv().unwrap().into_message(), 1);
    assert_eq!(receiver.try_recv().unwrap().into_message(), 2);
}

#[test]
fn clone_feeds_same_queue() {
    let (_context, mut receiver, addr) = Context::<Total, u8, i32>::start(Total(0));
    let clone = addr.clone();
    let _r1 = clone.send(7).unwrap();
    let _r2 = addr.send(8).unwrap();
    let _r3 = clone.send(9).unwrap();
    assert_eq!(receiver.try_recv().unwrap().into_message(), 7);
    assert_eq!(receiver.try_recv().unwrap().into_message(), 8);
    assert_eq!(receiver.try_recv().unwrap().into_message(), 9);
    assert!(receiver.try_recv().is_err());
}

#[test]
fn add_one_answers_two() {
    let rt = runtime();
    let (mut context, mut receiver, addr) = Context::<AddOne, i32, i32>::start(AddOne);
    rt.spawn(async move {
        loop {
            let event = receiver.recv().await;
            match context.step(event) {
                Step::Run(actor, task) => {
                    let (message, responder) = task.into_parts();
                    let _ = responder.respond(message + 1);
                    context.resume(actor);
                }
                Step::Stop(_) => break,
            }
        }
    });
    assert_eq!(rt.block_on(addr.send(1).unwrap()).unwrap(), 2);
}

#[test]
fn context_address_after_start_feeds_first_queue() {
    let (context, mut receiver, addr) = Context::<Total, u8, i32>::start(Total(0));
    let own = context.addr().unwrap();
    drop(addr);
    let _r = own.send(5).unwrap();
    assert_eq!(receiver.try_recv().unwrap().into_message(), 5);
    drop(own);
    assert!(context.addr().is_none());
}
