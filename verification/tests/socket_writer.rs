use resource_pool::receiver::{Receiver, TimedOut};
use resource_pool::socket_writer::{SharedState, Step};
use std::cell::RefCell;
use std::future::Future;
use std::pin::Pin;
use std::rc::Rc;
use std::sync::atomic::{AtomicUsize, Ordering};
use std::sync::{Arc, Mutex};
use std::task::{Context, Poll, Wake, Waker};
use std::time::{Duration, Instant};

struct WakeCounter(AtomicUsize);

impl Wake for WakeCounter {
    fn wake(self: Arc<Self>) {
        self.0.fetch_add(1, Ordering::SeqCst);
    }
}

fn counting_waker() -> (Arc<WakeCounter>, Waker) {
    let counter = Arc::new(WakeCounter(AtomicUsize::new(0)));
    (counter.clone(), Waker::from(counter))
}

struct WaitForBuffer(Rc<RefCell<SharedState>>);

impl Future for WaitForBuffer {
    type Output = ();

    fn poll(self: Pin<&mut Self>, cx: &mut Context<'_>) -> Poll<Self::Output> {
        if self.0.borrow_mut().poll(cx.waker().clone()) {
            Poll::Ready(())
        } else {
            Poll::Pending
        }
    }
}

async fn receive_data(sh: Rc<RefCell<SharedState>>) {
    loop {
        let interval = sh.borrow().flush_interval();
        let res = tokio::time::timeout(interval, WaitForBuffer(sh.clone())).await;
        let mut state = sh.borrow_mut();
        if !state.is_exiting() && res.is_ok() {
            assert!(state.pending() > 0);
        }
        if state.receive_step(res.is_err()).unwrap() == Step::Stop {
            return;
        }
    }
}

#[test]
fn single_threaded_it_works() {
    let rt = tokio::runtime::Builder::new_current_thread()
        .enable_all()
        .build()
        .unwrap();

    let sh = Rc::new(RefCell::new(SharedState::new(
        100,
        Duration::from_millis(10),
        Receiver::new(),
    )));

    let set = tokio::task::LocalSet::new();
    set.spawn_local({
        let sh = sh.clone();
        async move {
            for i in 0..10000 {
                sh.borrow_mut().push_ticks(i);
                if i % 500 == 0 {
                    tokio::time::sleep(Duration::from_millis(20)).await;
                }
            }
            sh.borrow_mut().set_exit();
        }
    });
    set.spawn_local({
        let sh = sh.clone();
        async move {
            receive_data(sh).await;
        }
    });

    rt.block_on(set);
    assert!(sh.borrow().is_exiting());
}

struct WaitForSharedBuffer(Arc<Mutex<SharedState>>);

impl Future for WaitForSharedBuffer {
    type Output = ();

    fn poll(self: Pin<&mut Self>, cx: &mut Context<'_>) -> Poll<Self::Output> {
        if self.0.lock().unwrap().poll_parked(cx.waker().clone()) {
            Poll::Ready(())
        } else {
            Poll::Pending
        }
    }
}

async fn receive_shared_data(sh: Arc<Mutex<SharedState>>) {
    loop {
        let interval = sh.lock().unwrap().flush_interval();
        let res = tokio::time::timeout(interval, WaitForSharedBuffer(sh.clone())).await;
        let mut state = sh.lock().unwrap();
        if !state.is_exiting() && res.is_ok() {
            assert!(state.pending() > 0);
        }
        if state.receive_step(res.is_err()).unwrap() == Step::Stop {
            return;
        }
    }
}

#[test]
fn multithreaded_it_works() {
    let rt = tokio::runtime::Runtime::new().unwrap();

    let sh = Arc::new(Mutex::new(SharedState::new(
        100,
        Duration::from_millis(10),
        Receiver::new(),
    )));

    rt.spawn({
        let sh = sh.clone();
        async move {
            for i in 0..10000 {
                sh.lock().unwrap().push_ticks(i);
                if i % 500 == 0 {
                    tokio::time::sleep(Duration::from_millis(20)).await;
                }
            }
            sh.lock().unwrap().set_exit();
        }
    });

    rt.spawn({
        let sh = sh.clone();
        async move {
            receive_shared_data(sh).await;
        }
    });

    rt.block_on(async {});
}

#[test]
fn push_ticks_wakes_on_multiples_of_the_limit() {
    let mut state = SharedState::new(3, Duration::from_millis(10), Receiver::new());
    assert_eq!(state.flush_limit(), 3);
    assert_eq!(state.flush_interval(), Duration::from_millis(10));
    let (wakes, waker) = counting_waker();

    // Nobody waits: a multiple of the limit wakes nobody.
    state.push_ticks(3);
    assert_eq!(state.pending(), 1);
    assert!(!state.is_parked());

    assert!(state.poll(waker.clone()));
    assert!(state.is_parked());
    state.push_ticks(4);
    state.push_ticks(5);
    assert!(state.is_parked());
    assert_eq!(wakes.0.load(Ordering::SeqCst), 0);
    state.push_ticks(6);
    assert!(!state.is_parked());
    assert_eq!(wakes.0.load(Ordering::SeqCst), 1);
    state.push_ticks(9);
    assert_eq!(wakes.0.load(Ordering::SeqCst), 1);
    assert_eq!(state.pending(), 5);

    // Zero is a multiple of every limit.
    assert!(state.poll(waker));
    state.push_ticks(0);
    assert!(!state.is_parked());
    assert_eq!(wakes.0.load(Ordering::SeqCst), 2);
}

#[test]
fn poll_is_ready_when_no_waker_was_parked() {
    let mut state = SharedState::new(100, Duration::from_millis(10), Receiver::new());
    let (wakes, waker) = counting_waker();
    assert!(state.poll(waker.clone()));
    assert!(!state.poll(waker.clone()));
    assert!(!state.poll(waker.clone()));
    state.push_ticks(200);
    assert!(state.poll(waker));
    assert_eq!(wakes.0.load(Ordering::SeqCst), 1);
}

#[test]
fn poll_parked_is_ready_when_a_waker_was_parked() {
    let mut state = SharedState::new(100, Duration::from_millis(10), Receiver::new());
    let (_, waker) = counting_waker();
    assert!(!state.poll_parked(waker.clone()));
    assert!(state.poll_parked(waker.clone()));
    state.push_ticks(100);
    assert!(!state.poll_parked(waker));
    assert!(state.is_parked());
}

#[test]
fn receive_step_decides_on_exit_timeout_and_silence() {
    let mut state = SharedState::new(100, Duration::from_millis(10), Receiver::new());
    let now = Instant::now();
    for i in 1..=4 {
        state.push_ticks(i);
    }

    assert_eq!(state.receive_step_at(true, 14, now), Ok(Step::KeptAlive));
    assert_eq!(state.pending(), 4);
    assert_eq!(state.last_received(), 0);

    assert_eq!(state.receive_step_at(true, 15, now), Err(TimedOut { silent_ms: 15 }));
    assert_eq!(state.pending(), 4);

    assert_eq!(state.receive_step_at(false, 0, now), Ok(Step::Sent { values: 4 }));
    assert_eq!(state.pending(), 0);
    assert_eq!(state.last_received(), 4);

    state.push_ticks(7);
    assert_eq!(state.receive_step_at(false, 99, now), Err(TimedOut { silent_ms: 99 }));
    assert_eq!(state.pending(), 0);
    assert_eq!(state.last_received(), 4);

    state.push_ticks(8);
    state.set_exit();
    assert!(state.is_exiting());
    assert_eq!(state.receive_step_at(false, 99, now), Ok(Step::Stop));
    assert_eq!(state.receive_step_at(true, 0, now), Ok(Step::Stop));
    assert_eq!(state.pending(), 1);
    assert_eq!(state.last_received(), 4);
}

#[test]
fn receive_step_reads_the_clock() {
    let mut state = SharedState::new(100, Duration::from_millis(10), Receiver::new());
    state.push_ticks(5);
    state.push_ticks(6);
    assert_eq!(state.receive_step(false), Ok(Step::Sent { values: 2 }));
    assert_eq!(state.last_received(), 6);
    assert_eq!(state.receive_step(true), Ok(Step::KeptAlive));
    let started = Instant::now();
    while started.elapsed() < Duration::from_millis(30) {
        std::hint::spin_loop();
    }
    assert!(state.receive_step(true).unwrap_err().silent_ms >= 30);
}
