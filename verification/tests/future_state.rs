use esbuild_rs::FutureState;
use std::sync::mpsc::{channel, Sender};
use std::sync::{Arc, Mutex};
use std::task::Poll;

#[test]
fn new_state_is_pending_without_waker() {
    let state: FutureState<u32, &str> = FutureState::new();
    assert_eq!(state.result, None);
    assert_eq!(state.waker, None);
}

#[test]
fn poll_before_completion_is_pending_and_keeps_one_waker() {
    let mut state: FutureState<u32, &str> = FutureState::new();
    assert_eq!(state.poll("first"), Poll::Pending);
    assert_eq!(state.waker, Some("first"));
    assert_eq!(state.result, None);
    assert_eq!(state.poll("second"), Poll::Pending);
    assert_eq!(state.waker, Some("second"));
}

#[test]
fn completion_hands_back_the_waker_to_wake() {
    let mut state: FutureState<u32, &str> = FutureState::new();
    assert_eq!(state.poll("task"), Poll::Pending);
    assert_eq!(state.complete(42), Some("task"));
    assert_eq!(state.waker, None);
    assert_eq!(state.result, Some(42));
}

#[test]
fn completion_before_any_poll_wakes_nothing() {
    let mut state: FutureState<u32, &str> = FutureState::new();
    assert_eq!(state.complete(7), None);
    assert_eq!(state.poll("late"), Poll::Ready(7));
    assert_eq!(state.waker, None);
}

#[test]
fn result_is_handed_out_once() {
    let mut state: FutureState<String, u8> = FutureState::new();
    assert_eq!(state.poll(1), Poll::Pending);
    assert_eq!(state.complete("let x = world;\n".to_string()), Some(1));
    assert_eq!(state.poll(2), Poll::Ready("let x = world;\n".to_string()));
    assert_eq!(state.result, None);
    assert_eq!(state.waker, None);
}

#[test]
fn completion_under_a_lock_wakes_the_waiting_task() {
    let shared: Arc<Mutex<FutureState<u32, Sender<()>>>> = Arc::new(Mutex::new(FutureState::new()));
    let (wake, woken) = channel();
    assert_eq!(shared.lock().expect("lock").poll(wake), Poll::Pending);
    let completer = shared.clone();
    let to_wake = completer.lock().expect("lock").complete(99);
    if let Some(waker) = to_wake {
        waker.send(()).expect("the task still waits");
    }
    woken.try_recv().expect("the completion wakes the task");
    let (unused, _) = channel();
    assert_eq!(shared.lock().expect("lock").poll(unused), Poll::Ready(99));
}
