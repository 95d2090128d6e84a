use async_bench::channel::Channel;
use async_bench::channel::LocalShared;
use async_bench::channel::ShmNamespace;
use async_bench::driver::event_loop_resume_step;
use async_bench::driver::event_loop_suspend_step;
use async_bench::executor::ResumeLoop;
use async_bench::executor::SuspendLoop;
use async_bench::executor::Task;
use async_bench::runtime::Poll;
use async_bench::runtime::RuntimeState;
use async_bench::runtime::SpinFuture;
use async_bench::runtime::WakerToken;

const BUDGET: u64 = 1000;

fn fresh_state() -> RuntimeState<LocalShared> {
    let mut ns = ShmNamespace::new();
    let chan = Channel::new(&mut ns, true).unwrap();
    RuntimeState::new(chan)
}

#[test]
fn poll_without_inbound_suspends_and_records_waker() {
    let mut state = fresh_state();
    let mut fut = SpinFuture::new();
    let p = fut.poll(&mut state, WakerToken);
    assert!(!p.is_ready());
    assert!(state.waker.is_some());
}

#[test]
fn poll_with_inbound_delivers_it() {
    let mut state = fresh_state();
    state.store_inbound(55);
    let mut fut = SpinFuture::new();
    let p = fut.poll(&mut state, WakerToken);
    assert_eq!(p, Poll::Ready(55));
    assert_eq!(state.to_async_loop, None);
}

#[test]
fn suspend_deposits_outbound_then_waits() {
    let mut state = fresh_state();
    let mut fut = SpinFuture::new();
    let p = fut.suspend_to_eventloop(&mut state, 77, WakerToken);
    assert_eq!(p, Poll::Pending);
    assert_eq!(state.to_event_loop, Some(77));
    assert!(state.waker.is_some());
}

#[test]
fn first_advance_suspends_with_initial_value_outbound() {
    let mut state = fresh_state();
    let mut task = Task::init(ResumeLoop::new());
    task.advance(&mut state);
    assert_eq!(state.to_event_loop, Some(0));
    assert!(state.waker.is_some());
    assert_eq!(state.to_async_loop, None);
}

#[test]
fn spurious_advance_is_a_harmless_no_op() {
    let mut state = fresh_state();
    let mut task = Task::init(ResumeLoop::new());
    task.advance(&mut state);
    // No wake signal arrived: driving the executor again must not
    // complete the computation nor corrupt the cell.
    task.advance(&mut state);
    task.advance(&mut state);
    assert_eq!(state.to_event_loop, Some(0));
    assert!(state.waker.is_some());
    assert_eq!(state.to_async_loop, None);
    assert_eq!(task.code.value, 0);
}

#[test]
fn woken_task_consumes_inbound_and_mirrors_it() {
    let mut state = fresh_state();
    let mut task = Task::init(ResumeLoop::new());
    task.advance(&mut state);
    state.take_outbound();
    state.store_inbound(11);
    let wk = state.take_waker();
    assert!(wk.is_some());
    task.run_wake(&mut state);
    assert_eq!(state.atomics.server_read(), 11);
    assert_eq!(state.to_event_loop, Some(11));
    assert_eq!(task.code.value, 11);
    assert!(state.waker.is_some());
}

#[test]
fn resume_server_mirrors_a_sequence_in_order() {
    let mut ns = ShmNamespace::new();
    let chan = Channel::new(&mut ns, true).unwrap();
    let mut state = RuntimeState::new(chan.clone());
    let mut task = Task::init(ResumeLoop::new());
    task.advance(&mut state);

    for value in [1u64, 2, 3] {
        chan.client_write(value);
        let served = event_loop_resume_step(&mut state, &mut task, BUDGET);
        assert_eq!(served, Some(value));
        // The client's next look at the server counter sees exactly the
        // value it wrote: never a stale or skipped one.
        assert_eq!(chan.server_read(), value);
    }
}

#[test]
fn resume_step_without_client_change_gives_the_cell_back() {
    let mut state = fresh_state();
    let mut task = Task::init(ResumeLoop::new());
    task.advance(&mut state);
    let served = event_loop_resume_step(&mut state, &mut task, 10);
    assert_eq!(served, None);
    assert_eq!(state.to_event_loop, Some(0));
    assert!(state.waker.is_some());
}

#[test]
fn suspend_server_hands_each_spun_value_to_the_driver() {
    let mut ns = ShmNamespace::new();
    let chan = Channel::new(&mut ns, true).unwrap();
    let mut state = RuntimeState::new(chan.clone());
    let mut task = Task::init(SuspendLoop::new(BUDGET));

    // The computation performs the spin-wait itself: give it the first
    // fresh value, then start it.
    chan.client_write(1);
    task.advance(&mut state);
    assert_eq!(state.to_event_loop, Some(1));

    // The driver mirrors 1; the resumed computation spins and hands
    // over the next value.
    chan.client_write(2);
    let mirrored = event_loop_suspend_step(&mut state, &mut task);
    assert_eq!(mirrored, 1);
    assert_eq!(chan.server_read(), 1);
    assert_eq!(state.to_event_loop, Some(2));

    chan.client_write(3);
    let mirrored = event_loop_suspend_step(&mut state, &mut task);
    assert_eq!(mirrored, 2);
    assert_eq!(chan.server_read(), 2);
    assert_eq!(state.to_event_loop, Some(3));
}

#[test]
fn cloned_waker_is_the_tasks_own() {
    let task: Task<ResumeLoop<LocalShared>> = Task::init(ResumeLoop::new());
    assert_eq!(task.run_clone(), task.waker);
}
