use async_bench::channel::Channel;
use async_bench::channel::ShmNamespace;
use async_bench::driver::event_loop_resume;
use async_bench::executor::ResumeLoop;
use async_bench::executor::Task;
use async_bench::runtime::RuntimeState;
use crossbeam_utils::thread::scope;
use rand::RngCore;

// A budget generous enough for a peer thread that is merely slow, while
// still bounded, so a broken peer fails the test instead of hanging it.
const BUDGET: u64 = 2_000_000_000;

#[test]
fn two_roles_never_tear_a_value() {
    let mut ns = ShmNamespace::new();
    let creator = Channel::new(&mut ns, true).unwrap();
    let attacher = Channel::new(&mut ns, false).unwrap();

    const ROUNDS: u64 = 5000;

    scope(|s| {
        // The server role: mirror every fresh client value back.
        s.spawn(|_| {
            attacher.do_server_loop(ROUNDS, BUDGET);
        });

        // The client role: thousands of random values, each a full
        // round trip.  Every acknowledgment observed equals the value
        // written bit for bit — a torn read of either single-writer
        // counter would surface as an interleaved pattern and fail the
        // comparison.
        let mut rng = rand::thread_rng();
        let mut last = 0u64;
        for _ in 0..ROUNDS {
            let mut value = rng.next_u64();
            while value == last {
                value = rng.next_u64();
            }
            let observed = creator.client_run_once(value, BUDGET);
            assert_eq!(observed, Some(value));
            last = value;
        }
    })
    .unwrap();
}

#[test]
fn resume_server_round_trips_a_sequence() {
    let mut ns = ShmNamespace::new();
    let creator = Channel::new(&mut ns, true).unwrap();
    let attacher = Channel::new(&mut ns, false).unwrap();

    scope(|s| {
        // The resume-style server: already started and suspended
        // awaiting its first value when the driver loop begins.
        s.spawn(|_| {
            let mut state = RuntimeState::new(attacher);
            let mut task = Task::init(ResumeLoop::new());
            task.advance(&mut state);
            event_loop_resume(&mut state, &mut task, 3, BUDGET);
        });

        // Each round trip returns only once the client's spin-wait has
        // observed exactly the value it wrote mirrored back: never a
        // stale or skipped one.
        for value in [1u64, 2, 3] {
            assert_eq!(creator.client_run_once(value, BUDGET), Some(value));
        }
    })
    .unwrap();
}

#[test]
fn concurrent_round_trip_of_edge_values() {
    let mut ns = ShmNamespace::new();
    let creator = Channel::new(&mut ns, true).unwrap();
    let attacher = Channel::new(&mut ns, false).unwrap();

    scope(|s| {
        s.spawn(|_| {
            attacher.do_server_loop(2, BUDGET);
        });

        assert_eq!(creator.client_run_once(u64::MAX, BUDGET), Some(u64::MAX));
        assert_eq!(creator.client_run_once(1, BUDGET), Some(1));
    })
    .unwrap();
}
