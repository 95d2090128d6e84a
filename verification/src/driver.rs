//! The driver loops: the outer thread of control that detects "a new
//! value has arrived" on the channel and feeds it to the computation.
//!
//! Four interchangeable strategies serve the same channel: the direct
//! busy-spin loop (`Channel::do_server_loop`), the resume-style and
//! suspend-style handoffs to the single-task executor here, and the
//! callback-driven event loop.  Each loop takes a step count and a poll
//! budget — the bounded escape hatch that keeps a dead peer from turning
//! a test into a hang; the steady-state binaries re-run the steps
//! forever.

use vstd::prelude::*;

use crate::channel::Channel;
use crate::channel::SharedMem;
use crate::executor::Coroutine;
use crate::executor::ResumeLoop;
use crate::executor::SuspendLoop;
use crate::executor::Task;
use crate::runtime::RuntimeState;

verus! {

/// One step of the resume-style driver: spin-wait until the client
/// counter moves off the value the computation handed over last, deposit
/// the fresh value inbound, and wake the suspended computation.  The
/// resumed computation mirrors the value to the server counter and
/// re-suspends with it outbound; a fresh value is never the one spun
/// for.  `None` means the spin budget ran out, with the cell put back
/// exactly as it was.
pub fn event_loop_resume_step<M: SharedMem>(
    state: &mut RuntimeState<M>,
    task: &mut Task<ResumeLoop<M>>,
    max_polls: u64,
) -> (r: Option<u64>)
    requires
        old(state).driver_ready(),
        old(task).code.started(),
    ensures
        r matches Some(v) ==> (v != old(state).to_event_loop->0
            && final(state).to_event_loop == Some(v)
            && final(task).code.value == v
            && final(state).waker is Some
            && final(state).to_async_loop is None
            && final(task).code.started()
            && final(task).waker == old(task).waker
            && final(state).delivered@ == old(state).delivered@.push(v)),
        r is None ==> (*final(state) == *old(state) && *final(task) == *old(task)),
        final(state).atomics == old(state).atomics,
{
    // The last client value: the memory has to move off it.
    let last = state.take_outbound().unwrap();
    match state.atomics.server_spin_until_change(last, max_polls) {
        Some(next) => {
            // Record the fresh value for the suspend point's next poll.
            state.store_inbound(next);
            // The borrow of the cell must end before waking, because
            // resumption re-enters the cell.
            let wk = state.take_waker();
            match wk {
                Some(_) => {
                    task.run_wake(state);
                },
                None => {
                },
            }
            Some(next)
        },
        None => {
            // Budget exhausted: hand the outbound value back untouched.
            state.store_outbound(last);
            None
        },
    }
}

/// The resume-style driver loop: assumes the computation is already
/// running and suspended awaiting its first inbound value, then serves
/// `steps` fresh client values.  Returns early only when a spin runs out
/// of budget.  The delivery trace shows what the loop did: it only ever
/// appended (each value delivered exactly once, in observation order, and
/// nothing delivered before it was touched), and no two values it
/// delivered in a row were the same — never a stale one.
pub fn event_loop_resume<M: SharedMem>(
    state: &mut RuntimeState<M>,
    task: &mut Task<ResumeLoop<M>>,
    steps: u64,
    max_polls: u64,
)
    requires
        old(state).driver_ready(),
        old(task).code.started(),
    ensures
        final(state).driver_ready(),
        final(task).code.started(),
        final(state).delivered@.len() >= old(state).delivered@.len(),
        forall|j: int|
            0 <= j < old(state).delivered@.len() ==> final(state).delivered@[j] == old(state).delivered@[j],
        forall|j: int|
            old(state).delivered@.len() <= j < final(state).delivered@.len() - 1 ==> #[trigger] final(state).delivered@[j]
                != final(state).delivered@[j + 1],
{
    let mut i: u64 = 0;
    while i < steps
        invariant
            i <= steps,
            state.driver_ready(),
            task.code.started(),
            state.delivered@.len() >= old(state).delivered@.len(),
            forall|j: int|
                0 <= j < old(state).delivered@.len() ==> state.delivered@[j] == old(state).delivered@[j],
            forall|j: int|
                old(state).delivered@.len() <= j < state.delivered@.len() - 1 ==> #[trigger] state.delivered@[j]
                    != state.delivered@[j + 1],
            state.delivered@.len() > old(state).delivered@.len() ==> state.to_event_loop == Some(
                state.delivered@.last(),
            ),
        decreases steps - i,
    {
        match event_loop_resume_step(state, task, max_polls) {
            Some(_) => {
            },
            None => {
                return;
            },
        }
        i = i + 1;
    }
}

/// One step of the suspend-style driver: the roles invert.  The
/// computation has spun for a fresh client value itself and suspended to
/// hand it over; the driver performs the trivial act of mirroring it to
/// the server counter and resuming the computation, which goes off to
/// spin for the next one.  Returns the value it mirrored.
pub fn event_loop_suspend_step<M: SharedMem>(
    state: &mut RuntimeState<M>,
    task: &mut Task<SuspendLoop<M>>,
) -> (r: u64)
    requires
        old(state).driver_ready(),
        old(task).code.started(),
    ensures
        r == old(state).to_event_loop->0,
        final(state).waker is Some,
        final(state).to_async_loop is None,
        final(state).atomics == old(state).atomics,
        final(state).delivered@ == old(state).delivered@.push(r),
        final(task).code.started(),
        final(task).waker == old(task).waker,
        (final(task).code.value != old(task).code.value && final(state).to_event_loop == Some(
            final(task).code.value,
        )) || (final(task).code.value == old(task).code.value && final(state).to_event_loop == old(
            state,
        ).to_event_loop),
{
    // The handed-over value stays in the slot; the computation will
    // overwrite it when it hands over the next one.
    let value = state.read_outbound().unwrap();
    // Write the value to the server counter.
    state.atomics.server_write(value);
    state.store_inbound(value);
    // The borrow of the cell must end before waking.
    let wk = state.take_waker();
    match wk {
        Some(_) => {
            task.run_wake(state);
        },
        None => {
        },
    }
    value
}

/// The suspend-style driver loop: assumes the computation is already
/// running and suspended with its first spun-for value outbound, then
/// mirrors `steps` handed-over values.  The delivery trace only ever
/// grows: each handed-over value is delivered back exactly once, in
/// order.  (Unlike the resume loop, two deliveries in a row may carry
/// the same value: a resumption whose spin budget ran out hands the old
/// value over again.)
pub fn event_loop_suspend<M: SharedMem>(
    state: &mut RuntimeState<M>,
    task: &mut Task<SuspendLoop<M>>,
    steps: u64,
)
    requires
        old(state).driver_ready(),
        old(task).code.started(),
    ensures
        final(state).driver_ready(),
        final(task).code.started(),
        final(state).delivered@.len() >= old(state).delivered@.len(),
        forall|j: int|
            0 <= j < old(state).delivered@.len() ==> final(state).delivered@[j] == old(state).delivered@[j],
{
    let mut i: u64 = 0;
    while i < steps
        invariant
            i <= steps,
            state.driver_ready(),
            task.code.started(),
            state.delivered@.len() >= old(state).delivered@.len(),
            forall|j: int|
                0 <= j < old(state).delivered@.len() ==> state.delivered@[j] == old(state).delivered@[j],
        decreases steps - i,
    {
        event_loop_suspend_step(state, task);
        i = i + 1;
    }
}

/// A value handler the callback-style event loop invokes with its
/// mutable context and each fresh value.
///
/// `post` is each handler's own relation between the context going in,
/// the value handed over, and the context coming out; `invoke` promises
/// to realize it, so the loop's contract can say what one served value
/// did to the context without knowing the handler.
pub trait Callback<T> {
    spec fn post(pre: T, value: u64, updated: T) -> bool;

    fn invoke(&self, context: &mut T, value: u64)
        ensures
            Self::post(*old(context), value, *final(context)),
    ;
}

/// The worker of the callback-style server: its handler mirrors each
/// value to the server counter and keeps the value as its own state.
pub struct Worker<M: SharedMem> {
    pub atomics: Channel<M>,
    pub some_state: u64,
}

impl<M: SharedMem> Worker<M> {
    pub fn do_work(&mut self, value: u64)
        ensures
            final(self).some_state == value,
            final(self).atomics == old(self).atomics,
    {
        self.atomics.server_write(value);
        self.some_state = value;
    }
}

/// The handler that wires a worker into the event loop by calling its
/// `do_work`.
pub struct DoWork;

impl<M: SharedMem> Callback<Worker<M>> for DoWork {
    /// The worker keeps the served value as its own state; its channel
    /// handle stays what it was.
    open spec fn post(pre: Worker<M>, value: u64, updated: Worker<M>) -> bool {
        updated.some_state == value && updated.atomics == pre.atomics
    }

    fn invoke(&self, context: &mut Worker<M>, value: u64) {
        context.do_work(value);
    }
}

/// A handler with a plain value for its context: it stores twice the
/// served value (wrapping) there, so a caller can watch values arrive.
pub struct Doubler;

impl Callback<u64> for Doubler {
    /// The context afterwards holds exactly twice the served value,
    /// wrapping around on overflow.
    open spec fn post(pre: u64, value: u64, updated: u64) -> bool {
        updated == vstd::wrapping::u64_specs::wrapping_mul(value, 2)
    }

    fn invoke(&self, context: &mut u64, value: u64) {
        *context = value.wrapping_mul(2);
    }
}

/// The callback-style event loop: no task, executor or waker machinery
/// at all.  It spin-waits for a fresh value and invokes the registered
/// handler with its context and the value — the control group against
/// which the two async strategies are measured.
pub struct EventLoop<M: SharedMem, T, F: Callback<T>> {
    pub context: T,
    pub callback: Option<F>,
    pub atomics: Channel<M>,
}

impl<M: SharedMem, T, F: Callback<T>> EventLoop<M, T, F> {
    pub fn set_callback(&mut self, cb: F)
        ensures
            final(self).callback == Some(cb),
            final(self).context == old(self).context,
            final(self).atomics == old(self).atomics,
    {
        self.callback = Some(cb);
    }

    /// One pass of the loop: spin-waits until the client counter moves
    /// off `last_value`, then hands the fresh value — never `last_value`
    /// itself — to the registered handler, which runs to completion on
    /// the context before the pass ends.  With no handler registered the
    /// value is discarded and the context stays untouched; `None` means
    /// the spin budget ran out, with the context untouched too.
    pub fn run_step(&mut self, last_value: u64, max_polls: u64) -> (r: Option<u64>)
        ensures
            r matches Some(v) ==> v != last_value,
            r matches Some(v) ==> (old(self).callback is Some ==> F::post(
                old(self).context,
                v,
                final(self).context,
            )),
            r is None ==> final(self).context == old(self).context,
            old(self).callback is None ==> final(self).context == old(self).context,
            final(self).atomics == old(self).atomics,
            final(self).callback == old(self).callback,
    {
        match self.atomics.server_spin_until_change(last_value, max_polls) {
            Some(fresh) => {
                if let Some(cb) = &self.callback {
                    cb.invoke(&mut self.context, fresh);
                }
                Some(fresh)
            },
            None => None,
        }
    }

    /// Serves `steps` fresh client values, handing each in observation
    /// order to the registered handler before the next spin begins (the
    /// step contract above fixes what each handed-over value does to the
    /// context).  Returns early only when a spin runs out of budget.
    pub fn run(&mut self, steps: u64, max_polls: u64)
        ensures
            final(self).atomics == old(self).atomics,
            final(self).callback == old(self).callback,
            old(self).callback is None ==> final(self).context == old(self).context,
    {
        let mut last_value: u64 = 0;
        let mut i: u64 = 0;
        while i < steps
            invariant
                i <= steps,
                self.atomics == old(self).atomics,
                self.callback == old(self).callback,
                old(self).callback is None ==> self.context == old(self).context,
            decreases steps - i,
        {
            match self.run_step(last_value, max_polls) {
                Some(fresh) => {
                    last_value = fresh;
                },
                None => {
                    return;
                },
            }
            i = i + 1;
        }
    }
}

} // verus!
