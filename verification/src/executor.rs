//! The single-task executor and the two server computations it drives.
//!
//! The executor owns one top-level computation and a resumption handle
//! whose "wake" re-enters the drive loop.  Instead of a raw pointer back
//! into the executor's own storage, the handle is the checked
//! `WakerToken` of the one live task; the computations themselves are
//! explicit state machines with a `poll` operation, each the unrolling of
//! an infinite server loop around the suspend point.

use vstd::prelude::*;

use core::marker::PhantomData;
use crate::channel::SharedMem;
use crate::runtime::Poll;
use crate::runtime::RuntimeState;
use crate::runtime::SpinFuture;
use crate::runtime::WakerToken;

verus! {

/// A top-level server computation: an infinite loop around the suspend
/// point, unrolled into a state machine.  One poll runs the computation
/// from its last suspension down to its next one, so it always reports
/// `Pending` with a freshly recorded resumption handle.
///
/// `post_ok` is each implementor's exact relation between the cell going
/// in (inbound and outbound slots) and the computation and cell coming
/// out; `started` distinguishes the very first poll, which enters the
/// loop from the top, from every later one, which resumes at the suspend
/// point.
pub trait Coroutine: Sized {
    type Mem: SharedMem;

    spec fn started(&self) -> bool;

    spec fn post_ok(
        pre: Self,
        inbound: Option<u64>,
        pre_out: Option<u64>,
        post: Self,
        post_out: Option<u64>,
    ) -> bool;

    /// Runs the computation from its last suspension to its next one.
    /// When no inbound value is pending, a poll of an already-started
    /// computation is a harmless no-op: it re-records the resumption
    /// handle and changes nothing else.
    fn poll(&mut self, state: &mut RuntimeState<Self::Mem>, token: WakerToken) -> (p: Poll)
        ensures
            p is Pending,
            final(self).started(),
            final(state).waker == Some(token),
            final(state).to_async_loop is None,
            final(state).atomics == old(state).atomics,
            final(state).delivered == old(state).delivered,
            Self::post_ok(
                *old(self),
                old(state).to_async_loop,
                old(state).to_event_loop,
                *final(self),
                final(state).to_event_loop,
            ),
            old(self).started() && old(state).to_async_loop is None ==> (*final(self) == *old(
                self,
            ) && final(state).to_event_loop == old(state).to_event_loop),
    ;
}

/// The resume-style server computation: suspend until the driver hands
/// over the next client value, mirror it into the server counter, hand
/// it back outbound, suspend again.  The driver performs the spin-wait;
/// this loop measures the cost of resuming a suspended task.
pub struct ResumeLoop<M: SharedMem> {
    pub fut: SpinFuture,
    pub started: bool,
    pub value: u64,
    pub mem: PhantomData<M>,
}

impl<M: SharedMem> ResumeLoop<M> {
    /// The computation at the top of its loop, not yet polled.
    pub fn new() -> (c: ResumeLoop<M>)
        ensures
            !c.started(),
            c.value == 0,
    {
        ResumeLoop { fut: SpinFuture::new(), started: false, value: 0, mem: PhantomData }
    }
}

impl<M: SharedMem> Coroutine for ResumeLoop<M> {
    type Mem = M;

    open spec fn started(&self) -> bool {
        self.started
    }

    /// Consuming an inbound value `v` mirrors it to the server counter
    /// and re-suspends with `v` outbound; the very first poll suspends
    /// with the initial 0 outbound; polling without an inbound value
    /// changes nothing.
    open spec fn post_ok(
        pre: Self,
        inbound: Option<u64>,
        pre_out: Option<u64>,
        post: Self,
        post_out: Option<u64>,
    ) -> bool {
        &&& post.started
        &&& match inbound {
            Some(v) => post.value == v && post_out == Some(v),
            None => if pre.started {
                post == pre && post_out == pre_out
            } else {
                post.value == 0 && post_out == Some(0u64)
            },
        }
    }

    fn poll(&mut self, state: &mut RuntimeState<M>, token: WakerToken) -> (p: Poll) {
        let first = if !self.started {
            // Enter the loop from the top: issue the first suspend with
            // the initial value.
            self.started = true;
            self.value = 0;
            self.fut.suspend_to_eventloop(state, 0, token)
        } else {
            // Resume at the suspend point.
            self.fut.poll(state, token)
        };
        match first {
            Poll::Pending => Poll::Pending,
            Poll::Ready(v) => {
                // The next client value arrived: mirror it to the server
                // counter, then suspend with it outbound.
                state.atomics.server_write(v);
                self.value = v;
                self.fut.suspend_to_eventloop(state, v, token)
            },
        }
    }
}

/// The suspend-style server computation: the roles invert.  The
/// computation itself spin-waits for the next client value, then
/// suspends to hand it to the driver, which writes it to the channel and
/// resumes the computation.  This loop measures the cost of suspending a
/// task mid-flight.
pub struct SuspendLoop<M: SharedMem> {
    pub fut: SpinFuture,
    pub started: bool,
    pub value: u64,
    /// The poll budget of each in-computation spin-wait: the bounded
    /// escape hatch that keeps a dead peer from hanging a test.
    pub max_polls: u64,
    pub mem: PhantomData<M>,
}

impl<M: SharedMem> SuspendLoop<M> {
    /// The computation at the top of its loop, not yet polled, with the
    /// given spin budget.
    pub fn new(max_polls: u64) -> (c: SuspendLoop<M>)
        ensures
            !c.started(),
            c.value == 0,
            c.max_polls == max_polls,
    {
        SuspendLoop {
            fut: SpinFuture::new(),
            started: false,
            value: 0,
            max_polls,
            mem: PhantomData,
        }
    }
}

impl<M: SharedMem> Coroutine for SuspendLoop<M> {
    type Mem = M;

    open spec fn started(&self) -> bool {
        self.started
    }

    /// Being resumed makes the computation spin for a fresh client value
    /// and suspend with it outbound — unless the spin budget runs out,
    /// in which case it re-suspends unchanged.  A fresh value never
    /// equals the one spun for last.
    open spec fn post_ok(
        pre: Self,
        inbound: Option<u64>,
        pre_out: Option<u64>,
        post: Self,
        post_out: Option<u64>,
    ) -> bool {
        &&& post.started
        &&& post.max_polls == pre.max_polls
        &&& if pre.started {
            match inbound {
                Some(v) => (post.value != pre.value && post_out == Some(post.value)) || (
                post.value == pre.value && post_out == pre_out),
                None => post == pre && post_out == pre_out,
            }
        } else {
            match inbound {
                Some(v) => post_out == Some(post.value) || post_out == pre_out,
                None => (post.value != 0 && post_out == Some(post.value)) || (post.value == 0
                    && post_out == pre_out),
            }
        }
    }

    fn poll(&mut self, state: &mut RuntimeState<M>, token: WakerToken) -> (p: Poll) {
        let first = if !self.started {
            // Enter the loop from the top: spin for the first client
            // value, then issue the first suspend to hand it over.
            self.started = true;
            self.value = 0;
            match state.atomics.server_spin_until_change(0, self.max_polls) {
                Some(w) => {
                    self.value = w;
                    self.fut.suspend_to_eventloop(state, w, token)
                },
                None => {
                    // Spin budget exhausted: stay suspended, unchanged.
                    self.fut.poll(state, token)
                },
            }
        } else {
            // Resume at the suspend point.
            self.fut.poll(state, token)
        };
        match first {
            Poll::Pending => Poll::Pending,
            Poll::Ready(_) => {
                // The driver consumed the handed-over value and resumed
                // us: spin for the next client value and hand it over.
                match state.atomics.server_spin_until_change(self.value, self.max_polls) {
                    Some(w) => {
                        self.value = w;
                        self.fut.suspend_to_eventloop(state, w, token)
                    },
                    None => {
                        self.fut.poll(state, token)
                    },
                }
            },
        }
    }
}

/// The thing that starts and re-enters the one task.  It owns the pinned
/// computation and the resumption handle whose wake re-invokes the drive
/// loop; the handle stands for the task itself, so waking it means
/// calling `run_wake` here.
pub struct Task<C: Coroutine> {
    pub code: C,
    pub waker: WakerToken,
}

impl<C: Coroutine> Task<C> {
    /// Creates the executor around a block of computation, together with
    /// the resumption handle that points back at it.
    pub fn init(block: C) -> (t: Task<C>)
        ensures
            t.code == block,
    {
        Task { code: block, waker: WakerToken }
    }

    /// Drives the computation until its next suspension.  Calling this
    /// when no inbound value is pending neither completes the
    /// computation nor corrupts the cell: the computation stays as it
    /// was, the outbound slot keeps its value, and the waker slot is
    /// populated again when the call returns.
    #[verifier::loop_isolation(false)]
    pub fn advance(&mut self, state: &mut RuntimeState<C::Mem>)
        ensures
            final(self).waker == old(self).waker,
            final(self).code.started(),
            final(state).waker == Some(old(self).waker),
            final(state).to_async_loop is None,
            final(state).atomics == old(state).atomics,
            final(state).delivered == old(state).delivered,
            C::post_ok(
                old(self).code,
                old(state).to_async_loop,
                old(state).to_event_loop,
                final(self).code,
                final(state).to_event_loop,
            ),
            old(self).code.started() && old(state).to_async_loop is None ==> (*final(self)
                == *old(self) && final(state).to_event_loop == old(state).to_event_loop),
    {
        // Keep kicking the computation until it is suspended.  A server
        // computation always suspends again, so the first kick settles
        // it: the re-poll a general executor would loop on never fires.
        let p = self.code.poll(state, self.waker);
        if p.is_ready() {
            assert(false);
        }
    }

    /// Waker.wake() dispatches here: the recorded handle stands for this
    /// task, and waking it re-enters the drive loop.
    pub fn run_wake(&mut self, state: &mut RuntimeState<C::Mem>)
        ensures
            final(self).waker == old(self).waker,
            final(self).code.started(),
            final(state).waker == Some(old(self).waker),
            final(state).to_async_loop is None,
            final(state).atomics == old(state).atomics,
            final(state).delivered == old(state).delivered,
            C::post_ok(
                old(self).code,
                old(state).to_async_loop,
                old(state).to_event_loop,
                final(self).code,
                final(state).to_event_loop,
            ),
            old(self).code.started() && old(state).to_async_loop is None ==> (*final(self)
                == *old(self) && final(state).to_event_loop == old(state).to_event_loop),
    {
        self.advance(state)
    }

    /// Cloning the resumption handle just copies the token.
    pub fn run_clone(&self) -> (w: WakerToken)
        ensures
            w == self.waker,
    {
        self.waker
    }
}

} // verus!
