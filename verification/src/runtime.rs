//! The shared mutable state cell and the suspend point.
//!
//! The asynchronous computation and its external driver cannot reach each
//! other directly: the computation cannot be touched while it is
//! suspended, and the driver cannot be touched while it is looping.  The
//! cell is the one place both sides read and write, through short-lived
//! exclusive borrows; the suspend point is the rendezvous protocol played
//! out over it.

use vstd::prelude::*;

use crate::channel::Channel;
use crate::channel::SharedMem;

verus! {

/// The resumption handle recorded by a suspended computation.  There is
/// exactly one live task, so instead of a raw pointer back into the
/// executor's own storage the handle is a plain token: "waking" it means
/// handing it back to the one task's `run_wake`.
#[derive(Clone, Copy, PartialEq, Eq, Structural, Debug)]
pub struct WakerToken;

/// What one poll of the suspend point reports: either the inbound value
/// has arrived, or the computation stays suspended.
#[derive(Clone, Copy, PartialEq, Eq, Structural, Debug)]
pub enum Poll {
    Ready(u64),
    Pending,
}

impl Poll {
    /// True exactly when this poll delivered a value.
    pub fn is_ready(&self) -> (r: bool)
        ensures
            r == (*self is Ready),
    {
        matches!(self, Poll::Ready(_))
    }
}

/// The shared mutable state cell: a handle to the channel, the recorded
/// resumption handle of a suspended computation, the outbound value the
/// computation wants to tell the driver about, and the inbound value the
/// driver wants to tell the computation about.
pub struct RuntimeState<M: SharedMem> {
    pub atomics: Channel<M>,
    pub waker: Option<WakerToken>,

    /// The value the asynchronous loop wants to tell the event loop about.
    pub to_event_loop: Option<u64>,

    /// The value the event loop wants to tell the asynchronous loop about.
    pub to_async_loop: Option<u64>,

    /// The trace of every value the driver has deposited inbound, in
    /// delivery order: ghost bookkeeping that lets a driver loop state
    /// that it delivered values exactly once, in order.
    pub delivered: Ghost<Seq<u64>>,
}

impl<M: SharedMem> RuntimeState<M> {
    /// The steady handoff state between driver passes: the computation
    /// is suspended (its resumption handle stands recorded) and it has
    /// a value outbound for the driver.  The first `advance` of a task
    /// establishes this, and every driver pass restores it.
    pub open spec fn driver_ready(&self) -> bool {
        &&& self.waker is Some
        &&& self.to_event_loop is Some
    }

    /// A cell with no message in flight and no computation suspended.
    pub fn new(atomics: Channel<M>) -> (s: RuntimeState<M>)
        ensures
            s.atomics == atomics,
            s.waker is None,
            s.to_event_loop is None,
            s.to_async_loop is None,
            s.delivered@ == Seq::<u64>::empty(),
    {
        RuntimeState {
            atomics,
            waker: None,
            to_event_loop: None,
            to_async_loop: None,
            delivered: Ghost(Seq::empty()),
        }
    }

    /// Consumes the inbound value, if one is present.  Used only from
    /// inside a poll.
    pub fn take_inbound(&mut self) -> (r: Option<u64>)
        ensures
            r == old(self).to_async_loop,
            final(self).to_async_loop is None,
            final(self).waker == old(self).waker,
            final(self).to_event_loop == old(self).to_event_loop,
            final(self).atomics == old(self).atomics,
            final(self).delivered == old(self).delivered,
    {
        let r = self.to_async_loop;
        self.to_async_loop = None;
        r
    }

    /// Records the resumption handle of the now-suspended computation.
    /// Used only from inside a poll.
    pub fn store_waker(&mut self, w: WakerToken)
        ensures
            final(self).waker == Some(w),
            final(self).to_async_loop == old(self).to_async_loop,
            final(self).to_event_loop == old(self).to_event_loop,
            final(self).atomics == old(self).atomics,
            final(self).delivered == old(self).delivered,
    {
        self.waker = Some(w);
    }

    /// Takes the recorded resumption handle, leaving the slot empty.  The
    /// driver must release its borrow of the cell before invoking the
    /// handle, because resumption re-enters the cell.
    pub fn take_waker(&mut self) -> (r: Option<WakerToken>)
        ensures
            r == old(self).waker,
            final(self).waker is None,
            final(self).to_async_loop == old(self).to_async_loop,
            final(self).to_event_loop == old(self).to_event_loop,
            final(self).atomics == old(self).atomics,
            final(self).delivered == old(self).delivered,
    {
        let r = self.waker;
        self.waker = None;
        r
    }

    /// Deposits the inbound value for the computation's next poll, and
    /// records it at the end of the delivery trace.
    pub fn store_inbound(&mut self, value: u64)
        ensures
            final(self).to_async_loop == Some(value),
            final(self).waker == old(self).waker,
            final(self).to_event_loop == old(self).to_event_loop,
            final(self).atomics == old(self).atomics,
            final(self).delivered@ == old(self).delivered@.push(value),
    {
        self.to_async_loop = Some(value);
        proof {
            self.delivered@ = self.delivered@.push(value);
        }
    }

    /// Consumes the outbound value, if one is present.
    pub fn take_outbound(&mut self) -> (r: Option<u64>)
        ensures
            r == old(self).to_event_loop,
            final(self).to_event_loop is None,
            final(self).waker == old(self).waker,
            final(self).to_async_loop == old(self).to_async_loop,
            final(self).atomics == old(self).atomics,
            final(self).delivered == old(self).delivered,
    {
        let r = self.to_event_loop;
        self.to_event_loop = None;
        r
    }

    /// Reads the outbound value without consuming it.  The suspend-style
    /// driver reads the slot this way, as a copy, rather than taking it:
    /// the handed-over value must keep standing in the slot, so that the
    /// handoff state survives a resumption whose own spin-wait runs out
    /// of budget and deposits nothing new.
    pub fn read_outbound(&self) -> (r: Option<u64>)
        ensures
            r == self.to_event_loop,
    {
        self.to_event_loop
    }

    /// Deposits the outbound value for the driver to pick up.
    pub fn store_outbound(&mut self, value: u64)
        ensures
            final(self).to_event_loop == Some(value),
            final(self).waker == old(self).waker,
            final(self).to_async_loop == old(self).to_async_loop,
            final(self).atomics == old(self).atomics,
            final(self).delivered == old(self).delivered,
    {
        self.to_event_loop = Some(value);
    }
}

/// The suspend point: a single-slot rendezvous that lets the computation
/// block on "the next value from the other side".  All of its state lives
/// in the cell, which is passed in explicitly, so the point itself
/// carries nothing.
pub struct SpinFuture {
}

impl SpinFuture {
    pub fn new() -> SpinFuture {
        SpinFuture {  }
    }

    /// One poll of the rendezvous.  If the inbound value is present it is
    /// taken and delivered; otherwise the resumption handle is recorded
    /// and the computation stays suspended.  The transition from Pending
    /// to Ready happens only when the driver deposits a value.
    pub fn poll<M: SharedMem>(&mut self, state: &mut RuntimeState<M>, token: WakerToken) -> (p: Poll)
        ensures
            old(state).to_async_loop matches Some(v) ==> (p == Poll::Ready(v)
                && final(state).waker == old(state).waker),
            old(state).to_async_loop is None ==> (p is Pending
                && final(state).waker == Some(token)),
            final(state).to_async_loop is None,
            final(state).to_event_loop == old(state).to_event_loop,
            final(state).atomics == old(state).atomics,
            final(state).delivered == old(state).delivered,
    {
        match state.take_inbound() {
            Some(nx) => Poll::Ready(nx),
            None => {
                state.store_waker(token);
                Poll::Pending
            },
        }
    }

    /// Deposits `to_event` for the driver, then issues the next suspend:
    /// the protocol "tell the other side, then wait for its answer".
    pub fn suspend_to_eventloop<M: SharedMem>(
        &mut self,
        state: &mut RuntimeState<M>,
        to_event: u64,
        token: WakerToken,
    ) -> (p: Poll)
        ensures
            final(state).to_event_loop == Some(to_event),
            old(state).to_async_loop matches Some(v) ==> (p == Poll::Ready(v)
                && final(state).waker == old(state).waker),
            old(state).to_async_loop is None ==> (p is Pending
                && final(state).waker == Some(token)),
            final(state).to_async_loop is None,
            final(state).atomics == old(state).atomics,
            final(state).delivered == old(state).delivered,
    {
        state.store_outbound(to_event);
        self.poll(state, token)
    }
}

} // verus!
