//! The shared channel: a fixed-layout region holding two independent
//! single-writer counters.
//!
//! Only the client role ever writes the client counter and only the server
//! role ever writes the server counter.  The reading side re-polls its
//! peer's counter in a busy-wait with a CPU spin hint; no OS blocking
//! primitive is involved anywhere.  Every spin loop takes an explicit poll
//! budget, so that a dead peer surfaces as `None` instead of a hang.

use vstd::prelude::*;

use core::sync::atomic::AtomicU64;
use core::sync::atomic::Ordering;
use std::sync::Arc;

verus! {

/// The byte offset of the server counter from the start of a mapped
/// region, far enough from the client counter (at offset zero) to keep
/// the two on separate cache lines.  Both roles must agree on it.
pub const SERVER_COUNTER_OFFSET: usize = 2048;

/// Emits a CPU spin-wait hint between two polls of a counter.
///
/// Relies on `core::hint::spin_loop`: it only hints the processor and
/// returns; it has no observable effect on any value.
#[verifier::external_body]
fn spin_hint() {
    core::hint::spin_loop();
}

/// Hands out another handle on the same allocation.
///
/// Relies on `alloc::sync::Arc::clone`: the clone is a second pointer to
/// the same allocation, so as a value it equals the original.
#[verifier::external_body]
fn arc_share<T>(a: &Arc<T>) -> (r: Arc<T>)
    ensures
        r == *a,
{
    Arc::clone(a)
}

/// The two counters of one channel region.  The client role stores to
/// `client_cell` and loads `server_cell`; the server role does the
/// opposite.  Atomic access keeps each counter free of torn reads even
/// when the two roles run concurrently.
pub struct CounterPair {
    pub client_cell: AtomicU64,
    pub server_cell: AtomicU64,
}

/// An in-process backing region: both roles hold a shared handle to the
/// same counter pair.
#[derive(Clone)]
pub struct LocalShared {
    pub pair: Arc<CounterPair>,
}

impl LocalShared {
    /// A second handle on the same pair of counters, for the peer role.
    pub fn share(&self) -> (s: LocalShared)
        ensures
            s == *self,
    {
        LocalShared { pair: arc_share(&self.pair) }
    }
}

/// Memory that can back a channel: two single-writer cells of one region.
/// The values read are shared with the peer role, so nothing can be
/// promised about them here; every guarantee of the channel comes from
/// the loops that re-poll these cells.
pub trait SharedMem {
    fn load_client(&self) -> u64;

    fn load_server(&self) -> u64;

    fn store_client(&self, value: u64);

    fn store_server(&self, value: u64);
}

impl SharedMem for LocalShared {
    fn load_client(&self) -> u64 {
        self.pair.client_cell.load(Ordering::Relaxed)
    }

    fn load_server(&self) -> u64 {
        self.pair.server_cell.load(Ordering::Relaxed)
    }

    fn store_client(&self, value: u64) {
        self.pair.client_cell.store(value, Ordering::Relaxed)
    }

    fn store_server(&self, value: u64) {
        self.pair.server_cell.store(value, Ordering::Relaxed)
    }
}

/// A setup fault: the channel could not be opened.  Setup faults are
/// fatal to the caller; there is no retry.
#[derive(Clone, Copy, PartialEq, Eq, Structural, Debug)]
pub enum SetupError {
    /// Attach was requested but no region has been created yet.
    MissingRegion,
}

/// The process-external namespace in which the one backing region lives,
/// keyed out of band by a fixed identifier both roles agree on.  Creating
/// a channel installs the region here; closing the owning handle unlinks
/// it again.
pub struct ShmNamespace {
    pub region: Option<LocalShared>,
}

impl ShmNamespace {
    /// A namespace in which nothing has been created yet.
    pub fn new() -> (ns: ShmNamespace)
        ensures
            ns.region is None,
    {
        ShmNamespace { region: None }
    }
}

/// A handle on one channel region, tagged with whether this handle owns
/// the region's lifecycle (the creating side owns it).
#[derive(Clone)]
pub struct Channel<M: SharedMem> {
    pub mem: M,
    pub owner: bool,
}

impl Channel<LocalShared> {
    /// Opens or creates the backing region.  Whichever role starts first
    /// passes `do_create` true, owns the region and zero-initializes its
    /// counters; the second role passes false and fails if the region
    /// does not exist yet (it never hangs waiting for one).
    pub fn new(ns: &mut ShmNamespace, do_create: bool) -> (r: Result<Channel<LocalShared>, SetupError>)
        ensures
            do_create ==> (r matches Ok(c) && c.owner && final(ns).region == Some(c.mem)),
            !do_create && old(ns).region is Some ==> (r matches Ok(c) && !c.owner
                && old(ns).region == Some(c.mem)),
            !do_create && old(ns).region is None ==> r == Err::<Channel<LocalShared>, SetupError>(
                SetupError::MissingRegion,
            ),
            !do_create ==> *final(ns) == *old(ns),
    {
        if do_create {
            let mem = match &ns.region {
                Some(existing) => {
                    // Creating over an existing region reuses it.
                    existing.share()
                },
                None => {
                    let pair = Arc::new(
                        CounterPair {
                            client_cell: AtomicU64::new(0),
                            server_cell: AtomicU64::new(0),
                        },
                    );
                    let fresh = LocalShared { pair };
                    ns.region = Some(fresh.share());
                    fresh
                },
            };
            // Zero out only on creation, lest the values be romped on
            // when one role starts after the other has been running.
            mem.store_client(0);
            mem.store_server(0);
            Ok(Channel { mem, owner: true })
        } else {
            match &ns.region {
                Some(existing) => Ok(Channel { mem: existing.share(), owner: false }),
                None => Err(SetupError::MissingRegion),
            }
        }
    }

    /// Drops this handle's mapping and, if this handle owns the region,
    /// unlinks the backing object, so that a later create starts afresh.
    pub fn close(self, ns: &mut ShmNamespace)
        ensures
            self.owner ==> final(ns).region is None,
            !self.owner ==> *final(ns) == *old(ns),
    {
        if self.owner {
            ns.region = None;
        }
    }
}

impl<M: SharedMem> Channel<M> {
    /// Wraps an already-mapped backing region in a channel handle.
    pub fn from_parts(mem: M, owner: bool) -> (c: Channel<M>)
        ensures
            c.mem == mem,
            c.owner == owner,
    {
        Channel { mem, owner }
    }

    /// Stores `value` into the client counter.  Single writer: only the
    /// client role may call this.
    pub fn client_write(&self, value: u64) {
        self.mem.store_client(value);
    }

    /// Stores `value` into the server counter.  Single writer: only the
    /// server role may call this.
    pub fn server_write(&self, value: u64) {
        self.mem.store_server(value);
    }

    /// Loads the client counter.
    pub fn client_read(&self) -> u64 {
        self.mem.load_client()
    }

    /// Loads the server counter.
    pub fn server_read(&self) -> u64 {
        self.mem.load_server()
    }

    /// The server side's spin-wait: re-polls the client counter until it
    /// observes a value that differs from `last_value`, or until the poll
    /// budget runs out.  A returned value is never a false change: it
    /// always differs from `last_value`.
    pub fn server_spin_until_change(&self, last_value: u64, max_polls: u64) -> (r: Option<u64>)
        ensures
            r matches Some(v) ==> v != last_value,
    {
        let mut polls: u64 = 0;
        loop
            invariant
                polls <= max_polls,
            decreases max_polls - polls,
        {
            let new_value = self.mem.load_client();
            if new_value != last_value {
                return Some(new_value);
            }
            if polls == max_polls {
                return None;
            }
            polls = polls + 1;
            spin_hint();
        }
    }

    /// One full round trip as the client: stores `value` into the client
    /// counter, then spin-waits on the server counter until it observes
    /// the server's acknowledgment.  The sentinel starting point is the
    /// complement of `value`, which can never be mistaken for the
    /// acknowledgment, so the client never takes its own previous value
    /// for a false change.  An observed acknowledgment always equals
    /// `value` exactly; `None` means the poll budget ran out first.
    pub fn client_run_once(&self, value: u64, max_polls: u64) -> (r: Option<u64>)
        ensures
            r matches Some(observed) ==> observed == value,
    {
        self.mem.store_client(value);
        let mut last_read: u64 = !value;
        let mut polls: u64 = 0;
        loop
            invariant
                polls <= max_polls,
            decreases max_polls - polls,
        {
            if last_read == value {
                return Some(last_read);
            }
            if polls == max_polls {
                return None;
            }
            polls = polls + 1;
            spin_hint();
            last_read = self.mem.load_server();
        }
    }

    /// One busy-spin service step: waits for the client counter to move
    /// off `last_value`, then mirrors the fresh value into the server
    /// counter.  The mirrored value is never `last_value` itself.
    pub fn server_mirror_step(&self, last_value: u64, max_polls: u64) -> (r: Option<u64>)
        ensures
            r matches Some(v) ==> v != last_value,
    {
        match self.server_spin_until_change(last_value, max_polls) {
            Some(new_value) => {
                self.mem.store_server(new_value);
                Some(new_value)
            },
            None => None,
        }
    }

    /// The busy-spin server: mirrors each fresh client value into the
    /// server counter, `steps` times over, starting from the counters'
    /// initial zero.  Returns early only when a spin runs out of budget.
    pub fn do_server_loop(&self, steps: u64, max_polls: u64) {
        let mut last_value: u64 = 0;
        let mut i: u64 = 0;
        while i < steps
            invariant
                i <= steps,
            decreases steps - i,
        {
            match self.server_mirror_step(last_value, max_polls) {
                Some(new_value) => {
                    last_value = new_value;
                },
                None => {
                    return;
                },
            }
            i = i + 1;
        }
    }
}

} // verus!
