//! A shared-memory handshake channel together with a hand-built
//! single-task cooperative executor that can suspend on it.
//!
//! Two roles (a client and a server) exchange a stream of 64-bit values
//! through a region holding two single-writer counters.  The server can
//! consume each value under four execution strategies: a direct busy-spin
//! loop, two variants of a single-task executor (distinguished by which
//! side performs the spin-wait), and a callback-driven event loop.

pub mod channel;
pub mod driver;
pub mod executor;
pub mod runtime;
