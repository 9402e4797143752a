//! Graceful shutdown.
//!
//! Asynchronous termination signals are tricky to handle properly: very
//! little may safely run inside a signal-handler context. This library
//! converts the asynchronous delivery into a synchronous rendezvous. A
//! guard blocks the qualifying termination signals before any worker
//! threads exist, the main thread parks inside a single wait-and-handle
//! call, and the caller's cleanup closure runs exactly once, on that
//! thread, with the raw number of the signal that arrived.
//!
//! Two mutually exclusive variants implement the same idea:
//!
//! - [`mask::SignalGuard`] blocks interrupt, quit and terminate in the
//!   calling thread's signal mask and retrieves one of them with a
//!   synchronous wait primitive.
//! - [`console::SignalGuard`] pairs with a console-control callback
//!   through a zero-capacity handshake slot: the callback hands the event
//!   code over, and is held until the cleanup closure has finished, so
//!   the host may not tear the process down early.

use vstd::prelude::*;

pub mod console;
pub mod mask;
pub mod signals;

verus! {

pub use crate::mask::SignalGuard;

} // verus!
