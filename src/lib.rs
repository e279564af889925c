//! Cross-process publication of a single fixed-layout value through a pair of
//! memory-mapped data slots and a shared record of atomics.
//!
//! The library holds the protocol: the packed version word, the shared record
//! with its per-slot reader counters, the scoped read guard, the grace-period
//! decision and the bookkeeping of the mapped data slots. Opening files,
//! mapping them and sleeping between polls are left to the caller.

use vstd::prelude::*;

pub mod data;
pub mod error;
pub mod guard;
pub mod instance;
pub mod state;

verus! {
} // verus!
