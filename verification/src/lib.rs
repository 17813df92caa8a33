//! A foreign-callback bridging layer, with its protocol logic verified.
//!
//! A separately compiled library calls back into caller-owned state through
//! bare function pointers and opaque context pointers.  This crate holds the
//! caller-side state machines that make those callbacks safe:
//!
//! * [`registry`] — a single slot that lends an ordinary closure to a
//!   fixed-identity trampoline for the duration of one synchronous call;
//! * [`token`] — the loaned/reclaimed ownership discipline of the opaque
//!   context pointer that crosses the boundary on the asynchronous paths;
//! * [`oneshot`] — a completion that resolves with exactly one value, however
//!   often the foreign side calls back;
//! * [`multishot`] — an ordered stream of callback values with a
//!   continue/stop signal and a configurable invocation limit;
//! * [`generator`] — the exactly-once release discipline of a foreign
//!   stateful resource handle;
//! * [`errors`] and [`formatting`] — the failure taxonomy and the
//!   interpretation of nullable foreign results;
//! * [`shapes`] — the fixed-layout argument records the foreign entry points
//!   take.
//!
//! Numeric values that cross the boundary are carried as their 64-bit
//! patterns: the bridge performs no arithmetic on them and forwards every
//! value unchanged, so a `u64` pattern is the exact model of the foreign
//! `double`.  The unverifiable rim — loading the module, resolving symbols,
//! the `extern "C"` trampolines themselves, and the task runtime — lives in
//! the accompanying application crate, which drives these state machines and
//! checks every precondition before calling in.

use vstd::prelude::*;

pub mod errors;
pub mod formatting;
pub mod generator;
pub mod multishot;
pub mod oneshot;
pub mod registry;
pub mod shapes;
pub mod token;

verus! {

/// Increment a counter that must never overflow nor fail: once the counter
/// reaches its ceiling it stays there.  Used for protocol-violation counts,
/// which a trampoline must be able to bump on any input without a
/// precondition.
pub open spec fn saturating_inc(v: u64) -> u64 {
    if v == u64::MAX {
        v
    } else {
        (v + 1) as u64
    }
}

} // verus!
