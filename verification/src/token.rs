//! Ownership state of a context token.
//!
//! On the asynchronous paths, bridge-side state is handed to the foreign
//! side as an opaque pointer.  Conceptually that pointer is a uniquely owned
//! token: converting it transfers ownership out ("loaned"), and the
//! trampoline takes ownership back exactly once ("reclaimed").  Reclaiming
//! twice would be a double free; never reclaiming is a leak.  The bridges
//! record which side of that line a session is on, so that a second foreign
//! callback after the reclaim is recognised as a protocol violation instead
//! of a second reconstruction.

use vstd::prelude::*;

verus! {

/// Whether the context token of a session is currently owned by the foreign
/// side (`Loaned`) or has been taken back by a trampoline (`Reclaimed`).
///
/// There is no transition back: a token is reclaimed at most once.
#[derive(Clone, Copy, Debug, PartialEq, Eq, Structural)]
pub enum TokenState {
    /// Ownership sits with the foreign side; the trampoline may reclaim it.
    Loaned,
    /// Ownership has returned; the pointer value must never be trusted again.
    Reclaimed,
}

} // verus!
