//! Failure taxonomy of the bridging layer.
//!
//! Boundary-crossing failures (loading the module, resolving an entry point)
//! are unrecoverable for the caller and are surfaced immediately.  Per-call
//! failures (a null string handle) are recoverable and do not poison the
//! module handle for later calls.  A consumer giving up on a pending result
//! is not an error at all, and a foreign side calling back after it declared
//! termination is counted by the session state machines rather than raised.

use vstd::prelude::*;

verus! {

/// The typed failures a bridge operation can surface.
#[derive(Clone, Copy, Debug, PartialEq, Eq, Structural)]
pub enum BridgeError {
    /// The foreign module could not be loaded.  Fatal: nothing else works
    /// without the module.
    ModuleLoad,
    /// An expected entry point was missing from the loaded module.  Fatal:
    /// the module does not implement the agreed interface.
    SymbolResolution,
    /// A string-producing foreign call returned a null handle.  Recoverable:
    /// only this call failed.
    NullResult,
}

impl BridgeError {
    /// Whether a failure of this kind poisons the module handle for every
    /// later call, as opposed to failing only the call that raised it.
    pub fn is_fatal(&self) -> (r: bool)
        ensures
            r == (*self is ModuleLoad || *self is SymbolResolution),
    {
        match self {
            BridgeError::ModuleLoad => true,
            BridgeError::SymbolResolution => true,
            BridgeError::NullResult => false,
        }
    }
}

} // verus!
