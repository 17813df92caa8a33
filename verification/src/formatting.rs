//! Interpretation of a nullable foreign string result.
//!
//! The foreign formatting entry point returns an owned string handle that may
//! be null.  The unverified rim converts a non-null handle into an owned
//! `String` (and releases the handle through the paired deallocator); what
//! reaches the library is the optional converted text.  Deciding what that
//! means for the caller is bridge logic and is verified here.

use crate::errors::BridgeError;
use vstd::prelude::*;

verus! {

/// Turn the optional text recovered from a foreign string handle into the
/// caller-facing outcome: a present string succeeds unchanged, a null handle
/// surfaces [`BridgeError::NullResult`] rather than a crash.
pub fn interpret_format_result(text: Option<String>) -> (r: Result<String, BridgeError>)
    ensures
        text matches Some(s) ==> (r matches Ok(out) && out == s),
        text is None ==> (r matches Err(e) && e is NullResult),
{
    match text {
        Some(s) => Ok(s),
        None => Err(BridgeError::NullResult),
    }
}

} // verus!
