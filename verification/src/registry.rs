//! The callback registry and the synchronous trampoline's decision.
//!
//! The foreign side's synchronous callback path accepts only a bare function
//! pointer with no context parameter, so an ordinary closure can cross that
//! boundary only by being parked in a slot that a fixed-identity trampoline
//! reads at call time.  The slot holds at most one closure and is a critical
//! section bounded by one synchronous bridged call: armed before the foreign
//! call, read by the trampoline while the foreign side runs, and cleared on
//! every exit path.
//!
//! Because the slot is one resource, two overlapping synchronous calls could
//! race on it.  This registry resolves that by demanding exclusive access:
//! arming requires an empty slot (`&mut` access plus the precondition is the
//! fail-fast guard), and the surrounding application must serialise
//! synchronous bridged calls rather than letting them overlap.

use vstd::prelude::*;

verus! {

/// What the trampoline answers when it is invoked while the slot is empty —
/// a logic error on the foreign side, but the trampoline crosses a boundary
/// where failing is not possible, so a documented sentinel comes back
/// instead.  It is the 64-bit pattern of numeric zero.
pub const EMPTY_SLOT_RESULT: u64 = 0;

/// The shared slot that lends one closure to the fixed trampoline for the
/// duration of one synchronous bridged call.
pub struct CallbackRegistry<F> {
    slot: Option<F>,
}

impl<F: Fn(u64) -> u64> CallbackRegistry<F> {
    /// Whether a closure is currently parked in the slot.
    pub closed spec fn armed(self) -> bool {
        self.slot is Some
    }

    /// The parked closure.
    pub closed spec fn closure(self) -> F
        recommends
            self.armed(),
    {
        self.slot->0
    }

    /// Whether the parked closure, if any, accepts every value the foreign
    /// side could pass.  The foreign side chooses the argument, so nothing
    /// less is safe to park.
    pub open spec fn accepts_all(self) -> bool {
        self.armed() ==> forall|v: u64| call_requires(self.closure(), (v,))
    }

    /// A registry with an empty slot.
    pub fn new() -> (r: Self)
        ensures
            !r.armed(),
    {
        CallbackRegistry { slot: None }
    }

    /// Whether a closure is currently parked in the slot.
    pub fn is_armed(&self) -> (r: bool)
        ensures
            r == self.armed(),
    {
        match &self.slot {
            Some(_) => true,
            None => false,
        }
    }

    /// Park `f` for the coming foreign call.  The slot must be empty: a
    /// nested or concurrent synchronous call fails fast here instead of
    /// racing for the slot.  The closure must accept any value, because the
    /// foreign side decides what the trampoline will be handed.
    pub fn arm(&mut self, f: F)
        requires
            !old(self).armed(),
            forall|v: u64| call_requires(f, (v,)),
        ensures
            final(self).armed(),
            final(self).closure() == f,
    {
        self.slot = Some(f);
    }

    /// Empty the slot after the foreign call returned, on every exit path.
    pub fn clear(&mut self)
        ensures
            !final(self).armed(),
    {
        self.slot = None;
    }

    /// The trampoline's decision on one foreign invocation: apply the
    /// parked closure to the value the foreign side passed, or answer the
    /// documented sentinel if the slot is empty.  The slot itself is left
    /// exactly as it was, however many times the foreign side invokes this.
    pub fn invoke(&mut self, value: u64) -> (r: u64)
        requires
            old(self).accepts_all(),
        ensures
            *final(self) == *old(self),
            old(self).armed() ==> call_ensures(old(self).closure(), (value,), r),
            !old(self).armed() ==> r == EMPTY_SLOT_RESULT,
    {
        match self.slot.take() {
            Some(f) => {
                assert(f == old(self).closure());
                assert(call_requires(f, (value,)));
                let r = f(value);
                self.slot = Some(f);
                r
            }
            None => EMPTY_SLOT_RESULT,
        }
    }

    /// One whole synchronous bridged call against a foreign collaborator
    /// that forwards the argument to the callback once and returns the
    /// callback's answer: arm the slot, let the trampoline serve the
    /// invocation, and clear the slot again.  The result is exactly what
    /// `f` answers for `value`, and the slot ends empty.
    pub fn call_callback_with(&mut self, value: u64, f: F) -> (r: u64)
        requires
            !old(self).armed(),
            forall|v: u64| call_requires(f, (v,)),
        ensures
            call_ensures(f, (value,), r),
            !final(self).armed(),
    {
        self.arm(f);
        let r = self.invoke(value);
        self.clear();
        r
    }
}

} // verus!
