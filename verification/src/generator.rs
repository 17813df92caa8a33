//! Lifecycle of a foreign stateful generator resource.
//!
//! The foreign side exposes a number generator through four entry points:
//! create (returning an opaque handle), fetch-next (returning a value and a
//! presence flag), stop, and free.  The handle must be released exactly
//! once.  This module tracks the handle's lifecycle so that the release
//! discipline is a proved property of the wrapper rather than a convention,
//! and interprets the value/flag pair the fetch entry point returns.

use vstd::prelude::*;

verus! {

/// Where in its lifecycle a generator handle stands.
#[derive(Clone, Copy, Debug, PartialEq, Eq, Structural)]
pub enum GeneratorState {
    /// Created and usable; fetch and stop may be forwarded.
    Active,
    /// Stopped; the handle still exists and must still be freed.
    Stopped,
    /// Released; no entry point may see this handle again.
    Freed,
}

/// The bridge-side record of one foreign generator handle.
pub struct GeneratorSession {
    id: i64,
    state: GeneratorState,
}

impl GeneratorSession {
    /// The opaque handle value the foreign side issued.
    pub closed spec fn id_spec(self) -> i64 {
        self.id
    }

    /// The current lifecycle state.
    pub closed spec fn state_spec(self) -> GeneratorState {
        self.state
    }

    /// Record a handle freshly issued by the foreign create entry point.
    pub fn new(id: i64) -> (s: Self)
        ensures
            s.id_spec() == id,
            s.state_spec() is Active,
    {
        GeneratorSession { id, state: GeneratorState::Active }
    }

    /// The handle value, for handing to a foreign entry point.  Demanding a
    /// live handle keeps every foreign call away from a freed one.
    pub fn id(&self) -> (r: i64)
        requires
            self.state_spec() !is Freed,
        ensures
            r == self.id_spec(),
    {
        self.id
    }

    /// The current lifecycle state.
    pub fn state(&self) -> (r: GeneratorState)
        ensures
            r == self.state_spec(),
    {
        self.state
    }

    /// Interpret the value/flag pair the fetch entry point returned: the
    /// flag says whether the value is present, and the value itself is
    /// forwarded unchanged.
    pub fn interpret_next(num: i32, ok: bool) -> (r: Option<i32>)
        ensures
            ok ==> r == Some(num),
            !ok ==> r is None,
    {
        if ok {
            Some(num)
        } else {
            None
        }
    }

    /// Record that the stop entry point was forwarded.  Stopping does not
    /// release the handle: freeing still has to happen, exactly once.
    pub fn mark_stopped(&mut self)
        requires
            old(self).state_spec() !is Freed,
        ensures
            final(self).id_spec() == old(self).id_spec(),
            final(self).state_spec() is Stopped,
    {
        self.state = GeneratorState::Stopped;
    }

    /// Record that the free entry point was forwarded.  The precondition is
    /// the exactly-once discipline: a handle that is already freed cannot be
    /// freed again.
    pub fn mark_freed(&mut self)
        requires
            old(self).state_spec() !is Freed,
        ensures
            final(self).id_spec() == old(self).id_spec(),
            final(self).state_spec() is Freed,
    {
        self.state = GeneratorState::Freed;
    }
}

} // verus!
