//! Scoped read access to a data slot: acquiring registers a reader of the
//! slot, dropping releases it, on every path out of the read.

use vstd::prelude::*;

use crate::instance::InstanceVersion;
use crate::state::State;

verus! {

/// A claim on the slot of one version, held for the duration of one read.
///
/// The claim is released exactly once, when the guard is dropped.
pub struct ReadGuard<'a> {
    state: &'a State,
    version: InstanceVersion,
}

impl<'a> ReadGuard<'a> {
    /// The version whose slot this guard holds.
    pub closed spec fn held(&self) -> InstanceVersion {
        self.version
    }

    /// Registers a reader of the slot of `version` and returns the claim.
    pub fn new(state: &'a State, version: InstanceVersion) -> (r: Self)
        ensures
            r.held() == version,
    {
        state.rlock(version);
        ReadGuard { state, version }
    }

    /// The version whose slot this guard holds.
    pub fn version(&self) -> (r: InstanceVersion)
        ensures
            r == self.held(),
    {
        self.version
    }
}

impl<'a> Drop for ReadGuard<'a> {
    fn drop(&mut self)
        opens_invariants none
        no_unwind
    {
        self.state.runlock(self.version);
    }
}

/// A typed view of a read value, kept alive together with the claim on its slot.
pub struct ReadResult<'a, T: Sized> {
    _guard: ReadGuard<'a>,
    entity: &'a T,
    switched: bool,
}

impl<'a, T: Sized> ReadResult<'a, T> {
    /// Whether the value was read under a different version than the one
    /// observed by the previous read of the same handle.
    pub closed spec fn switched_spec(&self) -> bool {
        self.switched
    }

    /// The value viewed.
    pub closed spec fn entity_spec(&self) -> &'a T {
        self.entity
    }

    /// The version whose slot stays claimed while this result lives.
    pub closed spec fn held(&self) -> InstanceVersion {
        self._guard.held()
    }

    /// Binds a view of a value to the claim on the slot it lies in.
    pub fn new(_guard: ReadGuard<'a>, entity: &'a T, switched: bool) -> (r: Self)
        ensures
            r.switched_spec() == switched,
            r.entity_spec() == entity,
            r.held() == _guard.held(),
    {
        ReadResult { _guard, entity, switched }
    }

    /// Whether the version changed since the previous read of the same handle.
    pub fn is_switched(&self) -> (r: bool)
        ensures
            r == self.switched_spec(),
    {
        self.switched
    }

    /// The value viewed.
    pub fn entity(&self) -> (r: &'a T)
        ensures
            r == self.entity_spec(),
    {
        self.entity
    }
}

impl<'a, T: Sized> std::ops::Deref for ReadResult<'a, T> {
    type Target = T;

    fn deref(&self) -> &T {
        self.entity
    }
}

} // verus!
