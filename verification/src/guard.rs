//! The save guard: the states a component moves through around the host's
//! serialization of its document.

use vstd::prelude::*;

verus! {

/// Whether a component currently publishes geometry.
#[derive(Clone, Copy, Debug, PartialEq, Eq, Structural)]
pub enum GuardState {
    /// Geometry follows the targets on every tick.
    Active,
    /// The host is serializing: geometry is held at zero.
    Suspended,
}

/// What the host tells a component about serialization.
#[derive(Clone, Copy, Debug, PartialEq, Eq, Structural)]
pub enum Notification {
    /// Serialization is about to begin.
    PreSerialize,
    /// Serialization has ended.
    PostSerialize,
    /// Anything else; it leaves the guard alone.
    Other,
}

impl GuardState {
    /// The state that follows `self` on `what`: serialization suspends, its
    /// end reactivates, and nothing else moves the guard.
    pub open spec fn after(self, what: Notification) -> GuardState {
        match what {
            Notification::PreSerialize => GuardState::Suspended,
            Notification::PostSerialize => GuardState::Active,
            Notification::Other => self,
        }
    }

    /// The state that follows `self` on `what`.
    pub fn next(self, what: Notification) -> (r: GuardState)
        ensures
            r == self.after(what),
    {
        match what {
            Notification::PreSerialize => GuardState::Suspended,
            Notification::PostSerialize => GuardState::Active,
            Notification::Other => self,
        }
    }

    /// Whether geometry is held at zero.
    pub fn is_suspended(&self) -> (r: bool)
        ensures
            r == (*self == GuardState::Suspended),
    {
        match self {
            GuardState::Suspended => true,
            GuardState::Active => false,
        }
    }
}

} // verus!
