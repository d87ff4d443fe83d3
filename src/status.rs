use vstd::prelude::*;

verus! {

/// Shared lifecycle flag of a client: `Active` until disposed, then `Stopped` for good.
#[derive(Clone, Copy, Debug, PartialEq, Eq, Structural)]
pub enum LifecycleStatus {
    Active,
    Stopped,
}

impl LifecycleStatus {
    /// A freshly built client is active.
    pub fn new() -> (r: LifecycleStatus)
        ensures
            r == LifecycleStatus::Active,
    {
        LifecycleStatus::Active
    }

    pub fn is_active(&self) -> (r: bool)
        ensures
            r == (*self == LifecycleStatus::Active),
    {
        match self {
            LifecycleStatus::Active => true,
            LifecycleStatus::Stopped => false,
        }
    }

    /// One-way transition to `Stopped`; returns whether the flag was still active.
    pub fn stop(&mut self) -> (was_active: bool)
        ensures
            *final(self) == LifecycleStatus::Stopped,
            was_active == (*old(self) == LifecycleStatus::Active),
    {
        let was_active = self.is_active();
        *self = LifecycleStatus::Stopped;
        was_active
    }
}

} // verus!
