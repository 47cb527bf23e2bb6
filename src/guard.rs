use vstd::prelude::*;

verus! {

/// What the caller must do to the processor's interrupt flag.
#[derive(Debug, Clone, Copy, PartialEq, Eq, Structural)]
pub enum InterruptAction {
    /// Leave the flag as it is.
    Keep,
    /// Mask interrupts.
    Disable,
    /// Unmask interrupts.
    Enable,
}

/// The interrupt flag after `a` is carried out on a flag that was `enabled`.
pub open spec fn apply_action(enabled: bool, a: InterruptAction) -> bool {
    match a {
        InterruptAction::Keep => enabled,
        InterruptAction::Disable => false,
        InterruptAction::Enable => true,
    }
}

/// What entering a guard does, given whether interrupts are enabled.
pub open spec fn entry_action(enabled: bool) -> InterruptAction {
    if enabled {
        InterruptAction::Disable
    } else {
        InterruptAction::Keep
    }
}

/// What leaving a guard does, given the state saved on entry.
pub open spec fn exit_action(saved: bool) -> InterruptAction {
    if saved {
        InterruptAction::Enable
    } else {
        InterruptAction::Keep
    }
}

/// A critical section for computation on wide vector registers: entering it
/// masks interrupts, and leaving it, by any path, restores the state they
/// were in on entry. Guards do not nest.
pub struct ComputeGuard {
    saved: bool,
}

impl ComputeGuard {
    /// Whether interrupts were enabled when the guard was entered.
    pub closed spec fn saved(&self) -> bool {
        self.saved
    }

    /// Enters a guard, given whether interrupts are enabled now. Returns the
    /// guard and the action that masks them.
    pub fn enter(enabled: bool) -> (r: (ComputeGuard, InterruptAction))
        ensures
            r.0.saved() == enabled,
            r.1 == entry_action(enabled),
            !apply_action(enabled, r.1),
    {
        if enabled {
            (ComputeGuard { saved: true }, InterruptAction::Disable)
        } else {
            (ComputeGuard { saved: false }, InterruptAction::Keep)
        }
    }

    /// Leaves the guard. Returns the action that restores the state saved
    /// on entry.
    pub fn exit(self) -> (a: InterruptAction)
        ensures
            a == exit_action(self.saved()),
    {
        if self.saved {
            InterruptAction::Enable
        } else {
            InterruptAction::Keep
        }
    }

    /// Leaves the guard after its body ended with `outcome`, which is handed
    /// back unchanged: a failed body is restored from exactly as a
    /// successful one.
    pub fn finish<T, E>(self, outcome: Result<T, E>) -> (r: (InterruptAction, Result<T, E>))
        ensures
            r.0 == exit_action(self.saved()),
            r.1 == outcome,
    {
        let a = self.exit();
        (a, outcome)
    }
}

/// Whatever state interrupts are in when a guard is entered, they are masked
/// inside it, and leaving it, normally or with a failure, puts them back in
/// that state.
pub proof fn lemma_guard_restores(enabled: bool)
    ensures
        !apply_action(enabled, entry_action(enabled)),
        apply_action(apply_action(enabled, entry_action(enabled)), exit_action(enabled))
            == enabled,
{
}

} // verus!
