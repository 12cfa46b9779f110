//! A raw ISR-safe mutex: the conventional {construct, lock, unlock}
//! capability shape over one owned critical section. It never blocks the
//! scheduler and is safe to take from ISR or task context.

use vstd::prelude::*;
use crate::context::CoreState;
use crate::critical::IsrCriticalSection;
use crate::critical::IsrCriticalSectionGuard;
use crate::critical::enter_step;
use crate::critical::exit_step;

verus! {

/// A mutex whose lock and unlock delegate to its own critical section.
/// Lock/unlock pairs are a manually-paired primitive for higher layers
/// that provide their own scope guards: `lock` discards the entry guard,
/// and `unlock` is only safe when called by the same nested caller that
/// last locked — an unmatched unlock is a precondition violation, not a
/// runtime-checked error.
pub struct IsrRawMutex {
    /// The one critical section the mutex owns.
    pub cs: IsrCriticalSection,
}

impl IsrRawMutex {
    /// Constructs a new, unlocked mutex.
    pub fn new() -> (r: Self)
        ensures
            r.cs.wf(),
            r.cs.is_free(),
            r.cs.count == 0,
    {
        IsrRawMutex { cs: IsrCriticalSection::new() }
    }

    /// Locks: enters the owned section — masking interrupts on the calling
    /// core and claiming the lock, nesting freely on the same core — and
    /// discards the guard; that the mutex is locked is tracked structurally
    /// by the caller's matching unlock.
    pub fn lock(&mut self, core: &mut CoreState)
        requires
            old(self).cs.wf(),
            old(core).wf(),
            old(self).cs.can_claim(old(core).id),
            old(self).cs.count < u32::MAX,
            old(core).crit_depth < u32::MAX,
        ensures
            final(self).cs.wf(),
            final(core).wf(),
            (final(self).cs, *final(core)) == enter_step(old(self).cs, *old(core)),
            final(self).cs.held_by(old(core).id),
            !final(core).interrupts_enabled(),
    {
        let _guard = self.cs.enter(core);
    }

    /// Unlocks: releases the innermost outstanding entry made by `lock`
    /// from this core, freeing the lock and re-enabling interrupts exactly
    /// when it was the outermost.
    pub fn unlock(&mut self, core: &mut CoreState)
        requires
            old(self).cs.wf(),
            old(core).wf(),
            old(self).cs.held_by(old(core).id),
            old(core).crit_depth >= 1,
        ensures
            final(self).cs.wf(),
            final(core).wf(),
            (final(self).cs, *final(core)) == exit_step(old(self).cs, *old(core)),
            final(self).cs.is_free() <==> old(self).cs.count == 1,
            final(core).interrupts_enabled() <==> old(core).crit_depth == 1,
    {
        let guard = IsrCriticalSectionGuard { core_id: core.id };
        self.cs.exit(core, guard);
    }
}

} // verus!
