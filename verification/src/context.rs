//! Execution-context model: which core is running, whether it is inside an
//! interrupt handler, and how deeply it has masked interrupts.

use vstd::prelude::*;

verus! {

/// Number of cores on the target. Exclusion and interrupt masking are per
/// core; the spinlock model below serializes the two cores.
pub const NUM_CORES: u32 = 2;

/// The execution state of one core, as far as this layer reads or drives it:
/// its identity, whether it is currently executing interrupt-handler code,
/// and how many nested critical entries it currently holds (interrupts are
/// masked on the core exactly while `crit_depth > 0`).
pub struct CoreState {
    /// Which core this is; always below [`NUM_CORES`].
    pub id: u32,
    /// True while the core is executing an interrupt service routine.
    pub in_isr: bool,
    /// Nested interrupt-masking depth: the number of critical entries the
    /// core has made and not yet released, over all sections.
    pub crit_depth: u32,
}

impl CoreState {
    /// Validity of a core state: the id names a real core.
    pub open spec fn wf(self) -> bool {
        self.id < NUM_CORES
    }

    /// Interrupts are delivered on the core iff no critical entry is held.
    pub open spec fn interrupts_enabled(self) -> bool {
        self.crit_depth == 0
    }

    /// A core in ordinary task context with interrupts enabled.
    pub fn new_task(id: u32) -> (r: CoreState)
        requires
            id < NUM_CORES,
        ensures
            r.wf(),
            r.id == id,
            !r.in_isr,
            r.interrupts_enabled(),
    {
        CoreState { id, in_isr: false, crit_depth: 0 }
    }

    /// The core begins executing an interrupt handler.
    pub fn begin_isr(&mut self)
        ensures
            *final(self) == (CoreState { in_isr: true, ..*old(self) }),
    {
        self.in_isr = true;
    }

    /// The core returns from its interrupt handler to task code.
    pub fn end_isr(&mut self)
        ensures
            *final(self) == (CoreState { in_isr: false, ..*old(self) }),
    {
        self.in_isr = false;
    }
}

/// Returns true iff the given core is currently executing an ISR.
///
/// Every other operation in this layer consults this first: it is false for
/// every call made from ordinary task code and true for every call made from
/// within an interrupt handler, on every core.
pub fn active(core: &CoreState) -> (r: bool)
    ensures
        r == core.in_isr,
{
    core.in_isr
}

} // verus!
