//! The cross-core recursive critical section.
//!
//! The kernel's spinlock record is modelled by its two fields: the claiming
//! core (or none) and a recursion count. Entering masks interrupts on the
//! calling core and claims the lock; on the real target a core whose claim
//! is refused busy-waits, which here is the `can_claim` precondition of
//! [`IsrCriticalSection::enter`] — the condition the spin waits for —
//! while [`IsrCriticalSection::try_enter`] models a single round of that
//! spin. Releasing undoes one entry; the lock frees and interrupts re-enable
//! exactly when the outermost entry is released.

use vstd::prelude::*;
use crate::context::CoreState;
use crate::context::NUM_CORES;

verus! {

/// A per-instance recursive, cross-core mutual-exclusion primitive: the
/// model of one kernel spinlock record.
pub struct IsrCriticalSection {
    /// The core currently inside the section, if any.
    pub owner: Option<u32>,
    /// How many nested entries the owner has made and not yet released.
    pub count: u32,
}

/// Witness of one entry into a section; released by passing it back to
/// [`IsrCriticalSection::exit`]. Releases must be strictly nested: the
/// guard taken last is released first.
pub struct IsrCriticalSectionGuard {
    /// The core that made the entry this guard witnesses.
    pub core_id: u32,
}

impl IsrCriticalSection {
    /// Validity: the lock is claimed exactly while entries are outstanding,
    /// and only by a real core.
    pub open spec fn wf(self) -> bool {
        &&& self.owner is Some <==> self.count > 0
        &&& (self.owner matches Some(c) ==> c < NUM_CORES)
    }

    /// No core is inside the section.
    pub open spec fn is_free(self) -> bool {
        self.owner is None
    }

    /// The given core is inside the section.
    pub open spec fn held_by(self, core_id: u32) -> bool {
        self.owner == Some(core_id) && self.count > 0
    }

    /// A claim by `core_id` succeeds: the lock is free or already its own.
    /// On the target this is the condition the entry spin waits for.
    pub open spec fn can_claim(self, core_id: u32) -> bool {
        self.owner is None || self.owner == Some(core_id)
    }

    /// Constructs a new, free section.
    pub fn new() -> (r: Self)
        ensures
            r.wf(),
            r.is_free(),
            r.count == 0,
    {
        IsrCriticalSection { owner: None, count: 0 }
    }

    /// One round of the entry spin: claims the section iff it is free or
    /// already held by this core; otherwise leaves every state unchanged,
    /// and the caller spins again. Safe to call from ISR context.
    pub fn try_enter(&mut self, core: &mut CoreState) -> (r: Option<IsrCriticalSectionGuard>)
        requires
            old(self).wf(),
            old(core).wf(),
            old(self).count < u32::MAX,
            old(core).crit_depth < u32::MAX,
        ensures
            final(self).wf(),
            r is Some <==> old(self).can_claim(old(core).id),
            r matches Some(g) ==> g.core_id == old(core).id
                && (*final(self), *final(core)) == enter_step(*old(self), *old(core)),
            r is None ==> *final(self) == *old(self) && *final(core) == *old(core),
    {
        let claimable = match self.owner {
            None => true,
            Some(c) => c == core.id,
        };
        if claimable {
            self.owner = Some(core.id);
            self.count = self.count + 1;
            core.crit_depth = core.crit_depth + 1;
            Some(IsrCriticalSectionGuard { core_id: core.id })
        } else {
            None
        }
    }

    /// Enters the section: masks interrupts on the calling core and claims
    /// the lock, nesting freely on the same core. The `can_claim`
    /// precondition is what the busy-wait in the kernel primitive
    /// establishes before the claim; no other core can be inside once it
    /// holds. Safe to call from ISR context.
    pub fn enter(&mut self, core: &mut CoreState) -> (g: IsrCriticalSectionGuard)
        requires
            old(self).wf(),
            old(core).wf(),
            old(self).can_claim(old(core).id),
            old(self).count < u32::MAX,
            old(core).crit_depth < u32::MAX,
        ensures
            final(self).wf(),
            final(core).wf(),
            (*final(self), *final(core)) == enter_step(*old(self), *old(core)),
            final(self).held_by(old(core).id),
            !final(core).interrupts_enabled(),
            g.core_id == old(core).id,
    {
        self.owner = Some(core.id);
        self.count = self.count + 1;
        core.crit_depth = core.crit_depth + 1;
        IsrCriticalSectionGuard { core_id: core.id }
    }

    /// Releases one entry witnessed by `guard`: frees the lock if this was
    /// the outermost nested entry on this section, and re-enables
    /// interrupts on the core if it was the core's outermost entry over all
    /// sections. Calling it without the matching outstanding entry is a
    /// precondition violation, not a runtime-checked error.
    pub fn exit(&mut self, core: &mut CoreState, guard: IsrCriticalSectionGuard)
        requires
            old(self).wf(),
            old(core).wf(),
            old(self).held_by(old(core).id),
            guard.core_id == old(core).id,
            old(core).crit_depth >= 1,
        ensures
            final(self).wf(),
            final(core).wf(),
            (*final(self), *final(core)) == exit_step(*old(self), *old(core)),
            final(self).is_free() <==> old(self).count == 1,
            final(core).interrupts_enabled() <==> old(core).crit_depth == 1,
    {
        self.count = self.count - 1;
        if self.count == 0 {
            self.owner = None;
        }
        core.crit_depth = core.crit_depth - 1;
    }
}

impl Default for IsrCriticalSection {
    /// Same as [`IsrCriticalSection::new`]: a free section.
    fn default() -> (r: Self)
        ensures
            r.wf(),
            r.is_free(),
            r.count == 0,
    {
        IsrCriticalSection::new()
    }
}

/// The state change of one entry: the core claims the lock, deepens its
/// recursion by one, and masks interrupts one level deeper.
pub open spec fn enter_step(cs: IsrCriticalSection, core: CoreState) -> (IsrCriticalSection, CoreState) {
    (
        IsrCriticalSection { owner: Some(core.id), count: (cs.count + 1) as u32 },
        CoreState { crit_depth: (core.crit_depth + 1) as u32, ..core },
    )
}

/// The state change of one release: recursion shallows by one, the lock
/// frees when that was the last entry, and the core unmasks one level.
pub open spec fn exit_step(cs: IsrCriticalSection, core: CoreState) -> (IsrCriticalSection, CoreState) {
    (
        IsrCriticalSection {
            owner: if cs.count == 1 { None } else { cs.owner },
            count: (cs.count - 1) as u32,
        },
        CoreState { crit_depth: (core.crit_depth - 1) as u32, ..core },
    )
}

/// `n` nested entries by the same core, innermost last.
pub open spec fn enter_steps(cs: IsrCriticalSection, core: CoreState, n: nat) -> (IsrCriticalSection, CoreState)
    decreases n,
{
    if n == 0 {
        (cs, core)
    } else {
        let (cs1, core1) = enter_steps(cs, core, (n - 1) as nat);
        enter_step(cs1, core1)
    }
}

/// `k` releases by the same core, in reverse order of the entries.
pub open spec fn exit_steps(cs: IsrCriticalSection, core: CoreState, k: nat) -> (IsrCriticalSection, CoreState)
    decreases k,
{
    if k == 0 {
        (cs, core)
    } else {
        let (cs1, core1) = exit_steps(cs, core, (k - 1) as nat);
        exit_step(cs1, core1)
    }
}

/// What `n` nested entries do, by induction on `n`.
proof fn lemma_enter_steps(cs: IsrCriticalSection, core: CoreState, n: nat)
    requires
        cs.wf(),
        core.wf(),
        cs.can_claim(core.id),
        cs.count + n <= u32::MAX,
        core.crit_depth + n <= u32::MAX,
    ensures
        ({
            let (csn, coren) = enter_steps(cs, core, n);
            &&& csn.count == cs.count + n
            &&& coren.crit_depth == core.crit_depth + n
            &&& csn.owner == if n == 0 { cs.owner } else { Some(core.id) }
            &&& coren.id == core.id
            &&& coren.in_isr == core.in_isr
            &&& csn.wf()
            &&& coren.wf()
            &&& csn.can_claim(core.id)
        }),
    decreases n,
{
    if n > 0 {
        lemma_enter_steps(cs, core, (n - 1) as nat);
    }
}

/// What `k` releases do to a section held with recursion `count >= k`,
/// by induction on `k`.
proof fn lemma_exit_steps(cs: IsrCriticalSection, core: CoreState, k: nat)
    requires
        cs.wf(),
        core.wf(),
        cs.owner == Some(core.id),
        cs.count >= 1,
        k <= cs.count,
        k <= core.crit_depth,
    ensures
        ({
            let (csk, corek) = exit_steps(cs, core, k);
            &&& csk.count == cs.count - k
            &&& corek.crit_depth == core.crit_depth - k
            &&& csk.owner == if k == cs.count { None::<u32> } else { Some(core.id) }
            &&& corek.id == core.id
            &&& corek.in_isr == core.in_isr
            &&& csk.wf()
            &&& corek.wf()
        }),
    decreases k,
{
    if k > 0 {
        lemma_exit_steps(cs, core, (k - 1) as nat);
    }
}

/// Nesting discipline: starting from a free section and a core with
/// interrupts enabled, `n >= 1` nested entries followed by `k <= n`
/// releases in reverse order leave the lock free and interrupts enabled
/// exactly when `k == n` — once the last entry is released, and never
/// before.
pub proof fn lemma_nested_enter_exit(cs: IsrCriticalSection, core: CoreState, n: nat, k: nat)
    requires
        cs.wf(),
        core.wf(),
        cs.is_free(),
        core.interrupts_enabled(),
        1 <= n,
        k <= n,
        n <= u32::MAX,
    ensures
        ({
            let (csn, coren) = enter_steps(cs, core, n);
            let (csk, corek) = exit_steps(csn, coren, k);
            &&& csk.count == n - k
            &&& corek.crit_depth == n - k
            &&& (k < n ==> csk.held_by(core.id) && !corek.interrupts_enabled())
            &&& (k == n ==> csk.is_free() && csk.count == 0 && corek.interrupts_enabled())
            &&& corek.id == core.id
            &&& corek.in_isr == core.in_isr
        }),
{
    lemma_enter_steps(cs, core, n);
    let (csn, coren) = enter_steps(cs, core, n);
    lemma_exit_steps(csn, coren, k);
}

/// Mutual exclusion: at any instant, a section is held by at most one core.
pub proof fn lemma_mutual_exclusion(cs: IsrCriticalSection, a: u32, b: u32)
    requires
        cs.held_by(a),
        cs.held_by(b),
    ensures
        a == b,
{
}

/// While one core holds a section, a claim by any other core is refused —
/// the contender keeps spinning and never reaches the protected region.
pub proof fn lemma_contender_spins(cs: IsrCriticalSection, holder: u32, contender: u32)
    requires
        cs.held_by(holder),
        contender != holder,
    ensures
        !cs.can_claim(contender),
{
}

/// Two cores hammer one shared counter under one critical section, each
/// claiming the section anew for every increment, under an arbitrary
/// interleaving: `schedule[k]` names the core that takes the `k`-th turn
/// (true for core 0). On its turn a core that wants more increments either
/// attempts the claim — one spin round, achieving nothing while the other
/// core holds — or, already holding, increments the counter and releases.
///
/// Exclusion serializes the increments: whatever the interleaving, the
/// final count equals exactly the sum of the increments the two cores
/// completed, and the section's bookkeeping stays valid throughout.
/// Returns the counter and each core's completed increments.
pub fn interleaved_increments(cs: &mut IsrCriticalSection, schedule: &Vec<bool>, n0: u32, n1: u32) -> (r: (u64, u32, u32))
    requires
        old(cs).wf(),
        old(cs).is_free(),
    ensures
        final(cs).wf(),
        r.0 == r.1 + r.2,
        r.1 <= n0,
        r.2 <= n1,
{
    let mut core0 = CoreState::new_task(0);
    let mut core1 = CoreState::new_task(1);
    let mut g0: Option<IsrCriticalSectionGuard> = None;
    let mut g1: Option<IsrCriticalSectionGuard> = None;
    let mut counter: u64 = 0;
    let mut done0: u32 = 0;
    let mut done1: u32 = 0;
    let mut k: usize = 0;
    while k < schedule.len()
        invariant
            cs.wf(),
            core0.wf(),
            core1.wf(),
            core0.id == 0,
            core1.id == 1,
            g0 is Some <==> cs.held_by(0),
            g1 is Some <==> cs.held_by(1),
            g0 matches Some(g) ==> g.core_id == 0,
            g1 matches Some(g) ==> g.core_id == 1,
            core0.crit_depth == if g0 is Some { 1int } else { 0int },
            core1.crit_depth == if g1 is Some { 1int } else { 0int },
            cs.count == (if g0 is Some { 1int } else { 0int }) + (if g1 is Some { 1int } else { 0int }),
            counter == done0 + done1,
            done0 <= n0,
            done1 <= n1,
        decreases schedule.len() - k,
    {
        if schedule[k] {
            if done0 < n0 {
                match g0 {
                    None => {
                        g0 = cs.try_enter(&mut core0);
                    },
                    Some(g) => {
                        counter = counter + 1;
                        cs.exit(&mut core0, g);
                        g0 = None;
                        done0 = done0 + 1;
                    },
                }
            }
        } else {
            if done1 < n1 {
                match g1 {
                    None => {
                        g1 = cs.try_enter(&mut core1);
                    },
                    Some(g) => {
                        counter = counter + 1;
                        cs.exit(&mut core1, g);
                        g1 = None;
                        done1 = done1 + 1;
                    },
                }
            }
        }
        k = k + 1;
    }
    (counter, done0, done1)
}

/// Runs `f` inside the given critical section — the caller passes the
/// process-wide instance for global exclusion — with interrupts masked on
/// the calling core, releasing the entry on return and handing back `f`'s
/// result. Both the section and the core are restored to their prior
/// state.
pub fn free<R, F: FnOnce() -> R>(cs: &mut IsrCriticalSection, core: &mut CoreState, f: F) -> (r: R)
    requires
        old(cs).wf(),
        old(core).wf(),
        old(cs).can_claim(old(core).id),
        old(cs).count < u32::MAX,
        old(core).crit_depth < u32::MAX,
        call_requires(f, ()),
    ensures
        call_ensures(f, (), r),
        *final(cs) == *old(cs),
        *final(core) == *old(core),
{
    let guard = cs.enter(core);
    let r = f();
    cs.exit(core, guard);
    r
}

} // verus!
