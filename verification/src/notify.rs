//! The cross-context task notification channel.
//!
//! Each kernel task owns one 32-bit notification word plus a pending flag,
//! kept in its task control block; this layer only reads and writes them
//! through kernel calls, modelled here as plain state. Notifiers OR bits
//! into the word from either context; the owning task consumes word and
//! flag together when its wait completes.

use vstd::prelude::*;
use crate::context::CoreState;
use crate::yielder::YielderState;
use crate::yielder::YieldAction;
use crate::yielder::yield_step;
use crate::yielder::do_yield;

verus! {

/// The notification state of one task: its bitset word and whether a
/// notification is pending.
pub struct TaskNotification {
    /// Bits ORed in by notifiers since the task last consumed them.
    pub bits: u32,
    /// True once some notifier has signalled and the task has not yet
    /// consumed the word.
    pub pending: bool,
}

impl TaskNotification {
    /// A task with nothing notified.
    pub fn new() -> (r: Self)
        ensures
            r.bits == 0,
            !r.pending,
    {
        TaskNotification { bits: 0, pending: false }
    }
}

/// What one notification does: OR the bits in and mark the word pending.
pub open spec fn notify_step(t: TaskNotification, bits: u32) -> TaskNotification {
    TaskNotification { bits: t.bits | bits, pending: true }
}

/// Returns the handle of the task the scheduler is running on this core —
/// `running` is that handle, as the kernel reports it — or absence from
/// ISR context, where no "current task" exists.
pub fn current_task(core: &CoreState, running: u32) -> (r: Option<u32>)
    ensures
        r == if core.in_isr { None } else { Some(running) },
{
    if crate::context::active(core) {
        None
    } else {
        Some(running)
    }
}

/// ORs `bits` into the target task's notification word, from either
/// context. `woke_higher_priority` is the kernel's report of whether the
/// notified task outranks what was running; when notifying from ISR
/// context and it does, a yield is requested before returning — routed
/// through the yielder registry like any other — so the kernel reschedules
/// promptly. The boolean result is the kernel call's own verdict, true for
/// every valid handle; handle validity is the caller's to guarantee.
pub fn notify(
    task: &mut TaskNotification,
    bits: u32,
    core: &CoreState,
    yielder: &mut YielderState,
    woke_higher_priority: bool,
) -> (r: (bool, Option<YieldAction>))
    requires
        old(yielder)@.wf(),
    ensures
        final(yielder)@.wf(),
        *final(task) == notify_step(*old(task), bits),
        r.0,
        core.in_isr && woke_higher_priority ==> (r.1 matches Some(a)
            && (final(yielder)@, a) == yield_step(old(yielder)@, true)),
        !(core.in_isr && woke_higher_priority) ==> r.1 is None && *final(yielder) == *old(yielder),
{
    task.bits = task.bits | bits;
    task.pending = true;
    if crate::context::active(core) && woke_higher_priority {
        let action = do_yield(yielder, core);
        (true, Some(action))
    } else {
        (true, None)
    }
}

/// Waits for the calling task's own notification word, from task context
/// only — the one operation in this layer permitted to block. A pending
/// notification is consumed: the word is returned and cleared together
/// with the pending flag. Otherwise the wait times out and returns
/// absence, leaving the state untouched; a wait without a timeout returns
/// only once a notification has arrived.
pub fn wait_notification(task: &mut TaskNotification, core: &CoreState, timeout_ticks: Option<u32>) -> (r: Option<u32>)
    requires
        !core.in_isr,
        timeout_ticks is Some || old(task).pending,
    ensures
        old(task).pending ==> r == Some(old(task).bits)
            && final(task).bits == 0 && !final(task).pending,
        !old(task).pending ==> r is None && *final(task) == *old(task),
{
    if task.pending {
        let bits: u32 = task.bits;
        task.bits = 0;
        task.pending = false;
        Some(bits)
    } else {
        None
    }
}

/// The first non-zero word in a sequence of wake values, if any.
pub open spec fn first_nonzero(s: Seq<u32>) -> Option<u32>
    decreases s.len(),
{
    if s.len() == 0 {
        None
    } else if s[0] != 0 {
        Some(s[0])
    } else {
        first_nonzero(s.drop_first())
    }
}

/// Waits until *something* happens: loops on the unbounded wait,
/// discarding the zero-value wakes the underlying primitive is permitted
/// to deliver spuriously, and returns the first non-zero notification
/// word. `wakes` is the sequence of words successive waits delivered; on
/// the target the loop simply keeps waiting until one is non-zero.
pub fn wait_any_notification(wakes: &Vec<u32>) -> (r: Option<u32>)
    ensures
        r == first_nonzero(wakes@),
{
    proof {
        assert(wakes@.skip(0) =~= wakes@);
    }
    let mut i: usize = 0;
    while i < wakes.len()
        invariant
            i <= wakes.len(),
            first_nonzero(wakes@) == first_nonzero(wakes@.skip(i as int)),
        decreases wakes.len() - i,
    {
        let w: u32 = wakes[i];
        proof {
            let rest = wakes@.skip(i as int);
            assert(rest[0] == wakes@[i as int]);
            assert(rest.drop_first() =~= wakes@.skip(i as int + 1));
        }
        if w != 0 {
            return Some(w);
        }
        i = i + 1;
    }
    proof {
        assert(wakes@.skip(wakes@.len() as int).len() == 0);
    }
    None
}

/// The notification word accumulated by a whole sequence of notifications.
pub open spec fn notify_steps(t: TaskNotification, s: Seq<u32>) -> TaskNotification
    decreases s.len(),
{
    if s.len() == 0 {
        t
    } else {
        notify_step(notify_steps(t, s.drop_last()), s.last())
    }
}

/// The OR of all words in a sequence.
pub open spec fn or_all(s: Seq<u32>) -> u32
    decreases s.len(),
{
    if s.len() == 0 {
        0
    } else {
        or_all(s.drop_last()) | s.last()
    }
}

/// Delivery law: after any notifications arrive at a task whose word was
/// consumed or fresh, a wait on that task observes a pending word equal to
/// the OR of all the bits notified before it looked — so a single
/// `notify(task, bits)` followed by a wait returns exactly `bits`.
pub proof fn lemma_notify_then_wait(t: TaskNotification, s: Seq<u32>)
    requires
        t.bits == 0,
        s.len() >= 1,
    ensures
        notify_steps(t, s).pending,
        notify_steps(t, s).bits == or_all(s),
    decreases s.len(),
{
    if s.len() > 1 {
        lemma_notify_then_wait(t, s.drop_last());
        assert(notify_steps(t, s) == notify_step(notify_steps(t, s.drop_last()), s.last()));
        assert(or_all(s) == or_all(s.drop_last()) | s.last());
    } else {
        assert(s.drop_last().len() == 0);
        assert(notify_steps(t, s.drop_last()) == t);
        assert(or_all(s.drop_last()) == 0);
        assert(notify_steps(t, s).bits == t.bits | s.last());
        assert(or_all(s) == or_all(s.drop_last()) | s.last());
    }
}

} // verus!
