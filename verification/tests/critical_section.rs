use isr_sync::context::CoreState;
use isr_sync::critical::IsrCriticalSection;
use isr_sync::critical::interleaved_increments;
use isr_sync::active;
use isr_sync::free;
use isr_sync::mutex::IsrRawMutex;

#[test]
fn nested_enter_exit_releases_only_at_last() {
    let mut cs = IsrCriticalSection::new();
    let mut core = CoreState::new_task(0);
    assert_eq!(cs.owner, None);
    assert_eq!(cs.count, 0);
    assert_eq!(core.crit_depth, 0);

    let g1 = cs.enter(&mut core);
    let g2 = cs.enter(&mut core);
    let g3 = cs.enter(&mut core);
    assert_eq!(cs.owner, Some(0));
    assert_eq!(cs.count, 3);
    assert_eq!(core.crit_depth, 3);

    cs.exit(&mut core, g3);
    assert_eq!(cs.owner, Some(0));
    assert_eq!(cs.count, 2);
    assert_eq!(core.crit_depth, 2);

    cs.exit(&mut core, g2);
    assert_eq!(cs.owner, Some(0));
    assert_eq!(cs.count, 1);
    assert_eq!(core.crit_depth, 1);

    cs.exit(&mut core, g1);
    assert_eq!(cs.owner, None);
    assert_eq!(cs.count, 0);
    assert_eq!(core.crit_depth, 0);
}

#[test]
fn contending_core_cannot_claim_until_release() {
    let mut cs = IsrCriticalSection::new();
    let mut core0 = CoreState::new_task(0);
    let mut core1 = CoreState::new_task(1);

    let g0 = cs.enter(&mut core0);

    // The other core spins: each round of its try fails and changes nothing.
    let refused = cs.try_enter(&mut core1);
    assert!(refused.is_none());
    assert_eq!(cs.owner, Some(0));
    assert_eq!(cs.count, 1);
    assert_eq!(core1.crit_depth, 0);

    // The holder nests and releases; only the outermost release frees it.
    let g0b = cs.try_enter(&mut core0).expect("holder re-enters freely");
    cs.exit(&mut core0, g0b);
    let refused_again = cs.try_enter(&mut core1);
    assert!(refused_again.is_none());

    cs.exit(&mut core0, g0);
    assert_eq!(cs.owner, None);

    // Now the contender's next round claims it.
    let g1 = cs.try_enter(&mut core1).expect("free section is claimed");
    assert_eq!(cs.owner, Some(1));
    assert_eq!(core1.crit_depth, 1);
    cs.exit(&mut core1, g1);
    assert_eq!(cs.owner, None);
}

#[test]
fn enter_is_safe_from_isr_context() {
    let mut cs = IsrCriticalSection::new();
    let mut core = CoreState::new_task(1);
    core.begin_isr();
    assert!(active(&core));
    let g = cs.enter(&mut core);
    assert_eq!(cs.owner, Some(1));
    cs.exit(&mut core, g);
    assert_eq!(cs.owner, None);
    core.end_isr();
    assert!(!active(&core));
}

#[test]
fn free_runs_closure_and_restores_state() {
    let mut cs = IsrCriticalSection::default();
    let mut core = CoreState::new_task(0);
    let r = free(&mut cs, &mut core, || 17 + 25);
    assert_eq!(r, 42);
    assert_eq!(cs.owner, None);
    assert_eq!(cs.count, 0);
    assert_eq!(core.crit_depth, 0);
}

#[test]
fn free_nests_inside_an_outer_entry() {
    let mut cs = IsrCriticalSection::new();
    let mut core = CoreState::new_task(0);
    let g = cs.enter(&mut core);
    let r = free(&mut cs, &mut core, || "inside");
    assert_eq!(r, "inside");
    // The outer entry is still held afterwards.
    assert_eq!(cs.owner, Some(0));
    assert_eq!(cs.count, 1);
    assert_eq!(core.crit_depth, 1);
    cs.exit(&mut core, g);
    assert_eq!(cs.owner, None);
}

#[test]
fn interleaved_increments_count_equals_sum() {
    // One core alone: each increment takes a claim turn and an increment
    // turn, so six turns complete all three increments.
    let mut cs = IsrCriticalSection::new();
    let only_core0 = vec![true; 6];
    assert_eq!(interleaved_increments(&mut cs, &only_core0, 3, 9), (3, 3, 0));
    assert_eq!(cs.owner, None);

    let mut cs1 = IsrCriticalSection::new();
    let only_core1 = vec![false; 4];
    assert_eq!(interleaved_increments(&mut cs1, &only_core1, 9, 2), (2, 0, 2));

    // Strict alternation: while one core holds, the other's turn is a
    // failed spin round, so increments interleave but never overlap.
    let mut cs2 = IsrCriticalSection::new();
    let mut alternating = Vec::new();
    for k in 0..12 {
        alternating.push(k % 2 == 0);
    }
    let (count, done0, done1) = interleaved_increments(&mut cs2, &alternating, 3, 3);
    assert_eq!(count, (done0 + done1) as u64);
    assert_eq!((count, done0, done1), (4, 2, 2));
}

#[test]
fn raw_mutex_locks_and_unlocks_nested() {
    let mut m = IsrRawMutex::new();
    let mut core = CoreState::new_task(1);
    m.lock(&mut core);
    m.lock(&mut core);
    assert_eq!(m.cs.owner, Some(1));
    assert_eq!(m.cs.count, 2);
    assert_eq!(core.crit_depth, 2);
    m.unlock(&mut core);
    assert_eq!(m.cs.owner, Some(1));
    m.unlock(&mut core);
    assert_eq!(m.cs.owner, None);
    assert_eq!(m.cs.count, 0);
    assert_eq!(core.crit_depth, 0);
}
