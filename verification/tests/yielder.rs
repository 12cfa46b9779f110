use isr_sync::context::CoreState;
use isr_sync::yielder::IsrOp;
use isr_sync::yielder::YieldAction;
use isr_sync::yielder::YielderState;
use isr_sync::yielder::YIELD_SIGNAL_FN;
use isr_sync::yielder::capture_begin;
use isr_sync::yielder::capture_end;
use isr_sync::yielder::do_yield;
use isr_sync::yielder::get_isr_yielder;
use isr_sync::yielder::pack_yielder;
use isr_sync::yielder::set_isr_yielder;
use isr_sync::yielder::unpack_arg;
use isr_sync::yielder::unpack_func;
use isr_sync::yielder::with_isr_yield_signal;

fn isr_core() -> CoreState {
    let mut core = CoreState::new_task(0);
    core.begin_isr();
    core
}

#[test]
fn word_packing_is_exact() {
    let w = pack_yielder(0x1234_5678, 0x9abc_def0);
    assert_eq!(w, 0x1234_5678_9abc_def0);
    assert_eq!(unpack_func(w), 0x1234_5678);
    assert_eq!(unpack_arg(w), 0x9abc_def0);
    // A nonzero handler id never packs to the empty-slot word.
    assert_ne!(pack_yielder(1, 0), 0);
}

#[test]
fn set_then_get_returns_exactly_what_was_installed() {
    let mut st = YielderState::new();
    let core = isr_core();

    let prev = set_isr_yielder(&mut st, &core, Some((0x4000_1234, 77)));
    assert_eq!(prev, None);
    assert_eq!(get_isr_yielder(&st, &core), Some((0x4000_1234, 77)));

    let prev2 = set_isr_yielder(&mut st, &core, Some((0x4000_9999, 5)));
    assert_eq!(prev2, Some((0x4000_1234, 77)));
    assert_eq!(get_isr_yielder(&st, &core), Some((0x4000_9999, 5)));
}

#[test]
fn clearing_override_restores_default_yield() {
    let mut st = YielderState::new();
    let core = isr_core();
    let _ = set_isr_yielder(&mut st, &core, Some((0x4000_1234, 77)));
    let prev = set_isr_yielder(&mut st, &core, None);
    assert_eq!(prev, Some((0x4000_1234, 77)));
    assert_eq!(get_isr_yielder(&st, &core), None);
    assert_eq!(do_yield(&mut st, &core), YieldAction::DefaultIsrYield);
}

#[test]
fn task_context_never_sees_or_sets_overrides() {
    let mut st = YielderState::new();
    let task_core = CoreState::new_task(1);

    // Installing from task context is a no-op that reports absence.
    let prev = set_isr_yielder(&mut st, &task_core, Some((0x4000_1234, 1)));
    assert_eq!(prev, None);
    assert_eq!(st.word, 0);

    // Even with an override installed from ISR context, task-context reads
    // see none and task-context yields take the default path.
    let isr = isr_core();
    let _ = set_isr_yielder(&mut st, &isr, Some((0x4000_1234, 1)));
    assert_eq!(get_isr_yielder(&st, &task_core), None);
    assert_eq!(do_yield(&mut st, &task_core), YieldAction::DefaultTaskYield);
    // The override itself is untouched.
    assert_eq!(get_isr_yielder(&st, &isr), Some((0x4000_1234, 1)));
}

#[test]
fn yield_routes_to_installed_override() {
    let mut st = YielderState::new();
    let core = isr_core();
    assert_eq!(do_yield(&mut st, &core), YieldAction::DefaultIsrYield);
    let _ = set_isr_yielder(&mut st, &core, Some((0x4000_aaaa, 9)));
    assert_eq!(
        do_yield(&mut st, &core),
        YieldAction::InvokeHandler { func: 0x4000_aaaa, arg: 9 }
    );
}

#[test]
fn capture_reports_yield_and_restores_previous_override() {
    let mut st = YielderState::new();
    let core = isr_core();
    let _ = set_isr_yielder(&mut st, &core, Some((0x4000_1234, 77)));
    let saved_word = st.word;

    let ops = vec![IsrOp::RequestYield];
    let signaled = with_isr_yield_signal(&mut st, &core, &ops);
    assert!(signaled);
    assert_eq!(st.word, saved_word);
    assert_eq!(get_isr_yielder(&st, &core), Some((0x4000_1234, 77)));
    assert_eq!(st.flags.len(), 0);
}

#[test]
fn capture_without_yield_reports_false() {
    let mut st = YielderState::new();
    let core = isr_core();
    let ops: Vec<IsrOp> = Vec::new();
    assert!(!with_isr_yield_signal(&mut st, &core, &ops));
    assert_eq!(st.word, 0);

    let ops2 = vec![
        IsrOp::Install(Some((0x4000_bbbb, 3))),
        IsrOp::Install(None),
    ];
    assert!(!with_isr_yield_signal(&mut st, &core, &ops2));
    assert_eq!(st.word, 0);
}

#[test]
fn capture_misses_yields_routed_to_a_nested_override() {
    let mut st = YielderState::new();
    let core = isr_core();
    // The callback installs its own override, yields (routed to that
    // override, not recorded), then restores the recorder and yields again
    // (recorded). The capture sees only the second request.
    let routed_away = vec![
        IsrOp::Install(Some((0x4000_cccc, 8))),
        IsrOp::RequestYield,
        IsrOp::Install(None),
    ];
    assert!(!with_isr_yield_signal(&mut st, &core, &routed_away));

    let restored_then_yields = vec![
        IsrOp::Install(Some((0x4000_cccc, 8))),
        IsrOp::RequestYield,
        IsrOp::Install(Some((YIELD_SIGNAL_FN, 0))),
        IsrOp::RequestYield,
    ];
    assert!(with_isr_yield_signal(&mut st, &core, &restored_then_yields));
    assert_eq!(st.word, 0);
    assert_eq!(st.flags.len(), 0);
}

#[test]
fn nested_captures_record_independently() {
    let mut st = YielderState::new();
    let core = isr_core();

    let outer = capture_begin(&mut st, &core);
    let inner = capture_begin(&mut st, &core);
    // A yield while the inner recorder is installed marks only the inner flag.
    assert_eq!(do_yield(&mut st, &core), YieldAction::Recorded);
    let inner_signaled = capture_end(&mut st, &core, inner);
    assert!(inner_signaled);
    let outer_signaled = capture_end(&mut st, &core, outer);
    assert!(!outer_signaled);
    assert_eq!(st.word, 0);
    assert_eq!(st.flags.len(), 0);
}
