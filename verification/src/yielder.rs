//! The process-wide yielder registry and yield-signal capture.
//!
//! ISR code may install an override for the "please yield now" request so
//! that a yield requested deep in a nested call chain is routed to it
//! instead of the kernel's default ISR-epilogue yield. The slot holds an
//! optional (handler id, opaque argument) pair packed into one
//! atomically-swappable 64-bit word — handler id in the high half, argument
//! in the low half, zero meaning "no override". Handler ids are opaque
//! nonzero tokens assigned by the embedding (on the target, a function's
//! address); one id, [`YIELD_SIGNAL_FN`], is reserved for the recording
//! override that yield-signal capture installs, whose argument indexes the
//! capture's signal flag in a small registry of flags, innermost capture
//! last.

use vstd::prelude::*;
use crate::context::CoreState;

verus! {

/// Reserved handler id of the recording override installed by
/// [`capture_begin`]: instead of performing any kernel call it sets the
/// signal flag its argument indexes.
pub const YIELD_SIGNAL_FN: u32 = 0xffff_ffff;

/// The packed slot word for handler `func` with argument `arg`.
pub open spec fn pack_spec(func: u32, arg: u32) -> u64 {
    ((func as u64) << 32) | (arg as u64)
}

/// The handler id held in the high half of a slot word.
pub open spec fn word_func(w: u64) -> u32 {
    (w >> 32) as u32
}

/// The argument held in the low half of a slot word.
pub open spec fn word_arg(w: u64) -> u32 {
    (w & 0xffff_ffff) as u32
}

/// Packing is lossless: both halves read back exactly, and a nonzero
/// handler id makes the word nonzero, so an installed override is never
/// mistaken for the empty slot.
pub proof fn lemma_pack_unpack(func: u32, arg: u32)
    by (bit_vector)
    ensures
        word_func(pack_spec(func, arg)) == func,
        word_arg(pack_spec(func, arg)) == arg,
        func != 0 ==> pack_spec(func, arg) != 0,
{
}

/// Unpacking then packing gives the word back: a saved slot word is
/// restored bit-for-bit by reinstalling its decoded parts.
pub proof fn lemma_unpack_pack(w: u64)
    by (bit_vector)
    ensures
        pack_spec(word_func(w), word_arg(w)) == w,
{
}

/// Packs a handler id and argument into a slot word.
pub fn pack_yielder(func: u32, arg: u32) -> (r: u64)
    ensures
        r == pack_spec(func, arg),
{
    ((func as u64) << 32) | (arg as u64)
}

/// Reads the handler id back out of a slot word.
pub fn unpack_func(w: u64) -> (r: u32)
    ensures
        r == word_func(w),
{
    (w >> 32) as u32
}

/// Reads the argument back out of a slot word.
pub fn unpack_arg(w: u64) -> (r: u32)
    ensures
        r == word_arg(w),
{
    (w & 0xffff_ffff) as u32
}

/// What a yield request resolves to; the embedding performs the kernel call
/// or handler invocation the variant names.
#[derive(Clone, Copy, PartialEq, Eq, Structural, Debug)]
pub enum YieldAction {
    /// Invoke the installed override with its stored argument.
    InvokeHandler { func: u32, arg: u32 },
    /// Perform the kernel's default ISR-context yield request.
    DefaultIsrYield,
    /// Perform the kernel's default task-context yield.
    DefaultTaskYield,
    /// The recording override noted the request; nothing to perform.
    Recorded,
}

/// The mathematical model of the registry: the slot word and the signal
/// flags of the captures in progress.
pub struct YielderModel {
    pub word: u64,
    pub flags: Seq<bool>,
}

/// The word holds the recording override of some capture in progress.
pub open spec fn is_recorder(w: u64) -> bool {
    w != 0 && word_func(w) == YIELD_SIGNAL_FN
}

/// The slot word of the recording override whose flag sits at `idx`.
pub open spec fn recorder_word(idx: u32) -> u64 {
    pack_spec(YIELD_SIGNAL_FN, idx)
}

impl YielderModel {
    /// Validity: an installed recording override indexes a live flag.
    pub open spec fn wf(self) -> bool {
        is_recorder(self.word) ==> (word_arg(self.word) as int) < self.flags.len()
    }
}

/// The process-wide yielder slot together with the signal flags of the
/// yield-signal captures currently in progress, innermost last.
pub struct YielderState {
    /// The packed slot word; zero means no override is installed.
    pub word: u64,
    /// One signal flag per capture in progress.
    pub flags: Vec<bool>,
}

impl View for YielderState {
    type V = YielderModel;

    open spec fn view(&self) -> YielderModel {
        YielderModel { word: self.word, flags: self.flags@ }
    }
}

impl YielderState {
    /// A registry with no override installed and no capture in progress.
    pub fn new() -> (r: Self)
        ensures
            r@.wf(),
            r@.word == 0,
            r@.flags.len() == 0,
    {
        YielderState { word: 0, flags: Vec::new() }
    }
}

/// The slot word an install request encodes to.
pub open spec fn encode_spec(y: Option<(u32, u32)>) -> u64 {
    match y {
        None => 0,
        Some((func, arg)) => pack_spec(func, arg),
    }
}

/// The install request a slot word decodes to.
pub open spec fn decode_spec(w: u64) -> Option<(u32, u32)> {
    if w == 0 {
        None
    } else {
        Some((word_func(w), word_arg(w)))
    }
}

/// An install request the registry accepts: a real handler id (zero would
/// read back as the empty slot), and a recording override only for a flag
/// that is live — which is exactly what restoring a previously saved value
/// hands back.
pub open spec fn valid_install(y: Option<(u32, u32)>, len: int) -> bool {
    match y {
        None => true,
        Some((func, arg)) => func != 0 && (func == YIELD_SIGNAL_FN ==> (arg as int) < len),
    }
}

/// Atomically swaps `yielder` into the slot and returns the value it
/// replaced, but only in ISR context: from task context the slot is left
/// untouched and absence is returned, since the override never applies
/// there. Callers must use strict save/restore pairs — install, do the
/// nested work, reinstall what was returned.
pub fn set_isr_yielder(st: &mut YielderState, core: &CoreState, yielder: Option<(u32, u32)>) -> (prev: Option<(u32, u32)>)
    requires
        old(st)@.wf(),
        valid_install(yielder, old(st)@.flags.len() as int),
    ensures
        final(st)@.wf(),
        final(st)@.flags == old(st)@.flags,
        core.in_isr ==> final(st)@.word == encode_spec(yielder) && prev == decode_spec(old(st)@.word),
        !core.in_isr ==> *final(st) == *old(st) && prev is None,
{
    if crate::context::active(core) {
        let value: u64 = match yielder {
            Some((func, arg)) => {
                proof {
                    lemma_pack_unpack(func, arg);
                }
                pack_yielder(func, arg)
            },
            None => 0,
        };
        let prev_word: u64 = st.word;
        st.word = value;
        if prev_word == 0 {
            None
        } else {
            Some((unpack_func(prev_word), unpack_arg(prev_word)))
        }
    } else {
        None
    }
}

/// Reads the current override without changing it: the installed pair in
/// ISR context, absence in task context or when the slot is empty.
pub fn get_isr_yielder(st: &YielderState, core: &CoreState) -> (r: Option<(u32, u32)>)
    ensures
        core.in_isr ==> r == decode_spec(st@.word),
        !core.in_isr ==> r is None,
{
    if crate::context::active(core) {
        if st.word == 0 {
            None
        } else {
            Some((unpack_func(st.word), unpack_arg(st.word)))
        }
    } else {
        None
    }
}

/// What one yield request does to the registry, and the action it resolves
/// to: in task context the default task yield, untouched by overrides; in
/// ISR context the installed override if any — the recording override sets
/// its flag, any other is handed out for invocation — and the default
/// ISR yield when the slot is empty.
pub open spec fn yield_step(m: YielderModel, in_isr: bool) -> (YielderModel, YieldAction) {
    if !in_isr {
        (m, YieldAction::DefaultTaskYield)
    } else if m.word == 0 {
        (m, YieldAction::DefaultIsrYield)
    } else if word_func(m.word) == YIELD_SIGNAL_FN {
        (
            YielderModel { flags: m.flags.update(word_arg(m.word) as int, true), ..m },
            YieldAction::Recorded,
        )
    } else {
        (m, YieldAction::InvokeHandler { func: word_func(m.word), arg: word_arg(m.word) })
    }
}

/// The unconditional "please cooperatively switch task now" request:
/// resolves the yield exactly as [`yield_step`] says and returns the action
/// the embedding must perform. Safe to call from either context.
pub fn do_yield(st: &mut YielderState, core: &CoreState) -> (action: YieldAction)
    requires
        old(st)@.wf(),
    ensures
        final(st)@.wf(),
        (final(st)@, action) == yield_step(old(st)@, core.in_isr),
{
    if !crate::context::active(core) {
        YieldAction::DefaultTaskYield
    } else if st.word == 0 {
        YieldAction::DefaultIsrYield
    } else {
        let func: u32 = unpack_func(st.word);
        let arg: u32 = unpack_arg(st.word);
        if func == YIELD_SIGNAL_FN {
            let idx: usize = arg as usize;
            st.flags.set(idx, true);
            YieldAction::Recorded
        } else {
            YieldAction::InvokeHandler { func, arg }
        }
    }
}

/// Witness of a yield-signal capture in progress: the slot word it
/// displaced, to be restored bit-for-bit, and the index of its signal flag.
pub struct YieldSignalToken {
    /// The slot word saved when the capture began.
    pub prev: u64,
    /// Where this capture's signal flag sits in the registry.
    pub idx: u32,
}

/// The registry after a capture begins: a fresh, clear signal flag, and the
/// recording override for it installed in the slot.
pub open spec fn capture_install(m: YielderModel) -> YielderModel {
    YielderModel {
        word: recorder_word(m.flags.len() as u32),
        flags: m.flags.push(false),
    }
}

/// Begins a yield-signal capture: saves the current override, pushes a
/// clear signal flag, and installs the recording override for it. Only
/// meaningful in ISR context — the embedding must abort rather than call
/// this from task code, since silently doing nothing would hide a logic
/// error at a call site written for ISR use.
pub fn capture_begin(st: &mut YielderState, core: &CoreState) -> (tok: YieldSignalToken)
    requires
        old(st)@.wf(),
        core.in_isr,
        old(st)@.flags.len() < 0xffff_ffff,
    ensures
        final(st)@.wf(),
        final(st)@ == capture_install(old(st)@),
        tok.prev == old(st)@.word,
        tok.idx as int == old(st)@.flags.len(),
{
    let idx: usize = st.flags.len();
    st.flags.push(false);
    let prev: u64 = st.word;
    proof {
        lemma_pack_unpack(YIELD_SIGNAL_FN, idx as u32);
    }
    st.word = pack_yielder(YIELD_SIGNAL_FN, idx as u32);
    YieldSignalToken { prev, idx: idx as u32 }
}

/// Ends the capture `tok` witnesses: restores the saved slot word
/// bit-for-bit — by swap, so whatever the captured code left installed is
/// simply displaced — pops the capture's signal flag, and reports whether
/// it was set. Captures must end innermost-first.
pub fn capture_end(st: &mut YielderState, core: &CoreState, tok: YieldSignalToken) -> (signaled: bool)
    requires
        old(st)@.wf(),
        core.in_isr,
        old(st)@.flags.len() >= 1,
        tok.idx as int == old(st)@.flags.len() - 1,
        is_recorder(tok.prev) ==> (word_arg(tok.prev) as int) < old(st)@.flags.len() - 1,
    ensures
        final(st)@.wf(),
        final(st)@.word == tok.prev,
        final(st)@.flags == old(st)@.flags.drop_last(),
        signaled == old(st)@.flags[tok.idx as int],
{
    let idx: usize = tok.idx as usize;
    let signaled: bool = st.flags[idx];
    let _ = st.flags.pop();
    st.word = tok.prev;
    signaled
}

/// One thing the code running under a capture can do to the registry.
#[derive(Clone, Copy, PartialEq, Eq, Debug)]
pub enum IsrOp {
    /// It requested a yield.
    RequestYield,
    /// It installed an override, or restored a saved one.
    Install(Option<(u32, u32)>),
}

/// Whether an install request is one the registry accepts.
pub open spec fn op_valid(op: IsrOp, len: int) -> bool {
    match op {
        IsrOp::RequestYield => true,
        IsrOp::Install(y) => valid_install(y, len),
    }
}

/// Every step of the run is one the registry accepts.
pub open spec fn ops_valid(ops: Seq<IsrOp>, len: int) -> bool {
    forall|i: int| 0 <= i < ops.len() ==> op_valid(#[trigger] ops[i], len)
}

/// What one registry step does, all in ISR context.
pub open spec fn op_step(m: YielderModel, op: IsrOp) -> YielderModel {
    match op {
        IsrOp::RequestYield => yield_step(m, true).0,
        IsrOp::Install(y) => YielderModel { word: encode_spec(y), ..m },
    }
}

/// The registry after the whole run of steps, first step first.
pub open spec fn run_ops(m: YielderModel, ops: Seq<IsrOp>) -> YielderModel
    decreases ops.len(),
{
    if ops.len() == 0 {
        m
    } else {
        op_step(run_ops(m, ops.drop_last()), ops.last())
    }
}

/// Whether some step of the run requested a yield at a moment when the
/// recording override for the flag at `idx` was the installed override —
/// the one condition under which that signal flag is set.
pub open spec fn signal_observed(m: YielderModel, ops: Seq<IsrOp>, idx: u32) -> bool
    decreases ops.len(),
{
    if ops.len() == 0 {
        false
    } else {
        signal_observed(m, ops.drop_last(), idx)
            || (ops.last() is RequestYield && run_ops(m, ops.drop_last()).word == recorder_word(idx))
    }
}

/// What a run does to the signal flags: it never grows or shrinks the
/// registry, it preserves validity, and a flag ends up set exactly if it
/// was set before or some step requested a yield while that flag's
/// recording override was installed — no other step touches it.
pub proof fn lemma_run_ops(m: YielderModel, ops: Seq<IsrOp>)
    requires
        m.wf(),
        ops_valid(ops, m.flags.len() as int),
    ensures
        ({
            let mr = run_ops(m, ops);
            &&& mr.wf()
            &&& mr.flags.len() == m.flags.len()
            &&& forall|j: u32| (j as int) < m.flags.len()
                ==> mr.flags[j as int] == (m.flags[j as int] || signal_observed(m, ops, j))
        }),
    decreases ops.len(),
{
    if ops.len() > 0 {
        let prefix = ops.drop_last();
        assert forall|i: int| 0 <= i < prefix.len() implies op_valid(#[trigger] prefix[i], m.flags.len() as int) by {
            assert(prefix[i] == ops[i]);
        }
        lemma_run_ops(m, prefix);
        let mp = run_ops(m, prefix);
        let mr = run_ops(m, ops);
        match ops.last() {
            IsrOp::RequestYield => {
                if mp.word != 0 && word_func(mp.word) == YIELD_SIGNAL_FN {
                    let hit: int = word_arg(mp.word) as int;
                    assert(mr.flags == mp.flags.update(hit, true));
                    assert(mp.word == recorder_word(word_arg(mp.word))) by {
                        lemma_unpack_pack(mp.word);
                    }
                    assert forall|j: u32| (j as int) < m.flags.len()
                        implies mr.flags[j as int] == (m.flags[j as int] || signal_observed(m, ops, j)) by {
                        if j as int == hit {
                            assert(recorder_word(j) == mp.word);
                            assert(signal_observed(m, ops, j));
                        } else {
                            assert(mr.flags[j as int] == mp.flags[j as int]);
                            assert(recorder_word(j) != mp.word) by {
                                let w = mp.word;
                                let a = word_arg(w);
                                assert(word_arg(recorder_word(j)) == j) by {
                                    lemma_pack_unpack(YIELD_SIGNAL_FN, j);
                                }
                            }
                        }
                    }
                } else {
                    assert(mr.flags == mp.flags);
                    assert forall|j: u32| (j as int) < m.flags.len()
                        implies mr.flags[j as int] == (m.flags[j as int] || signal_observed(m, ops, j)) by {
                        assert(mp.word != recorder_word(j)) by {
                            lemma_pack_unpack(YIELD_SIGNAL_FN, j);
                        }
                    }
                }
            },
            IsrOp::Install(y) => {
                assert(mr.flags == mp.flags);
                assert(op_valid(ops.last(), m.flags.len() as int));
                match y {
                    None => {},
                    Some((func, arg)) => {
                        lemma_pack_unpack(func, arg);
                    },
                }
            },
        }
    }
}

/// Runs a yield-signal capture around the given registry steps — the
/// effect on the registry of the callback the captured code runs: begins
/// the capture, applies each step in order, ends the capture, and returns
/// whether a yield was requested while the capture's recording override
/// was installed. The override that was installed before the capture is
/// restored bit-for-bit afterwards, no matter which overrides the steps
/// themselves installed and restored. Must only be reached from ISR
/// context; the embedding aborts otherwise.
pub fn with_isr_yield_signal(st: &mut YielderState, core: &CoreState, ops: &Vec<IsrOp>) -> (signaled: bool)
    requires
        old(st)@.wf(),
        core.in_isr,
        old(st)@.flags.len() < 0xffff_ffff,
        ops_valid(ops@, old(st)@.flags.len() as int + 1),
    ensures
        final(st)@.wf(),
        final(st)@.word == old(st)@.word,
        final(st)@.flags.len() == old(st)@.flags.len(),
        signaled == signal_observed(capture_install(old(st)@), ops@, old(st)@.flags.len() as u32),
        forall|j: u32| (j as int) < old(st)@.flags.len()
            ==> final(st)@.flags[j as int]
                == (old(st)@.flags[j as int] || signal_observed(capture_install(old(st)@), ops@, j)),
{
    let ghost m0 = st@;
    let tok = capture_begin(st, core);
    let ghost m1 = st@;
    let mut i: usize = 0;
    while i < ops.len()
        invariant
            i <= ops.len(),
            core.in_isr,
            m1 == capture_install(m0),
            m1.wf(),
            ops_valid(ops@, m1.flags.len() as int),
            st@ == run_ops(m1, ops@.take(i as int)),
            st@.wf(),
            st@.flags.len() == m1.flags.len(),
        decreases ops.len() - i,
    {
        let ghost prev = st@;
        let ghost taken = ops@.take(i as int);
        match ops[i] {
            IsrOp::RequestYield => {
                let _ = do_yield(st, core);
            },
            IsrOp::Install(y) => {
                proof {
                    assert(op_valid(ops@[i as int], m1.flags.len() as int));
                }
                let _ = set_isr_yielder(st, core, y);
                proof {
                    match y {
                        None => {},
                        Some((func, arg)) => {
                            lemma_pack_unpack(func, arg);
                        },
                    }
                    assert(st@ == op_step(prev, ops@[i as int]));
                }
            },
        }
        proof {
            let next = ops@.take(i as int + 1);
            assert(next.drop_last() =~= taken);
            assert(next.last() == ops@[i as int]);
            assert(st@ == run_ops(m1, next));
            lemma_run_ops(m1, next);
        }
        i = i + 1;
    }
    proof {
        assert(ops@.take(ops@.len() as int) =~= ops@);
        lemma_run_ops(m1, ops@);
        assert(is_recorder(tok.prev) ==> (word_arg(tok.prev) as int) < m0.flags.len());
    }
    capture_end(st, core, tok)
}

/// What the signal condition means, spelt out: a yield-signal capture
/// reports true exactly when some step `i` of the run requested a yield at
/// a moment when the capture's recording override was the installed
/// override.
pub proof fn lemma_signal_observed_iff(m: YielderModel, ops: Seq<IsrOp>, idx: u32)
    ensures
        signal_observed(m, ops, idx) <==> exists|i: int|
            0 <= i < ops.len() && ops[i] is RequestYield
                && (#[trigger] run_ops(m, ops.take(i))).word == recorder_word(idx),
    decreases ops.len(),
{
    if ops.len() > 0 {
        let prefix = ops.drop_last();
        let last: int = ops.len() - 1;
        lemma_signal_observed_iff(m, prefix, idx);
        assert(ops.take(last) =~= prefix);
        if signal_observed(m, ops, idx) {
            if signal_observed(m, prefix, idx) {
                let i = choose|i: int| 0 <= i < prefix.len() && prefix[i] is RequestYield
                    && (#[trigger] run_ops(m, prefix.take(i))).word == recorder_word(idx);
                assert(ops.take(i) =~= prefix.take(i));
                assert(ops[i] == prefix[i]);
                assert(run_ops(m, ops.take(i)).word == recorder_word(idx));
            } else {
                assert(run_ops(m, ops.take(last)).word == recorder_word(idx));
            }
        }
        if exists|i: int| 0 <= i < ops.len() && ops[i] is RequestYield
            && (#[trigger] run_ops(m, ops.take(i))).word == recorder_word(idx) {
            let i = choose|i: int| 0 <= i < ops.len() && ops[i] is RequestYield
                && (#[trigger] run_ops(m, ops.take(i))).word == recorder_word(idx);
            if i < last {
                assert(prefix.take(i) =~= ops.take(i));
                assert(prefix[i] == ops[i]);
                assert(run_ops(m, prefix.take(i)).word == recorder_word(idx));
                assert(signal_observed(m, prefix, idx));
            } else {
                assert(ops.last() is RequestYield);
                assert(run_ops(m, prefix).word == recorder_word(idx));
            }
        }
    }
}

/// Installing an override and reading the slot back decode to exactly the
/// value installed: the packed word round-trips.
pub proof fn lemma_install_read_back(y: Option<(u32, u32)>)
    requires
        y matches Some(p) ==> p.0 != 0,
    ensures
        decode_spec(encode_spec(y)) == y,
{
    match y {
        None => {},
        Some((func, arg)) => {
            lemma_pack_unpack(func, arg);
        },
    }
}

/// Once the override is cleared, a yield request falls back to the
/// kernel's default mechanism of the calling context and leaves the
/// registry untouched.
pub proof fn lemma_cleared_yield_defaults(m: YielderModel)
    requires
        m.word == 0,
    ensures
        yield_step(m, true) == (m, YieldAction::DefaultIsrYield),
        yield_step(m, false) == (m, YieldAction::DefaultTaskYield),
{
}

} // verus!
