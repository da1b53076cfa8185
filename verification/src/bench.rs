//! The value side of the stream benchmark's simulator adapters: which
//! drive signals to write each cycle, how sampled signal values become the
//! model's inputs, and how a model step maps onto a cycle status.

use vstd::prelude::*;
use crate::cycle::CycleStatus;
use crate::stream_model::{BenchInputs, BenchOutputs, StepStatus};

verus! {

/// The signals the benchmark drives into the device.
#[derive(Copy, Clone, Debug, PartialEq, Eq, Structural)]
pub enum OutputSignal {
    ResetN,
    SValid,
    SData,
    SId,
    SLast,
    SUser,
    MReady,
    InjectError,
}

/// Every driven signal with its value, in driving order.
pub open spec fn all_drives(v: BenchOutputs) -> Seq<(OutputSignal, u64)> {
    seq![
        (OutputSignal::ResetN, v.reset_n as u64),
        (OutputSignal::SValid, v.s_valid as u64),
        (OutputSignal::SData, v.s_data),
        (OutputSignal::SId, v.s_id as u64),
        (OutputSignal::SLast, v.s_last as u64),
        (OutputSignal::SUser, v.s_user as u64),
        (OutputSignal::MReady, v.m_ready as u64),
        (OutputSignal::InjectError, v.inject_error as u64),
    ]
}

/// Whether each driven signal differs between `a` and `b`, in driving order.
pub open spec fn differs(a: BenchOutputs, b: BenchOutputs) -> Seq<bool> {
    seq![
        a.reset_n != b.reset_n,
        a.s_valid != b.s_valid,
        a.s_data != b.s_data,
        a.s_id != b.s_id,
        a.s_last != b.s_last,
        a.s_user != b.s_user,
        a.m_ready != b.m_ready,
        a.inject_error != b.inject_error,
    ]
}

/// The writes that bring the device's inputs to `values` when it last saw
/// `previous`: every signal that changed (every signal the first time), in
/// driving order.
pub open spec fn spec_drive_plan(values: BenchOutputs, previous: Option<BenchOutputs>) -> Seq<
    (OutputSignal, u64),
> {
    match previous {
        None => all_drives(values),
        Some(p) => all_drives(values).filter(changed_filter(values, p)),
    }
}

/// Keeps the drives of the signals that differ between `values` and `p`.
pub open spec fn changed_filter(values: BenchOutputs, p: BenchOutputs) -> spec_fn(
    (OutputSignal, u64),
) -> bool {
    |d: (OutputSignal, u64)| differs(values, p)[signal_index(d.0)]
}

/// The position of a signal in driving order.
pub open spec fn signal_index(s: OutputSignal) -> int {
    match s {
        OutputSignal::ResetN => 0,
        OutputSignal::SValid => 1,
        OutputSignal::SData => 2,
        OutputSignal::SId => 3,
        OutputSignal::SLast => 4,
        OutputSignal::SUser => 5,
        OutputSignal::MReady => 6,
        OutputSignal::InjectError => 7,
    }
}

/// The writes that bring the device's inputs to `values`, given what was
/// driven before (nothing yet: everything is written).
pub fn drive_plan(values: &BenchOutputs, previous: &Option<BenchOutputs>) -> (r: Vec<
    (OutputSignal, u64),
>)
    ensures
        r@ == spec_drive_plan(*values, *previous),
{
    let all: Vec<(OutputSignal, u64)> = vec![
        (OutputSignal::ResetN, values.reset_n as u64),
        (OutputSignal::SValid, values.s_valid as u64),
        (OutputSignal::SData, values.s_data),
        (OutputSignal::SId, values.s_id as u64),
        (OutputSignal::SLast, values.s_last as u64),
        (OutputSignal::SUser, values.s_user as u64),
        (OutputSignal::MReady, values.m_ready as u64),
        (OutputSignal::InjectError, values.inject_error as u64),
    ];
    assert(all@ =~= all_drives(*values));
    match previous {
        None => {
            assert(spec_drive_plan(*values, *previous) == all_drives(*values));
            all
        },
        Some(p) => {
            let changed: Vec<bool> = vec![
                values.reset_n != p.reset_n,
                values.s_valid != p.s_valid,
                values.s_data != p.s_data,
                values.s_id != p.s_id,
                values.s_last != p.s_last,
                values.s_user != p.s_user,
                values.m_ready != p.m_ready,
                values.inject_error != p.inject_error,
            ];
            assert(changed@ =~= differs(*values, *p));
            let ghost pred = changed_filter(*values, *p);
            let mut out: Vec<(OutputSignal, u64)> = Vec::new();
            let mut i: usize = 0;
            while i < 8
                invariant
                    all@ == all_drives(*values),
                    pred == changed_filter(*values, *p),
                    changed@ == differs(*values, *p),
                    i <= 8,
                    out@ == all@.take(i as int).filter(pred),
                    forall|k: int| 0 <= k < 8 ==> signal_index(#[trigger] all@[k].0) == k,
                decreases 8 - i,
            {
                let ghost before = out@;
                proof {
                    reveal_with_fuel(Seq::<(OutputSignal, u64)>::filter, 1);
                    let t = all@.take(i + 1);
                    assert(t.drop_last() =~= all@.take(i as int));
                    assert(t.last() == all@[i as int]);
                    assert(signal_index(all@[i as int].0) == i);
                    assert(pred(all@[i as int]) == changed@[i as int]);
                    assert(t.filter(pred) == (if pred(t.last()) {
                        t.drop_last().filter(pred).push(t.last())
                    } else {
                        t.drop_last().filter(pred)
                    }));
                }
                if changed[i] {
                    out.push(all[i]);
                }
                i = i + 1;
            }
            assert(all@.take(8) =~= all@);
            out
        },
    }
}

/// The model's inputs from the sampled signal values: each truncated to its
/// field's width; the device's data, identifier, last flag and user value
/// count only while its valid is set (zero otherwise).
pub fn sample_values(
    s_ready: u64,
    m_valid: u64,
    m_data: u64,
    m_id: u64,
    m_last: u64,
    m_user: u64,
    accepted_count: u64,
) -> (r: BenchInputs)
    ensures
        r.s_ready == s_ready as u8,
        r.m_valid == m_valid as u8,
        r.accepted_count == accepted_count,
        r.m_valid != 0 ==> r.m_data == m_data && r.m_id == m_id as u16 && r.m_last == m_last as u8
            && r.m_user == m_user as u8,
        r.m_valid == 0 ==> r.m_data == 0 && r.m_id == 0 && r.m_last == 0 && r.m_user == 0,
{
    let valid = m_valid as u8;
    BenchInputs {
        s_ready: s_ready as u8,
        m_valid: valid,
        m_data: if valid != 0 {
            m_data
        } else {
            0
        },
        m_id: if valid != 0 {
            m_id as u16
        } else {
            0
        },
        m_last: if valid != 0 {
            m_last as u8
        } else {
            0
        },
        m_user: if valid != 0 {
            m_user as u8
        } else {
            0
        },
        accepted_count,
    }
}

/// The cycle status a benchmark step gives: continue, pass, or a failure
/// carrying the model's message. Only a step that continues hands the
/// model's next `values` to the simulator's `outputs`.
pub fn cycle_outcome(status: StepStatus, values: &BenchOutputs, outputs: &mut BenchOutputs) -> (r:
    Result<CycleStatus, String>)
    ensures
        status matches StepStatus::Continue ==> r == Ok::<CycleStatus, String>(CycleStatus::Continue)
            && *final(outputs) == *values,
        status matches StepStatus::Pass(_) ==> r == Ok::<CycleStatus, String>(CycleStatus::Pass)
            && *final(outputs) == *old(outputs),
        status matches StepStatus::Fail(m) ==> (r matches Err(e) && e@ == m@) && *final(outputs)
            == *old(outputs),
{
    match status {
        StepStatus::Continue => {
            *outputs = *values;
            Ok(CycleStatus::Continue)
        },
        StepStatus::Pass(_) => Ok(CycleStatus::Pass),
        StepStatus::Fail(message) => Err(message),
    }
}


/// Driving writes exactly the signals whose value changed since the last
/// drive, each with its new value, and every signal on the first drive.
pub proof fn lemma_drive_plan_writes_exactly_changes(values: BenchOutputs, p: BenchOutputs, k: int)
    requires
        0 <= k < 8,
    ensures
        spec_drive_plan(values, Some(p)).contains(all_drives(values)[k]) <==> differs(values, p)[k],
        spec_drive_plan(values, None) == all_drives(values),
        spec_drive_plan(values, Some(p)).len() <= 8,
{
    let all = all_drives(values);
    let pred = changed_filter(values, p);
    let plan = all.filter(pred);
    assert(signal_index(all[k].0) == k);
    all.lemma_filter_len(pred);
    if differs(values, p)[k] {
        all.lemma_filter_contains(pred, k);
    }
    if plan.contains(all[k]) {
        let i = choose|i: int| 0 <= i < plan.len() && plan[i] == all[k];
        all.lemma_filter_pred(pred, i);
    }
}

/// `x` is what `v` drives onto signal `s`: the signal's own field.
pub open spec fn carries_own_value(v: BenchOutputs, s: OutputSignal, x: u64) -> bool {
    match s {
        OutputSignal::ResetN => x == v.reset_n as u64,
        OutputSignal::SValid => x == v.s_valid as u64,
        OutputSignal::SData => x == v.s_data,
        OutputSignal::SId => x == v.s_id as u64,
        OutputSignal::SLast => x == v.s_last as u64,
        OutputSignal::SUser => x == v.s_user as u64,
        OutputSignal::MReady => x == v.m_ready as u64,
        OutputSignal::InjectError => x == v.inject_error as u64,
    }
}

/// Every drive writes a signal with that signal's own value, and the plan
/// holds a write of `x` to `s` exactly when `x` is the value of `s` and this
/// is the first drive or the value of `s` changed since the last one.
pub proof fn lemma_drives_carry_their_own_values(
    values: BenchOutputs,
    previous: Option<BenchOutputs>,
    s: OutputSignal,
    x: u64,
)
    ensures
        spec_drive_plan(values, previous).contains((s, x)) <==> carries_own_value(values, s, x) && (
        previous matches Some(p) ==> !carries_own_value(p, s, x)),
{
    let all = all_drives(values);
    let k = signal_index(s);
    assert(all[k].0 == s && carries_own_value(values, s, all[k].1));
    assert forall|j: int| 0 <= j < all.len() && all[j].0 == s implies j == k by {}
    match previous {
        None => {
            if carries_own_value(values, s, x) {
                assert(all[k] == (s, x));
            }
        },
        Some(p) => {
            lemma_drive_plan_writes_exactly_changes(values, p, k);
            let plan = all.filter(changed_filter(values, p));
            if plan.contains((s, x)) {
                let i = choose|i: int| 0 <= i < plan.len() && plan[i] == (s, x);
                all.lemma_filter_pred(changed_filter(values, p), i);
                all.lemma_filter_contains_rev(changed_filter(values, p), (s, x));
            }
            if carries_own_value(values, s, x) {
                assert(all[k] == (s, x));
            }
        },
    }
}

} // verus!

