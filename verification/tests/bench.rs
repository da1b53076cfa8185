use rustdv::bench::{cycle_outcome, drive_plan, sample_values, OutputSignal};
use rustdv::cycle::{keeps_running, run_outcome, CycleStatus};
use rustdv::stream_model::{BenchOutputs, BenchReport, StepStatus};

#[test]
fn first_drive_writes_every_signal_in_order() {
    let values = BenchOutputs {
        reset_n: 1,
        s_valid: 1,
        s_data: 0xabcd,
        s_id: 7,
        s_last: 0,
        s_user: 0x5a,
        m_ready: 1,
        inject_error: 0,
    };
    let plan = drive_plan(&values, &None);
    assert_eq!(
        plan,
        vec![
            (OutputSignal::ResetN, 1),
            (OutputSignal::SValid, 1),
            (OutputSignal::SData, 0xabcd),
            (OutputSignal::SId, 7),
            (OutputSignal::SLast, 0),
            (OutputSignal::SUser, 0x5a),
            (OutputSignal::MReady, 1),
            (OutputSignal::InjectError, 0),
        ]
    );
}

#[test]
fn later_drives_write_only_changes() {
    let before = BenchOutputs { reset_n: 1, s_data: 3, ..BenchOutputs::default() };
    let after = BenchOutputs { reset_n: 1, s_data: 4, m_ready: 1, ..BenchOutputs::default() };
    assert_eq!(
        drive_plan(&after, &Some(before)),
        vec![(OutputSignal::SData, 4), (OutputSignal::MReady, 1)]
    );
    assert!(drive_plan(&after, &Some(after)).is_empty());
}

#[test]
fn samples_are_truncated_and_gated_by_valid() {
    let inputs = sample_values(0x101, 0x3, 0xfeed, 0x1_2345, 0x1ff, 0x1ab, 99);
    assert_eq!(inputs.s_ready, 1);
    assert_eq!(inputs.m_valid, 3);
    assert_eq!(inputs.m_data, 0xfeed);
    assert_eq!(inputs.m_id, 0x2345);
    assert_eq!(inputs.m_last, 0xff);
    assert_eq!(inputs.m_user, 0xab);
    assert_eq!(inputs.accepted_count, 99);
    let idle = sample_values(1, 0x100, 5, 5, 5, 5, 2);
    assert_eq!(idle.m_valid, 0);
    assert_eq!((idle.m_data, idle.m_id, idle.m_last, idle.m_user), (0, 0, 0, 0));
}

#[test]
fn step_statuses_become_cycle_statuses() {
    let values = BenchOutputs { reset_n: 1, s_valid: 1, s_data: 7, ..BenchOutputs::default() };
    let mut outputs = BenchOutputs::default();
    assert_eq!(
        cycle_outcome(StepStatus::Continue, &values, &mut outputs),
        Ok(CycleStatus::Continue)
    );
    assert_eq!(outputs, values);
    let mut outputs = BenchOutputs::default();
    let report = BenchReport { transactions: 1, cycles: 2, digest: 3, trace_digest: 4 };
    assert_eq!(cycle_outcome(StepStatus::Pass(report), &values, &mut outputs), Ok(CycleStatus::Pass));
    assert_eq!(outputs, BenchOutputs::default());
    assert_eq!(
        cycle_outcome(StepStatus::Fail("bad".to_string()), &values, &mut outputs),
        Err("bad".to_string())
    );
    assert_eq!(outputs, BenchOutputs::default());
}

#[test]
fn run_outcome_prefers_the_first_error() {
    assert_eq!(run_outcome(Err("run".to_string()), Err("fin".to_string())), Err("run".to_string()));
    assert_eq!(run_outcome(Ok(CycleStatus::Pass), Err("fin".to_string())), Err("fin".to_string()));
    assert_eq!(run_outcome(Ok(CycleStatus::Fail), Ok(())), Ok(CycleStatus::Fail));
    assert!(keeps_running(CycleStatus::Continue));
    assert!(!keeps_running(CycleStatus::Pass));
    assert!(!keeps_running(CycleStatus::Fail));
}
