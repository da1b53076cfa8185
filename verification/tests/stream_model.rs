use rustdv::stream_model::{
    digest_update, mix64, payload, ready_open, source_open, trace_digest_update, transform_data,
    user_value, BenchInputs, BenchModel, BenchOutputs, BenchReport, StepStatus, RESET_CYCLES,
};

#[test]
fn deterministic_vectors_are_stable() {
    assert_eq!(payload(1, 0), 0x910a_2dec_8902_5cc1);
    assert_eq!(payload(1, 1), 0xe99f_f867_dbf6_82c9);
    assert_eq!(
        transform_data(0x0123_4567_89ab_cdef, 0x1234),
        0x1d21_5858_5844_03a5
    );
    assert_eq!(user_value(1, 0), 0x1a);
    assert_eq!(
        trace_digest_update(0, 1, &BenchInputs::default(), &BenchOutputs::default()),
        0x5e41_ab08_7439_611e
    );
}

#[test]
fn stalled_source_payload_is_retained() {
    let (mut model, mut outputs) = BenchModel::new(2, 1, false);
    let reset_inputs = BenchInputs::default();
    for _ in 0..RESET_CYCLES {
        assert_eq!(
            model.step(&reset_inputs, &mut outputs),
            StepStatus::Continue
        );
    }
    outputs.m_ready = 0;
    let before = outputs;
    let inputs = BenchInputs {
        m_valid: 1,
        m_data: transform_data(outputs.s_data, 0),
        m_user: user_value(1, 0),
        ..BenchInputs::default()
    };
    assert_eq!(model.step(&inputs, &mut outputs), StepStatus::Continue);
    assert_eq!(outputs.s_valid, before.s_valid);
    assert_eq!(outputs.s_data, before.s_data);
}

fn reference_mix64(mut value: u64) -> u64 {
    value = value.wrapping_add(0x9e37_79b9_7f4a_7c15);
    value = (value ^ (value >> 30)).wrapping_mul(0xbf58_476d_1ce4_e5b9);
    value = (value ^ (value >> 27)).wrapping_mul(0x94d0_49bb_1331_11eb);
    value ^ (value >> 31)
}

#[test]
fn mix64_matches_the_splitmix_finalizer() {
    for v in [0u64, 1, 42, u64::MAX, 0x0123_4567_89ab_cdef] {
        assert_eq!(mix64(v), reference_mix64(v));
    }
    assert_eq!(mix64(0), 0xe220_a839_7b1d_cdaf);
}

#[test]
fn digest_update_folds_rotation_data_and_sidebands() {
    let digest = 0x8000_0000_0000_0001u64;
    let expected = digest.rotate_left(7)
        ^ 0x55
        ^ ((7u64 | (1u64 << 16) | (0xabu64 << 24)).wrapping_mul(0x9e37_79b9_7f4a_7c15));
    assert_eq!(digest_update(digest, 0x55, 7, 1, 0xab), expected);
    assert_eq!(digest_update(0, 0, 0, 0, 0), 0);
}

#[test]
fn transform_data_rotates_and_offsets_by_id() {
    let d = 0xdead_beef_0000_0001u64;
    assert_eq!(
        transform_data(d, 5),
        (d ^ 0xd6e8_feb8_6659_fd93)
            .rotate_left(13)
            .wrapping_add(0xa5a5_5a5a_1234_5678)
            .wrapping_add(5)
    );
}

#[test]
fn schedule_predicates_follow_mix64() {
    for c in 0..64u64 {
        assert_eq!(source_open(3, c), mix64(3 ^ c.wrapping_mul(0xd134_2543_de82_ef95)) & 7 != 0);
        assert_eq!(
            ready_open(3, c),
            mix64(3 ^ c.wrapping_mul(0x94d0_49bb_1331_11eb) ^ 0xa409_3822_299f_31d0) & 0xf != 0
        );
    }
}

#[test]
fn new_model_holds_reset() {
    let (_, outputs) = BenchModel::new(5, 9, true);
    assert_eq!(outputs.reset_n, 0);
    assert_eq!(outputs.m_ready, 0);
    assert_eq!(outputs.s_valid, 0);
    assert_eq!(outputs.inject_error, 1);
}

#[test]
fn reset_is_released_after_reset_cycles() {
    let (mut model, mut outputs) = BenchModel::new(3, 7, false);
    let quiet = BenchInputs::default();
    for cycle in 1..=RESET_CYCLES {
        assert_eq!(model.step(&quiet, &mut outputs), StepStatus::Continue);
        assert_eq!(outputs.reset_n == 1, cycle == RESET_CYCLES);
    }
    assert_eq!(outputs.m_ready, u8::from(ready_open(7, 0)));
    if outputs.s_valid != 0 {
        assert_eq!(outputs.s_data, payload(7, 0));
        assert_eq!(outputs.s_id, 0);
        assert_eq!(outputs.s_user, user_value(7, 0));
    }
}

#[test]
fn activity_during_reset_fails_with_message() {
    let (mut model, mut outputs) = BenchModel::new(3, 7, false);
    let busy = BenchInputs { m_valid: 1, accepted_count: 2, ..BenchInputs::default() };
    assert_eq!(
        model.step(&busy, &mut outputs),
        StepStatus::Fail("DUT was active during reset: m_valid=1 accepted_count=2".to_string())
    );
}

/// A device that passes every offered transfer straight through.
fn device_view(outputs: &BenchOutputs, accepted: u64, seed: u64) -> BenchInputs {
    let s_ready = outputs.m_ready;
    let m_valid = outputs.s_valid;
    let _ = seed;
    BenchInputs {
        s_ready,
        m_valid,
        m_data: if m_valid != 0 { transform_data(outputs.s_data, outputs.s_id) } else { 0 },
        m_id: if m_valid != 0 { outputs.s_id } else { 0 },
        m_last: if m_valid != 0 { outputs.s_last } else { 0 },
        m_user: if m_valid != 0 { outputs.s_user } else { 0 },
        accepted_count: accepted + u64::from(m_valid != 0 && s_ready != 0),
    }
}

#[test]
fn faithful_device_passes_with_exact_report() {
    let seed = 11;
    let target = 20;
    let (mut model, mut outputs) = BenchModel::new(target, seed, false);
    let quiet = BenchInputs::default();
    for _ in 0..RESET_CYCLES {
        assert_eq!(model.step(&quiet, &mut outputs), StepStatus::Continue);
    }
    let mut accepted = 0u64;
    let mut digest = 0u64;
    let mut cycles = 0u64;
    loop {
        cycles += 1;
        let inputs = device_view(&outputs, accepted, seed);
        let transferred = inputs.m_valid != 0 && inputs.s_ready != 0;
        if transferred {
            digest = digest_update(digest, inputs.m_data, inputs.m_id, inputs.m_last, inputs.m_user);
        }
        accepted = inputs.accepted_count;
        match model.step(&inputs, &mut outputs) {
            StepStatus::Continue => assert!(cycles < 10_000),
            StepStatus::Pass(BenchReport { transactions, cycles: reported, digest: d, .. }) => {
                assert_eq!(transactions, target);
                assert_eq!(reported, cycles);
                assert_eq!(d, digest);
                assert_eq!(outputs.s_valid, 0);
                break;
            }
            StepStatus::Fail(message) => panic!("unexpected failure: {message}"),
        }
    }
}

#[test]
fn corrupted_payload_fails_with_message() {
    let seed = 1;
    let (mut model, mut outputs) = BenchModel::new(4, seed, false);
    let quiet = BenchInputs::default();
    for _ in 0..RESET_CYCLES {
        model.step(&quiet, &mut outputs);
    }
    // Wait until the source offers a transfer.
    let mut guard = 0;
    while outputs.s_valid == 0 {
        let inputs = BenchInputs { s_ready: outputs.m_ready, ..BenchInputs::default() };
        assert_eq!(model.step(&inputs, &mut outputs), StepStatus::Continue);
        guard += 1;
        assert!(guard < 100);
    }
    let mut inputs = device_view(&outputs, 0, seed);
    inputs.m_data ^= 1;
    let expected_data = transform_data(payload(seed, 0), 0);
    let expected = format!(
        "payload mismatch for transfer 0: got data=0x{:016x} id=0x{:04x} last={} user=0x{:02x}; expected data=0x{expected_data:016x} id=0x{:04x} last={} user=0x{:02x}",
        inputs.m_data, inputs.m_id, inputs.m_last, inputs.m_user, 0, 0, user_value(seed, 0)
    );
    assert_eq!(model.step(&inputs, &mut outputs), StepStatus::Fail(expected));
}

#[test]
fn protocol_mismatches_fail_with_messages() {
    let (mut model, mut outputs) = BenchModel::new(4, 1, false);
    let quiet = BenchInputs::default();
    for _ in 0..RESET_CYCLES {
        model.step(&quiet, &mut outputs);
    }
    let mut probe = BenchInputs { s_ready: outputs.m_ready ^ 1, ..BenchInputs::default() };
    let before = outputs;
    let status = model.step(&probe, &mut outputs);
    let accepted = before.s_valid != 0 && probe.s_ready != 0;
    let expected = if accepted {
        format!("ready/valid transfer disagreement at cycle 5: input={} output={}", accepted, false)
    } else {
        format!("ready path mismatch at cycle 5: s_ready={} m_ready={}", probe.s_ready, before.m_ready)
    };
    assert_eq!(status, StepStatus::Fail(expected));
    assert_eq!(outputs, before);

    let (mut model, mut outputs) = BenchModel::new(4, 1, false);
    for _ in 0..RESET_CYCLES {
        model.step(&quiet, &mut outputs);
    }
    probe = BenchInputs { s_ready: outputs.m_ready, m_valid: outputs.s_valid ^ 1, ..BenchInputs::default() };
    let before = outputs;
    let status = model.step(&probe, &mut outputs);
    let acc = before.s_valid != 0 && probe.s_ready != 0;
    let em = probe.m_valid != 0 && before.m_ready != 0;
    let expected = if acc != em {
        format!("ready/valid transfer disagreement at cycle 5: input={} output={}", acc, em)
    } else {
        format!("valid path mismatch at cycle 5: m_valid={} s_valid={}", probe.m_valid, before.s_valid)
    };
    assert_eq!(status, StepStatus::Fail(expected));
}

#[test]
fn count_mismatch_fails_with_message() {
    let (mut model, mut outputs) = BenchModel::new(4, 1, false);
    let quiet = BenchInputs::default();
    for _ in 0..RESET_CYCLES {
        model.step(&quiet, &mut outputs);
    }
    let mut inputs = device_view(&outputs, 0, 1);
    inputs.accepted_count += 7;
    let expected_count = u64::from(inputs.m_valid != 0 && inputs.s_ready != 0);
    assert_eq!(
        model.step(&inputs, &mut outputs),
        StepStatus::Fail(format!(
            "DUT accepted_count mismatch at cycle 5: got {}, expected {}",
            inputs.accepted_count, expected_count
        ))
    );
}

#[test]
fn mix64_of_one_and_distinct_words_stay_distinct() {
    assert_eq!(mix64(1), 0x910a_2dec_8902_5cc1);
    let words = [0u64, 1, 2, 3, 0xff, 0x100, u64::MAX, u64::MAX - 1, 0x8000_0000_0000_0000];
    for (i, a) in words.iter().enumerate() {
        for b in &words[i + 1..] {
            assert_ne!(mix64(*a), mix64(*b));
        }
    }
}

#[test]
fn stalled_beat_keeps_reset_and_follows_the_ready_schedule() {
    let seed = 1;
    let (mut model, mut outputs) = BenchModel::new(2, seed, true);
    let reset_inputs = BenchInputs::default();
    for _ in 0..RESET_CYCLES {
        assert_eq!(model.step(&reset_inputs, &mut outputs), StepStatus::Continue);
    }
    outputs.m_ready = 0;
    let before = outputs;
    let inputs = BenchInputs {
        m_valid: 1,
        m_data: transform_data(outputs.s_data, 0),
        m_user: user_value(seed, 0),
        ..BenchInputs::default()
    };
    assert_eq!(model.step(&inputs, &mut outputs), StepStatus::Continue);
    assert_eq!(outputs.s_valid, before.s_valid);
    assert_eq!(outputs.s_data, before.s_data);
    assert_eq!(outputs.s_id, before.s_id);
    assert_eq!(outputs.s_last, before.s_last);
    assert_eq!(outputs.s_user, before.s_user);
    assert_eq!(outputs.reset_n, 1);
    assert_eq!(outputs.inject_error, 1);
    assert_eq!(outputs.m_ready, u8::from(ready_open(seed, RESET_CYCLES + 1 - RESET_CYCLES)));
}

#[test]
fn failing_steps_leave_the_outputs_untouched() {
    let (mut model, mut outputs) = BenchModel::new(3, 5, false);
    let quiet = BenchInputs::default();
    for _ in 0..RESET_CYCLES {
        assert_eq!(model.step(&quiet, &mut outputs), StepStatus::Continue);
    }
    let before = outputs;
    let wrong = BenchInputs { s_ready: outputs.m_ready ^ 1, ..BenchInputs::default() };
    assert!(matches!(model.step(&wrong, &mut outputs), StepStatus::Fail(_)));
    assert_eq!(outputs, before);

    let (mut fresh, mut reset_outputs) = BenchModel::new(3, 5, false);
    let before = reset_outputs;
    let noisy = BenchInputs { m_valid: 1, ..BenchInputs::default() };
    assert!(matches!(fresh.step(&noisy, &mut reset_outputs), StepStatus::Fail(_)));
    assert_eq!(reset_outputs, before);
}

#[test]
fn step_allowed_guards_the_reset_count() {
    let (model, outputs) = BenchModel::new(3, 5, false);
    let quiet = BenchInputs::default();
    assert!(model.step_allowed(&quiet, &outputs));
    // Outputs out of reset before the reset cycles ran, with a device that
    // agrees with them: the step would count active cycles below zero.
    let early = BenchOutputs { reset_n: 1, ..outputs };
    assert!(!model.step_allowed(&quiet, &early));
    // The same outputs with a device that disagrees fail before counting.
    let disagreeing = BenchInputs { s_ready: 1, ..quiet };
    assert!(model.step_allowed(&disagreeing, &early));
}

#[test]
fn run_report_digest_folds_every_emitted_transfer() {
    let seed = 23;
    let target = 7;
    let (mut model, mut outputs) = BenchModel::new(target, seed, false);
    let mut accepted = 0u64;
    let mut digest = 0u64;
    let mut steps = 0u64;
    loop {
        steps += 1;
        let inputs = if outputs.reset_n == 0 {
            BenchInputs::default()
        } else {
            device_view(&outputs, accepted, seed)
        };
        if outputs.reset_n != 0 && inputs.m_valid != 0 && outputs.m_ready != 0 {
            digest = digest_update(digest, inputs.m_data, inputs.m_id, inputs.m_last, inputs.m_user);
        }
        accepted = inputs.accepted_count;
        assert!(model.step_allowed(&inputs, &outputs));
        let entry = outputs;
        match model.step(&inputs, &mut outputs) {
            StepStatus::Continue => assert!(steps < 10_000),
            StepStatus::Pass(report) => {
                assert_eq!(report.transactions, target);
                assert_eq!(report.cycles, steps - RESET_CYCLES);
                assert_eq!(report.digest, digest);
                assert_eq!(outputs, BenchOutputs { s_valid: 0, ..entry });
                break;
            }
            StepStatus::Fail(message) => panic!("unexpected failure: {message}"),
        }
    }
}

#[test]
fn report_digest_follows_the_outputs_each_call_was_given() {
    let seed = 29;
    let target = 6;
    let (mut model, mut outputs) = BenchModel::new(target, seed, false);
    let mut accepted = 0u64;
    let mut digest = 0u64;
    let mut calls = 0u64;
    loop {
        calls += 1;
        // The caller holds the sink back on every third active call.
        if outputs.reset_n != 0 && calls % 3 == 0 {
            outputs.m_ready = 0;
        }
        let inputs = if outputs.reset_n == 0 {
            BenchInputs::default()
        } else {
            device_view(&outputs, accepted, seed)
        };
        if outputs.reset_n != 0 && inputs.m_valid != 0 && outputs.m_ready != 0 {
            digest = digest_update(digest, inputs.m_data, inputs.m_id, inputs.m_last, inputs.m_user);
        }
        accepted = inputs.accepted_count;
        let entry = outputs;
        match model.step(&inputs, &mut outputs) {
            StepStatus::Continue => assert!(calls < 10_000),
            StepStatus::Pass(report) => {
                assert_eq!(report.transactions, target);
                assert_eq!(report.cycles, calls - RESET_CYCLES);
                assert_eq!(report.digest, digest);
                assert_eq!(outputs, BenchOutputs { s_valid: 0, ..entry });
                break;
            }
            StepStatus::Fail(message) => panic!("unexpected failure: {message}"),
        }
    }
}
