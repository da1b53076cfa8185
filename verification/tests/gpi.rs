use rustdv::gpi::{
    assemble_u64, register_end_of_simulation, register_next_sim_time, register_read_only,
    register_read_write, register_start_of_simulation, register_timer, register_value_change,
    sim_time_steps, simtime, top_module, AnyHandle, CallbackState, CbKind, CbTime, FireAction,
    HandleError, HierarchyHandle, LogicHandle, ObjHandle, SimTime, ValueError,
};
use rustdv::gpi_sys::{
    t_vpi_vecval, CB_AFTER_DELAY, CB_END_OF_SIMULATION, CB_NEXT_SIM_TIME, CB_READ_ONLY_SYNCH,
    CB_READ_WRITE_SYNCH, CB_START_OF_SIMULATION, CB_VALUE_CHANGE, VPI_MODULE, VPI_NET, VPI_REG,
};

fn logic(width: u32) -> LogicHandle {
    LogicHandle { h: ObjHandle { addr: 0x40 }, width }
}

#[test]
fn classify_caches_the_signal_width() {
    let h = ObjHandle { addr: 1 };
    match AnyHandle::classify(h, VPI_NET, 37) {
        AnyHandle::Logic(l) => {
            assert_eq!(l.size(), 37);
            assert_eq!(l.h, h);
        }
        _ => panic!("a net was not classified as a signal"),
    }
    match AnyHandle::classify(h, VPI_REG, -5) {
        AnyHandle::Logic(l) => assert_eq!(l.size(), 0),
        _ => panic!("a reg was not classified as a signal"),
    }
    assert!(matches!(AnyHandle::classify(h, VPI_MODULE, 0), AnyHandle::Hierarchy(m) if m.h == h));
    assert!(matches!(AnyHandle::classify(h, 7, 0), AnyHandle::Other(o, 7) if o == h));
}

#[test]
fn wrong_kind_errors_name_the_object() {
    let h = ObjHandle { addr: 2 };
    let module = AnyHandle::classify(h, VPI_MODULE, 0);
    let err = module.as_logic("top.u0".to_string()).unwrap_err();
    assert_eq!(
        err,
        HandleError::WrongKind { name: "top.u0".to_string(), expected: "signal", actual: "module".to_string() }
    );
    assert_eq!(err.message(), "'top.u0' is a module, expected signal");
    let other = AnyHandle::classify(h, -3, 0);
    let err = other.as_hierarchy("top.p".to_string()).unwrap_err();
    assert_eq!(err.message(), "'top.p' is a vpiType -3, expected module");
    let other = AnyHandle::classify(h, 41, 0);
    assert_eq!(
        other.as_logic("top.k".to_string()).unwrap_err().message(),
        "'top.k' is a vpiType 41, expected signal"
    );
    let sig = AnyHandle::classify(h, VPI_NET, 1);
    assert_eq!(sig.as_logic(String::new()), Ok(LogicHandle { h, width: 1 }));
    assert_eq!(
        sig.as_hierarchy("top.clk".to_string()).unwrap_err().message(),
        "'top.clk' is a signal, expected module"
    );
}

#[test]
fn child_lookup_and_top_module() {
    let top = HierarchyHandle::null_for_test();
    assert_eq!(top.h.addr, 0);
    let err = top.child("clk", None, "top".to_string()).unwrap_err();
    assert_eq!(err, HandleError::NotFound { name: "clk".to_string(), scope: "top".to_string() });
    assert_eq!(err.message(), "no object named 'clk' in scope 'top'");
    let found = AnyHandle::classify(ObjHandle { addr: 9 }, VPI_NET, 8);
    assert!(matches!(top.child("clk", Some(found), String::new()), Ok(AnyHandle::Logic(_))));
    assert_eq!(top_module(&[]), Err(HandleError::NoTopModule));
    assert_eq!(HandleError::NoTopModule.message(), "no top-level module found");
    let a = HierarchyHandle { h: ObjHandle { addr: 5 } };
    let b = HierarchyHandle { h: ObjHandle { addr: 6 } };
    assert_eq!(top_module(&[a, b]), Ok(a));
}

#[test]
fn value_error_messages() {
    assert_eq!(ValueError::FourState("1x0z".to_string()).message(), "value '1x0z' has x/z bits");
    assert_eq!(ValueError::Width { want: 65, have: 64 }.message(), "width mismatch: want 65, have 64");
}

#[test]
fn wide_signals_refuse_integer_reads() {
    assert_eq!(logic(65).u64_word_count(), Err(ValueError::Width { want: 65, have: 64 }));
    assert_eq!(logic(0).u64_word_count(), Ok(1));
    assert_eq!(logic(32).u64_word_count(), Ok(1));
    assert_eq!(logic(33).u64_word_count(), Ok(2));
    assert_eq!(logic(64).u64_word_count(), Ok(2));
}

#[test]
fn written_words_read_back_truncated_to_width() {
    for width in [1u32, 3, 8, 31, 32, 33, 48, 63, 64] {
        for v in [0u64, 1, 0xff, 0xdead_beef, 0x0123_4567_89ab_cdef, u64::MAX] {
            let words = logic(width).vector_words(v);
            let expected = if width == 64 { v } else { v & ((1u64 << width) - 1) };
            assert_eq!(assemble_u64(width, &words), Some(expected));
        }
    }
}

#[test]
fn vector_words_split_low_and_high() {
    let words = logic(100).vector_words(0x1111_2222_3333_4444);
    assert_eq!(words.len(), 4);
    assert_eq!(words[0], t_vpi_vecval { aval: 0x3333_4444, bval: 0 });
    assert_eq!(words[1], t_vpi_vecval { aval: 0x1111_2222, bval: 0 });
    assert_eq!(words[2], t_vpi_vecval::default());
    assert_eq!(words[3], t_vpi_vecval::default());
    assert_eq!(logic(0).vector_words(7).len(), 1);
}

#[test]
fn unknown_bits_refuse_integer_reads() {
    let words = [t_vpi_vecval { aval: 1, bval: 0 }, t_vpi_vecval { aval: 0, bval: 4 }];
    assert_eq!(assemble_u64(40, &words), None);
    assert_eq!(assemble_u64(32, &words), Some(1));
    assert_eq!(
        assemble_u64(12, &[t_vpi_vecval { aval: 0xffff_ffff, bval: 0 }]),
        Some(0xfff)
    );
}

#[test]
fn simulation_time_words_round_trip() {
    for steps in [0u64, 1, 0xffff_ffff, 0x1_0000_0000, u64::MAX, 0x0123_4567_89ab_cdef] {
        let t = simtime(steps);
        assert_eq!(t.high as u64, steps >> 32);
        assert_eq!(t.low as u64, steps & 0xffff_ffff);
        assert_eq!(sim_time_steps(t), steps);
    }
}

#[test]
fn registrations_carry_their_reasons() {
    let t = register_timer(0x2_0000_0005);
    assert_eq!(t.kind, CbKind::OneShot);
    assert_eq!(t.reason, CB_AFTER_DELAY);
    assert_eq!(t.time, CbTime::Sim(SimTime { high: 2, low: 5 }));
    let v = register_value_change(logic(1));
    assert_eq!((v.kind, v.reason, v.obj.addr), (CbKind::Recurring, CB_VALUE_CHANGE, 0x40));
    assert_eq!(v.time, CbTime::Sim(SimTime { high: 0, low: 0 }));
    assert_eq!(register_read_write().reason, CB_READ_WRITE_SYNCH);
    assert_eq!(register_read_only().reason, CB_READ_ONLY_SYNCH);
    assert_eq!(register_next_sim_time().time, CbTime::Suppress);
    assert_eq!(register_next_sim_time().reason, CB_NEXT_SIM_TIME);
    assert_eq!(register_start_of_simulation().reason, CB_START_OF_SIMULATION);
    assert_eq!(register_end_of_simulation().reason, CB_END_OF_SIMULATION);
}

#[test]
fn one_shot_reclaims_once() {
    let mut st = CallbackState::new(CbKind::OneShot);
    assert_eq!(st.on_fire(), FireAction::RunOnce);
    assert_eq!(st.on_fire(), FireAction::Ignore);
    assert!(!st.on_drop());
    let mut st = CallbackState::new(CbKind::OneShot);
    assert!(st.on_drop());
    assert_eq!(st.on_fire(), FireAction::Ignore);
    assert!(!st.on_drop());
}

#[test]
fn detached_handles_leave_cleanup_to_the_callback() {
    let mut st = CallbackState::new(CbKind::OneShot);
    st.forget();
    assert!(!st.on_drop());
    assert_eq!(st.on_fire(), FireAction::RunOnce);
    let mut st = CallbackState::new(CbKind::Recurring);
    assert_eq!(st.on_fire(), FireAction::RunAgain);
    assert_eq!(st.on_fire(), FireAction::RunAgain);
    assert!(st.on_drop());
    assert!(!st.on_drop());
}

#[test]
fn fired_one_shot_releases_its_vpi_handle() {
    // A one-shot timer registration: firing removes it and reclaims the
    // simulator-side reference; dropping the handle afterwards removes nothing.
    let request = register_timer(1);
    assert_eq!(request.kind, CbKind::OneShot);
    let mut state = CallbackState::new(request.kind);
    assert_eq!(state.on_fire(), FireAction::RunOnce);
    assert!(state.released);
    assert!(!state.on_drop());
}

#[test]
fn detached_one_shot_releases_shared_state_after_firing() {
    let mut state = CallbackState::new(register_timer(1).kind);
    state.forget();
    assert!(!state.released);
    assert_eq!(state.on_fire(), FireAction::RunOnce);
    assert!(state.released);
    assert!(!state.on_drop());
}

#[test]
fn signal_width_is_cached_when_the_handle_is_classified() {
    let AnyHandle::Logic(signal) = AnyHandle::classify(ObjHandle { addr: 1 }, VPI_NET, 37) else {
        panic!("stub object was not classified as a signal");
    };
    assert_eq!(signal.size(), 37);
    assert_eq!(signal.size(), 37);
}
