use rustdv::gpi::{self, AnyHandle as RawAny, ObjHandle, Scanned, ValueError};
use rustdv::gpi_sys::{CB_AFTER_DELAY, CB_VALUE_CHANGE, VPI_MODULE, VPI_NET};
use rustdv::sim::handle::{top_module, AnyHandle, HierarchyHandle, LogicHandle};
use rustdv::sim::phase::{
    is_await_legal, next_time_step, read_only, read_write, Hub, PhaseKind, PhasePoll, Scheduled,
    SimPhase, WriteVal,
};
use rustdv::sim::triggers::{EdgeKind, NullTrigger, SimDuration, Timer, TriggerPoll};

fn sig(addr: usize, width: u32) -> LogicHandle {
    LogicHandle { raw: gpi::LogicHandle { h: ObjHandle { addr }, width } }
}

#[test]
fn typed_handles_wrap_classified_objects() {
    let top = HierarchyHandle::null_for_test();
    let raw = vec![
        RawAny::classify(ObjHandle { addr: 1 }, VPI_MODULE, 0),
        RawAny::classify(ObjHandle { addr: 2 }, VPI_NET, 4),
        RawAny::classify(ObjHandle { addr: 3 }, 7, 0),
    ];
    let modules = [Scanned { h: ObjHandle { addr: 1 }, type_code: VPI_MODULE, size: 0 }];
    let nets = [Scanned { h: ObjHandle { addr: 2 }, type_code: VPI_NET, size: 4 }];
    let regs = [Scanned { h: ObjHandle { addr: 3 }, type_code: 7, size: 0 }];
    let kids = top.children(&modules, &nets, &regs);
    assert_eq!(kids.len(), 3);
    assert!(kids[0].as_hierarchy().is_some());
    assert!(kids[1].as_logic().map(|l| l.size()) == Some(4));
    assert!(matches!(kids[2], AnyHandle::Other));
    assert!(kids[2].as_logic().is_none());
    let reordered = top.children(&[], &nets, &modules);
    assert_eq!(reordered.len(), 2);
    assert!(reordered[0].as_logic().is_some());
    assert!(reordered[1].as_hierarchy().is_some());
    assert!(top.children(&[], &[], &[]).is_empty());
    let s = top.signal("d", Some(raw[1]), "top".to_string(), "top.d".to_string()).unwrap();
    assert_eq!(s.size(), 4);
    let e = top.signal("u", Some(raw[0]), "top".to_string(), "top.u".to_string()).unwrap_err();
    assert_eq!(e.message(), "'top.u' is a module, expected signal");
    assert!(top_module(&[]).is_err());
}

#[test]
fn levels_need_a_one_bit_signal() {
    let clk = sig(1, 1);
    let bus = sig(2, 8);
    assert!(clk.is_high(&Ok(1)));
    assert!(!clk.is_high(&Ok(0)));
    assert!(clk.is_low(&Ok(0)));
    assert!(!bus.is_high(&Ok(1)));
    assert!(!clk.is_low(&Err(ValueError::FourState("x".to_string()))));
}

#[test]
fn scheduled_writes_last_write_wins_in_order() {
    let mut hub = Hub::new();
    let a = sig(1, 8);
    let b = sig(2, 8);
    assert!(matches!(a.set_u64(&mut hub, 1), Scheduled::Buffered { arm: true }));
    assert!(matches!(b.set_u64(&mut hub, 2), Scheduled::Buffered { arm: false }));
    assert!(matches!(a.set(&mut hub, "1010".to_string()), Scheduled::Buffered { arm: false }));
    let writes = hub.fire_read_write();
    assert_eq!(hub.current_phase(), SimPhase::ReadWrite);
    assert_eq!(
        writes,
        vec![(a.raw, WriteVal::Bits("1010".to_string())), (b.raw, WriteVal::U64(2))]
    );
    assert!(matches!(a.set_u64(&mut hub, 5), Scheduled::ApplyNow(WriteVal::U64(5))));
    hub.settle();
    assert_eq!(hub.current_phase(), SimPhase::Normal);
    assert!(matches!(a.set_u64(&mut hub, 6), Scheduled::Buffered { arm: true }));
}

#[test]
fn immediate_writes_produce_vector_words() {
    let hub = Hub::new();
    let words = sig(1, 40).set_u64_now(&hub, 0x12_3456_789a);
    assert_eq!(words.len(), 2);
    assert_eq!(words[0].aval, 0x3456_789a);
    assert_eq!(words[1].aval, 0x12);
}

#[test]
fn phase_awaitables_register_once() {
    let mut hub = Hub::new();
    let mut f = read_only();
    let mut g = read_only();
    assert_eq!(hub.poll(&mut f, false), PhasePoll::Pending { arm: true });
    assert_eq!(hub.poll(&mut g, false), PhasePoll::Pending { arm: false });
    assert_eq!(hub.poll(&mut f, false), PhasePoll::Pending { arm: false });
    hub.fire_read_only();
    assert_eq!(hub.current_phase(), SimPhase::ReadOnly);
    assert!(hub.leave_read_only().is_some());
    assert_eq!(hub.poll(&mut f, true), PhasePoll::Ready);
    let mut n = next_time_step();
    assert_eq!(hub.poll(&mut n, false), PhasePoll::Pending { arm: true });
    hub.settle();
    assert!(hub.leave_read_only().is_none());
    let mut w = read_write();
    assert_eq!(w.kind, PhaseKind::ReadWrite);
    assert_eq!(hub.poll(&mut w, false), PhasePoll::Pending { arm: true });
    hub.fire_next_time_step();
    let mut n2 = next_time_step();
    assert_eq!(hub.poll(&mut n2, false), PhasePoll::Pending { arm: true });
}

#[test]
fn timer_registers_its_delay_then_waits() {
    let mut t = Timer::new(SimDuration::steps(10));
    match t.poll(false) {
        TriggerPoll::Register(req) => {
            assert_eq!(req.reason, CB_AFTER_DELAY);
            assert_eq!(gpi::sim_time_steps(match req.time {
                gpi::CbTime::Sim(s) => s,
                gpi::CbTime::Suppress => panic!("a timer needs a time"),
            }), 10);
        }
        other => panic!("first poll did not register: {other:?}"),
    }
    assert_eq!(t.poll(false), TriggerPoll::Pending);
    assert_eq!(t.poll(true), TriggerPoll::Ready);
    let mut one = Timer::steps(1);
    assert!(matches!(one.poll(false), TriggerPoll::Register(_)));
}

#[test]
fn edges_fire_on_their_transition_once() {
    let clk = sig(3, 1);
    let mut rise = clk.rising_edge();
    match rise.poll() {
        TriggerPoll::Register(req) => {
            assert_eq!(req.reason, CB_VALUE_CHANGE);
            assert_eq!(req.obj.addr, 3);
        }
        other => panic!("first poll did not register: {other:?}"),
    }
    assert!(!rise.on_value_change(&Ok(0)));
    assert_eq!(rise.poll(), TriggerPoll::Pending);
    assert!(rise.on_value_change(&Ok(1)));
    assert!(!rise.on_value_change(&Ok(1)));
    assert_eq!(rise.poll(), TriggerPoll::Ready);
    let mut fall = clk.falling_edge();
    assert!(!fall.on_value_change(&Ok(1)));
    assert!(fall.on_value_change(&Ok(0)));
    let mut any = sig(4, 8).value_change();
    assert!(any.on_value_change(&Err(ValueError::FourState("x".to_string()))));
    let mut wide = sig(4, 8).rising_edge();
    assert!(!wide.on_value_change(&Ok(1)));
    let _ = EdgeKind::AnyChange;
}

#[test]
fn null_trigger_yields_exactly_once() {
    let mut n = NullTrigger::new();
    assert!(!n.poll());
    assert!(n.poll());
    assert!(n.poll());
}

#[test]
fn writes_before_read_write_coalesce_per_signal() {
    let mut hub = Hub::new();
    let a = sig(1, 8);
    let b = sig(2, 8);
    assert!(matches!(a.set_u64(&mut hub, 1), Scheduled::Buffered { arm: true }));
    assert!(matches!(b.set_u64(&mut hub, 2), Scheduled::Buffered { arm: false }));
    assert!(matches!(a.set_u64(&mut hub, 3), Scheduled::Buffered { arm: false }));
    assert_eq!(hub.current_phase(), SimPhase::Normal);
    let writes = hub.fire_read_write();
    assert_eq!(writes, vec![(a.raw, WriteVal::U64(3)), (b.raw, WriteVal::U64(2))]);
    assert!(hub.fire_read_write().is_empty());
}

#[test]
fn phase_follows_each_callback() {
    let mut hub = Hub::new();
    assert_eq!(hub.current_phase(), SimPhase::Normal);
    let mut w = read_write();
    hub.poll(&mut w, false);
    sig(1, 1).set_u64(&mut hub, 1);
    assert_eq!(hub.current_phase(), SimPhase::Normal);
    hub.fire_read_write();
    assert_eq!(hub.current_phase(), SimPhase::ReadWrite);
    hub.poll(&mut w, true);
    sig(1, 1).set_u64(&mut hub, 0);
    assert_eq!(hub.current_phase(), SimPhase::ReadWrite);
    hub.settle();
    assert_eq!(hub.current_phase(), SimPhase::Normal);
    hub.fire_read_only();
    assert_eq!(hub.current_phase(), SimPhase::ReadOnly);
    hub.fire_next_time_step();
    assert_eq!(hub.current_phase(), SimPhase::ReadOnly);
    hub.settle();
    assert_eq!(hub.current_phase(), SimPhase::Normal);
}

#[test]
fn awaiting_from_read_only_is_illegal_except_the_next_step() {
    for kind in [PhaseKind::ReadWrite, PhaseKind::ReadOnly, PhaseKind::NextTimeStep] {
        assert!(is_await_legal(kind, SimPhase::Normal));
        assert!(is_await_legal(kind, SimPhase::ReadWrite));
    }
    assert!(!is_await_legal(PhaseKind::ReadWrite, SimPhase::ReadOnly));
    assert!(!is_await_legal(PhaseKind::ReadOnly, SimPhase::ReadOnly));
    assert!(is_await_legal(PhaseKind::NextTimeStep, SimPhase::ReadOnly));
}

#[test]
fn edges_read_the_signal_only_when_the_value_decides() {
    let clk = sig(3, 1);
    let bus = sig(4, 8);
    assert!(clk.rising_edge().needs_reading());
    assert!(clk.falling_edge().needs_reading());
    assert!(!clk.value_change().needs_reading());
    assert!(!bus.rising_edge().needs_reading());
    let mut rise = clk.rising_edge();
    rise.poll();
    assert!(rise.on_value_change(&Ok(1)));
    assert!(!rise.needs_reading());
}
