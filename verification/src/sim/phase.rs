//! Phase triggers (ReadOnly / ReadWrite / NextTimeStep) and the scheduled
//! write buffer.
//!
//! One hub per simulation coordinates them: writes via `set()` are buffered
//! and handed out at the start of the next ReadWrite phase, before ReadWrite
//! waiters are woken. Writing, or awaiting ReadWrite or ReadOnly, from the
//! ReadOnly phase is illegal.

use vstd::prelude::*;
use crate::gpi::LogicHandle;
use crate::sim::triggers::Timer;

verus! {

/// The region of the simulation time step the simulator is in.
#[derive(Copy, Clone, Debug, PartialEq, Eq, Structural)]
pub enum SimPhase {
    Normal,
    ReadWrite,
    ReadOnly,
}

/// The phase a [`PhaseFut`] waits for.
#[derive(Copy, Clone, Debug, PartialEq, Eq, Structural)]
pub enum PhaseKind {
    ReadWrite,
    ReadOnly,
    NextTimeStep,
}

/// A value to write to a signal: an integer, or a four-state binary string.
#[derive(Clone, Debug, PartialEq, Eq)]
pub enum WriteVal {
    U64(u64),
    Bits(String),
}

/// The coordinator of phases and scheduled writes.
pub struct Hub {
    phase: SimPhase,
    rw_armed: bool,
    ro_armed: bool,
    nt_armed: bool,
    writes: Vec<(LogicHandle, WriteVal)>,
}

/// The abstract state of a [`Hub`].
#[verifier::ext_equal]
pub struct HubView {
    pub phase: SimPhase,
    /// A ReadWrite callback is registered and has not fired.
    pub rw_armed: bool,
    /// A ReadOnly callback is registered and has not fired.
    pub ro_armed: bool,
    /// A next-time-step callback is registered and has not fired.
    pub nt_armed: bool,
    /// Buffered writes, in the order their signals were first written.
    pub writes: Seq<(LogicHandle, WriteVal)>,
}

impl View for Hub {
    type V = HubView;

    closed spec fn view(&self) -> HubView {
        HubView {
            phase: self.phase,
            rw_armed: self.rw_armed,
            ro_armed: self.ro_armed,
            nt_armed: self.nt_armed,
            writes: self.writes@,
        }
    }
}

/// No signal appears twice among the buffered writes.
pub open spec fn distinct_handles(w: Seq<(LogicHandle, WriteVal)>) -> bool {
    forall|i: int, j: int| 0 <= i < j < w.len() ==> w[i].0 != w[j].0
}

/// The position of the buffered write to `h`, if there is one.
pub open spec fn slot_of(w: Seq<(LogicHandle, WriteVal)>, h: LogicHandle) -> Option<int> {
    if exists|i: int| 0 <= i < w.len() && w[i].0 == h {
        Some(choose|i: int| 0 <= i < w.len() && w[i].0 == h)
    } else {
        None
    }
}

/// The buffer after writing `v` to `h`: the last write wins, in the slot of
/// the first write to `h`; a new signal goes to the end.
pub open spec fn upsert(w: Seq<(LogicHandle, WriteVal)>, h: LogicHandle, v: WriteVal) -> Seq<
    (LogicHandle, WriteVal),
> {
    match slot_of(w, h) {
        Some(i) => w.update(i, (h, v)),
        None => w.push((h, v)),
    }
}

/// What happens to a write scheduled now.
#[derive(Debug)]
pub enum Scheduled {
    /// In the ReadWrite phase: apply it to the simulator at once.
    ApplyNow(WriteVal),
    /// Buffered for the next ReadWrite phase; `arm` asks for the ReadWrite
    /// callback to be registered (none is pending yet).
    Buffered { arm: bool },
}

/// What the poll of a phase awaitable concluded.
#[derive(Copy, Clone, Debug, PartialEq, Eq, Structural)]
pub enum PhasePoll {
    Ready,
    /// Not yet; `arm` asks for the phase's callback to be registered.
    Pending { arm: bool },
}

/// An awaitable phase, registered with the hub on its first poll.
#[derive(Copy, Clone, Debug, PartialEq, Eq, Structural)]
pub struct PhaseFut {
    pub kind: PhaseKind,
    pub registered: bool,
}

/// Await the next ReadWrite phase.
pub fn read_write() -> (r: PhaseFut)
    ensures
        r == (PhaseFut { kind: PhaseKind::ReadWrite, registered: false }),
{
    PhaseFut { kind: PhaseKind::ReadWrite, registered: false }
}

/// Await the next ReadOnly phase.
pub fn read_only() -> (r: PhaseFut)
    ensures
        r == (PhaseFut { kind: PhaseKind::ReadOnly, registered: false }),
{
    PhaseFut { kind: PhaseKind::ReadOnly, registered: false }
}

/// Await the next simulator time step.
pub fn next_time_step() -> (r: PhaseFut)
    ensures
        r == (PhaseFut { kind: PhaseKind::NextTimeStep, registered: false }),
{
    PhaseFut { kind: PhaseKind::NextTimeStep, registered: false }
}

/// Whether the hub has the callback for phase `k` pending.
pub open spec fn armed(v: HubView, k: PhaseKind) -> bool {
    match k {
        PhaseKind::ReadWrite => v.rw_armed,
        PhaseKind::ReadOnly => v.ro_armed,
        PhaseKind::NextTimeStep => v.nt_armed,
    }
}

/// Awaiting phase `k` is legal in phase `p`: ReadWrite and ReadOnly may not
/// be awaited from ReadOnly.
pub open spec fn await_legal(k: PhaseKind, p: SimPhase) -> bool {
    k == PhaseKind::NextTimeStep || p != SimPhase::ReadOnly
}

/// Awaiting phase `k` is legal in phase `p` (see [`await_legal`]).
pub fn is_await_legal(k: PhaseKind, p: SimPhase) -> (r: bool)
    ensures
        r == await_legal(k, p),
{
    match k {
        PhaseKind::NextTimeStep => true,
        _ => match p {
            SimPhase::ReadOnly => false,
            _ => true,
        },
    }
}

/// What the simulation does to the hub between and inside phase callbacks.
pub enum HubOp {
    /// A write scheduled to a signal.
    Schedule(LogicHandle, WriteVal),
    /// A first poll of an awaitable, which registers its phase.
    Register(PhaseKind),
    /// The next-time-step callback fired.
    NextTimeStepFired,
}

/// The hub after `op`.
pub open spec fn hub_after(v: HubView, op: HubOp) -> HubView {
    match op {
        HubOp::Schedule(h, w) => if v.phase == SimPhase::ReadWrite {
            v
        } else {
            HubView { writes: upsert(v.writes, h, w), rw_armed: true, ..v }
        },
        HubOp::Register(k) => match k {
            PhaseKind::ReadWrite => HubView { rw_armed: true, ..v },
            PhaseKind::ReadOnly => HubView { ro_armed: true, ..v },
            PhaseKind::NextTimeStep => HubView { nt_armed: true, ..v },
        },
        HubOp::NextTimeStepFired => HubView { nt_armed: false, ..v },
    }
}

/// The hub after the operations `ops`, in order.
pub open spec fn hub_after_all(v: HubView, ops: Seq<HubOp>) -> HubView
    decreases ops.len(),
{
    if ops.len() == 0 {
        v
    } else {
        hub_after(hub_after_all(v, ops.drop_last()), ops.last())
    }
}

/// The hub when the ReadWrite callback fires: in ReadWrite, that callback
/// no longer pending, the buffer handed out.
pub open spec fn read_write_fired(v: HubView) -> HubView {
    HubView {
        phase: SimPhase::ReadWrite,
        rw_armed: false,
        writes: Seq::<(LogicHandle, WriteVal)>::empty(),
        ..v
    }
}

/// The hub when the ReadOnly callback fires.
pub open spec fn read_only_fired(v: HubView) -> HubView {
    HubView { phase: SimPhase::ReadOnly, ro_armed: false, ..v }
}

/// The hub when a phase callback returns.
pub open spec fn settled(v: HubView) -> HubView {
    HubView { phase: SimPhase::Normal, ..v }
}

impl Hub {
    /// Well-formed: the buffer names each signal once.
    pub open spec fn wf(&self) -> bool {
        distinct_handles(self@.writes)
    }

    /// A fresh hub: Normal phase, no callback pending, nothing buffered.
    pub fn new() -> (r: Hub)
        ensures
            r.wf(),
            r@.phase == SimPhase::Normal,
            !r@.rw_armed && !r@.ro_armed && !r@.nt_armed,
            r@.writes == Seq::<(LogicHandle, WriteVal)>::empty(),
    {
        Hub { phase: SimPhase::Normal, rw_armed: false, ro_armed: false, nt_armed: false, writes: Vec::new() }
    }

    /// The phase the simulation is in.
    pub fn current_phase(&self) -> (r: SimPhase)
        ensures
            r == self@.phase,
    {
        self.phase
    }

    /// Schedule write `v` to `h`. Writing during ReadOnly is illegal.
    pub fn schedule(&mut self, h: LogicHandle, v: WriteVal) -> (r: Scheduled)
        requires
            old(self).wf(),
            old(self)@.phase != SimPhase::ReadOnly,
        ensures
            final(self).wf(),
            final(self)@.phase == old(self)@.phase,
            final(self)@.ro_armed == old(self)@.ro_armed,
            final(self)@.nt_armed == old(self)@.nt_armed,
            old(self)@.phase == SimPhase::ReadWrite ==> r == Scheduled::ApplyNow(v)
                && final(self)@.writes == old(self)@.writes && final(self)@.rw_armed == old(
                self,
            )@.rw_armed,
            old(self)@.phase == SimPhase::Normal ==> (r == (Scheduled::Buffered {
                arm: !old(self)@.rw_armed,
            }) && final(self)@.writes == upsert(old(self)@.writes, h, v) && final(self)@.rw_armed),
            final(self)@ == hub_after(old(self)@, HubOp::Schedule(h, v)),
    {
        match self.phase {
            SimPhase::ReadWrite => Scheduled::ApplyNow(v),
            _ => {
                let ghost w = self.writes@;
                let mut i: usize = 0;
                let n = self.writes.len();
                while i < n
                    invariant
                        n == self.writes@.len(),
                        self.writes@ == w,
                        i <= n,
                        forall|j: int| 0 <= j < i ==> w[j].0 != h,
                    ensures
                        i <= n,
                        forall|j: int| 0 <= j < i ==> w[j].0 != h,
                        i < n ==> w[i as int].0 == h,
                    decreases n - i,
                {
                    if self.writes[i].0 == h {
                        break;
                    }
                    i = i + 1;
                }
                if i < n {
                    proof {
                        assert(w[i as int].0 == h);
                        let k = choose|k: int| 0 <= k < w.len() && w[k].0 == h;
                        assert(distinct_handles(w));
                        assert(k == i);
                    }
                    self.writes.set(i, (h, v));
                    proof {
                        assert(distinct_handles(self.writes@)) by {
                            assert forall|a: int, b: int|
                                0 <= a < b < self.writes@.len() implies self.writes@[a].0
                                != self.writes@[b].0 by {
                                if a != i && b != i {
                                    assert(self.writes@[a] == w[a]);
                                    assert(self.writes@[b] == w[b]);
                                }
                            }
                        }
                    }
                } else {
                    proof {
                        assert(slot_of(w, h) is None);
                    }
                    self.writes.push((h, v));
                }
                let arm = !self.rw_armed;
                self.rw_armed = true;
                Scheduled::Buffered { arm }
            },
        }
    }

    /// Poll awaitable `fut`; `fired` tells whether the phase it registered
    /// for has arrived. The first poll registers it, which is illegal for
    /// ReadWrite and ReadOnly while in ReadOnly.
    pub fn poll(&mut self, fut: &mut PhaseFut, fired: bool) -> (r: PhasePoll)
        requires
            !old(fut).registered ==> await_legal(old(fut).kind, old(self)@.phase),
        ensures
            final(fut).kind == old(fut).kind,
            final(fut).registered,
            final(self)@.phase == old(self)@.phase,
            final(self)@.writes == old(self)@.writes,
            old(fut).registered ==> (r == (if fired {
                PhasePoll::Ready
            } else {
                (PhasePoll::Pending { arm: false })
            }) && final(self)@ == old(self)@),
            !old(fut).registered ==> (r == (PhasePoll::Pending {
                arm: !armed(old(self)@, old(fut).kind),
            }) && armed(final(self)@, old(fut).kind) && (forall|k: PhaseKind|
                k != old(fut).kind ==> armed(final(self)@, k) == armed(old(self)@, k))),
            !old(fut).registered ==> final(self)@ == hub_after(
                old(self)@,
                HubOp::Register(old(fut).kind),
            ),
    {
        if fut.registered {
            if fired {
                PhasePoll::Ready
            } else {
                PhasePoll::Pending { arm: false }
            }
        } else {
            fut.registered = true;
            let arm = match fut.kind {
                PhaseKind::ReadWrite => {
                    let a = !self.rw_armed;
                    self.rw_armed = true;
                    a
                },
                PhaseKind::ReadOnly => {
                    let a = !self.ro_armed;
                    self.ro_armed = true;
                    a
                },
                PhaseKind::NextTimeStep => {
                    let a = !self.nt_armed;
                    self.nt_armed = true;
                    a
                },
            };
            PhasePoll::Pending { arm }
        }
    }

    /// The ReadWrite callback fired: enter ReadWrite and hand out the
    /// buffered writes, in order, to be applied before any waiter runs.
    pub fn fire_read_write(&mut self) -> (r: Vec<(LogicHandle, WriteVal)>)
        requires
            old(self).wf(),
        ensures
            final(self).wf(),
            r@ == old(self)@.writes,
            final(self)@.writes == Seq::<(LogicHandle, WriteVal)>::empty(),
            final(self)@.phase == SimPhase::ReadWrite,
            !final(self)@.rw_armed,
            final(self)@.ro_armed == old(self)@.ro_armed,
            final(self)@.nt_armed == old(self)@.nt_armed,
            final(self)@ == read_write_fired(old(self)@),
    {
        self.rw_armed = false;
        self.phase = SimPhase::ReadWrite;
        let mut taken: Vec<(LogicHandle, WriteVal)> = Vec::new();
        std::mem::swap(&mut taken, &mut self.writes);
        taken
    }

    /// The ReadOnly callback fired: enter ReadOnly.
    pub fn fire_read_only(&mut self)
        ensures
            final(self)@.phase == SimPhase::ReadOnly,
            !final(self)@.ro_armed,
            final(self)@.rw_armed == old(self)@.rw_armed,
            final(self)@.nt_armed == old(self)@.nt_armed,
            final(self)@.writes == old(self)@.writes,
            final(self)@ == read_only_fired(old(self)@),
    {
        self.ro_armed = false;
        self.phase = SimPhase::ReadOnly;
    }

    /// The next-time-step callback fired.
    pub fn fire_next_time_step(&mut self)
        ensures
            !final(self)@.nt_armed,
            final(self)@.phase == old(self)@.phase,
            final(self)@.rw_armed == old(self)@.rw_armed,
            final(self)@.ro_armed == old(self)@.ro_armed,
            final(self)@.writes == old(self)@.writes,
            final(self)@ == hub_after(old(self)@, HubOp::NextTimeStepFired),
    {
        self.nt_armed = false;
    }

    /// The callback of a ReadWrite or ReadOnly phase ran everything it woke:
    /// back to Normal.
    pub fn settle(&mut self)
        ensures
            final(self)@.phase == SimPhase::Normal,
            final(self)@.rw_armed == old(self)@.rw_armed,
            final(self)@.ro_armed == old(self)@.ro_armed,
            final(self)@.nt_armed == old(self)@.nt_armed,
            final(self)@.writes == old(self)@.writes,
            final(self)@ == settled(old(self)@),
    {
        self.phase = SimPhase::Normal;
    }

    /// The wait that returns to a region where writing is legal: one
    /// precision step when in ReadOnly, nothing otherwise.
    pub fn leave_read_only(&self) -> (r: Option<Timer>)
        ensures
            self@.phase == SimPhase::ReadOnly ==> (r matches Some(t) && t@.steps == 1 && !t@.registered),
            self@.phase != SimPhase::ReadOnly ==> r is None,
    {
        if self.phase == SimPhase::ReadOnly {
            Some(Timer::steps(1))
        } else {
            None
        }
    }
}

/// Last write wins: after a write, the buffer holds the new value for its
/// signal in the slot of the first write (or at the end), every other
/// signal keeps its slot and value, and no signal appears twice.
pub proof fn lemma_last_write_wins(
    w: Seq<(LogicHandle, WriteVal)>,
    h: LogicHandle,
    v: WriteVal,
    other: LogicHandle,
)
    requires
        distinct_handles(w),
        other != h,
    ensures
        distinct_handles(upsert(w, h, v)),
        slot_of(upsert(w, h, v), h) matches Some(i) && upsert(w, h, v)[i].1 == v,
        slot_of(w, h) matches Some(i) ==> slot_of(upsert(w, h, v), h) == Some(i),
        slot_of(w, h) is None ==> upsert(w, h, v).len() == w.len() + 1,
        slot_of(upsert(w, h, v), other) == slot_of(w, other),
        slot_of(w, other) matches Some(j) ==> upsert(w, h, v)[j] == w[j],
{
    let u = upsert(w, h, v);
    match slot_of(w, h) {
        Some(i) => {
            assert(u[i].0 == h);
            assert forall|a: int, b: int| 0 <= a < b < u.len() implies u[a].0 != u[b].0 by {
                if a != i && b != i {
                    assert(u[a] == w[a] && u[b] == w[b]);
                }
            }
            assert(slot_of(u, h) == Some(i)) by {
                let k = choose|k: int| 0 <= k < u.len() && u[k].0 == h;
                assert(k == i);
            }
            if exists|j: int| 0 <= j < w.len() && w[j].0 == other {
                let j = choose|j: int| 0 <= j < w.len() && w[j].0 == other;
                assert(j != i);
                assert(u[j] == w[j]);
                let k = choose|k: int| 0 <= k < u.len() && u[k].0 == other;
                assert(k != i);
                assert(u[k] == w[k]);
            } else {
                assert forall|k: int| 0 <= k < u.len() implies u[k].0 != other by {
                    if k != i {
                        assert(u[k] == w[k]);
                    }
                }
            }
        },
        None => {
            let n = w.len() as int;
            assert(u[n].0 == h);
            assert forall|a: int, b: int| 0 <= a < b < u.len() implies u[a].0 != u[b].0 by {
                if b < n {
                    assert(u[a] == w[a] && u[b] == w[b]);
                } else {
                    assert(u[a] == w[a]);
                }
            }
            assert(slot_of(u, h) == Some(n)) by {
                let k = choose|k: int| 0 <= k < u.len() && u[k].0 == h;
                if k < n {
                    assert(u[k] == w[k]);
                }
                assert(k == n);
            }
            if exists|j: int| 0 <= j < w.len() && w[j].0 == other {
                let j = choose|j: int| 0 <= j < w.len() && w[j].0 == other;
                assert(u[j] == w[j]);
                let k = choose|k: int| 0 <= k < u.len() && u[k].0 == other;
                assert(k != n);
                assert(u[k] == w[k]);
            } else {
                assert forall|k: int| 0 <= k < u.len() implies u[k].0 != other by {
                    if k != n {
                        assert(u[k] == w[k]);
                    }
                }
            }
        },
    }
}

/// No operation between or inside callbacks changes the phase.
proof fn lemma_ops_keep_phase(v: HubView, ops: Seq<HubOp>)
    ensures
        hub_after_all(v, ops).phase == v.phase,
    decreases ops.len(),
{
    if ops.len() > 0 {
        lemma_ops_keep_phase(v, ops.drop_last());
    }
}

/// The phase follows the callbacks: outside them the hub stays Normal
/// whatever is scheduled, registered or stepped; it is ReadWrite while a
/// ReadWrite callback drains, ReadOnly while a ReadOnly callback drains, and
/// Normal again once either returns.
pub proof fn lemma_phase_follows_callbacks(v: HubView, ops: Seq<HubOp>)
    requires
        v.phase == SimPhase::Normal,
    ensures
        forall|n: int|
            0 <= n <= ops.len() ==> #[trigger] hub_after_all(v, ops.take(n)).phase
                == SimPhase::Normal,
        forall|n: int|
            0 <= n <= ops.len() ==> #[trigger] hub_after_all(read_write_fired(v), ops.take(n)).phase
                == SimPhase::ReadWrite,
        forall|n: int|
            0 <= n <= ops.len() ==> #[trigger] hub_after_all(read_only_fired(v), ops.take(n)).phase
                == SimPhase::ReadOnly,
        settled(hub_after_all(read_write_fired(v), ops)).phase == SimPhase::Normal,
        settled(hub_after_all(read_only_fired(v), ops)).phase == SimPhase::Normal,
{
    assert forall|n: int| 0 <= n <= ops.len() implies {
        &&& hub_after_all(v, ops.take(n)).phase == SimPhase::Normal
        &&& hub_after_all(read_write_fired(v), ops.take(n)).phase == SimPhase::ReadWrite
        &&& hub_after_all(read_only_fired(v), ops.take(n)).phase == SimPhase::ReadOnly
    } by {
        lemma_ops_keep_phase(v, ops.take(n));
        lemma_ops_keep_phase(read_write_fired(v), ops.take(n));
        lemma_ops_keep_phase(read_only_fired(v), ops.take(n));
    }
}

/// Writes made before a ReadWrite phase coalesce: from Normal with nothing
/// buffered, writing 1 to `a`, 2 to `b` and 3 to `a` leaves one write per
/// signal, each signal's last value, in the order of the first writes:
/// `[a := 3, b := 2]`. Only the first write asks for the ReadWrite callback,
/// so one callback serves all three, and once it fires a further write is
/// applied at once rather than buffered.
pub proof fn lemma_writes_coalesce(v: HubView, a: LogicHandle, b: LogicHandle)
    requires
        v.phase == SimPhase::Normal,
        v.writes.len() == 0,
        !v.rw_armed,
        a != b,
    ensures
        ({
            let ops = seq![
                HubOp::Schedule(a, WriteVal::U64(1)),
                HubOp::Schedule(b, WriteVal::U64(2)),
                HubOp::Schedule(a, WriteVal::U64(3)),
            ];
            let after = hub_after_all(v, ops);
            &&& hub_after_all(v, ops.take(1)).rw_armed
            &&& hub_after_all(v, ops.take(2)).rw_armed
            &&& after.rw_armed
            &&& after.phase == SimPhase::Normal
            &&& after.writes == seq![(a, WriteVal::U64(3)), (b, WriteVal::U64(2))]
            &&& forall|h: LogicHandle, w: WriteVal|
                #[trigger] hub_after(read_write_fired(after), HubOp::Schedule(h, w))
                    == read_write_fired(after)
        }),
{
    let ops = seq![
        HubOp::Schedule(a, WriteVal::U64(1)),
        HubOp::Schedule(b, WriteVal::U64(2)),
        HubOp::Schedule(a, WriteVal::U64(3)),
    ];
    assert(ops.take(1).drop_last() =~= ops.take(0));
    assert(ops.take(2).drop_last() =~= ops.take(1));
    assert(ops.drop_last() =~= ops.take(2));
    assert(ops.take(0).len() == 0);
    let v0 = hub_after_all(v, ops.take(0));
    assert(v0 == v);
    let v1 = hub_after_all(v, ops.take(1));
    assert(slot_of(v.writes, a) is None);
    let w1 = seq![(a, WriteVal::U64(1))];
    assert(v1.writes =~= w1);
    let v2 = hub_after_all(v, ops.take(2));
    assert(slot_of(w1, b) is None) by {
        assert(w1[0].0 != b);
    }
    let w2 = seq![(a, WriteVal::U64(1)), (b, WriteVal::U64(2))];
    assert(v2.writes =~= w2);
    assert(slot_of(w2, a) == Some(0int)) by {
        assert(w2[0].0 == a);
        let k = choose|k: int| 0 <= k < w2.len() && w2[k].0 == a;
        assert(k == 0);
    }
    let after = hub_after_all(v, ops);
    assert(after.writes =~= seq![(a, WriteVal::U64(3)), (b, WriteVal::U64(2))]);
}

} // verus!
