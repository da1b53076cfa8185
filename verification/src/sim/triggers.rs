//! Simulator-backed awaitables: `Timer`, edge triggers, `NullTrigger`.
//!
//! Each awaitable registers its simulator callback on its first poll; the
//! layer that owns the callbacks performs the registration it asks for and
//! tells it, on later polls, whether the callback has fired.

use vstd::prelude::*;
use crate::gpi::{self, CbRequest, LogicHandle, ValueError};

verus! {

/// A simulation time span in simulator precision steps.
#[derive(Copy, Clone, Debug, PartialEq, Eq, Structural)]
pub struct SimDuration {
    pub steps: u64,
}

impl SimDuration {
    /// A span of `steps` precision steps.
    pub fn steps(steps: u64) -> (r: SimDuration)
        ensures
            r.steps == steps,
    {
        SimDuration { steps }
    }
}

/// What the poll of a callback-backed awaitable concluded.
#[derive(Copy, Clone, Debug, PartialEq, Eq, Structural)]
pub enum TriggerPoll {
    /// First poll: register this callback and wait.
    Register(CbRequest),
    Ready,
    Pending,
}

/// One-shot timed trigger. Zero durations are rejected.
#[derive(Copy, Clone, Debug)]
pub struct Timer {
    steps: u64,
    registered: bool,
}

/// The abstract state of a [`Timer`].
pub struct TimerView {
    pub steps: u64,
    pub registered: bool,
}

impl View for Timer {
    type V = TimerView;

    closed spec fn view(&self) -> TimerView {
        TimerView { steps: self.steps, registered: self.registered }
    }
}

impl Timer {
    /// A timer of duration `d`, which must be positive.
    pub fn new(d: SimDuration) -> (r: Timer)
        requires
            d.steps > 0,
        ensures
            r@.steps == d.steps,
            !r@.registered,
    {
        Timer { steps: d.steps, registered: false }
    }

    /// A timer of `steps` precision steps, which must be positive.
    pub fn steps(steps: u64) -> (r: Timer)
        requires
            steps > 0,
        ensures
            r@.steps == steps,
            !r@.registered,
    {
        Self::new(SimDuration::steps(steps))
    }

    /// Poll the timer; `fired` tells whether its callback has fired.
    pub fn poll(&mut self, fired: bool) -> (r: TriggerPoll)
        ensures
            final(self)@.steps == old(self)@.steps,
            final(self)@.registered,
            !old(self)@.registered ==> r == TriggerPoll::Register(
                gpi::global_request(
                    gpi::CbKind::OneShot,
                    crate::gpi_sys::CB_AFTER_DELAY,
                    gpi::CbTime::Sim(
                        gpi::SimTime {
                            high: (old(self)@.steps >> 32u64) as u32,
                            low: (old(self)@.steps & 0xFFFF_FFFF) as u32,
                        },
                    ),
                ),
            ),
            old(self)@.registered ==> r == (if fired {
                TriggerPoll::Ready
            } else {
                TriggerPoll::Pending
            }),
    {
        if !self.registered {
            self.registered = true;
            TriggerPoll::Register(gpi::register_timer(self.steps))
        } else if fired {
            TriggerPoll::Ready
        } else {
            TriggerPoll::Pending
        }
    }
}

/// Which transitions an edge trigger waits for.
#[derive(Copy, Clone, Debug, PartialEq, Eq, Structural)]
pub enum EdgeKind {
    Rising,
    Falling,
    AnyChange,
}

/// Whether a value change matches the edge: any change does; a rising
/// (falling) edge needs a one-bit signal that now reads 1 (0).
pub open spec fn edge_hit(kind: EdgeKind, width: u32, reading: Result<u64, ValueError>) -> bool {
    match kind {
        EdgeKind::AnyChange => true,
        EdgeKind::Rising => width == 1 && (reading matches Ok(v) && v == 1),
        EdgeKind::Falling => width == 1 && (reading matches Ok(v) && v == 0),
    }
}

/// Edge trigger on a signal.
#[derive(Copy, Clone, Debug)]
pub struct Edge {
    sig: LogicHandle,
    kind: EdgeKind,
    registered: bool,
    fired: bool,
}

/// The abstract state of an [`Edge`].
pub struct EdgeView {
    pub sig: LogicHandle,
    pub kind: EdgeKind,
    pub registered: bool,
    pub fired: bool,
}

impl View for Edge {
    type V = EdgeView;

    closed spec fn view(&self) -> EdgeView {
        EdgeView { sig: self.sig, kind: self.kind, registered: self.registered, fired: self.fired }
    }
}

impl Edge {
    /// An unregistered, unfired edge trigger of `kind` on `sig`.
    pub fn new(sig: LogicHandle, kind: EdgeKind) -> (r: Edge)
        ensures
            r@.sig == sig,
            r@.kind == kind,
            !r@.registered,
            !r@.fired,
    {
        Edge { sig, kind, registered: false, fired: false }
    }

    /// The watched signal.
    pub fn signal(&self) -> (r: LogicHandle)
        ensures
            r == self@.sig,
    {
        self.sig
    }

    /// Poll the edge.
    pub fn poll(&mut self) -> (r: TriggerPoll)
        ensures
            final(self)@.sig == old(self)@.sig,
            final(self)@.kind == old(self)@.kind,
            final(self)@.fired == old(self)@.fired,
            final(self)@.registered,
            !old(self)@.registered ==> r == TriggerPoll::Register(
                CbRequest {
                    kind: gpi::CbKind::Recurring,
                    reason: crate::gpi_sys::CB_VALUE_CHANGE,
                    obj: old(self)@.sig.h,
                    time: gpi::time_zero(),
                },
            ),
            old(self)@.registered ==> r == (if old(self)@.fired {
                TriggerPoll::Ready
            } else {
                TriggerPoll::Pending
            }),
    {
        if !self.registered {
            self.registered = true;
            TriggerPoll::Register(gpi::register_value_change(self.sig))
        } else if self.fired {
            TriggerPoll::Ready
        } else {
            TriggerPoll::Pending
        }
    }

    /// Whether a change has to read the signal to decide: only an unfired
    /// rising or falling edge on a one-bit signal looks at the value.
    pub fn needs_reading(&self) -> (r: bool)
        ensures
            r == (!self@.fired && self@.kind != EdgeKind::AnyChange && self@.sig.width == 1),
    {
        !self.fired && match self.kind {
            EdgeKind::AnyChange => false,
            _ => self.sig.width == 1,
        }
    }

    /// The watched signal changed and now reads `reading`: whether this
    /// change fires the trigger (a trigger fires once; later changes are ignored).
    pub fn on_value_change(&mut self, reading: &Result<u64, ValueError>) -> (r: bool)
        ensures
            final(self)@.sig == old(self)@.sig,
            final(self)@.kind == old(self)@.kind,
            final(self)@.registered == old(self)@.registered,
            r == (!old(self)@.fired && edge_hit(old(self)@.kind, old(self)@.sig.width, *reading)),
            final(self)@.fired == (old(self)@.fired || r),
    {
        if self.fired {
            return false;
        }
        let hit = match self.kind {
            EdgeKind::AnyChange => true,
            EdgeKind::Rising => self.sig.width == 1 && match reading {
                Ok(v) => *v == 1,
                Err(_) => false,
            },
            EdgeKind::Falling => self.sig.width == 1 && match reading {
                Ok(v) => *v == 0,
                Err(_) => false,
            },
        };
        if hit {
            self.fired = true;
        }
        hit
    }
}

/// Yield once to the scheduler.
#[derive(Copy, Clone, Debug, PartialEq, Eq, Structural)]
pub struct NullTrigger {
    pub yielded: bool,
}

impl NullTrigger {
    /// A trigger that has not yielded yet.
    pub fn new() -> (r: NullTrigger)
        ensures
            !r.yielded,
    {
        NullTrigger { yielded: false }
    }

    /// Poll: pending (asking to be woken again at once) the first time, ready after.
    pub fn poll(&mut self) -> (ready: bool)
        ensures
            ready == old(self).yielded,
            final(self).yielded,
    {
        if self.yielded {
            true
        } else {
            self.yielded = true;
            false
        }
    }
}

} // verus!
