//! Typed design handles: scheduled writes, immediate writes, edge triggers.
//! `set()` is buffered and applied at the next ReadWrite phase; `set_now()`
//! is the immediate variant, still illegal during ReadOnly.

use vstd::prelude::*;
use crate::gpi;
use crate::gpi::{HandleError, ValueError};
use crate::gpi_sys::t_vpi_vecval;
use crate::sim::phase::{hub_after, Hub, HubOp, Scheduled, SimPhase, WriteVal};
use crate::sim::triggers::{Edge, EdgeKind};

verus! {

/// A module/scope handle.
#[derive(Copy, Clone, Debug, PartialEq, Eq, Structural)]
pub struct HierarchyHandle {
    pub raw: gpi::HierarchyHandle,
}

/// A classified design object.
#[derive(Copy, Clone, Debug)]
pub enum AnyHandle {
    Hierarchy(HierarchyHandle),
    Logic(LogicHandle),
    Other,
}

/// A value-bearing signal.
#[derive(Copy, Clone, Debug, PartialEq, Eq, Structural)]
pub struct LogicHandle {
    pub raw: gpi::LogicHandle,
}

/// The typed view of a classified interface object.
pub open spec fn spec_wrap(h: gpi::AnyHandle) -> AnyHandle {
    match h {
        gpi::AnyHandle::Hierarchy(h) => AnyHandle::Hierarchy(HierarchyHandle { raw: h }),
        gpi::AnyHandle::Logic(l) => AnyHandle::Logic(LogicHandle { raw: l }),
        gpi::AnyHandle::Other(_, _) => AnyHandle::Other,
    }
}

impl AnyHandle {
    /// The typed view of a classified interface object.
    pub fn wrap(h: gpi::AnyHandle) -> (r: AnyHandle)
        ensures
            r == spec_wrap(h),
    {
        match h {
            gpi::AnyHandle::Hierarchy(h) => AnyHandle::Hierarchy(HierarchyHandle { raw: h }),
            gpi::AnyHandle::Logic(l) => AnyHandle::Logic(LogicHandle { raw: l }),
            gpi::AnyHandle::Other(_, _) => AnyHandle::Other,
        }
    }

    /// The signal, if this is one.
    pub fn as_logic(self) -> (r: Option<LogicHandle>)
        ensures
            match self {
                AnyHandle::Logic(l) => r == Some(l),
                _ => r is None,
            },
    {
        match self {
            AnyHandle::Logic(l) => Some(l),
            _ => None,
        }
    }

    /// The module, if this is one.
    pub fn as_hierarchy(self) -> (r: Option<HierarchyHandle>)
        ensures
            match self {
                AnyHandle::Hierarchy(h) => r == Some(h),
                _ => r is None,
            },
    {
        match self {
            AnyHandle::Hierarchy(h) => Some(h),
            _ => None,
        }
    }
}

impl HierarchyHandle {
    /// A handle to nothing, for tests that never touch the design.
    pub fn null_for_test() -> (r: HierarchyHandle)
        ensures
            r.raw.h.addr == 0,
    {
        HierarchyHandle { raw: gpi::HierarchyHandle::null_for_test() }
    }

    /// The outcome of looking up child `name` (see [`gpi::HierarchyHandle::child`]).
    pub fn child(&self, name: &str, found: Option<gpi::AnyHandle>, scope: String) -> (r: Result<
        AnyHandle,
        HandleError,
    >)
        requires
            !gpi::contains_nul(name@),
        ensures
            match found {
                Some(a) => r matches Ok(b) && b == spec_wrap(a),
                None => r matches Err(HandleError::NotFound { name: n, scope: sc }) && n@ == name@
                    && sc@ == scope@,
            },
    {
        let raw = self.raw.child(name, found, scope)?;
        Ok(AnyHandle::wrap(raw))
    }

    /// The outcome of looking up child `name` that must be a signal;
    /// `found_name` is the found object's full name.
    pub fn signal(
        &self,
        name: &str,
        found: Option<gpi::AnyHandle>,
        scope: String,
        found_name: String,
    ) -> (r: Result<LogicHandle, HandleError>)
        requires
            !gpi::contains_nul(name@),
        ensures
            match found {
                Some(gpi::AnyHandle::Logic(l)) => r == Ok::<LogicHandle, HandleError>(
                    LogicHandle { raw: l },
                ),
                Some(a) => r matches Err(e) && gpi::is_wrong_kind(
                    e,
                    found_name@,
                    "signal"@,
                    gpi::kind_name(a),
                ),
                None => r matches Err(HandleError::NotFound { name: n, scope: sc }) && n@ == name@
                    && sc@ == scope@,
            },
    {
        let raw = self.raw.child(name, found, scope)?;
        let l = raw.as_logic(found_name)?;
        Ok(LogicHandle { raw: l })
    }

    /// The children of this scope: the objects of its module scan, then of
    /// its net scan, then of its register scan, classified and typed, in scan order.
    pub fn children(&self, modules: &[gpi::Scanned], nets: &[gpi::Scanned], regs: &[gpi::Scanned]) -> (r:
        Vec<AnyHandle>)
        ensures
            r@ == gpi::classify_all(modules@ + nets@ + regs@).map_values(|a: gpi::AnyHandle| spec_wrap(a)),
    {
        let raw = self.raw.children(modules, nets, regs);
        let ghost want = gpi::classify_all(modules@ + nets@ + regs@);
        let mut out: Vec<AnyHandle> = Vec::new();
        let mut i: usize = 0;
        while i < raw.len()
            invariant
                raw@ == want,
                i <= raw@.len(),
                out@.len() == i,
                forall|j: int| 0 <= j < i ==> out@[j] == spec_wrap(raw@[j]),
            decreases raw@.len() - i,
        {
            out.push(AnyHandle::wrap(raw[i]));
            i = i + 1;
        }
        assert(out@ =~= want.map_values(|a: gpi::AnyHandle| spec_wrap(a)));
        out
    }
}

impl LogicHandle {
    /// The signal width in bits.
    pub fn size(&self) -> (r: u32)
        ensures
            r == self.raw.width,
    {
        self.raw.size()
    }

    /// For a one-bit signal whose value reads `reading`: whether it is 1.
    pub fn is_high(&self, reading: &Result<u64, ValueError>) -> (r: bool)
        ensures
            r == (self.raw.width == 1 && (*reading matches Ok(v) && v == 1)),
    {
        self.raw.size() == 1 && match reading {
            Ok(v) => *v == 1,
            Err(_) => false,
        }
    }

    /// For a one-bit signal whose value reads `reading`: whether it is 0.
    pub fn is_low(&self, reading: &Result<u64, ValueError>) -> (r: bool)
        ensures
            r == (self.raw.width == 1 && (*reading matches Ok(v) && v == 0)),
    {
        self.raw.size() == 1 && match reading {
            Ok(v) => *v == 0,
            Err(_) => false,
        }
    }

    /// Scheduled write of an integer: applied at the next ReadWrite phase.
    pub fn set_u64(&self, hub: &mut Hub, v: u64) -> (r: Scheduled)
        requires
            old(hub).wf(),
            old(hub)@.phase != SimPhase::ReadOnly,
        ensures
            final(hub).wf(),
            final(hub)@ == hub_after(old(hub)@, HubOp::Schedule(self.raw, WriteVal::U64(v))),
            final(hub)@.phase == old(hub)@.phase,
            final(hub)@.ro_armed == old(hub)@.ro_armed,
            final(hub)@.nt_armed == old(hub)@.nt_armed,
            old(hub)@.phase == SimPhase::ReadWrite ==> r == Scheduled::ApplyNow(WriteVal::U64(v))
                && final(hub)@.writes == old(hub)@.writes && final(hub)@.rw_armed == old(
                hub,
            )@.rw_armed,
            old(hub)@.phase == SimPhase::Normal ==> (r == (Scheduled::Buffered {
                arm: !old(hub)@.rw_armed,
            }) && final(hub)@.writes == crate::sim::phase::upsert(
                old(hub)@.writes,
                self.raw,
                WriteVal::U64(v),
            ) && final(hub)@.rw_armed),
    {
        hub.schedule(self.raw, WriteVal::U64(v))
    }

    /// Scheduled write of a four-state binary string.
    pub fn set(&self, hub: &mut Hub, bits: String) -> (r: Scheduled)
        requires
            old(hub).wf(),
            old(hub)@.phase != SimPhase::ReadOnly,
        ensures
            final(hub).wf(),
            final(hub)@ == hub_after(old(hub)@, HubOp::Schedule(self.raw, WriteVal::Bits(bits))),
            final(hub)@.phase == old(hub)@.phase,
            final(hub)@.ro_armed == old(hub)@.ro_armed,
            final(hub)@.nt_armed == old(hub)@.nt_armed,
            old(hub)@.phase == SimPhase::ReadWrite ==> r == Scheduled::ApplyNow(WriteVal::Bits(bits))
                && final(hub)@.writes == old(hub)@.writes && final(hub)@.rw_armed == old(
                hub,
            )@.rw_armed,
            old(hub)@.phase == SimPhase::Normal ==> (r == (Scheduled::Buffered {
                arm: !old(hub)@.rw_armed,
            }) && final(hub)@.writes == crate::sim::phase::upsert(
                old(hub)@.writes,
                self.raw,
                WriteVal::Bits(bits),
            ) && final(hub)@.rw_armed),
    {
        hub.schedule(self.raw, WriteVal::Bits(bits))
    }

    /// Immediate write of an integer: the vector words to put now. Writing
    /// during ReadOnly is illegal.
    pub fn set_u64_now(&self, hub: &Hub, v: u64) -> (r: Vec<t_vpi_vecval>)
        requires
            hub@.phase != SimPhase::ReadOnly,
        ensures
            r@ == gpi::spec_vector_words(gpi::access_width(self.raw.width), v),
    {
        self.raw.vector_words(v)
    }

    /// Wait for a rising edge.
    pub fn rising_edge(&self) -> (r: Edge)
        ensures
            r@.sig == self.raw && r@.kind == EdgeKind::Rising && !r@.registered && !r@.fired,
    {
        Edge::new(self.raw, EdgeKind::Rising)
    }

    /// Wait for a falling edge.
    pub fn falling_edge(&self) -> (r: Edge)
        ensures
            r@.sig == self.raw && r@.kind == EdgeKind::Falling && !r@.registered && !r@.fired,
    {
        Edge::new(self.raw, EdgeKind::Falling)
    }

    /// Wait for any value change.
    pub fn value_change(&self) -> (r: Edge)
        ensures
            r@.sig == self.raw && r@.kind == EdgeKind::AnyChange && !r@.registered && !r@.fired,
    {
        Edge::new(self.raw, EdgeKind::AnyChange)
    }
}

/// The first top-level module, or `NoTopModule` when there is none.
pub fn top_module(modules: &[gpi::HierarchyHandle]) -> (r: Result<HierarchyHandle, HandleError>)
    ensures
        modules@.len() > 0 ==> r == Ok::<HierarchyHandle, HandleError>(
            HierarchyHandle { raw: modules@[0] },
        ),
        modules@.len() == 0 ==> r matches Err(HandleError::NoTopModule),
{
    let raw = gpi::top_module(modules)?;
    Ok(HierarchyHandle { raw })
}

} // verus!
