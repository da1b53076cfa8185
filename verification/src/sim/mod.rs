//! The simulation layer: typed handles with scheduled writes, the phase hub
//! that orders writes and phase waiters, the awaitable triggers, and the
//! optional runtime trace control.

pub mod handle;
pub mod phase;
pub mod trace;
pub mod triggers;

use vstd::prelude::*;
use crate::sim::phase::{Hub, SimPhase};

verus! {

/// Initialize the simulation context: a fresh hub in the Normal phase, with
/// no callback pending and no write buffered.
pub fn init() -> (r: Hub)
    ensures
        r.wf(),
        r@.phase == SimPhase::Normal,
        !r@.rw_armed && !r@.ro_armed && !r@.nt_armed,
        r@.writes.len() == 0,
{
    Hub::new()
}

} // verus!
