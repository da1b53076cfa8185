//! Plain values of the simulator programming interface (a subset of
//! `vpi_user.h`): property, object-type, callback-reason codes, and the
//! four-state vector word.

use vstd::prelude::*;

verus! {

pub const VPI_TYPE: i32 = 1;
pub const VPI_NAME: i32 = 2;
pub const VPI_FULL_NAME: i32 = 3;
pub const VPI_SIZE: i32 = 4;
pub const VPI_TIME_PRECISION: i32 = 12;

pub const VPI_INTEGER_VAR: i32 = 25;
pub const VPI_MEMORY: i32 = 29;
pub const VPI_MODULE: i32 = 32;
pub const VPI_NET: i32 = 36;
pub const VPI_PORT: i32 = 44;
pub const VPI_REG: i32 = 48;
pub const VPI_LONG_INT_VAR: i32 = 610;
pub const VPI_SHORT_INT_VAR: i32 = 611;
pub const VPI_INT_VAR: i32 = 612;
pub const VPI_BYTE_VAR: i32 = 614;
pub const VPI_ENUM_VAR: i32 = 617;
pub const VPI_BIT_VAR: i32 = 620;

pub const VPI_BIN_STR_VAL: i32 = 1;
pub const VPI_VECTOR_VAL: i32 = 9;

pub const VPI_SIM_TIME: i32 = 2;
pub const VPI_SUPPRESS_TIME: i32 = 3;

pub const VPI_NO_DELAY: i32 = 1;
pub const VPI_FINISH: i32 = 67;

pub const CB_VALUE_CHANGE: i32 = 1;
pub const CB_READ_WRITE_SYNCH: i32 = 6;
pub const CB_READ_ONLY_SYNCH: i32 = 7;
pub const CB_NEXT_SIM_TIME: i32 = 8;
pub const CB_AFTER_DELAY: i32 = 9;
pub const CB_START_OF_SIMULATION: i32 = 11;
pub const CB_END_OF_SIMULATION: i32 = 12;

/// One 32-bit word of a four-state vector. `aval` carries the value bits;
/// a set bit in `bval` marks the corresponding bit as X/Z.
#[allow(non_camel_case_types)]
#[derive(Clone, Copy, Debug, Default, PartialEq, Eq, Structural)]
pub struct t_vpi_vecval {
    pub aval: u32,
    pub bval: u32,
}

} // verus!
