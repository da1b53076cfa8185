//! Verified core of a hardware-verification framework: the stream benchmark
//! model, the cycle-model ABI, the simulator-interface value logic, and the
//! scheduling state machines of the simulation layer.

pub mod text;
pub mod stream_model;
pub mod cycle;
pub mod gpi_sys;
pub mod gpi;
pub mod sim;
pub mod bench;
