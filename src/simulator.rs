//! The execution engine: CPU state and the fetch-dispatch-execute step.

pub mod simulate;
pub mod simulator_state;
