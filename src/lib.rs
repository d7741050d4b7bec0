//! Disassembler and instruction-level simulator for a 16-bit x86-class
//! instruction set.
//!
//! - `op_code`, `register`: the opcode and register catalogs.
//! - `effective_address`: r/m and mode fields to memory operands.
//! - `decoder`: bytes to instructions and their assembly text.
//! - `instruction`: the instruction model and the cycle-cost table.
//! - `program`: decoded instructions keyed by their start offset.
//! - `simulator`: CPU state and the fetch-dispatch-execute step.
//! - `text`: decimal rendering.
//!
//! Arithmetic on registers, memory, addresses and the instruction pointer
//! wraps modulo 2^16; every memory access lies inside the 1 MiB address
//! space by construction.

pub mod decoder;
pub mod effective_address;
pub mod instruction;
pub mod op_code;
pub mod program;
pub mod register;
pub mod simulator;
pub mod text;
