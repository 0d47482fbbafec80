//! An interpreter core for the 8-bit CPU of a classic handheld console:
//! register file, arithmetic unit, instruction decoding, memory-mapped bus and
//! interrupt dispatch, each with a machine-checked contract.

pub mod alu;
pub mod bits;
pub mod bus;
pub mod cpu;
pub mod fault;
pub mod flags;
pub mod instr;
pub mod io;
pub mod laws;
pub mod ram;
pub mod state;
