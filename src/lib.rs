//! An interpreter core for a Game-Boy-class 8-bit CPU: registers and flags,
//! a flat 16-bit address space, the opcode table and the
//! fetch-decode-execute step with its cycle accounting.

pub mod flags;
pub mod memory;
pub mod cpu;
pub mod op_codes;
pub mod machine;
pub mod laws;
