//! Instruction-level model of an 8-bit Game Boy-class CPU: wrapping value
//! types, a packed register file with a four-bit condition-flag register,
//! a banked byte-addressable memory, and a fetch-decode-execute engine that
//! applies one opcode's register, memory, flag and cycle effects per call.

pub mod number_types;

pub mod memory;

pub mod instructions;

pub mod cpu;
