//! An emulator core for the 6502-family 8-bit microprocessor.
//!
//! The crate models the processor state (registers, status flags, program
//! counter, stack pointer, and a flat 64KB memory) and executes machine-code
//! programs against that state with a fetch-decode-execute loop. Every
//! executable operation is specified against a mathematical model of the
//! processor state and verified.

pub mod cpu;
pub mod cpuoperand;
