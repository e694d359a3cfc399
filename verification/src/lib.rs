//! A small 6502-class CPU core: a flat 64 KiB memory bus, an addressing-mode
//! resolver, and a fetch-decode-execute engine over a handful of opcodes,
//! with machine-checked contracts for every state transition.

pub mod cpu;
pub mod flags;
pub mod laws;
pub mod model;
