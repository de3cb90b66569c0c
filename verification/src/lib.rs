//! An emulation core for a subset of the 6502 instruction set.
//!
//! The crate holds the opcode table, the addressing-mode resolver, the
//! register and flag rules, and the fetch-decode-execute loop. Every
//! executable function carries a contract over the mathematical machine
//! state defined in [`state`].

pub mod error;
pub mod flags;
pub mod opcode;
pub mod state;
pub mod cpu;
