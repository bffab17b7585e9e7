//! A verified execution core for the CHIP-8 bytecode machine.
//!
//! The machine state is plain data ([`state::State`]); every instruction
//! handler in [`opcodes`], the dispatcher and cycle runner in [`cpu`], and
//! the front-end session in [`session`] carry contracts over the
//! mathematical model [`state::Machine`] and the instruction semantics in
//! [`semantics`]. [`laws`] proves properties that span several steps.

pub mod cpu;
pub mod decode;
pub mod init;
pub mod laws;
pub mod opcodes;
pub mod semantics;
pub mod session;
pub mod state;
