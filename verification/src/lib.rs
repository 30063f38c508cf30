//! Instruction-level emulation of the Intel 8080 microprocessor.
//!
//! The crate models the register file and flag arithmetic, the complete
//! opcode set, a port-mapped I/O bus with a hard-wired interval timer, and
//! timer-driven interrupt delivery. Every executable function carries a
//! contract over a mathematical model of the machine state.

pub mod alu;
pub mod bits;
pub mod cpu;
pub mod dump;
pub mod flags;
pub mod hex;
pub mod io;
pub mod laws;
pub mod machine;
pub mod memory;
pub mod registers;

pub use cpu::Intel8080;
pub use memory::{FlatMemory, Memory};
pub use registers::{Condition, PushPopPair, Register, RegisterPair};
