//! A virtual CPU for a CHIP-8-style machine: sixteen 8-bit registers, 4096
//! bytes of memory, a call stack of sixteen return addresses and a program
//! counter, driven by 16-bit big-endian instruction words.
//!
//! The crate is split in four parts:
//!
//! * [`opcode`]: the instruction set and the decoder from instruction words;
//! * [`state`]: the mathematical model of the machine and what one cycle,
//!   and a whole run, do to it;
//! * [`cpu`]: the executable machine, each operation proved against the model;
//! * [`laws`]: theorems about the model that hold for every machine state.
pub mod opcode;
pub mod state;
pub mod cpu;
pub mod laws;

pub use opcode::{decode, Instruction, OPCODETYPE};
pub use state::{CpuError, State, Status};
pub use cpu::CPU;
