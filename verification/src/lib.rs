//! A CHIP-8 virtual machine: memory, registers, call stack, display buffer, keypad and timers,
//! with a fetch-decode-execute engine whose every step is specified over an abstract state.

pub mod display;
pub mod instruction;
pub mod laws;
pub mod machine;
mod rng;
pub mod semantics;
pub mod state;

pub use crate::instruction::{decode, Instruction};
pub use crate::machine::Emu;
pub use crate::state::{Fault, State, SCREEN_HEIGHT, SCREEN_WIDTH};
