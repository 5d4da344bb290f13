//! A CHIP-8 interpreter: instruction decoding and a machine whose every
//! opcode is specified over a mathematical model of its state.

pub mod instruction;
pub mod state;
pub mod semantics;
pub mod machine;
pub mod laws;
pub mod keypad;
