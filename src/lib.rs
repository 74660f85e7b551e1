//! A CHIP-8 virtual machine: machine state, instruction decoding and the
//! instruction semantics, each stated as a mathematical model and proved.

pub mod instruction;
pub mod sprite;
pub mod machine;
pub mod chip8;
pub mod laws;
