//! A CHIP-8 virtual machine core: instruction decoding, disassembly and
//! execution, with every operation specified and machine-checked.

pub mod data;
pub mod disassemble;
pub mod display;
pub mod emulation;
pub mod engine;
pub mod keypad;
pub mod machine;
pub mod opcode;
pub mod text;
