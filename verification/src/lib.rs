//! Core of a small fixed instruction-set virtual machine: a 16-register,
//! 4 KB, 64x32-pixel monochrome computer with a 16-key keypad.
//!
//! The crate provides the instruction decoder ([`models::opcode`]), the
//! machine state and execution engine ([`models::chip8`]), and the keypad
//! snapshot the engine queries each cycle ([`input::keyboard`]). Program
//! loading, rendering and host input polling are left to the caller.

pub mod font;
pub mod input;
pub mod models;
