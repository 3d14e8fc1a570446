pub mod chip8;
pub mod errors;
pub mod laws;
pub mod opcode;
