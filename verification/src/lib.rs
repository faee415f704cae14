//! A CHIP-8 machine for the terminal, and the wait-free triple buffer that
//! hands its state from the thread that runs it to the thread that draws
//! it.
//!
//! * [`utils::triple_buffer`]: the triple buffer.
//! * [`chip8`]: the machine, its instruction set, decoder and interpreter.
//! * [`compiler`]: the beginnings of an assembler.
pub mod chip8;
pub mod compiler;
pub mod utils;
