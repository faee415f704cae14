//! The CHIP-8 machine: its constants, instruction set, decoder and
//! interpreter.
pub mod consts;
pub mod cpu;
pub mod decode;
pub mod exec;
pub mod gfx;
pub mod input;
pub mod machine;
pub mod mem;
pub mod op;
mod random;
pub mod run;
pub mod screen;
pub mod text;
pub mod timers;
