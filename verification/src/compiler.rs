//! The beginnings of an assembler for CHIP-8 programs.
pub mod lex;
