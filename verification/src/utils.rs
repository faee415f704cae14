//! Building blocks that do not know about the machine.
pub mod triple_buffer;
