//! The machine's memory.
use super::consts::RAM_SIZE;
use std::ops::Deref;
use std::ops::DerefMut;
use vstd::prelude::*;

verus! {

/// 4096 bytes, addressed from 0.
pub struct Memory(pub [u8; RAM_SIZE]);

impl Memory {
    /// Memory with every byte zero.
    pub fn new() -> (memory: Memory)
        ensures
            memory.0@ == Seq::new(RAM_SIZE as nat, |a: int| 0u8),
    {
        let memory = Memory([0u8; 4096]);
        assert(memory.0@ =~= Seq::new(RAM_SIZE as nat, |a: int| 0u8));
        memory
    }
}

impl Deref for Memory {
    type Target = [u8];

    /// The bytes of memory.
    fn deref(&self) -> (bytes: &[u8])
        ensures
            bytes@ == self.0@,
    {
        &self.0
    }
}

impl DerefMut for Memory {
    /// The bytes of memory, to be changed in place.
    fn deref_mut(&mut self) -> (bytes: &mut [u8])
        ensures
            bytes@ == old(self).0@,
            final(bytes)@ == final(self).0@,
    {
        &mut self.0
    }
}

impl Clone for Memory {
    fn clone(&self) -> (memory: Memory)
        ensures
            memory.0@ == self.0@,
    {
        Memory(self.0)
    }
}

impl Default for Memory {
    fn default() -> (memory: Memory)
        ensures
            memory.0@ == Seq::new(RAM_SIZE as nat, |a: int| 0u8),
    {
        Memory::new()
    }
}

} // verus!
