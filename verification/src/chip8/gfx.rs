//! What the front end shows of a machine, as plain values: the
//! instructions around the program counter and the pixels of the screen.
use super::consts::PROGRAM_START;
use super::consts::RAM_SIZE;
use super::cpu::Chip8;
use super::decode::decode;
use super::decode::decode_spec;
use super::machine::Machine;
use super::op::ChipOp;
use super::screen::Screen;
use vstd::prelude::*;

verus! {

/// Lines of the listing: `WINDOW` instructions before the program counter,
/// the one at it, and `WINDOW` after it.
pub const LISTING_LINES: usize = 17;

/// The instruction word at `addr`, high byte first.
pub open spec fn word_at(memory: Seq<u8>, addr: int) -> u16 {
    (memory[addr] * 256 + memory[addr + 1]) as u16
}

/// The line of the listing that is `offset` instructions away from the
/// program counter: its address and the instruction there, or nothing if
/// the address lies before program memory or its word does not lie in
/// memory.
pub open spec fn listing_line(machine: Machine, offset: int) -> Option<(usize, ChipOp)> {
    let addr = machine.pc + 2 * offset;
    if addr < 0x200 || addr + 1 >= 4096 {
        None
    } else {
        Some((addr as usize, decode_spec(word_at(machine.memory, addr))))
    }
}

/// Whether bit `bit` of `byte` is set, counting from the lowest.
pub open spec fn bit_set(byte: u8, bit: u8) -> bool {
    (byte >> bit) & 1 == 1
}

impl Chip8 {
    /// The instructions around the program counter, eight before it to
    /// eight after it.
    pub fn listing(&self) -> (lines: Vec<Option<(usize, ChipOp)>>)
        ensures
            lines@.len() == LISTING_LINES,
            forall|k: int| 0 <= k < LISTING_LINES ==> lines@[k] == listing_line(self@, k - 8),
    {
        let mut lines: Vec<Option<(usize, ChipOp)>> = Vec::new();
        let mut k: usize = 0;
        while k < LISTING_LINES
            invariant
                k <= LISTING_LINES,
                lines@.len() == k,
                forall|j: int| 0 <= j < k ==> lines@[j] == listing_line(self@, j - 8),
            decreases LISTING_LINES - k,
        {
            let addr: Option<usize> = if k < 8 {
                let back = 2 * (8 - k);
                if self.pc >= back {
                    Some(self.pc - back)
                } else {
                    None
                }
            } else {
                let ahead = 2 * (k - 8);
                if self.pc <= RAM_SIZE {
                    Some(self.pc + ahead)
                } else {
                    None
                }
            };
            let line = match addr {
                Some(addr) => if addr < PROGRAM_START || addr + 1 >= RAM_SIZE {
                    None
                } else {
                    let word = self.memory.0[addr] as u16 * 256 + self.memory.0[addr + 1] as u16;
                    Some((addr, decode(word)))
                },
                None => None,
            };
            lines.push(line);
            k = k + 1;
        }
        lines
    }
}

impl Screen {
    /// The two pixels that share a character cell of the terminal: bit
    /// `bit` of byte `x` in the screen rows `2 * line` and `2 * line + 1`.
    /// Nothing if the screen has no such bytes.
    pub fn half_block(&self, line: usize, x: usize, bit: u8) -> (pixels: Option<(bool, bool)>)
        requires
            bit < 8,
        ensures
            pixels == if 2 * line + 1 < self@.len() && x < self@[2 * line].len() {
                Some(
                    (
                        bit_set(self@[2 * line][x as int], bit),
                        bit_set(self@[2 * line + 1][x as int], bit),
                    ),
                )
            } else {
                None
            },
    {
        let (rows, cols) = self.dim();
        if rows >= 2 && line <= (rows - 2) / 2 && x < cols {
            let upper = self.cell(2 * line, x);
            let lower = self.cell(2 * line + 1, x);
            Some((((upper >> bit) & 1) == 1, ((lower >> bit) & 1) == 1))
        } else {
            None
        }
    }
}

} // verus!
