//! Carrying out instructions.
use super::cpu::Chip8;
use super::machine::collides;
use super::machine::drawn;
use super::machine::first_key_down;
use super::machine::sprite_hi;
use super::machine::sprite_lo;
use super::machine::width;
use super::machine::KeyState;
use super::machine::Machine;
use super::machine::Resolution;
use super::machine::Scroll;
use super::op::ChipOp;
use super::screen::rectangular;
use vstd::prelude::*;

verus! {

/// The two machines share their timers.
pub open spec fn same_timers(a: &Chip8, b: &Chip8) -> bool {
    a.dt == b.dt && a.st == b.st
}

impl Chip8 {
    /// Moves the program counter past the next instruction, or past the
    /// next two.
    fn step_over(&mut self, skip: bool)
        requires
            old(self)@.can_step_over(skip),
        ensures
            final(self)@ == old(self)@.step_over(skip),
            same_timers(final(self), old(self)),
    {
        if skip {
            self.pc = self.pc + 4;
        } else {
            self.pc = self.pc + 2;
        }
    }

    /// Puts `value` into register `x`.
    fn set_v(&mut self, x: usize, value: u8)
        requires
            x < 16,
        ensures
            final(self)@ == old(self)@.with_v(x as int, value),
            same_timers(final(self), old(self)),
    {
        self.v[x] = value;
    }

    /// The instructions that move or blank the picture.
    fn exec_screen(&mut self, op: ChipOp)
        requires
            old(self)@.can_exec(op),
            op is ScdN || op is ScuN || op is Cls || op is Scr || op is Scl,
        ensures
            final(self)@ == old(self)@.step(op, 0),
            same_timers(final(self), old(self)),
    {
        match op {
            ChipOp::ScdN { n } => self.screen.scroll(Scroll::Down(n)),
            ChipOp::ScuN { n } => self.screen.scroll(Scroll::Up(n)),
            ChipOp::Scr => self.screen.scroll(Scroll::Right),
            ChipOp::Scl => self.screen.scroll(Scroll::Left),
            _ => self.screen.clear(),
        }
        self.step_over(false);
    }

    /// Jumps, calls, returns and skips.
    fn exec_flow(&mut self, op: ChipOp)
        requires
            old(self)@.can_exec(op),
            op is Ret || op is JpNnn || op is CallNnn || op is SeVxNn || op is SneVxNn
                || op is SeVxVy || op is SneVxVy || op is JpV0Nnn || op is SkpVx || op is SknpVx,
        ensures
            final(self)@ == old(self)@.step(op, 0),
            same_timers(final(self), old(self)),
    {
        match op {
            ChipOp::Ret => {
                self.pc = self.stack[self.sp - 1];
                self.sp = self.sp - 1;
            },
            ChipOp::JpNnn { nnn } => {
                self.pc = nnn;
            },
            ChipOp::CallNnn { nnn } => {
                self.sp = self.sp + 1;
                self.stack[self.sp - 1] = self.pc + 2;
                self.pc = nnn;
            },
            ChipOp::SeVxNn { x, nn } => {
                let skip = self.v[x] == nn;
                self.step_over(skip);
            },
            ChipOp::SneVxNn { x, nn } => {
                let skip = self.v[x] != nn;
                self.step_over(skip);
            },
            ChipOp::SeVxVy { x, y } => {
                let skip = self.v[x] == self.v[y];
                self.step_over(skip);
            },
            ChipOp::SneVxVy { x, y } => {
                let skip = self.v[x] != self.v[y];
                self.step_over(skip);
            },
            ChipOp::JpV0Nnn { nnn } => {
                self.pc = (nnn + self.v[0] as u16) as usize;
            },
            ChipOp::SkpVx { x } => {
                let vx = self.v[x];
                assert(vx & 0xF == vx % 16) by (bit_vector);
                let skip = self.keys[(vx & 0xF) as usize];
                self.step_over(skip);
            },
            ChipOp::SknpVx { x } => {
                let vx = self.v[x];
                assert(vx & 0xF == vx % 16) by (bit_vector);
                let skip = !self.keys[(vx & 0xF) as usize];
                self.step_over(skip);
            },
            _ => {},
        }
    }

    /// Loads and bitwise logic on the registers.
    fn exec_logic(&mut self, op: ChipOp, byte: u8)
        requires
            old(self)@.can_exec(op),
            op is LdVxNn || op is AddVxNn || op is LdVxVy || op is OrVxVy || op is AndVxVy
                || op is XorVxVy || op is RndVxNn || op is LdVxDt,
        ensures
            final(self)@ == old(self)@.step(op, byte),
            same_timers(final(self), old(self)),
    {
        match op {
            ChipOp::LdVxNn { x, nn } => {
                self.set_v(x, nn);
            },
            ChipOp::AddVxNn { x, nn } => {
                let sum = self.v[x].wrapping_add(nn);
                self.set_v(x, sum);
            },
            ChipOp::LdVxVy { x, y } => {
                let vy = self.v[y];
                self.set_v(x, vy);
            },
            ChipOp::OrVxVy { x, y } => {
                let value = self.v[x] | self.v[y];
                self.set_v(x, value);
            },
            ChipOp::AndVxVy { x, y } => {
                let value = self.v[x] & self.v[y];
                self.set_v(x, value);
            },
            ChipOp::XorVxVy { x, y } => {
                let value = self.v[x] ^ self.v[y];
                self.set_v(x, value);
            },
            ChipOp::RndVxNn { x, nn } => {
                self.set_v(x, byte & nn);
            },
            ChipOp::LdVxDt { x } => {
                self.set_v(x, byte);
            },
            _ => {},
        }
        self.step_over(false);
    }

    /// Puts `value` into register `x`, then `flag` into `VF`, and moves on
    /// to the next instruction.
    fn set_result(&mut self, x: usize, value: u8, flag: u8)
        requires
            x < 16,
            old(self)@.can_step_over(false),
        ensures
            final(self)@ == old(self)@.with_v(x as int, value).with_flag(flag).step_over(false),
            same_timers(final(self), old(self)),
    {
        self.set_v(x, value);
        self.set_v(0xF, flag);
        self.step_over(false);
    }

    /// Addition, subtraction and shifts, which set the flag register.
    fn exec_arithmetic(&mut self, op: ChipOp)
        requires
            old(self)@.can_exec(op),
            op is AddVxVy || op is SubVxVy || op is ShrVxVy || op is SubnVxVy || op is ShlVxVy,
        ensures
            final(self)@ == old(self)@.step(op, 0),
            same_timers(final(self), old(self)),
    {
        match op {
            ChipOp::AddVxVy { x, y } => {
                let sum: u16 = self.v[x] as u16 + self.v[y] as u16;
                self.set_result(
                    x,
                    (sum % 256) as u8,
                    if sum > 255 {
                        1
                    } else {
                        0
                    },
                );
            },
            ChipOp::SubVxVy { x, y } => {
                let vx = self.v[x];
                let vy = self.v[y];
                self.set_result(x, Self::difference(vx, vy), Self::no_borrow(vx, vy));
            },
            ChipOp::ShrVxVy { x, y } => {
                let vy = self.v[y];
                assert(vy >> 1 == vy / 2 && vy & 1 == vy % 2) by (bit_vector);
                self.set_result(x, vy >> 1, vy & 0x1);
            },
            ChipOp::SubnVxVy { x, y } => {
                let vx = self.v[x];
                let vy = self.v[y];
                self.set_result(x, Self::difference(vy, vx), Self::no_borrow(vy, vx));
            },
            ChipOp::ShlVxVy { x, y } => {
                let vy = self.v[y];
                assert(vy << 1 == (vy * 2) % 256 && vy >> 7 == vy / 128) by (bit_vector);
                self.set_result(x, vy << 1, vy >> 7);
            },
            _ => {},
        }
    }

    /// `a - b`, wrapping around below zero.
    fn difference(a: u8, b: u8) -> (d: u8)
        ensures
            d == ((a - b) % 256) as u8,
    {
        if a >= b {
            a - b
        } else {
            (256u16 + a as u16 - b as u16) as u8
        }
    }

    /// 1 if `a - b` needs no borrow, 0 if it does.
    fn no_borrow(a: u8, b: u8) -> (flag: u8)
        ensures
            flag == if a - b < 0 {
                0u8
            } else {
                1u8
            },
    {
        if a < b {
            0
        } else {
            1
        }
    }

    /// The instructions that set the address register or the mode and
    /// those that only touch the timers, which the caller has dealt with.
    fn exec_misc(&mut self, op: ChipOp)
        requires
            old(self)@.can_exec(op),
            op is Exit || op is LowRes || op is HighRes || op is LdINnn || op is LdDtVx
                || op is LdStVx || op is AddIVx || op is LdFVx,
        ensures
            final(self)@ == old(self)@.step(op, 0),
            same_timers(final(self), old(self)),
    {
        match op {
            ChipOp::Exit => {
                self.exit = true;
                return ;
            },
            ChipOp::LowRes => {
                self.resolution = Resolution::Low;
            },
            ChipOp::HighRes => {
                self.resolution = Resolution::High;
            },
            ChipOp::LdINnn { nnn } => {
                self.i = nnn;
            },
            ChipOp::AddIVx { x } => {
                self.i = self.i + self.v[x] as usize;
            },
            ChipOp::LdFVx { x } => {
                let vx = self.v[x];
                assert(vx & 0x0F == vx % 16) by (bit_vector);
                let digit = vx & 0x0F;
                self.i = (digit * 5) as usize;
            },
            _ => {},
        }
        self.step_over(false);
    }

    /// Transfers between the registers and memory.
    fn exec_memory(&mut self, op: ChipOp)
        requires
            old(self)@.can_exec(op),
            op is LdVxVyI || op is LdIVxVy || op is LdBVx || op is LdIVx || op is LdVxI,
        ensures
            final(self)@ == old(self)@.step(op, 0),
            same_timers(final(self), old(self)),
    {
        match op {
            ChipOp::LdVxVyI { x, y } => {
                self.store_registers(x, y);
            },
            ChipOp::LdIVxVy { x, y } => {
                self.load_registers(x, y);
            },
            ChipOp::LdBVx { x } => {
                let vx = self.v[x];
                self.memory.0[self.i] = (vx % 255) / 100;
                self.memory.0[self.i + 1] = (vx % 100) / 10;
                self.memory.0[self.i + 2] = vx % 10;
                self.step_over(false);
            },
            ChipOp::LdIVx { x } => {
                self.store_registers(0, x);
                assert(self@.memory =~= old(self)@.step(op, 0).memory);
                self.i = self.i + x + 1;
                self.step_over(false);
            },
            ChipOp::LdVxI { x } => {
                self.load_registers(0, x);
                assert(self@.v =~= old(self)@.step(op, 0).v);
                self.i = self.i + x + 1;
                self.step_over(false);
            },
            _ => {},
        }
    }

    /// Copies the registers `x` to `y` to memory from `I` on.
    fn store_registers(&mut self, x: usize, y: usize)
        requires
            x <= y < 16,
            old(self).i + (y - x) < 4096,
        ensures
            final(self)@ == (Machine {
                memory: Seq::new(
                    4096,
                    |a: int|
                        if old(self).i <= a <= old(self).i + (y - x) {
                            old(self)@.v[x + (a - old(self).i)]
                        } else {
                            old(self)@.memory[a]
                        },
                ),
                ..old(self)@
            }),
            same_timers(final(self), old(self)),
    {
        let count = y - x + 1;
        let mut k: usize = 0;
        while k < count
            invariant
                k <= count,
                count == y - x + 1,
                x <= y < 16,
                self.i + (y - x) < 4096,
                self@ == (Machine { memory: self@.memory, ..old(self)@ }),
                same_timers(self, old(self)),
                forall|a: int|
                    0 <= a < 4096 ==> self@.memory[a] == if self.i <= a < self.i + k {
                        self@.v[x + (a - self.i)]
                    } else {
                        old(self)@.memory[a]
                    },
            decreases count - k,
        {
            self.memory.0[self.i + k] = self.v[x + k];
            k = k + 1;
        }
        assert(self@.memory =~= Seq::new(
            4096,
            |a: int|
                if old(self).i <= a <= old(self).i + (y - x) {
                    old(self)@.v[x + (a - old(self).i)]
                } else {
                    old(self)@.memory[a]
                },
        ));
    }

    /// Copies memory from `I` on to the registers `x` to `y`.
    fn load_registers(&mut self, x: usize, y: usize)
        requires
            x <= y < 16,
            old(self).i + (y - x) < 4096,
        ensures
            final(self)@ == (Machine {
                v: Seq::new(
                    16,
                    |k: int|
                        if x <= k <= y {
                            old(self)@.memory[old(self).i + (k - x)]
                        } else {
                            old(self)@.v[k]
                        },
                ),
                ..old(self)@
            }),
            same_timers(final(self), old(self)),
    {
        let count = y - x + 1;
        let mut k: usize = 0;
        while k < count
            invariant
                k <= count,
                count == y - x + 1,
                x <= y < 16,
                self.i + (y - x) < 4096,
                self@ == (Machine { v: self@.v, ..old(self)@ }),
                same_timers(self, old(self)),
                forall|r: int|
                    0 <= r < 16 ==> self@.v[r] == if x <= r < x + k {
                        self@.memory[self.i + (r - x)]
                    } else {
                        old(self)@.v[r]
                    },
            decreases count - k,
        {
            self.v[x + k] = self.memory.0[self.i + k];
            k = k + 1;
        }
        assert(self@.v =~= Seq::new(
            16,
            |k: int|
                if x <= k <= y {
                    old(self)@.memory[old(self).i + (k - x)]
                } else {
                    old(self)@.v[k]
                },
        ));
    }

    /// `DRW Vx, Vy, n`.
    fn exec_draw(&mut self, x: usize, y: usize, n: u8)
        requires
            old(self)@.can_exec(ChipOp::DrwVxVyN { x, y, n }),
        ensures
            final(self)@ == old(self)@.step(ChipOp::DrwVxVyN { x, y, n }, 0),
            same_timers(final(self), old(self)),
    {
        let vx = self.v[x];
        let vy = self.v[y] as usize;
        assert(vx & 7 == vx % 8 && vx >> 3 == vx / 8) by (bit_vector);
        let bit_off = vx & 7;
        let col_byte = (vx >> 3) as usize;
        let height = n as usize;
        let (rows, cols) = self.screen.dim();
        let ghost start = self.screen@;
        let ghost sprite = self@.memory.subrange(self.i as int, self.i + n);
        let mut collision = false;
        let mut row: usize = 0;
        proof {
            if rows > 0 {
                assert(start[0].len() == cols);
            }
            assert(sprite.subrange(0, 0) =~= Seq::<u8>::empty());
        }
        while row < height
            invariant
                row <= height,
                height == n,
                vy < 256,
                self.i + n <= 4096,
                bit_off < 8,
                bit_off == vx % 8,
                col_byte == vx / 8,
                height > 0 ==> rows > 0 && cols > 0,
                start.len() == rows,
                height > 0 ==> width(start) == cols,
                sprite == self@.memory.subrange(self.i as int, self.i + n),
                self@ == (Machine { screen: self@.screen, ..old(self)@ }),
                same_timers(self, old(self)),
                self.screen@.len() == rows,
                rectangular(self.screen@, cols as nat),
                self.screen@ == drawn(start, cols as int, sprite.subrange(0, row as int), vx as int, vy as int),
                collision == collides(start, cols as int, sprite.subrange(0, row as int), vx as int, vy as int),
            decreases height - row,
        {
            let byte = self.memory.0[self.i + row];
            let y_idx = (vy + row) % rows;
            let x0 = col_byte % cols;
            let x1 = (col_byte + 1) % cols;
            let hi = byte >> bit_off;
            let lo = if bit_off == 0 {
                0
            } else {
                byte << (8 - bit_off)
            };
            proof {
                let upto = sprite.subrange(0, row + 1);
                assert(upto.drop_last() =~= sprite.subrange(0, row as int));
                assert(upto.last() == byte);
                assert(hi == sprite_hi(byte, vx as int % 8));
                assert(lo == sprite_lo(byte, vx as int % 8));
            }
            let hit = self.screen.draw_row(y_idx, x0, x1, hi, lo);
            if hit {
                collision = true;
            }
            row = row + 1;
        }
        proof {
            assert(sprite.subrange(0, height as int) =~= sprite);
            if height == 0 {
                assert(drawn(start, width(start), sprite, vx as int, vy as int) == start);
            }
        }
        self.set_v(
            0xF,
            if collision {
                1
            } else {
                0
            },
        );
        self.step_over(false);
    }

    /// `LD Vx, K`: wait for a key to go down and for all keys to come up.
    fn exec_key_wait(&mut self, x: usize)
        requires
            old(self)@.can_exec(ChipOp::LdVxK { x }),
        ensures
            final(self)@ == old(self)@.step(ChipOp::LdVxK { x }, 0),
            same_timers(final(self), old(self)),
    {
        match self.key_state {
            KeyState::AwaitingPress => {
                let mut key: usize = 0;
                while key < 16
                    invariant
                        key <= 16,
                        self.key_state == KeyState::AwaitingPress,
                        self@ == old(self)@,
                        same_timers(self, old(self)),
                        forall|j: int| 0 <= j < key ==> !self@.keys[j],
                    decreases 16 - key,
                {
                    if self.keys[key] {
                        proof {
                            let keys = self@.keys;
                            let lowest = choose|k: int|
                                0 <= k < keys.len() && keys[k] && forall|j: int|
                                    0 <= j < k ==> !keys[j];
                            assert(0 <= key < keys.len() && keys[key as int] && forall|j: int|
                                0 <= j < key ==> !keys[j]);
                            assert(lowest == key) by {
                                if lowest < key {
                                    assert(!keys[lowest]);
                                }
                                if key < lowest {
                                    assert(!keys[key as int]);
                                }
                            }
                            assert(first_key_down(keys) == Some(key as int));
                        }
                        self.key_state = KeyState::AwaitingRelease;
                        self.last_key = key as u8;
                        return ;
                    }
                    key = key + 1;
                }
            },
            KeyState::AwaitingRelease => {
                let mut key: usize = 0;
                while key < 16
                    invariant
                        key <= 16,
                        self.key_state == KeyState::AwaitingRelease,
                        self@ == old(self)@,
                        same_timers(self, old(self)),
                        forall|j: int| 0 <= j < key ==> !self@.keys[j],
                    decreases 16 - key,
                {
                    if self.keys[key] {
                        assert(self@.keys[key as int]);
                        assert(!self@.key_wait_done());
                        return ;
                    }
                    key = key + 1;
                }
                self.key_state = KeyState::AwaitingPress;
                let last_key = self.last_key;
                self.set_v(x, last_key);
                self.step_over(false);
            },
        }
    }

    /// Carries out `op` on the machine, given the byte that the instruction
    /// takes from outside: the random byte of `RND`, the delay timer's
    /// value for `LD Vx, DT`. The timers themselves are not touched.
    pub fn exec_with(&mut self, op: ChipOp, byte: u8)
        requires
            old(self)@.can_exec(op),
        ensures
            final(self)@ == old(self)@.step(op, byte),
            same_timers(final(self), old(self)),
    {
        match op {
            ChipOp::ScdN { .. } | ChipOp::ScuN { .. } | ChipOp::Cls | ChipOp::Scr | ChipOp::Scl => {
                self.exec_screen(op)
            },
            ChipOp::Ret
            | ChipOp::JpNnn { .. }
            | ChipOp::CallNnn { .. }
            | ChipOp::SeVxNn { .. }
            | ChipOp::SneVxNn { .. }
            | ChipOp::SeVxVy { .. }
            | ChipOp::SneVxVy { .. }
            | ChipOp::JpV0Nnn { .. }
            | ChipOp::SkpVx { .. }
            | ChipOp::SknpVx { .. } => self.exec_flow(op),
            ChipOp::LdVxNn { .. }
            | ChipOp::AddVxNn { .. }
            | ChipOp::LdVxVy { .. }
            | ChipOp::OrVxVy { .. }
            | ChipOp::AndVxVy { .. }
            | ChipOp::XorVxVy { .. }
            | ChipOp::RndVxNn { .. }
            | ChipOp::LdVxDt { .. } => self.exec_logic(op, byte),
            ChipOp::AddVxVy { .. }
            | ChipOp::SubVxVy { .. }
            | ChipOp::ShrVxVy { .. }
            | ChipOp::SubnVxVy { .. }
            | ChipOp::ShlVxVy { .. } => self.exec_arithmetic(op),
            ChipOp::Exit
            | ChipOp::LowRes
            | ChipOp::HighRes
            | ChipOp::LdINnn { .. }
            | ChipOp::LdDtVx { .. }
            | ChipOp::LdStVx { .. }
            | ChipOp::AddIVx { .. }
            | ChipOp::LdFVx { .. } => self.exec_misc(op),
            ChipOp::LdVxVyI { .. }
            | ChipOp::LdIVxVy { .. }
            | ChipOp::LdBVx { .. }
            | ChipOp::LdIVx { .. }
            | ChipOp::LdVxI { .. } => self.exec_memory(op),
            ChipOp::DrwVxVyN { x, y, n } => self.exec_draw(x, y, n),
            ChipOp::LdVxK { x } => self.exec_key_wait(x),
            ChipOp::Unknown(_) => {},
        }
    }
}

} // verus!
