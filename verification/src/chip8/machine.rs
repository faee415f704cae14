//! What the machine is and what each instruction does to it, as plain
//! mathematics. The interpreter is proved against this description.
use super::op::ChipOp;
use vstd::prelude::*;

verus! {

/// The display mode.
#[derive(Copy, Clone, PartialEq, Eq, Debug, Structural)]
pub enum Resolution {
    Low,
    High,
}

/// Where `LD Vx, K` stands: waiting for a key to go down, or waiting for
/// every key to come up again.
#[derive(Copy, Clone, PartialEq, Eq, Debug, Structural)]
pub enum KeyState {
    AwaitingPress,
    AwaitingRelease,
}

/// The machine without its two timers, which tick on their own.
pub struct Machine {
    /// Program counter.
    pub pc: usize,
    /// The sixteen registers `V0` to `VF`.
    pub v: Seq<u8>,
    /// Address register.
    pub i: usize,
    /// Number of return addresses on the stack.
    pub sp: usize,
    /// For each of the sixteen keys, whether it is down.
    pub keys: Seq<bool>,
    /// Return addresses; the first `sp` are in use.
    pub stack: Seq<usize>,
    /// Display memory, row by row, eight pixels to the byte.
    pub screen: Seq<Seq<u8>>,
    /// Main memory.
    pub memory: Seq<u8>,
    pub resolution: Resolution,
    pub key_state: KeyState,
    /// The key that `LD Vx, K` saw go down.
    pub last_key: u8,
    /// Set by `EXIT`.
    pub exit: bool,
}

/// A sprite row moved right by `shift` pixels: the part that stays in the
/// byte it starts in.
pub open spec fn sprite_hi(byte: u8, shift: int) -> u8 {
    byte >> (shift as u8)
}

/// A sprite row moved right by `shift` pixels: the part that spills into
/// the next byte.
pub open spec fn sprite_lo(byte: u8, shift: int) -> u8 {
    if shift == 0 {
        0
    } else {
        byte << ((8 - shift) as u8)
    }
}

/// The screen after one sprite row `byte` was drawn in row `y`, in the bytes
/// `x0` and then `x1`.
pub open spec fn row_drawn(screen: Seq<Seq<u8>>, y: int, x0: int, x1: int, hi: u8, lo: u8) -> Seq<
    Seq<u8>,
> {
    let first = screen.update(y, screen[y].update(x0, screen[y][x0] ^ hi));
    first.update(y, first[y].update(x1, first[y][x1] ^ lo))
}

/// Whether drawing `hi` and `lo` over the bytes `x0` and `x1` of row `y`
/// turns a lit pixel off.
pub open spec fn row_collides(screen: Seq<Seq<u8>>, y: int, x0: int, x1: int, hi: u8, lo: u8) -> bool {
    (screen[y][x0] & hi) != 0 || (screen[y][x1] & lo) != 0
}

/// The screen after the rows of `sprite` were drawn one after the other,
/// the first at pixel column `vx` of row `vy`, each next one a row lower.
/// Rows and bytes past the edge wrap around.
pub open spec fn drawn(screen: Seq<Seq<u8>>, cols: int, sprite: Seq<u8>, vx: int, vy: int) -> Seq<
    Seq<u8>,
>
    decreases sprite.len(),
{
    if sprite.len() == 0 {
        screen
    } else {
        let before = drawn(screen, cols, sprite.drop_last(), vx, vy);
        let r = sprite.len() - 1;
        row_drawn(
            before,
            (vy + r) % (screen.len() as int),
            (vx / 8) % cols,
            (vx / 8 + 1) % cols,
            sprite_hi(sprite.last(), vx % 8),
            sprite_lo(sprite.last(), vx % 8),
        )
    }
}

/// Whether any row of `sprite`, drawn as in [`drawn`], turns a lit pixel
/// off.
pub open spec fn collides(screen: Seq<Seq<u8>>, cols: int, sprite: Seq<u8>, vx: int, vy: int) -> bool
    decreases sprite.len(),
{
    if sprite.len() == 0 {
        false
    } else {
        let before = drawn(screen, cols, sprite.drop_last(), vx, vy);
        let r = sprite.len() - 1;
        collides(screen, cols, sprite.drop_last(), vx, vy) || row_collides(
            before,
            (vy + r) % (screen.len() as int),
            (vx / 8) % cols,
            (vx / 8 + 1) % cols,
            sprite_hi(sprite.last(), vx % 8),
            sprite_lo(sprite.last(), vx % 8),
        )
    }
}

/// The number of bytes in a row of `screen`, 0 if it has no row.
pub open spec fn width(screen: Seq<Seq<u8>>) -> int {
    if screen.len() == 0 {
        0
    } else {
        screen[0].len() as int
    }
}

/// The four ways in which a scroll instruction moves the picture.
pub enum Scroll {
    /// Down by so many rows.
    Down(u8),
    /// Up by so many rows.
    Up(u8),
    /// Right by four pixels.
    Right,
    /// Left by four pixels.
    Left,
}

/// The byte that row `y`, place `x` holds after the scroll. What moves in
/// from outside the screen is blank.
pub open spec fn scrolled_cell(screen: Seq<Seq<u8>>, scroll: Scroll, y: int, x: int) -> u8 {
    match scroll {
        Scroll::Down(n) => if y - n >= 0 {
            screen[y - n][x]
        } else {
            0
        },
        Scroll::Up(n) => if y + n < screen.len() {
            screen[y + n][x]
        } else {
            0
        },
        Scroll::Right => (screen[y][x] >> 4) | (if x > 0 {
            screen[y][x - 1] << 4
        } else {
            0
        }),
        Scroll::Left => (screen[y][x] << 4) | (if x + 1 < screen[y].len() {
            screen[y][x + 1] >> 4
        } else {
            0
        }),
    }
}

/// The screen after the scroll.
pub open spec fn scrolled(screen: Seq<Seq<u8>>, scroll: Scroll) -> Seq<Seq<u8>> {
    Seq::new(
        screen.len(),
        |y: int| Seq::new(screen[y].len(), |x: int| scrolled_cell(screen, scroll, y, x)),
    )
}

/// The lowest key that is down, if any is.
pub open spec fn first_key_down(keys: Seq<bool>) -> Option<int> {
    if exists|k: int| 0 <= k < keys.len() && keys[k] {
        Some(choose|k: int| 0 <= k < keys.len() && keys[k] && forall|j: int| 0 <= j < k ==> !keys[j])
    } else {
        None
    }
}

impl Machine {
    /// The same machine with the program counter at `pc`.
    pub open spec fn at(self, pc: int) -> Machine {
        Machine { pc: pc as usize, ..self }
    }

    /// The same machine with `value` in register `x`.
    pub open spec fn with_v(self, x: int, value: u8) -> Machine {
        Machine { v: self.v.update(x, value), ..self }
    }

    /// The same machine with `value` in the flag register `VF`.
    pub open spec fn with_flag(self, value: u8) -> Machine {
        self.with_v(15, value)
    }

    /// The same machine one instruction further, or two if `skip` holds.
    pub open spec fn step_over(self, skip: bool) -> Machine {
        self.at(
            self.pc + if skip {
                4int
            } else {
                2int
            },
        )
    }

    /// Whether stepping over the next instruction, or the next two if
    /// `skip` holds, keeps the program counter in range.
    pub open spec fn can_step_over(self, skip: bool) -> bool {
        self.pc + if skip {
            4int
        } else {
            2int
        } <= usize::MAX
    }

    /// Whether `LD Vx, K` completes now: it has seen a key go down and all
    /// keys are up again.
    pub open spec fn key_wait_done(self) -> bool {
        self.key_state == KeyState::AwaitingRelease && forall|k: int|
            0 <= k < self.keys.len() ==> !self.keys[k]
    }

    /// Whether the machine can carry out `op`. Outside of this the
    /// instruction has no meaning: a register that does not exist, an
    /// address outside memory, a return without a call, a screen without
    /// rows to draw on, a word that is no instruction.
    pub open spec fn can_exec(self, op: ChipOp) -> bool {
        match op {
            ChipOp::ScdN { n } => self.can_step_over(false),
            ChipOp::ScuN { n } => self.can_step_over(false),
            ChipOp::Cls => self.can_step_over(false),
            ChipOp::Ret => 1 <= self.sp <= 16,
            ChipOp::Scr => self.can_step_over(false),
            ChipOp::Scl => self.can_step_over(false),
            ChipOp::Exit => true,
            ChipOp::LowRes => self.can_step_over(false),
            ChipOp::HighRes => self.can_step_over(false),
            ChipOp::JpNnn { nnn } => true,
            ChipOp::CallNnn { nnn } => self.sp < 16 && self.can_step_over(false),
            ChipOp::SeVxNn { x, nn } => x < 16 && self.can_step_over(self.v[x as int] == nn),
            ChipOp::SneVxNn { x, nn } => x < 16 && self.can_step_over(self.v[x as int] != nn),
            ChipOp::SeVxVy { x, y } => x < 16 && y < 16 && self.can_step_over(
                self.v[x as int] == self.v[y as int],
            ),
            ChipOp::LdVxVyI { x, y } => x <= y < 16 && self.i + (y - x) < 4096,
            ChipOp::LdIVxVy { x, y } => x <= y < 16 && self.i + (y - x) < 4096,
            ChipOp::LdVxNn { x, nn } => x < 16 && self.can_step_over(false),
            ChipOp::AddVxNn { x, nn } => x < 16 && self.can_step_over(false),
            ChipOp::LdVxVy { x, y } => x < 16 && y < 16 && self.can_step_over(false),
            ChipOp::OrVxVy { x, y } => x < 16 && y < 16 && self.can_step_over(false),
            ChipOp::AndVxVy { x, y } => x < 16 && y < 16 && self.can_step_over(false),
            ChipOp::XorVxVy { x, y } => x < 16 && y < 16 && self.can_step_over(false),
            ChipOp::AddVxVy { x, y } => x < 16 && y < 16 && self.can_step_over(false),
            ChipOp::SubVxVy { x, y } => x < 16 && y < 16 && self.can_step_over(false),
            ChipOp::ShrVxVy { x, y } => x < 16 && y < 16 && self.can_step_over(false),
            ChipOp::SubnVxVy { x, y } => x < 16 && y < 16 && self.can_step_over(false),
            ChipOp::ShlVxVy { x, y } => x < 16 && y < 16 && self.can_step_over(false),
            ChipOp::SneVxVy { x, y } => x < 16 && y < 16 && self.can_step_over(
                self.v[x as int] != self.v[y as int],
            ),
            ChipOp::LdINnn { nnn } => self.can_step_over(false),
            ChipOp::JpV0Nnn { nnn } => nnn + self.v[0] <= u16::MAX,
            ChipOp::RndVxNn { x, nn } => x < 16 && self.can_step_over(false),
            ChipOp::DrwVxVyN { x, y, n } => {
                &&& x < 16
                &&& y < 16
                &&& self.i + n <= 4096
                &&& n > 0 ==> self.screen.len() > 0 && width(self.screen) > 0
                &&& self.can_step_over(false)
            },
            ChipOp::SkpVx { x } => x < 16 && self.can_step_over(
                self.keys[(self.v[x as int] % 16) as int],
            ),
            ChipOp::SknpVx { x } => x < 16 && self.can_step_over(
                !self.keys[(self.v[x as int] % 16) as int],
            ),
            ChipOp::LdDtVx { x } => x < 16 && self.can_step_over(false),
            ChipOp::LdVxDt { x } => x < 16 && self.can_step_over(false),
            ChipOp::LdVxK { x } => self.key_wait_done() ==> x < 16 && self.can_step_over(false),
            ChipOp::LdStVx { x } => x < 16 && self.can_step_over(false),
            ChipOp::AddIVx { x } => x < 16 && self.i + self.v[x as int] <= usize::MAX
                && self.can_step_over(false),
            ChipOp::LdFVx { x } => x < 16 && self.can_step_over(false),
            ChipOp::LdBVx { x } => x < 16 && self.i + 2 < 4096 && self.can_step_over(false),
            ChipOp::LdIVx { x } => x < 16 && self.i + x < 4096 && self.can_step_over(false),
            ChipOp::LdVxI { x } => x < 16 && self.i + x < 4096 && self.can_step_over(false),
            ChipOp::Unknown(word) => false,
        }
    }

    /// The machine after `op`. `byte` is what the instruction takes from
    /// outside the machine: the random byte of `RND`, the delay timer's
    /// value for `LD Vx, DT`. No other instruction looks at it.
    pub open spec fn step(self, op: ChipOp, byte: u8) -> Machine {
        match op {
            ChipOp::ScdN { n } => Machine {
                screen: scrolled(self.screen, Scroll::Down(n)),
                ..self
            }.step_over(false),
            ChipOp::ScuN { n } => Machine {
                screen: scrolled(self.screen, Scroll::Up(n)),
                ..self
            }.step_over(false),
            ChipOp::Cls => Machine {
                screen: Seq::new(
                    self.screen.len(),
                    |y: int| Seq::new(self.screen[y].len(), |x: int| 0u8),
                ),
                ..self
            }.step_over(false),
            ChipOp::Ret => Machine { sp: (self.sp - 1) as usize, ..self }.at(
                self.stack[self.sp - 1] as int,
            ),
            ChipOp::Scr => Machine {
                screen: scrolled(self.screen, Scroll::Right),
                ..self
            }.step_over(false),
            ChipOp::Scl => Machine {
                screen: scrolled(self.screen, Scroll::Left),
                ..self
            }.step_over(false),
            ChipOp::Exit => Machine { exit: true, ..self },
            ChipOp::LowRes => Machine { resolution: Resolution::Low, ..self }.step_over(false),
            ChipOp::HighRes => Machine { resolution: Resolution::High, ..self }.step_over(false),
            ChipOp::JpNnn { nnn } => self.at(nnn as int),
            ChipOp::CallNnn { nnn } => Machine {
                sp: (self.sp + 1) as usize,
                stack: self.stack.update(self.sp as int, (self.pc + 2) as usize),
                ..self
            }.at(nnn as int),
            ChipOp::SeVxNn { x, nn } => self.step_over(self.v[x as int] == nn),
            ChipOp::SneVxNn { x, nn } => self.step_over(self.v[x as int] != nn),
            ChipOp::SeVxVy { x, y } => self.step_over(self.v[x as int] == self.v[y as int]),
            ChipOp::LdVxVyI { x, y } => Machine {
                memory: Seq::new(
                    self.memory.len(),
                    |a: int|
                        if self.i <= a <= self.i + (y - x) {
                            self.v[x + (a - self.i)]
                        } else {
                            self.memory[a]
                        },
                ),
                ..self
            },
            ChipOp::LdIVxVy { x, y } => Machine {
                v: Seq::new(
                    self.v.len(),
                    |k: int|
                        if x <= k <= y {
                            self.memory[self.i + (k - x)]
                        } else {
                            self.v[k]
                        },
                ),
                ..self
            },
            ChipOp::LdVxNn { x, nn } => self.with_v(x as int, nn).step_over(false),
            ChipOp::AddVxNn { x, nn } => self.with_v(
                x as int,
                ((self.v[x as int] + nn) % 256) as u8,
            ).step_over(false),
            ChipOp::LdVxVy { x, y } => self.with_v(x as int, self.v[y as int]).step_over(false),
            ChipOp::OrVxVy { x, y } => self.with_v(
                x as int,
                self.v[x as int] | self.v[y as int],
            ).step_over(false),
            ChipOp::AndVxVy { x, y } => self.with_v(
                x as int,
                self.v[x as int] & self.v[y as int],
            ).step_over(false),
            ChipOp::XorVxVy { x, y } => self.with_v(
                x as int,
                self.v[x as int] ^ self.v[y as int],
            ).step_over(false),
            ChipOp::AddVxVy { x, y } => {
                let sum = self.v[x as int] + self.v[y as int];
                self.with_v(x as int, (sum % 256) as u8).with_flag(
                    if sum > 255 {
                        1
                    } else {
                        0
                    },
                ).step_over(false)
            },
            ChipOp::SubVxVy { x, y } => {
                let difference = self.v[x as int] - self.v[y as int];
                self.with_v(x as int, (difference % 256) as u8).with_flag(
                    if difference < 0 {
                        0
                    } else {
                        1
                    },
                ).step_over(false)
            },
            ChipOp::ShrVxVy { x, y } => self.with_v(x as int, self.v[y as int] / 2).with_flag(
                self.v[y as int] % 2,
            ).step_over(false),
            ChipOp::SubnVxVy { x, y } => {
                let difference = self.v[y as int] - self.v[x as int];
                self.with_v(x as int, (difference % 256) as u8).with_flag(
                    if difference < 0 {
                        0
                    } else {
                        1
                    },
                ).step_over(false)
            },
            ChipOp::ShlVxVy { x, y } => self.with_v(
                x as int,
                ((self.v[y as int] * 2) % 256) as u8,
            ).with_flag(self.v[y as int] / 128).step_over(false),
            ChipOp::SneVxVy { x, y } => self.step_over(self.v[x as int] != self.v[y as int]),
            ChipOp::LdINnn { nnn } => Machine { i: nnn, ..self }.step_over(false),
            ChipOp::JpV0Nnn { nnn } => self.at(nnn + self.v[0]),
            ChipOp::RndVxNn { x, nn } => self.with_v(x as int, byte & nn).step_over(false),
            ChipOp::DrwVxVyN { x, y, n } => {
                let sprite = self.memory.subrange(self.i as int, self.i + n);
                let vx = self.v[x as int] as int;
                let vy = self.v[y as int] as int;
                let cols = width(self.screen);
                Machine { screen: drawn(self.screen, cols, sprite, vx, vy), ..self }.with_flag(
                    if collides(self.screen, cols, sprite, vx, vy) {
                        1
                    } else {
                        0
                    },
                ).step_over(false)
            },
            ChipOp::SkpVx { x } => self.step_over(self.keys[(self.v[x as int] % 16) as int]),
            ChipOp::SknpVx { x } => self.step_over(!self.keys[(self.v[x as int] % 16) as int]),
            ChipOp::LdDtVx { x } => self.step_over(false),
            ChipOp::LdVxDt { x } => self.with_v(x as int, byte).step_over(false),
            ChipOp::LdVxK { x } => match self.key_state {
                KeyState::AwaitingPress => match first_key_down(self.keys) {
                    Some(key) => Machine {
                        key_state: KeyState::AwaitingRelease,
                        last_key: key as u8,
                        ..self
                    },
                    None => self,
                },
                KeyState::AwaitingRelease => if self.key_wait_done() {
                    Machine { key_state: KeyState::AwaitingPress, ..self }.with_v(
                        x as int,
                        self.last_key,
                    ).step_over(false)
                } else {
                    self
                },
            },
            ChipOp::LdStVx { x } => self.step_over(false),
            ChipOp::AddIVx { x } => Machine {
                i: (self.i + self.v[x as int]) as usize,
                ..self
            }.step_over(false),
            ChipOp::LdFVx { x } => Machine {
                i: ((self.v[x as int] % 16) * 5) as usize,
                ..self
            }.step_over(false),
            ChipOp::LdBVx { x } => {
                let value = self.v[x as int];
                Machine {
                    memory: self.memory.update(self.i as int, (value % 255 / 100) as u8).update(
                        self.i + 1,
                        (value % 100 / 10) as u8,
                    ).update(self.i + 2, (value % 10) as u8),
                    ..self
                }.step_over(false)
            },
            ChipOp::LdIVx { x } => Machine {
                memory: Seq::new(
                    self.memory.len(),
                    |a: int|
                        if self.i <= a <= self.i + x {
                            self.v[a - self.i]
                        } else {
                            self.memory[a]
                        },
                ),
                i: (self.i + x + 1) as usize,
                ..self
            }.step_over(false),
            ChipOp::LdVxI { x } => Machine {
                v: Seq::new(
                    self.v.len(),
                    |k: int|
                        if k <= x {
                            self.memory[self.i + k]
                        } else {
                            self.v[k]
                        },
                ),
                i: (self.i + x + 1) as usize,
                ..self
            }.step_over(false),
            ChipOp::Unknown(word) => self,
        }
    }
}

} // verus!
