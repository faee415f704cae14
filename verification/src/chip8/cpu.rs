//! The interpreter.
use super::consts::CHIP8_FONTSET;
use super::consts::H;
use super::consts::PROGRAM_START;
use super::consts::W;
use super::machine::KeyState;
use super::machine::Machine;
use super::machine::Resolution;
use super::mem::Memory;
use super::op::ChipOp;
use super::screen::Screen;
use super::timers::new_timer;
use std::sync::atomic::AtomicU8;
use std::sync::Arc;
use vstd::prelude::*;

verus! {

impl Resolution {
    /// How many times larger than the low resolution the picture is, in
    /// each direction.
    pub fn factor(&self) -> (f: usize)
        ensures
            f == match *self {
                Resolution::High => 2usize,
                Resolution::Low => 1usize,
            },
    {
        match self {
            Resolution::High => 2,
            Resolution::Low => 1,
        }
    }
}

impl Default for Resolution {
    fn default() -> (r: Resolution)
        ensures
            r == Resolution::Low,
    {
        Resolution::Low
    }
}

impl Default for KeyState {
    fn default() -> (k: KeyState)
        ensures
            k == KeyState::AwaitingPress,
    {
        KeyState::AwaitingPress
    }
}

/// A CHIP-8 machine.
pub struct Chip8 {
    /// Program counter.
    pub pc: usize,
    /// General purpose registers.
    pub v: [u8; 16],
    /// Address register.
    pub i: usize,
    /// Stack pointer.
    pub sp: usize,
    /// Delay timer.
    pub dt: Arc<AtomicU8>,
    /// Sound timer.
    pub st: Arc<AtomicU8>,
    pub keys: [bool; 16],
    pub stack: [usize; 16],
    pub screen: Screen,
    pub memory: Memory,
    pub resolution: Resolution,
    pub key_state: KeyState,
    pub last_key: u8,
    pub exit: bool,
}

impl View for Chip8 {
    type V = Machine;

    open spec fn view(&self) -> Machine {
        Machine {
            pc: self.pc,
            v: self.v@,
            i: self.i,
            sp: self.sp,
            keys: self.keys@,
            stack: self.stack@,
            screen: self.screen@,
            memory: self.memory.0@,
            resolution: self.resolution,
            key_state: self.key_state,
            last_key: self.last_key,
            exit: self.exit,
        }
    }
}

/// The machine at rest: everything zero, no key down, nothing on the stack,
/// low resolution, waiting for a key press, with the given screen and the
/// program counter at `pc`.
pub open spec fn blank_machine(pc: usize, screen: Seq<Seq<u8>>) -> Machine {
    Machine {
        pc,
        v: Seq::new(16, |k: int| 0u8),
        i: 0,
        sp: 0,
        keys: Seq::new(16, |k: int| false),
        stack: Seq::new(16, |k: int| 0usize),
        screen,
        memory: Seq::new(4096, |a: int| 0u8),
        resolution: Resolution::Low,
        key_state: KeyState::AwaitingPress,
        last_key: 0,
        exit: false,
    }
}

impl Default for Chip8 {
    /// A machine at rest with no screen and the program counter at 0.
    fn default() -> (chip: Chip8)
        ensures
            chip@ == blank_machine(0, Seq::empty()),
    {
        let chip = Chip8 {
            pc: 0,
            v: [0u8; 16],
            i: 0,
            sp: 0,
            dt: new_timer(),
            st: new_timer(),
            keys: [false; 16],
            stack: [0usize; 16],
            screen: Screen::empty(),
            memory: Memory::new(),
            resolution: Resolution::Low,
            key_state: KeyState::AwaitingPress,
            last_key: 0,
            exit: false,
        };
        assert(chip@.v =~= Seq::new(16, |k: int| 0u8));
        assert(chip@.keys =~= Seq::new(16, |k: int| false));
        assert(chip@.stack =~= Seq::new(16, |k: int| 0usize));
        chip
    }
}

impl Clone for Chip8 {
    /// A machine in the same state that shares the two timers.
    fn clone(&self) -> (chip: Chip8)
        ensures
            chip@ == self@,
            chip.dt == self.dt,
            chip.st == self.st,
    {
        Chip8 {
            pc: self.pc,
            v: self.v,
            i: self.i,
            sp: self.sp,
            dt: self.dt.clone(),
            st: self.st.clone(),
            keys: self.keys,
            stack: self.stack,
            screen: self.screen.clone(),
            memory: self.memory.clone(),
            resolution: self.resolution,
            key_state: self.key_state,
            last_key: self.last_key,
            exit: self.exit,
        }
    }
}

impl Chip8 {
    /// A machine at rest with a blank screen of `H` rows of `W` bytes and
    /// the program counter at the start of program memory.
    pub fn new() -> (chip: Chip8)
        ensures
            chip@ == blank_machine(PROGRAM_START, super::screen::uniform(H as nat, W as nat, 0)),
    {
        let mut chip = Chip8::default();
        chip.pc = PROGRAM_START;
        chip.screen = Screen::zeros(H, W);
        chip
    }

    /// Copies the font to the start of memory.
    pub fn load_font(&mut self)
        ensures
            final(self)@ == (Machine {
                memory: Seq::new(
                    4096,
                    |a: int|
                        if a < 80 {
                            CHIP8_FONTSET@[a]
                        } else {
                            old(self)@.memory[a]
                        },
                ),
                ..old(self)@
            }),
            final(self).dt == old(self).dt,
            final(self).st == old(self).st,
    {
        let mut k: usize = 0;
        while k < 80
            invariant
                k <= 80,
                self@ == (Machine { memory: self@.memory, ..old(self)@ }),
                self.dt == old(self).dt,
                self.st == old(self).st,
                forall|a: int| 0 <= a < k ==> self@.memory[a] == CHIP8_FONTSET@[a],
                forall|a: int| k <= a < 4096 ==> self@.memory[a] == old(self)@.memory[a],
            decreases 80 - k,
        {
            self.memory.0[k] = CHIP8_FONTSET[k];
            k = k + 1;
        }
        assert(self@.memory =~= Seq::new(
            4096,
            |a: int|
                if a < 80 {
                    CHIP8_FONTSET@[a]
                } else {
                    old(self)@.memory[a]
                },
        ));
    }

    /// Marks `key` as down.
    pub fn press_key(&mut self, key: u8)
        requires
            key < 16,
        ensures
            final(self)@ == (Machine { keys: old(self)@.keys.update(key as int, true), ..old(self)@ }),
            final(self).dt == old(self).dt,
            final(self).st == old(self).st,
    {
        self.keys[key as usize] = true;
    }

    /// Marks `key` as up.
    pub fn release_key(&mut self, key: u8)
        requires
            key < 16,
        ensures
            final(self)@ == (Machine {
                keys: old(self)@.keys.update(key as int, false),
                ..old(self)@
            }),
            final(self).dt == old(self).dt,
            final(self).st == old(self).st,
    {
        self.keys[key as usize] = false;
    }
}

} // verus!
