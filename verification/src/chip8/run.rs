//! Fetching instructions and running the machine.
use super::cpu::Chip8;
use super::decode::decode;
use super::decode::decode_spec;
use super::exec::same_timers;
use super::machine::width;
use super::machine::KeyState;
use super::machine::Machine;
use super::op::ChipOp;
use super::random::random_byte;
use super::timers::read_timer;
use super::timers::set_timer;
use vstd::prelude::*;

verus! {

impl Machine {
    /// The instruction word at the program counter, high byte first, if
    /// both of its bytes lie in memory.
    pub open spec fn fetch(self) -> Option<u16> {
        if self.pc + 1 < 4096 {
            Some((self.memory[self.pc as int] * 256 + self.memory[self.pc + 1]) as u16)
        } else {
            None
        }
    }

    /// Whether the machine can carry out the instruction at the program
    /// counter.
    pub open spec fn can_run(self) -> bool {
        match self.fetch() {
            Some(word) => self.can_exec(decode_spec(word)),
            None => false,
        }
    }

    /// The machine after it has fetched and carried out one instruction,
    /// given the byte that the instruction takes from outside.
    pub open spec fn cycle(self, byte: u8) -> Machine {
        self.step(decode_spec(self.fetch().unwrap()), byte)
    }

    /// The machine after as many cycles as `bytes` is long, the cycles
    /// taking their outside bytes from `bytes` in order.
    #[verifier::opaque]
    pub open spec fn run(self, bytes: Seq<u8>) -> Machine
        decreases bytes.len(),
    {
        if bytes.len() == 0 {
            self
        } else {
            self.run(bytes.drop_last()).cycle(bytes.last())
        }
    }

    /// Whether the machine can run that many cycles: before each of them
    /// it can carry out the instruction at the program counter.
    #[verifier::opaque]
    pub open spec fn runs(self, bytes: Seq<u8>) -> bool
        decreases bytes.len(),
    {
        bytes.len() > 0 ==> self.runs(bytes.drop_last()) && self.run(bytes.drop_last()).can_run()
    }

    /// A run of no cycles is always possible and changes nothing.
    pub proof fn lemma_run_nothing(self)
        ensures
            self.runs(Seq::empty()),
            self.run(Seq::empty()) == self,
    {
        reveal(Machine::run);
        reveal(Machine::runs);
    }

    /// One more cycle after a run is a run that is one byte longer.
    pub proof fn lemma_run_on(self, bytes: Seq<u8>, byte: u8)
        requires
            self.runs(bytes),
            self.run(bytes).can_run(),
        ensures
            self.runs(bytes.push(byte)),
            self.run(bytes.push(byte)) == self.run(bytes).cycle(byte),
    {
        reveal(Machine::run);
        reveal(Machine::runs);
        assert(bytes.push(byte).drop_last() =~= bytes);
    }

    /// `after` is what `op` makes of the machine for some outside byte.
    pub open spec fn steps_to(self, op: ChipOp, after: Machine) -> bool {
        exists|byte: u8| after == #[trigger] self.step(op, byte)
    }

    /// `after` is what `count` cycles make of the machine for some outside
    /// bytes.
    pub open spec fn runs_to(self, count: nat, after: Machine) -> bool {
        exists|bytes: Seq<u8>|
            bytes.len() == count && #[trigger] self.runs(bytes) && after == self.run(bytes)
    }
}

impl Chip8 {
    /// Whether the machine can carry out `op`.
    pub fn check(&self, op: ChipOp) -> (ok: bool)
        ensures
            ok == self@.can_exec(op),
    {
        let next = self.pc <= usize::MAX - 2;
        let skip = self.pc <= usize::MAX - 4;
        match op {
            ChipOp::ScdN { .. }
            | ChipOp::ScuN { .. }
            | ChipOp::Cls
            | ChipOp::Scr
            | ChipOp::Scl
            | ChipOp::LowRes
            | ChipOp::HighRes
            | ChipOp::LdINnn { .. } => next,
            ChipOp::Ret => 1 <= self.sp && self.sp <= 16,
            ChipOp::Exit | ChipOp::JpNnn { .. } => true,
            ChipOp::CallNnn { .. } => self.sp < 16 && next,
            ChipOp::SeVxNn { x, nn } => x < 16 && if self.v[x] == nn {
                skip
            } else {
                next
            },
            ChipOp::SneVxNn { x, nn } => x < 16 && if self.v[x] != nn {
                skip
            } else {
                next
            },
            ChipOp::SeVxVy { x, y } => x < 16 && y < 16 && if self.v[x] == self.v[y] {
                skip
            } else {
                next
            },
            ChipOp::SneVxVy { x, y } => x < 16 && y < 16 && if self.v[x] != self.v[y] {
                skip
            } else {
                next
            },
            ChipOp::LdVxVyI { x, y } | ChipOp::LdIVxVy { x, y } => x <= y && y < 16 && self.i
                < 4096 && y - x < 4096 - self.i,
            ChipOp::LdVxNn { x, .. }
            | ChipOp::AddVxNn { x, .. }
            | ChipOp::RndVxNn { x, .. }
            | ChipOp::LdDtVx { x }
            | ChipOp::LdVxDt { x }
            | ChipOp::LdStVx { x }
            | ChipOp::LdFVx { x } => x < 16 && next,
            ChipOp::LdVxVy { x, y }
            | ChipOp::OrVxVy { x, y }
            | ChipOp::AndVxVy { x, y }
            | ChipOp::XorVxVy { x, y }
            | ChipOp::AddVxVy { x, y }
            | ChipOp::SubVxVy { x, y }
            | ChipOp::ShrVxVy { x, y }
            | ChipOp::SubnVxVy { x, y }
            | ChipOp::ShlVxVy { x, y } => x < 16 && y < 16 && next,
            ChipOp::JpV0Nnn { nnn } => nnn <= u16::MAX - self.v[0] as u16,
            ChipOp::DrwVxVyN { x, y, n } => {
                let (rows, cols) = self.screen.dim();
                proof {
                    if rows > 0 {
                        assert(self.screen@[0].len() == cols);
                    }
                }
                x < 16 && y < 16 && self.i <= 4096 && n as usize <= 4096 - self.i && (n == 0 || (
                rows > 0 && cols > 0)) && next
            },
            ChipOp::SkpVx { x } => {
                if x < 16 {
                    let vx = self.v[x];
                    assert(vx & 0xF == vx % 16) by (bit_vector);
                    if self.keys[(vx & 0xF) as usize] {
                        skip
                    } else {
                        next
                    }
                } else {
                    false
                }
            },
            ChipOp::SknpVx { x } => {
                if x < 16 {
                    let vx = self.v[x];
                    assert(vx & 0xF == vx % 16) by (bit_vector);
                    if !self.keys[(vx & 0xF) as usize] {
                        skip
                    } else {
                        next
                    }
                } else {
                    false
                }
            },
            ChipOp::LdVxK { x } => !self.key_wait_done() || (x < 16 && next),
            ChipOp::AddIVx { x } => x < 16 && self.v[x] as usize <= usize::MAX - self.i && next,
            ChipOp::LdBVx { x } => x < 16 && self.i < 4094 && next,
            ChipOp::LdIVx { x } | ChipOp::LdVxI { x } => x < 16 && self.i < 4096 && x < 4096
                - self.i && next,
            ChipOp::Unknown(_) => false,
        }
    }

    /// Whether `LD Vx, K` would complete now.
    pub fn key_wait_done(&self) -> (done: bool)
        ensures
            done == self@.key_wait_done(),
    {
        match self.key_state {
            KeyState::AwaitingPress => false,
            KeyState::AwaitingRelease => {
                let mut key: usize = 0;
                while key < 16
                    invariant
                        key <= 16,
                        forall|j: int| 0 <= j < key ==> !self@.keys[j],
                    decreases 16 - key,
                {
                    if self.keys[key] {
                        assert(self@.keys[key as int]);
                        return false;
                    }
                    key = key + 1;
                }
                true
            },
        }
    }

    /// Carries out `op` and says which outside byte it used. `RND` draws a
    /// random byte and `LD Vx, DT` reads the delay timer; `LD DT, Vx` and
    /// `LD ST, Vx` start the timers, which is all they do besides moving
    /// on.
    fn exec_drawing(&mut self, op: ChipOp) -> (byte: u8)
        requires
            old(self)@.can_exec(op),
        ensures
            final(self)@ == old(self)@.step(op, byte),
            !(op is RndVxNn) && !(op is LdVxDt) ==> byte == 0,
            same_timers(final(self), old(self)),
    {
        let byte = match op {
            ChipOp::RndVxNn { .. } => random_byte(),
            ChipOp::LdVxDt { .. } => read_timer(&self.dt),
            ChipOp::LdDtVx { x } => {
                set_timer(&self.dt, self.v[x]);
                0
            },
            ChipOp::LdStVx { x } => {
                set_timer(&self.st, self.v[x]);
                0
            },
            _ => 0,
        };
        self.exec_with(op, byte);
        byte
    }

    /// Carries out `op`. Every instruction but `RND` and `LD Vx, DT` has
    /// one outcome; those two have one for each byte that may come from
    /// outside.
    pub fn exec(&mut self, op: ChipOp)
        requires
            old(self)@.can_exec(op),
        ensures
            old(self)@.steps_to(op, final(self)@),
            !(op is RndVxNn) && !(op is LdVxDt) ==> final(self)@ == old(self)@.step(op, 0),
            same_timers(final(self), old(self)),
    {
        let _ = self.exec_drawing(op);
    }

    /// The instruction word at the program counter, if both of its bytes
    /// lie in memory.
    pub fn fetch(&self) -> (word: Option<u16>)
        ensures
            word == self@.fetch(),
    {
        if self.pc < 4095 {
            let high = self.memory.0[self.pc];
            let low = self.memory.0[self.pc + 1];
            Some(high as u16 * 256 + low as u16)
        } else {
            None
        }
    }

    /// Fetches and carries out one instruction, if the machine can, and
    /// says which outside byte it used.
    fn cycle(&mut self) -> (used: Option<u8>)
        ensures
            used matches Some(byte) ==> old(self)@.can_run() && final(self)@ == old(self)@.cycle(byte),
            used is None ==> !old(self)@.can_run() && final(self)@ == old(self)@,
            same_timers(final(self), old(self)),
    {
        match self.fetch() {
            Some(word) => {
                let op = decode(word);
                if self.check(op) {
                    Some(self.exec_drawing(op))
                } else {
                    None
                }
            },
            None => None,
        }
    }

    /// Runs up to `cycles` instructions and says how many were carried
    /// out. The machine stops early, and only then, before an instruction
    /// that it cannot carry out.
    pub fn run_step(&mut self, cycles: u64) -> (done: u64)
        ensures
            done <= cycles,
            old(self)@.runs_to(done as nat, final(self)@),
            done < cycles ==> !final(self)@.can_run(),
            same_timers(final(self), old(self)),
    {
        let mut done: u64 = 0;
        let ghost mut bytes = Seq::<u8>::empty();
        proof {
            self@.lemma_run_nothing();
        }
        let mut stopped = false;
        while done < cycles && !stopped
            invariant
                done <= cycles,
                bytes.len() == done,
                old(self)@.runs(bytes),
                self@ == old(self)@.run(bytes),
                stopped ==> !self@.can_run(),
                same_timers(self, old(self)),
            decreases cycles - done + if stopped { 0int } else { 1int },
        {
            match self.cycle() {
                Some(byte) => {
                    proof {
                        old(self)@.lemma_run_on(bytes, byte);
                        bytes = bytes.push(byte);
                    }
                    done = done + 1;
                },
                None => {
                    stopped = true;
                },
            }
        }
        assert(old(self)@.runs_to(done as nat, self@));
        done
    }

    /// Copies `program` to the start of program memory.
    pub fn load_program(&mut self, program: &[u8])
        requires
            program@.len() <= 4096 - 0x200,
        ensures
            final(self)@ == (Machine {
                memory: Seq::new(
                    4096,
                    |a: int|
                        if 0x200 <= a < 0x200 + program@.len() {
                            program@[a - 0x200]
                        } else {
                            old(self)@.memory[a]
                        },
                ),
                ..old(self)@
            }),
            same_timers(final(self), old(self)),
    {
        let mut k: usize = 0;
        while k < program.len()
            invariant
                k <= program@.len() <= 4096 - 0x200,
                self@ == (Machine { memory: self@.memory, ..old(self)@ }),
                same_timers(self, old(self)),
                forall|a: int|
                    0 <= a < 4096 ==> self@.memory[a] == if 0x200 <= a < 0x200 + k {
                        program@[a - 0x200]
                    } else {
                        old(self)@.memory[a]
                    },
            decreases program@.len() - k,
        {
            self.memory.0[0x200 + k] = program[k];
            k = k + 1;
        }
        assert(self@.memory =~= Seq::new(
            4096,
            |a: int|
                if 0x200 <= a < 0x200 + program@.len() {
                    program@[a - 0x200]
                } else {
                    old(self)@.memory[a]
                },
        ));
    }
}

} // verus!
