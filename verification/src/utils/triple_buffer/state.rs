//! The state descriptor of a triple buffer: which slot plays which role,
//! packed into one machine word so that it can be exchanged atomically.
//!
//! Word layout: bits 0-3 read index, bits 4-7 ready index, bits 8-11 write
//! index, bits 12-15 the dirty flag (1 when set). Higher bits are unused.
use vstd::prelude::*;

verus! {

/// Which of the three slots is being read, which one holds the latest
/// complete write, which one is being written, and whether the ready slot
/// holds an update that the reader has not picked up yet.
#[derive(Clone, Copy, PartialEq, Eq, Debug, Structural)]
pub struct BufferState {
    pub read_idx: usize,
    pub ready_idx: usize,
    pub write_idx: usize,
    pub dirty: bool,
}

/// One successful transition of the shared word.
pub enum Step {
    /// The writer swapped its slot with the ready slot.
    Publish,
    /// The reader asked for fresher data.
    Advance,
}

impl BufferState {
    /// Slot 0 is read, slot 1 is ready, slot 2 is written, nothing is pending.
    pub open spec fn initial() -> BufferState {
        BufferState { read_idx: 0, ready_idx: 1, write_idx: 2, dirty: false }
    }

    /// The three roles name the slots 0, 1 and 2, each exactly once.
    pub open spec fn is_valid(self) -> bool {
        &&& self.read_idx < 3
        &&& self.ready_idx < 3
        &&& self.write_idx < 3
        &&& self.read_idx != self.ready_idx
        &&& self.read_idx != self.write_idx
        &&& self.ready_idx != self.write_idx
    }

    /// Every index fits the four bits that the packed word has for it.
    pub open spec fn fits(self) -> bool {
        self.read_idx < 16 && self.ready_idx < 16 && self.write_idx < 16
    }

    /// The state that a word stands for. Only the low sixteen bits count;
    /// the flag is set when its field holds exactly 1.
    pub open spec fn decode_spec(word: u64) -> BufferState {
        BufferState {
            read_idx: (word % 16) as usize,
            ready_idx: (word / 16 % 16) as usize,
            write_idx: (word / 256 % 16) as usize,
            dirty: word / 4096 % 16 == 1,
        }
    }

    /// The packed word, bit by bit: each field is laid over its own place,
    /// so an index of 16 or more spills into the fields above it.
    pub open spec fn encode_spec(self) -> u64 {
        (self.read_idx as u64) | ((self.ready_idx as u64) << 4) | ((self.write_idx as u64) << 8)
            | ((if self.dirty { 1u64 } else { 0u64 }) << 12)
    }

    /// The writer's transition: the written slot becomes the ready one, the
    /// former ready slot is written next, and an update is pending.
    pub open spec fn write_swapped(self) -> BufferState {
        BufferState {
            read_idx: self.read_idx,
            ready_idx: self.write_idx,
            write_idx: self.ready_idx,
            dirty: true,
        }
    }

    /// The reader's transition: the ready slot becomes the read one, the
    /// former read slot becomes ready, and nothing is pending any more.
    pub open spec fn read_swapped(self) -> BufferState {
        BufferState {
            read_idx: self.ready_idx,
            ready_idx: self.read_idx,
            write_idx: self.write_idx,
            dirty: false,
        }
    }

    /// What the reader moves to when it asks for fresher data: the swapped
    /// state if an update is pending, the same state otherwise.
    pub open spec fn advanced(self) -> BufferState {
        if self.dirty {
            self.read_swapped()
        } else {
            self
        }
    }

    /// The word that the writer offers in exchange for `word`.
    pub open spec fn published_word(word: u64) -> u64 {
        Self::decode_spec(word).write_swapped().encode_spec()
    }

    /// The word that the reader offers in exchange for `word`, if `word`
    /// says that an update is pending; otherwise the reader offers none.
    pub open spec fn advanced_word(word: u64) -> Option<u64> {
        if Self::decode_spec(word).dirty {
            Some(Self::decode_spec(word).read_swapped().encode_spec())
        } else {
            None
        }
    }

    /// What the reader's move answers when it loaded this state: the
    /// swapped state if its exchange took effect, this state otherwise.
    pub open spec fn read_outcome(self, exchanged: bool) -> BufferState {
        if exchanged {
            self.read_swapped()
        } else {
            self
        }
    }

    /// What one attempt of the writer's move comes to when it loaded this
    /// state: the swapped state if the exchange took effect; this state,
    /// unchanged, if it did not and the attempt was the last; and nothing
    /// yet if it did not and another attempt follows.
    pub open spec fn write_outcome(self, exchanged: bool, last: bool) -> Option<BufferState> {
        if exchanged {
            Some(self.write_swapped())
        } else if last {
            Some(self)
        } else {
            None
        }
    }

    pub open spec fn after(self, step: Step) -> BufferState {
        match step {
            Step::Publish => self.write_swapped(),
            Step::Advance => self.advanced(),
        }
    }

    /// The state after `steps`, taken in order.
    pub open spec fn run(self, steps: Seq<Step>) -> BufferState
        decreases steps.len(),
    {
        if steps.len() == 0 {
            self
        } else {
            self.run(steps.drop_last()).after(steps.last())
        }
    }

    pub fn new() -> (s: BufferState)
        ensures
            s == Self::initial(),
    {
        BufferState { read_idx: 0, ready_idx: 1, write_idx: 2, dirty: false }
    }

    pub fn decode(state: u64) -> (s: BufferState)
        ensures
            s == Self::decode_spec(state),
            s.fits(),
        opens_invariants none
        no_unwind
    {
        proof {
            assert(state & 0xF == state % 16) by (bit_vector);
            assert((state >> 4) & 0xF == (state / 16) % 16) by (bit_vector);
            assert((state >> 8) & 0xF == (state / 256) % 16) by (bit_vector);
            assert((state >> 12) & 0xF == (state / 4096) % 16) by (bit_vector);
        }
        BufferState {
            read_idx: (state & 0xF) as usize,
            ready_idx: ((state >> 4) & 0xF) as usize,
            write_idx: ((state >> 8) & 0xF) as usize,
            dirty: (state >> 12) & 0xF == 1,
        }
    }

    pub fn encode(&self) -> (word: u64)
        ensures
            word == self.encode_spec(),
            self.fits() ==> word == self.read_idx + 16 * self.ready_idx + 256 * self.write_idx
                + 4096 * (if self.dirty { 1int } else { 0int }),
        opens_invariants none
        no_unwind
    {
        let read: u64 = self.read_idx as u64;
        let ready: u64 = self.ready_idx as u64;
        let write: u64 = self.write_idx as u64;
        let flag: u64 = if self.dirty { 1 } else { 0 };
        let mut out: u64 = 0;
        out |= read;
        out |= ready << 4;
        out |= write << 8;
        out |= flag << 12;
        proof {
            assert(0u64 | read == read) by (bit_vector);
            Self::lemma_packed_sum(read, ready, write, flag);
        }
        out
    }

    /// The state after the writer's swap.
    pub fn with_write_swapped(self) -> (next: BufferState)
        ensures
            next == self.write_swapped(),
        opens_invariants none
        no_unwind
    {
        BufferState {
            read_idx: self.read_idx,
            ready_idx: self.write_idx,
            write_idx: self.ready_idx,
            dirty: true,
        }
    }

    /// The state after the reader's swap.
    pub fn with_read_swapped(self) -> (next: BufferState)
        ensures
            next == self.read_swapped(),
    {
        BufferState {
            read_idx: self.ready_idx,
            ready_idx: self.read_idx,
            write_idx: self.write_idx,
            dirty: false,
        }
    }

    /// The word that the writer offers in exchange for `word`.
    pub fn publish_word(word: u64) -> (next: u64)
        ensures
            next == Self::published_word(word),
        opens_invariants none
        no_unwind
    {
        Self::decode(word).with_write_swapped().encode()
    }

    /// The word that the reader offers in exchange for `word`, if any.
    pub fn advance_word(word: u64) -> (next: Option<u64>)
        ensures
            next == Self::advanced_word(word),
    {
        let state = Self::decode(word);
        if state.dirty {
            Some(state.with_read_swapped().encode())
        } else {
            None
        }
    }

    proof fn lemma_packed_sum(read: u64, ready: u64, write: u64, flag: u64)
        ensures
            read < 16 && ready < 16 && write < 16 && flag < 2 ==> (read | (ready << 4) | (write
                << 8) | (flag << 12)) == read + 16 * ready + 256 * write + 4096 * flag,
    {
        assert(read < 16 && ready < 16 && write < 16 && flag < 2 ==> (read | (ready << 4) | (write
            << 8) | (flag << 12)) == read + 16 * ready + 256 * write + 4096 * flag)
            by (bit_vector);
    }

    /// Decoding undoes encoding for every state whose indices fit their
    /// fields, so in particular for every assignment of the slots 0, 1, 2
    /// to the three roles, with the flag set or clear.
    pub proof fn law_round_trip(s: BufferState)
        requires
            s.fits(),
        ensures
            Self::decode_spec(s.encode_spec()) == s,
    {
        let flag: u64 = if s.dirty { 1 } else { 0 };
        Self::lemma_packed_sum(s.read_idx as u64, s.ready_idx as u64, s.write_idx as u64, flag);
    }

    /// A valid state fits the packed word.
    pub proof fn law_valid_fits(s: BufferState)
        requires
            s.is_valid(),
        ensures
            s.fits(),
            Self::decode_spec(s.encode_spec()) == s,
    {
        Self::law_round_trip(s);
    }

    /// Bits above the sixteenth do not change what a word decodes to.
    pub proof fn law_decode_ignores_high_bits(word: u64)
        ensures
            Self::decode_spec(word) == Self::decode_spec(word & 0xFFFF),
    {
        let low = word & 0xFFFF;
        assert(low % 16 == word % 16 && low / 16 % 16 == word / 16 % 16 && low / 256 % 16 == word
            / 256 % 16 && low / 4096 % 16 == word / 4096 % 16) by (bit_vector)
            requires
                low == word & 0xFFFF,
        ;
    }

    /// Neither transition lets two roles name the same slot.
    pub proof fn law_step_keeps_roles_disjoint(s: BufferState, step: Step)
        requires
            s.is_valid(),
        ensures
            s.after(step).is_valid(),
    {
    }

    /// The words that the two sides offer in exchange for a word of a
    /// valid state are the words of the swapped states, which are valid
    /// again; so is the word that a new core starts with.
    pub proof fn law_words_stay_valid(word: u64)
        requires
            Self::decode_spec(word).is_valid(),
        ensures
            Self::decode_spec(Self::published_word(word)) == Self::decode_spec(
                word,
            ).write_swapped(),
            Self::decode_spec(Self::published_word(word)).is_valid(),
            Self::advanced_word(word) matches Some(next) ==> Self::decode_spec(next)
                == Self::decode_spec(word).read_swapped() && Self::decode_spec(next).is_valid(),
            Self::decode_spec(Self::initial().encode_spec()) == Self::initial(),
    {
        let state = Self::decode_spec(word);
        Self::law_round_trip(state.write_swapped());
        Self::law_round_trip(state.read_swapped());
        Self::law_round_trip(Self::initial());
    }

    /// Whatever the two sides answer from a valid loaded state is valid
    /// again, whether the exchange took effect or not.
    pub proof fn law_outcomes_keep_roles_disjoint(loaded: BufferState, exchanged: bool, last: bool)
        requires
            loaded.is_valid(),
        ensures
            loaded.read_outcome(exchanged).is_valid(),
            loaded.write_outcome(exchanged, last) matches Some(s) ==> s.is_valid(),
    {
    }

    /// From the initial state, whatever the writer and the reader do and in
    /// whatever order, the three roles always name three different slots.
    pub proof fn law_roles_stay_disjoint(steps: Seq<Step>)
        ensures
            Self::initial().run(steps).is_valid(),
        decreases steps.len(),
    {
        if steps.len() > 0 {
            Self::law_roles_stay_disjoint(steps.drop_last());
        }
    }

    /// However often the writer publishes, the read slot stays the read
    /// slot and is never the one written to: what an open read guard sees
    /// is not written under it.
    pub proof fn law_publishes_keep_read_slot(s: BufferState, steps: Seq<Step>)
        requires
            s.is_valid(),
            forall|k: int| 0 <= k < steps.len() ==> steps[k] is Publish,
        ensures
            s.run(steps).read_idx == s.read_idx,
            s.run(steps).write_idx != s.read_idx,
            s.run(steps).is_valid(),
        decreases steps.len(),
    {
        if steps.len() > 0 {
            Self::law_publishes_keep_read_slot(s, steps.drop_last());
        }
    }

    /// The writer's swap leaves the read slot alone and the reader's swap
    /// leaves the write slot alone: neither side ever takes the slot that
    /// the other one is using.
    pub proof fn law_sides_do_not_interfere(s: BufferState)
        ensures
            s.write_swapped().read_idx == s.read_idx,
            s.advanced().write_idx == s.write_idx,
    {
    }

    /// Once the writer has published, the reader's next advance lands on
    /// the slot that was written, and nothing is pending after it.
    pub proof fn law_publish_then_advance(s: BufferState)
        ensures
            s.write_swapped().advanced().read_idx == s.write_idx,
            !s.write_swapped().advanced().dirty,
    {
    }
}

} // verus!
