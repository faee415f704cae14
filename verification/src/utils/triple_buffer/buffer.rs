//! The shared core: three slots and the atomic word that assigns them.
use super::shared::exchange_word;
use super::shared::load_word;
use super::shared::slot_new;
use super::state::BufferState;
use std::sync::atomic::AtomicU64;
use std::sync::RwLock;
use vstd::prelude::*;

verus! {

/// Three slots of payload and the packed state that says which slot plays
/// which role. Shared by the writer, the reader and their guards.
#[verifier::reject_recursive_types(T)]
pub struct TripleBuffer<T> {
    buffers: [RwLock<T>; 3],
    encoded_state: AtomicU64,
    /// The word that the core was created with.
    first_word: Ghost<u64>,
}

impl<T: Clone> TripleBuffer<T> {
    /// A core in the initial state whose three slots each hold a copy of
    /// `initial`, so that the reader has a value before the first write.
    pub fn new(initial: T) -> (core: Self)
        ensures
            core.starting_state() == BufferState::initial(),
    {
        let encoded_state = BufferState::new().encode();
        proof {
            BufferState::law_round_trip(BufferState::initial());
        }
        TripleBuffer {
            buffers: [slot_new(initial.clone()), slot_new(initial.clone()), slot_new(initial)],
            encoded_state: AtomicU64::new(encoded_state),
            first_word: Ghost(encoded_state),
        }
    }
}

impl<T> TripleBuffer<T> {
    /// The state that the core was created in: the one whose word was
    /// handed to the atomic word when the core was made.
    pub closed spec fn starting_state(&self) -> BufferState {
        BufferState::decode_spec(self.first_word@)
    }

    /// The state that the word holds at the moment of the load.
    pub fn state(&self) -> (s: BufferState)
        ensures
            s.fits(),
    {
        let current = load_word(&self.encoded_state);
        BufferState::decode(current)
    }

    /// The reader's move. With no update pending the loaded state comes
    /// back as it is. Otherwise one exchange is attempted, of the loaded
    /// word for [`BufferState::advance_word`] of it: if it takes effect
    /// the swapped state comes back, and if the writer got in between, the
    /// loaded state, whose read slot is still the reader's. What comes
    /// back for which outcome is [`TripleBuffer::settle_read`].
    pub fn try_swap_read(&self) -> (s: BufferState)
        ensures
            s.fits(),
    {
        let current = load_word(&self.encoded_state);
        let current_state = BufferState::decode(current);
        match BufferState::advance_word(current) {
            None => current_state,
            Some(next) => Self::settle_read(
                current_state,
                exchange_word(&self.encoded_state, current, next),
            ),
        }
    }

    /// The writer's move with one retry.
    pub fn swap_write(&self) -> (s: BufferState)
        ensures
            s.fits(),
        opens_invariants none
        no_unwind
    {
        self.swap_write_retry(1)
    }

    /// The writer's move: up to `retries + 1` times, load the word and try
    /// to exchange it for [`BufferState::publish_word`] of it, the state
    /// with the write and ready slots swapped and the update marked
    /// pending. The first exchange that takes effect ends the call with the
    /// new state. If none does, nothing was changed and the state that the
    /// last attempt loaded comes back. [`TripleBuffer::settle_write`] says
    /// what each attempt comes to.
    pub fn swap_write_retry(&self, retries: usize) -> (s: BufferState)
        ensures
            s.fits(),
        opens_invariants none
        no_unwind
    {
        let mut attempt: usize = 0;
        loop
            invariant
                attempt <= retries,
            decreases retries - attempt,
        {
            let current = load_word(&self.encoded_state);
            let exchanged = exchange_word(
                &self.encoded_state,
                current,
                BufferState::publish_word(current),
            );
            match Self::settle_write(BufferState::decode(current), exchanged, attempt == retries) {
                Some(settled) => {
                    return settled;
                },
                None => {},
            }
            attempt = attempt + 1;
        }
    }

    /// What one attempt of the writer's move comes to: the swapped state
    /// if the exchange took effect; the loaded state, as it was before the
    /// attempt, if it did not and this was the last attempt; and nothing
    /// yet if another attempt follows.
    pub fn settle_write(loaded: BufferState, exchanged: bool, last: bool) -> (s: Option<
        BufferState,
    >)
        ensures
            s == loaded.write_outcome(exchanged, last),
        opens_invariants none
        no_unwind
    {
        if exchanged {
            Some(loaded.with_write_swapped())
        } else if last {
            Some(loaded)
        } else {
            None
        }
    }

    /// What the reader's move answers: the swapped state if the exchange
    /// took effect, the loaded state otherwise.
    pub fn settle_read(loaded: BufferState, exchanged: bool) -> (s: BufferState)
        ensures
            s == loaded.read_outcome(exchanged),
    {
        if exchanged {
            loaded.with_read_swapped()
        } else {
            loaded
        }
    }

    /// The lock that holds slot `idx`.
    pub closed spec fn lock(&self, idx: int) -> RwLock<T> {
        self.buffers@[idx]
    }

    /// The lock that holds slot `idx`.
    pub(crate) fn slot(&self, idx: usize) -> (lock: &RwLock<T>)
        requires
            idx < 3,
        ensures
            *lock == self.lock(idx as int),
    {
        &self.buffers[idx]
    }
}

} // verus!
