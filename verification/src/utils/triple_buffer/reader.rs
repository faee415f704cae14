//! The consumer's half and its guard.
use super::buffer::TripleBuffer;
use super::count::one_less;
use super::count::one_more;
use super::shared::counter_get;
use super::shared::counter_new;
use super::shared::counter_set;
use super::shared::read_guard_get;
use super::shared::slot_try_read;
use super::state::BufferState;
use std::cell::Cell;
use std::ops::Deref;
use std::sync::Arc;
use std::sync::RwLockReadGuard;
use vstd::prelude::*;

verus! {

/// The reader half of a triple buffer. There is one per core; it cannot be
/// copied, and it can move to another thread but not be shared.
#[verifier::reject_recursive_types(T)]
pub struct TripleBufferReader<T> {
    buffer: Arc<TripleBuffer<T>>,
    borrowers: Cell<usize>,
    /// The count that the reader was created with.
    first_count: Ghost<usize>,
}

/// Shared access to the slot that was the read slot when the guard was
/// made. Dropping the guard takes it off the reader's count.
#[verifier::reject_recursive_types(T)]
pub struct ReadHandle<'a, T> {
    read_cell: RwLockReadGuard<'a, T>,
    parent: &'a TripleBufferReader<T>,
}

impl<T> TripleBufferReader<T> {
    /// The core that this reader reads from.
    pub closed spec fn buffer(&self) -> Arc<TripleBuffer<T>> {
        self.buffer
    }

    /// The number of outstanding guards that the reader was created with.
    pub closed spec fn starting_count(&self) -> usize {
        self.first_count@
    }

    /// A reader for `buffer` with no guard outstanding.
    pub(crate) fn attach(buffer: Arc<TripleBuffer<T>>) -> (reader: Self)
        ensures
            reader.buffer() == buffer,
            reader.starting_count() == 0,
    {
        TripleBufferReader { buffer, borrowers: counter_new(0), first_count: Ghost(0) }
    }

    /// A guard on the read slot. Whether the reader first tries to move to
    /// the latest published slot is [`TripleBufferReader::may_advance`] of
    /// the count it finds: with guards outstanding it stays on their slot.
    /// The slot asked for is [`TripleBufferReader::slot_to_read`] of the
    /// state it settles on. `None` if there is no such slot or it cannot be
    /// had, which the roles rule out as long as every write guard is
    /// dropped.
    pub fn read(&self) -> (guard: Option<ReadHandle<'_, T>>)
        ensures
            guard matches Some(g) ==> g.parent() == self,
    {
        let state = if Self::may_advance(counter_get(&self.borrowers)) {
            self.buffer.try_swap_read()
        } else {
            self.buffer.state()
        };
        match Self::slot_to_read(state) {
            None => None,
            Some(idx) => match slot_try_read(self.buffer.slot(idx)) {
                None => None,
                Some(read_cell) => {
                    self.add_handle();
                    Some(ReadHandle::new(self, read_cell))
                },
            },
        }
    }

    /// How many guards of this reader are counted as outstanding.
    pub fn borrowers(&self) -> usize {
        counter_get(&self.borrowers)
    }

    /// Counts one more guard, as [`one_more`] says.
    fn add_handle(&self)
        opens_invariants none
        no_unwind
    {
        counter_set(&self.borrowers, one_more(counter_get(&self.borrowers)));
    }

    /// Counts one guard less, as [`one_less`] says. At zero the next
    /// `read` may move on.
    fn drop_handle(&self)
        opens_invariants none
        no_unwind
    {
        counter_set(&self.borrowers, one_less(counter_get(&self.borrowers)));
    }

    /// Whether `read` tries to move to a newer slot, given the number of
    /// guards it found outstanding: only when there is none. While a guard
    /// is open, every further guard is on the same slot as it.
    pub fn may_advance(outstanding: usize) -> (go: bool)
        ensures
            go == (outstanding == 0),
    {
        outstanding == 0
    }

    /// The slot that `read` asks for, given the state it settled on: the
    /// read slot of that state, and none where the state names a slot that
    /// does not exist.
    pub fn slot_to_read(state: BufferState) -> (slot: Option<usize>)
        ensures
            slot == if state.read_idx < 3 {
                Some(state.read_idx)
            } else {
                None::<usize>
            },
    {
        if state.read_idx < 3 {
            Some(state.read_idx)
        } else {
            None
        }
    }
}

impl<'a, T> ReadHandle<'a, T> {
    /// The reader that the guard reports to when it is dropped.
    pub closed spec fn parent(&self) -> &'a TripleBufferReader<T> {
        self.parent
    }

    /// The access to the slot that the guard holds.
    pub closed spec fn cell(&self) -> RwLockReadGuard<'a, T> {
        self.read_cell
    }

    /// A guard over `read_cell` that reports to `parent` when it goes out
    /// of scope.
    pub fn new(parent: &'a TripleBufferReader<T>, read_cell: RwLockReadGuard<'a, T>) -> (guard:
        Self)
        ensures
            guard.parent() == parent,
            guard.cell() == read_cell,
    {
        ReadHandle { read_cell, parent }
    }
}

impl<'a, T> Drop for ReadHandle<'a, T> {
    fn drop(&mut self)
        opens_invariants none
        no_unwind
    {
        self.parent.drop_handle();
    }
}

impl<'a, T> Deref for ReadHandle<'a, T> {
    type Target = T;

    fn deref(&self) -> &T {
        read_guard_get(&self.read_cell)
    }
}

} // verus!
