//! The producer's half and its guard.
use super::buffer::TripleBuffer;
use super::count::one_less;
use super::count::one_more;
use super::shared::counter_get;
use super::shared::counter_new;
use super::shared::counter_set;
use super::shared::slot_try_write;
use super::shared::write_guard_get;
use super::shared::write_guard_get_mut;
use super::state::BufferState;
use std::cell::Cell;
use std::ops::Deref;
use std::ops::DerefMut;
use std::sync::Arc;
use std::sync::RwLockWriteGuard;
use vstd::prelude::*;

verus! {

/// Why the writer has no guard to give.
#[derive(Clone, Copy, PartialEq, Eq, Debug, Structural)]
pub enum WriteError {
    /// An earlier guard of this writer is still counted: it was never
    /// dropped. A writer has one guard at a time.
    GuardOutstanding,
    /// The write slot cannot be had: the state names a slot that does not
    /// exist, or the slot is held.
    SlotUnavailable,
}

/// The writer half of a triple buffer. There is one per core; it cannot be
/// copied, and it can move to another thread but not be shared.
#[verifier::reject_recursive_types(T)]
pub struct TripleBufferWriter<T> {
    buffer: Arc<TripleBuffer<T>>,
    borrowers: Cell<usize>,
    /// The count that the writer was created with.
    first_count: Ghost<usize>,
}

/// The part of a write guard that publishes: dropping it takes the guard
/// off the writer's count and swaps the written slot with the ready one.
#[verifier::reject_recursive_types(T)]
struct WriteRelease<'a, T> {
    parent: &'a TripleBufferWriter<T>,
}

/// Exclusive access to the slot that was the write slot when the guard was
/// made. When the guard goes out of scope the slot is let go first and
/// published after that.
#[verifier::reject_recursive_types(T)]
pub struct WriteHandle<'a, T> {
    write_cell: RwLockWriteGuard<'a, T>,
    release: WriteRelease<'a, T>,
}

impl<T> TripleBufferWriter<T> {
    /// The core that this writer publishes to.
    pub closed spec fn buffer(&self) -> Arc<TripleBuffer<T>> {
        self.buffer
    }

    /// The number of outstanding guards that the writer was created with.
    pub closed spec fn starting_count(&self) -> usize {
        self.first_count@
    }

    /// A writer for `buffer` with no guard outstanding.
    pub(crate) fn attach(buffer: Arc<TripleBuffer<T>>) -> (writer: Self)
        ensures
            writer.buffer() == buffer,
            writer.starting_count() == 0,
    {
        TripleBufferWriter { buffer, borrowers: counter_new(0), first_count: Ghost(0) }
    }

    /// A guard on the slot that is the write slot at the moment of the call.
    /// Which slot is asked for, and which error comes before any slot is
    /// asked for, is [`TripleBufferWriter::slot_to_write`] of the state
    /// loaded and the count found. A slot that is asked for and cannot be
    /// had gives `SlotUnavailable`. No error changes the state or the
    /// count.
    pub fn write(&mut self) -> (guard: Result<WriteHandle<'_, T>, WriteError>)
        ensures
            final(self).buffer() == old(self).buffer(),
            final(self).starting_count() == old(self).starting_count(),
            guard matches Ok(g) ==> g.parent().buffer() == old(self).buffer(),
    {
        let this: &Self = self;
        let state = this.buffer.state();
        match Self::slot_to_write(state, counter_get(&this.borrowers)) {
            Err(error) => Err(error),
            Ok(idx) => match slot_try_write(this.buffer.slot(idx)) {
                None => Err(WriteError::SlotUnavailable),
                Some(write_cell) => {
                    this.add_handle();
                    Ok(WriteHandle::new(this, write_cell))
                },
            },
        }
    }

    /// How many guards of this writer are counted as outstanding.
    pub fn borrowers(&self) -> usize {
        counter_get(&self.borrowers)
    }

    /// Counts one more guard, as [`one_more`] says.
    fn add_handle(&self)
        opens_invariants none
        no_unwind
    {
        counter_set(&self.borrowers, one_more(counter_get(&self.borrowers)));
    }

    /// Counts one guard less, as [`one_less`] says, then publishes what
    /// the guard wrote.
    fn drop_handle(&self)
        opens_invariants none
        no_unwind
    {
        counter_set(&self.borrowers, one_less(counter_get(&self.borrowers)));
        let _ = self.buffer.swap_write();
    }

    /// The slot that `write` asks for, given the state it loaded and the
    /// number of guards it found outstanding: the write slot of that
    /// state. With a guard outstanding the writer is being misused and no
    /// slot is asked for; nor is one where the state names a slot that
    /// does not exist.
    pub fn slot_to_write(state: BufferState, outstanding: usize) -> (slot: Result<
        usize,
        WriteError,
    >)
        ensures
            slot == if outstanding > 0 {
                Err::<usize, WriteError>(WriteError::GuardOutstanding)
            } else if state.write_idx < 3 {
                Ok::<usize, WriteError>(state.write_idx)
            } else {
                Err::<usize, WriteError>(WriteError::SlotUnavailable)
            },
    {
        if outstanding > 0 {
            Err(WriteError::GuardOutstanding)
        } else if state.write_idx < 3 {
            Ok(state.write_idx)
        } else {
            Err(WriteError::SlotUnavailable)
        }
    }
}

impl<'a, T> Drop for WriteRelease<'a, T> {
    fn drop(&mut self)
        opens_invariants none
        no_unwind
    {
        self.parent.drop_handle();
    }
}

impl<'a, T> WriteHandle<'a, T> {
    /// The writer that the guard reports to when it is dropped.
    pub closed spec fn parent(&self) -> &'a TripleBufferWriter<T> {
        self.release.parent
    }

    /// The access to the slot that the guard holds.
    pub closed spec fn cell(&self) -> RwLockWriteGuard<'a, T> {
        self.write_cell
    }

    /// A guard over `write_cell` that publishes through `parent` when it
    /// goes out of scope.
    pub fn new(parent: &'a TripleBufferWriter<T>, write_cell: RwLockWriteGuard<'a, T>) -> (guard:
        Self)
        ensures
            guard.parent() == parent,
            guard.cell() == write_cell,
    {
        WriteHandle { write_cell, release: WriteRelease { parent } }
    }
}

impl<'a, T> Deref for WriteHandle<'a, T> {
    type Target = T;

    fn deref(&self) -> &T {
        write_guard_get(&self.write_cell)
    }
}

impl<'a, T> DerefMut for WriteHandle<'a, T> {
    fn deref_mut(&mut self) -> &mut T {
        write_guard_get_mut(&mut self.write_cell)
    }
}

} // verus!
