//! Wait-free triple buffering between one producer and one consumer.
//!
//! The producer writes into one slot, the consumer reads from another, and
//! the third holds the latest complete write. The roles are kept in one
//! atomic word; each side changes them with a single compare-and-exchange
//! and a bounded number of attempts, so no call ever waits for the other
//! side.
//!
//! Each slot sits in a lock of the standard library that is only ever
//! tried, never waited for. The roles keep the two sides on different
//! slots, so a try fails only where a guard was leaked; `read` then
//! answers `None` and `write` an error.
//!
//! Under contention the writer gives up after its attempts: the update it
//! just wrote is then not published and the next write goes to the same
//! slot. The reader falls back to the slot it has. Both keep every call
//! bounded at the price of a dropped update or a stale read once in a
//! while.
pub mod buffer;
pub mod count;
pub mod reader;
mod shared;
pub mod state;
pub mod writer;

use std::sync::Arc;
use vstd::prelude::*;

pub use self::buffer::TripleBuffer;
pub use self::reader::ReadHandle;
pub use self::reader::TripleBufferReader;
pub use self::state::BufferState;
pub use self::state::Step;
pub use self::writer::TripleBufferWriter;
pub use self::writer::WriteError;
pub use self::writer::WriteHandle;

verus! {

/// Creates a triple buffer whose three slots each hold a copy of `initial`,
/// and returns its two halves. Both halves refer to the same core, which
/// starts in the initial state, and neither has a guard outstanding.
pub fn triple_buffer<T: Clone>(initial: T) -> (halves: (
    TripleBufferWriter<T>,
    TripleBufferReader<T>,
))
    ensures
        halves.0.buffer() == halves.1.buffer(),
        halves.0.buffer().starting_state() == BufferState::initial(),
        halves.0.starting_count() == 0,
        halves.1.starting_count() == 0,
{
    let buffer = Arc::new(TripleBuffer::new(initial));
    let writer = TripleBufferWriter::attach(buffer.clone());
    let reader = TripleBufferReader::attach(buffer);
    (writer, reader)
}

} // verus!
