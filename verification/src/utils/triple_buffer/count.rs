//! Counting the guards that a half has handed out.
use vstd::prelude::*;

verus! {

/// The count after one more guard was handed out. The count stops at the
/// largest number it can hold rather than start again from zero, so that
/// guards once counted stay counted.
pub fn one_more(count: usize) -> (next: usize)
    ensures
        next == if count < usize::MAX {
            count + 1
        } else {
            count as int
        },
    opens_invariants none
    no_unwind
{
    if count < usize::MAX {
        count + 1
    } else {
        count
    }
}

/// The count after one guard was dropped. A count of zero stays zero: a
/// guard that was never counted takes nothing off.
pub fn one_less(count: usize) -> (next: usize)
    ensures
        next == if count > 0 {
            count - 1
        } else {
            0
        },
    opens_invariants none
    no_unwind
{
    if count > 0 {
        count - 1
    } else {
        0
    }
}

} // verus!
