//! The delay and sound timers: two bytes that count down sixty times a
//! second on a thread of their own, shared with the machine.
use std::sync::atomic::AtomicU8;
use std::sync::atomic::Ordering;
use std::sync::Arc;
use vstd::prelude::*;

verus! {

/// A timer at zero.
pub fn new_timer() -> Arc<AtomicU8> {
    Arc::new(AtomicU8::new(0))
}

/// What the timer holds at the moment of the call.
pub fn read_timer(timer: &Arc<AtomicU8>) -> u8 {
    timer.load(Ordering::Acquire)
}

/// Starts the timer at `value`.
pub fn set_timer(timer: &Arc<AtomicU8>, value: u8) {
    timer.store(value, Ordering::Release)
}

/// What a timer holds after one tick: one less, and zero stays zero.
pub fn ticked(value: u8) -> (next: Option<u8>)
    ensures
        next == if value > 0 {
            Some((value - 1) as u8)
        } else {
            None::<u8>
        },
{
    if value > 0 {
        Some(value - 1)
    } else {
        None
    }
}

/// Whether the beeper has to be switched after a tick, and to what: on
/// when the sound timer runs and the beeper is silent, off when the timer
/// has run out and the beeper still sounds.
pub fn beeper_change(sound_timer: u8, sounding: bool) -> (change: Option<bool>)
    ensures
        change == if sound_timer > 0 && !sounding {
            Some(true)
        } else if sound_timer == 0 && sounding {
            Some(false)
        } else {
            None::<bool>
        },
{
    if sound_timer > 0 && !sounding {
        Some(true)
    } else if sound_timer == 0 && sounding {
        Some(false)
    } else {
        None
    }
}

} // verus!
