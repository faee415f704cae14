use oxid8::utils::triple_buffer::triple_buffer;
use oxid8::utils::triple_buffer::BufferState;
use oxid8::utils::triple_buffer::TripleBuffer;
use oxid8::utils::triple_buffer::TripleBufferReader;
use oxid8::utils::triple_buffer::count::one_less;
use oxid8::utils::triple_buffer::count::one_more;
use oxid8::utils::triple_buffer::TripleBufferWriter;
use oxid8::utils::triple_buffer::WriteError;

#[test]
fn test_buffer_state_new() {
    let state = BufferState::new();
    assert_eq!(state.read_idx, 0);
    assert_eq!(state.ready_idx, 1);
    assert_eq!(state.write_idx, 2);
    assert!(!state.dirty);
}

#[test]
fn test_buffer_state_equality() {
    let state1 = BufferState::new();
    let state2 = BufferState::new();
    assert_eq!(state1, state2);
}

#[test]
fn test_buffer_state_encode_decode() {
    let mut state = BufferState::new();
    state.read_idx = 1;
    state.ready_idx = 2;
    state.write_idx = 0;
    state.dirty = true;
    let encoded_state = state.encode();
    let decoded_state = BufferState::decode(encoded_state);
    assert_eq!(state, decoded_state);
}

#[test]
fn test_buffer_state_encode_decode_examples() {
    let encoded = 0x1102; // write=1, ready=0, read=2, dirty=true
    let state = BufferState::decode(encoded);
    assert_eq!(state.read_idx, 2);
    assert_eq!(state.ready_idx, 0);
    assert_eq!(state.write_idx, 1);
    assert!(state.dirty);

    // Verify it round-trips correctly
    assert_eq!(state.encode(), encoded);
}

#[test]
fn test_buffer_state_encode_dirty_flag() {
    let state_clean = BufferState {
        read_idx: 0,
        ready_idx: 1,
        write_idx: 2,
        dirty: false,
    };
    let encoded_clean = state_clean.encode();
    assert_eq!(encoded_clean & 0xF000, 0x0000);

    let state_dirty = BufferState {
        read_idx: 0,
        ready_idx: 1,
        write_idx: 2,
        dirty: true,
    };
    let encoded_dirty = state_dirty.encode();
    assert_eq!(encoded_dirty & 0xF000, 0x1000);
}

#[test]
fn test_buffer_state_max_index_values() {
    // 3 fits in four bits, though a triple buffer only uses 0, 1, 2
    let state = BufferState {
        read_idx: 3,
        ready_idx: 3,
        write_idx: 3,
        dirty: false,
    };
    let encoded = state.encode();
    let decoded = BufferState::decode(encoded);
    assert_eq!(state, decoded);
}

#[test]
fn test_buffer_state_all_permutations() {
    let permutations = [
        (0, 1, 2),
        (0, 2, 1),
        (1, 0, 2),
        (1, 2, 0),
        (2, 0, 1),
        (2, 1, 0),
    ];

    for (read, ready, write) in permutations.iter() {
        for dirty in [false, true] {
            let state = BufferState {
                read_idx: *read,
                ready_idx: *ready,
                write_idx: *write,
                dirty,
            };
            let encoded = state.encode();
            let decoded = BufferState::decode(encoded);
            assert_eq!(
                state, decoded,
                "Failed for read={read}, ready={ready}, write={write}, dirty={dirty}",
            );
        }
    }
}

#[test]
fn test_buffer_state_bit_layout() {
    let state = BufferState {
        read_idx: 1,  // bits 0-3:   0001
        ready_idx: 2, // bits 4-7:   0010
        write_idx: 3, // bits 8-11:  0011
        dirty: true,  // bits 12-15: 0001
    };
    let encoded = state.encode();

    assert_eq!(encoded & 0x000F, 1); // read_idx
    assert_eq!((encoded & 0x00F0) >> 4, 2); // ready_idx
    assert_eq!((encoded & 0x0F00) >> 8, 3); // write_idx
    assert_eq!((encoded & 0xF000) >> 12, 1); // dirty flag
}

#[test]
fn test_buffer_state_decode_clears_unused_bits() {
    let encoded_with_junk = 0xFFFF_FFFF_FFFF_1321;
    let state = BufferState::decode(encoded_with_junk);

    assert_eq!(state.read_idx, 1);
    assert_eq!(state.ready_idx, 2);
    assert_eq!(state.write_idx, 3);
    assert!(state.dirty);

    let clean_encoded = state.encode();
    assert_eq!(clean_encoded, 0x1321);
}

#[test]
fn test_triple_buffer_writer_is_not_sync() {
    // The writer works from the one thread that owns it: its guard count
    // starts at zero and stands at one while a guard is kept from ending.
    let (mut writer, _reader) = triple_buffer::<i32>(Default::default());

    assert_eq!(writer.borrowers(), 0);
    std::mem::forget(writer.write());
    assert_eq!(writer.borrowers(), 1);

    println!("TripleBufferWriter successfully created and works in single-threaded context");
}

#[test]
fn test_basic_publish() {
    let (mut tx, rx) = triple_buffer::<usize>(0);
    {
        let mut write_handle = tx.write().unwrap();
        *write_handle = 42
    }

    let read_handle = rx.read().unwrap();
    assert_eq!(*read_handle, 42);
}

#[test]
fn test_basic_publish_release() {
    let (mut tx, rx) = triple_buffer::<usize>(0);
    let mut write_handle = tx.write().unwrap();
    *write_handle = 42;

    let read_handle = rx.read().unwrap();
    assert_eq!(*read_handle, 0);

    drop(write_handle);
    drop(read_handle);

    let read_handle = rx.read().unwrap();
    assert_eq!(*read_handle, 42);
}

#[test]
fn fresh_core_reports_the_initial_state() {
    let core = TripleBuffer::new(7u8);
    let state = core.state();
    assert_eq!(state, BufferState::new());
    assert_eq!((state.read_idx, state.ready_idx, state.write_idx, state.dirty), (0, 1, 2, false));
}

#[test]
fn a_kept_read_guard_pins_its_slot_across_a_publish() {
    let (mut tx, rx) = triple_buffer::<usize>(0);
    let first = rx.read().unwrap();
    assert_eq!(*first, 0);
    assert_eq!(rx.borrowers(), 1);

    {
        let mut write_handle = tx.write().unwrap();
        *write_handle = 42;
    }

    // A second guard, taken while the first is open, sees the same storage.
    let second = rx.read().unwrap();
    assert_eq!(rx.borrowers(), 2);
    assert_eq!(*second, 0);
    assert!(std::ptr::eq(&*first, &*second));

    drop(first);
    assert_eq!(rx.borrowers(), 1);
    // One guard is still open: the reader stays where it is.
    let third = rx.read().unwrap();
    assert_eq!(*third, 0);
    drop(second);
    drop(third);
    assert_eq!(rx.borrowers(), 0);

    assert_eq!(*rx.read().unwrap(), 42);
}

#[test]
fn the_reader_sees_the_latest_of_several_writes() {
    let (mut tx, rx) = triple_buffer::<u32>(0);
    for value in 1..=5 {
        *tx.write().unwrap() = value;
    }
    assert_eq!(*rx.read().unwrap(), 5);
    // Nothing new: the reader stays on the same value.
    assert_eq!(*rx.read().unwrap(), 5);
    *tx.write().unwrap() = 6;
    assert_eq!(*rx.read().unwrap(), 6);
}

#[test]
fn every_observed_value_was_written_and_none_is_older_than_the_last() {
    let (mut tx, rx) = triple_buffer::<u64>(0);
    let mut last = 0;
    for round in 1..=3000u64 {
        *tx.write().unwrap() = round;
        if round % 3 == 0 {
            let seen = *rx.read().unwrap();
            assert!(seen >= last && seen <= round);
            assert_eq!(seen, round);
            last = seen;
        }
    }
}

#[test]
fn a_write_guard_gives_the_value_back() {
    let (mut tx, _rx) = triple_buffer::<[u8; 4]>([7; 4]);
    let mut guard = tx.write().unwrap();
    assert_eq!(*guard, [7; 4]);
    guard[2] = 9;
    assert_eq!(*guard, [7, 7, 9, 7]);
}

#[test]
fn a_leaked_write_guard_refuses_the_next_write() {
    let (mut tx, rx) = triple_buffer::<u8>(1);
    std::mem::forget(tx.write());
    assert_eq!(tx.write().err(), Some(WriteError::GuardOutstanding));
    // The refusal changes nothing: the guard stays counted and nothing
    // was published.
    assert_eq!(tx.borrowers(), 1);
    assert_eq!(tx.write().err(), Some(WriteError::GuardOutstanding));
    assert_eq!(tx.borrowers(), 1);
    // The reader is not in the way of that and not hindered by it.
    assert_eq!(*rx.read().unwrap(), 1);
}

#[test]
fn the_writer_counts_its_guard_only_while_it_lives() {
    let (mut tx, _rx) = triple_buffer::<u8>(0);
    assert_eq!(tx.borrowers(), 0);
    drop(tx.write().unwrap());
    assert_eq!(tx.borrowers(), 0);
    assert!(tx.write().is_ok());
}

#[test]
fn publish_swaps_write_and_ready_and_marks_the_update() {
    let core = TripleBuffer::new(0u8);
    let state = core.swap_write();
    assert_eq!(state, BufferState { read_idx: 0, ready_idx: 2, write_idx: 1, dirty: true });
    assert_eq!(core.state(), state);
    let state = core.swap_write_retry(0);
    assert_eq!(state, BufferState { read_idx: 0, ready_idx: 1, write_idx: 2, dirty: true });
    let state = core.swap_write_retry(usize::MAX);
    assert_eq!(state, BufferState { read_idx: 0, ready_idx: 2, write_idx: 1, dirty: true });
    assert_eq!(core.state(), state);
}

#[test]
fn advance_swaps_read_and_ready_only_when_an_update_is_pending() {
    let core = TripleBuffer::new(0u8);
    assert_eq!(core.try_swap_read(), BufferState::new());
    assert_eq!(core.state(), BufferState::new());
    core.swap_write();
    let state = core.try_swap_read();
    assert_eq!(state, BufferState { read_idx: 2, ready_idx: 0, write_idx: 1, dirty: false });
    assert_eq!(core.state(), state);
    assert_eq!(core.try_swap_read(), state);
}

#[test]
fn the_roles_stay_apart_whatever_the_two_sides_do() {
    let core = TripleBuffer::new(0u8);
    let mut seed = 0x2545_F491u32;
    for _ in 0..2000 {
        seed ^= seed << 13;
        seed ^= seed >> 17;
        seed ^= seed << 5;
        let state = if seed & 1 == 0 { core.swap_write() } else { core.try_swap_read() };
        assert!(state.read_idx < 3 && state.ready_idx < 3 && state.write_idx < 3);
        assert_ne!(state.read_idx, state.ready_idx);
        assert_ne!(state.read_idx, state.write_idx);
        assert_ne!(state.ready_idx, state.write_idx);
    }
}

#[test]
fn the_pure_transitions_match_the_core() {
    let start = BufferState { read_idx: 1, ready_idx: 2, write_idx: 0, dirty: false };
    assert_eq!(
        start.with_write_swapped(),
        BufferState { read_idx: 1, ready_idx: 0, write_idx: 2, dirty: true }
    );
    assert_eq!(
        start.with_read_swapped(),
        BufferState { read_idx: 2, ready_idx: 1, write_idx: 0, dirty: false }
    );
    assert_eq!(TripleBuffer::<u8>::settle_read(start, false), start);
    assert_eq!(TripleBuffer::<u8>::settle_read(start, true), start.with_read_swapped());
}

#[test]
fn encode_lays_fields_over_each_other_when_an_index_does_not_fit() {
    let state = BufferState { read_idx: 0x21, ready_idx: 0, write_idx: 0, dirty: false };
    assert_eq!(state.encode(), 0x21);
    assert_eq!(BufferState::decode(0x21).ready_idx, 2);
    let state = BufferState { read_idx: 0, ready_idx: 0, write_idx: 0, dirty: true };
    assert_eq!(state.encode(), 0x1000);
    // The flag is set only by a 1 in its field.
    assert!(!BufferState::decode(0x2000).dirty);
    assert!(!BufferState::decode(0x3000).dirty);
}

#[test]
fn the_words_offered_in_exchange() {
    // read 0, ready 1, write 2, clean
    assert_eq!(BufferState::publish_word(0x0210), 0x1120);
    assert_eq!(BufferState::advance_word(0x0210), None);
    assert_eq!(BufferState::advance_word(0x1120), Some(0x0102));
    assert_eq!(BufferState::publish_word(0x1120), 0x1210);
    // Bits above the sixteenth are not carried over.
    assert_eq!(BufferState::publish_word(0xABCD_0000_0000_0210), 0x1120);
    assert_eq!(BufferState::advance_word(0xABCD_0000_0000_1120), Some(0x0102));
}

#[test]
fn the_slot_each_side_asks_for() {
    let state = BufferState { read_idx: 2, ready_idx: 0, write_idx: 1, dirty: true };
    assert_eq!(TripleBufferWriter::<u8>::slot_to_write(state, 0), Ok(1));
    assert_eq!(
        TripleBufferWriter::<u8>::slot_to_write(state, 1),
        Err(WriteError::GuardOutstanding)
    );
    assert_eq!(
        TripleBufferWriter::<u8>::slot_to_write(state, usize::MAX),
        Err(WriteError::GuardOutstanding)
    );
    assert_eq!(TripleBufferReader::<u8>::slot_to_read(state), Some(2));
    // A state that names a slot that does not exist gets none.
    let off = BufferState { read_idx: 3, ready_idx: 0, write_idx: 15, dirty: false };
    assert_eq!(
        TripleBufferWriter::<u8>::slot_to_write(off, 0),
        Err(WriteError::SlotUnavailable)
    );
    // The misuse is reported first.
    assert_eq!(
        TripleBufferWriter::<u8>::slot_to_write(off, 2),
        Err(WriteError::GuardOutstanding)
    );
    assert_eq!(TripleBufferReader::<u8>::slot_to_read(off), None);
}

#[test]
fn the_reader_moves_on_only_with_no_guard_open() {
    assert!(TripleBufferReader::<u8>::may_advance(0));
    assert!(!TripleBufferReader::<u8>::may_advance(1));
    assert!(!TripleBufferReader::<u8>::may_advance(2));
    assert!(!TripleBufferReader::<u8>::may_advance(usize::MAX));
}

#[test]
fn guards_are_counted_up_and_down() {
    assert_eq!(one_more(0), 1);
    assert_eq!(one_more(41), 42);
    assert_eq!(one_more(usize::MAX - 1), usize::MAX);
    assert_eq!(one_more(usize::MAX), usize::MAX);
    assert_eq!(one_less(42), 41);
    assert_eq!(one_less(1), 0);
    assert_eq!(one_less(0), 0);
    assert_eq!(one_less(usize::MAX), usize::MAX - 1);
}

#[test]
fn what_an_attempt_to_publish_comes_to() {
    let loaded = BufferState { read_idx: 1, ready_idx: 2, write_idx: 0, dirty: false };
    let swapped = BufferState { read_idx: 1, ready_idx: 0, write_idx: 2, dirty: true };
    assert_eq!(TripleBuffer::<u8>::settle_write(loaded, true, false), Some(swapped));
    assert_eq!(TripleBuffer::<u8>::settle_write(loaded, true, true), Some(swapped));
    // A failed attempt that is not the last asks for another.
    assert_eq!(TripleBuffer::<u8>::settle_write(loaded, false, false), None);
    // The last failed attempt gives up with the state as it was loaded.
    assert_eq!(TripleBuffer::<u8>::settle_write(loaded, false, true), Some(loaded));
}

#[test]
fn two_publishes_before_a_read_leave_the_later_value() {
    let (mut tx, rx) = triple_buffer::<usize>(0);
    {
        let mut w = tx.write().unwrap();
        *w = 42;
    }
    {
        let mut w = tx.write().unwrap();
        *w = 43;
    }
    assert_eq!(*rx.read().unwrap(), 43);
}

#[test]
fn a_publish_while_a_guard_is_open_is_not_seen_through_a_second_guard() {
    let (mut tx, rx) = triple_buffer::<usize>(0);
    let r1 = rx.read().unwrap();
    {
        let mut w = tx.write().unwrap();
        *w = 42;
    }
    let r2 = rx.read().unwrap();
    assert_eq!(*r2, 0);
    assert!(std::ptr::eq(&*r1, &*r2));
}

#[test]
fn fresh_halves_have_no_guard_outstanding() {
    let (tx, rx) = triple_buffer::<u8>(9);
    assert_eq!(tx.borrowers(), 0);
    assert_eq!(rx.borrowers(), 0);
    assert_eq!(*rx.read().unwrap(), 9);
}
