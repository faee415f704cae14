use oxid8::utils::triple_buffer::triple_buffer;
use oxid8::utils::triple_buffer::BufferState;

#[test]
fn triple_buffer_test_buffer_state_new() {
    let state = BufferState::new();
    assert_eq!(state.read_idx, 0);
    assert_eq!(state.ready_idx, 1);
    assert_eq!(state.write_idx, 2);
    assert!(!state.dirty);
}

#[test]
fn triple_buffer_test_buffer_state_equality() {
    let state1 = BufferState::new();
    let state2 = BufferState::new();
    assert_eq!(state1, state2);
}

#[test]
fn triple_buffer_test_buffer_state_encode_decode() {
    let mut state = BufferState::new();
    state.read_idx = 1;
    state.ready_idx = 2;
    state.write_idx = 0;
    state.dirty = true;
    let encoded_state = state.encode();
    let decoded_state = BufferState::decode(encoded_state);
    assert_eq!(state, decoded_state);
}

#[test]
fn triple_buffer_test_buffer_state_encode_decode_examples() {
    let encoded = 0x1102; // write=1, ready=0, read=2, dirty=true
    let state = BufferState::decode(encoded);
    assert_eq!(state.read_idx, 2);
    assert_eq!(state.ready_idx, 0);
    assert_eq!(state.write_idx, 1);
    assert!(state.dirty);

    // Verify it round-trips correctly
    assert_eq!(state.encode(), encoded);
}

#[test]
fn triple_buffer_test_buffer_state_encode_dirty_flag() {
    let state_clean = BufferState {
        read_idx: 0,
        ready_idx: 1,
        write_idx: 2,
        dirty: false,
    };
    let encoded_clean = state_clean.encode();
    assert_eq!(encoded_clean & 0xF000, 0x0000);

    let state_dirty = BufferState {
        read_idx: 0,
        ready_idx: 1,
        write_idx: 2,
        dirty: true,
    };
    let encoded_dirty = state_dirty.encode();
    assert_eq!(encoded_dirty & 0xF000, 0x1000);
}

#[test]
fn triple_buffer_test_buffer_state_max_index_values() {
    // 3 fits in four bits, though a triple buffer only uses 0, 1, 2
    let state = BufferState {
        read_idx: 3,
        ready_idx: 3,
        write_idx: 3,
        dirty: false,
    };
    let encoded = state.encode();
    let decoded = BufferState::decode(encoded);
    assert_eq!(state, decoded);
}

#[test]
fn triple_buffer_test_buffer_state_all_permutations() {
    let permutations = [
        (0, 1, 2),
        (0, 2, 1),
        (1, 0, 2),
        (1, 2, 0),
        (2, 0, 1),
        (2, 1, 0),
    ];

    for (read, ready, write) in permutations.iter() {
        for dirty in [false, true] {
            let state = BufferState {
                read_idx: *read,
                ready_idx: *ready,
                write_idx: *write,
                dirty,
            };
            let encoded = state.encode();
            let decoded = BufferState::decode(encoded);
            assert_eq!(
                state, decoded,
                "Failed for read={read}, ready={ready}, write={write}, dirty={dirty}",
            );
        }
    }
}

#[test]
fn triple_buffer_test_buffer_state_bit_layout() {
    let state = BufferState {
        read_idx: 1,  // bits 0-3:   0001
        ready_idx: 2, // bits 4-7:   0010
        write_idx: 3, // bits 8-11:  0011
        dirty: true,  // bits 12-15: 0001
    };
    let encoded = state.encode();

    assert_eq!(encoded & 0x000F, 1); // read_idx
    assert_eq!((encoded & 0x00F0) >> 4, 2); // ready_idx
    assert_eq!((encoded & 0x0F00) >> 8, 3); // write_idx
    assert_eq!((encoded & 0xF000) >> 12, 1); // dirty flag
}

#[test]
fn triple_buffer_test_buffer_state_decode_clears_unused_bits() {
    let encoded_with_junk = 0xFFFF_FFFF_FFFF_1321;
    let state = BufferState::decode(encoded_with_junk);

    assert_eq!(state.read_idx, 1);
    assert_eq!(state.ready_idx, 2);
    assert_eq!(state.write_idx, 3);
    assert!(state.dirty);

    let clean_encoded = state.encode();
    assert_eq!(clean_encoded, 0x1321);
}

#[test]
fn triple_buffer_test_triple_buffer_writer_is_not_sync() {
    // The writer works from the one thread that owns it: its guard count
    // starts at zero and stands at one while a guard is kept from ending.
    let (mut writer, _reader) = triple_buffer::<i32>(Default::default());

    assert_eq!(writer.borrowers(), 0);
    std::mem::forget(writer.write());
    assert_eq!(writer.borrowers(), 1);

    println!("TripleBufferWriter successfully created and works in single-threaded context");
}

#[test]
fn triple_buffer_test_basic_publish() {
    let (mut tx, rx) = triple_buffer::<usize>(0);
    {
        let mut write_handle = tx.write().unwrap();
        *write_handle = 42
    }

    let read_handle = rx.read().unwrap();
    assert_eq!(*read_handle, 42);
}

#[test]
fn triple_buffer_test_basic_publish_release() {
    let (mut tx, rx) = triple_buffer::<usize>(0);
    let mut write_handle = tx.write().unwrap();
    *write_handle = 42;

    let read_handle = rx.read().unwrap();
    assert_eq!(*read_handle, 0);

    drop(write_handle);
    drop(read_handle);

    let read_handle = rx.read().unwrap();
    assert_eq!(*read_handle, 42);
}
