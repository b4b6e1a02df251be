use std::cell::{Cell, RefCell};

use bitwise_key_recovery::harness::run_harness;
use bitwise_key_recovery::oracle::BlackBox;
use bitwise_key_recovery::recovery::recover_6th_omak_byte;

#[test]
fn test_recover_6th_omak_byte() {
    let blackbox = BlackBox::new();

    // Bitwise recovery of the key's 6th byte.
    let byte = recover_6th_omak_byte(|data| blackbox.digest(data));

    // Check we correctly recovered the byte.
    assert!(blackbox.confirms_key_byte(byte));
}

#[test]
fn test_recover_deterministic() {
    let blackbox = BlackBox::new();
    let first = recover_6th_omak_byte(|data| blackbox.digest(data));
    let second = recover_6th_omak_byte(|data| blackbox.digest(data));
    assert_eq!(first, second);
}

#[test]
fn test_query_count_is_nine() {
    let blackbox = BlackBox::new();
    let queries = Cell::new(0u32);
    recover_6th_omak_byte(|data| {
        queries.set(queries.get() + 1);
        blackbox.digest(data)
    });
    assert_eq!(queries.get(), 9);

    // The count does not depend on the key.
    let zero_keyed = BlackBox::with_key([0u8; 12]);
    let queries_zero = Cell::new(0u32);
    recover_6th_omak_byte(|data| {
        queries_zero.set(queries_zero.get() + 1);
        zero_keyed.digest(data)
    });
    assert_eq!(queries_zero.get(), 9);
}

#[test]
fn test_oracle_deterministic() {
    let blackbox = BlackBox::new();
    let mut msg = [0u8; 144];
    msg[135] = 0x80;
    msg[7] = 0x55;
    assert_eq!(blackbox.digest(&msg), blackbox.digest(&msg));
    let zero = [0u8; 144];
    assert_eq!(blackbox.digest(&zero), blackbox.digest(&zero));
}

#[test]
fn test_queried_messages_shape() {
    let blackbox = BlackBox::new();
    let seen: RefCell<Vec<Vec<u8>>> = RefCell::new(Vec::new());
    recover_6th_omak_byte(|data| {
        seen.borrow_mut().push(data.to_vec());
        blackbox.digest(data)
    });
    let seen = seen.into_inner();
    assert_eq!(seen.len(), 9);
    for (step, msg) in seen.iter().enumerate() {
        // Every message is exactly 144 bytes...
        assert_eq!(msg.len(), 144);
        for (i, &b) in msg.iter().enumerate() {
            if (128..=135).contains(&i) {
                // ...whose bytes at offsets 128..=135 differ from zero at
                // most in their most significant bit...
                assert!(b == 0 || b == 0x80);
            } else {
                // ...and which is zero everywhere else.
                assert_eq!(b, 0);
            }
        }
        // The baseline is all zero; step j flips byte 135 - (j - 1), and
        // earlier flips stay in place, so message j has exactly j flips.
        let flips: Vec<usize> = (0..144).filter(|&i| msg[i] == 0x80).collect();
        let expected: Vec<usize> = (0..step).map(|j| 135 - j).collect();
        let mut expected_sorted = expected.clone();
        expected_sorted.sort();
        assert_eq!(flips, expected_sorted);
    }
}

#[test]
fn test_concrete_scenario() {
    // Key byte 5 = 0b10110010: the recovered bits 7,6,...,0 must come out
    // as 1,0,1,1,0,0,1,0, i.e. the byte 0xB2.
    let mut key = [0u8; 12];
    key[5] = 0b1011_0010;
    let blackbox = BlackBox::with_key(key);
    let byte = recover_6th_omak_byte(|data| blackbox.digest(data));
    assert_eq!(byte, 0xB2);
    let expected_bits = [1u8, 0, 1, 1, 0, 0, 1, 0];
    for j in 0..8 {
        assert_eq!((byte >> (7 - j)) & 1, expected_bits[j]);
    }
}

#[test]
fn test_recovers_every_key_byte_value() {
    // The attack reads only key byte 5; every one of its 256 values,
    // including the edge values 0x00 and 0xFF, is reconstructed exactly.
    for value in 0u8..=255 {
        let mut key = [0x5Au8; 12];
        key[5] = value;
        let blackbox = BlackBox::with_key(key);
        let byte = recover_6th_omak_byte(|data| blackbox.digest(data));
        assert_eq!(byte, value);
    }
}

#[test]
fn test_digest_exact_values() {
    // For the all-zero message the digest is the first 8 key bytes
    // unchanged; flipping the top bit of message byte 135 toggles the least
    // significant bit of output byte 0 exactly when bit 0 (most significant
    // first) of key byte 5 is set.
    let key = [10u8, 20, 30, 40, 50, 0xFF, 70, 80, 90, 100, 110, 120];
    let blackbox = BlackBox::with_key(key);

    let zero = [0u8; 144];
    assert_eq!(blackbox.digest(&zero), [10, 20, 30, 40, 50, 0xFF, 70, 80]);

    let mut flipped = [0u8; 144];
    flipped[135] = 0x80;
    assert_eq!(blackbox.digest(&flipped), [11, 20, 30, 40, 50, 0xFF, 70, 80]);

    // With key byte 5 zero, no flip ever moves the output.
    let mut dead_key = key;
    dead_key[5] = 0;
    let dead = BlackBox::with_key(dead_key);
    assert_eq!(dead.digest(&zero), dead.digest(&flipped));
}

#[test]
fn test_confirms_key_byte() {
    let mut key = [0u8; 12];
    key[5] = 0x42;
    let blackbox = BlackBox::with_key(key);
    assert!(blackbox.confirms_key_byte(0x42));
    assert!(!blackbox.confirms_key_byte(0x43));
}

#[test]
fn test_run_harness() {
    assert!(run_harness());
}

#[test]
fn test_thousand_random_keys() {
    let mut mismatches = 0u32;
    for _ in 0..1000 {
        if !run_harness() {
            mismatches += 1;
        }
    }
    assert_eq!(mismatches, 0);
}
