use aes::cipher::encrypt;
use aes::error::AesError;
use aes::key::{Key, KeySchedule};

const EXAMPLE_KEY: [u32; 4] = [0x2b7e1516, 0x28aed2a6, 0xabf71588, 0x09cf4f3c];

const EXAMPLE_SCHEDULE: [u32; 44] = [
    0x2b7e1516, 0x28aed2a6, 0xabf71588, 0x09cf4f3c,
    0xa0fafe17, 0x88542cb1, 0x23a33939, 0x2a6c7605,
    0xf2c295f2, 0x7a96b943, 0x5935807a, 0x7359f67f,
    0x3d80477d, 0x4716fe3e, 0x1e237e44, 0x6d7a883b,
    0xef44a541, 0xa8525b7f, 0xb671253b, 0xdb0bad00,
    0xd4d1c6f8, 0x7c839d87, 0xcaf2b8bc, 0x11f915bc,
    0x6d88a37a, 0x110b3efd, 0xdbf98641, 0xca0093fd,
    0x4e54f70e, 0x5f5fc9f3, 0x84a64fb2, 0x4ea6dc4f,
    0xead27321, 0xb58dbad2, 0x312bf560, 0x7f8d292f,
    0xac7766f3, 0x19fadc21, 0x28d12941, 0x575c006e,
    0xd014f9a8, 0xc9ee2589, 0xe13f0cc8, 0xb6630ca6,
];

#[test]
fn key_test_key_schedule() {
    let key = Key::new(&[0x2b7e1516, 0x28aed2a6, 0xabf71588, 0x09cf4f3c]).unwrap();
    let schedule = key.create_schedule();

    let expected = EXAMPLE_SCHEDULE;

    assert_eq!(KeySchedule::new(&expected), schedule);
}

#[test]
fn test_test_key_schedule() {
    let input = vec![0x2b7e1516, 0x28aed2a6, 0xabf71588, 0x09cf4f3c];
    let key = Key::new(&input).unwrap();
    let schedule = key.create_schedule();

    let expected = EXAMPLE_SCHEDULE.to_vec();

    assert_eq!(KeySchedule::new(&expected), schedule);
}

#[test]
fn schedule_checkpoints() {
    let schedule = Key::new(&EXAMPLE_KEY).unwrap().create_schedule();
    assert_eq!(schedule.rounds(), 10);
    assert_eq!(schedule.round_key(1), [0xa0fafe17, 0x88542cb1, 0x23a33939, 0x2a6c7605]);
    assert_eq!(schedule.round_key(10), [0xd014f9a8, 0xc9ee2589, 0xe13f0cc8, 0xb6630ca6]);
}

#[test]
fn schedule_lengths_follow_key_lengths() {
    let words: Vec<u32> = (0..8u32).map(|i| i * 0x04040404 + 0x00010203).collect();
    assert_eq!(Key::new(&words[..4]).unwrap().create_schedule().rounds(), 10);
    assert_eq!(Key::new(&words[..6]).unwrap().create_schedule().rounds(), 12);
    assert_eq!(Key::new(&words[..8]).unwrap().create_schedule().rounds(), 14);
}

#[test]
fn schedule_192_and_256_last_round_keys() {
    let words: Vec<u32> = (0..8u32).map(|i| i * 0x04040404 + 0x00010203).collect();
    let s192 = Key::new(&words[..6]).unwrap().create_schedule();
    assert_eq!(s192.round_key(12), [0xa4970a33, 0x1a78dc09, 0xc418c271, 0xe3a41d5d]);
    let s256 = Key::new(&words[..8]).unwrap().create_schedule();
    assert_eq!(s256.round_key(14), [0x24fc79cc, 0xbf0979e9, 0x371ac23c, 0x6d68de36]);
}

#[test]
fn key_sizes_other_than_4_6_8_words_are_refused() {
    for n in [0usize, 1, 2, 3, 5, 7, 9, 12] {
        let words = vec![0u32; n];
        assert!(matches!(Key::new(&words), Err(AesError::InvalidKeySize)), "{} words", n);
    }
    for n in [4usize, 6, 8] {
        assert!(Key::new(&vec![0u32; n]).is_ok());
    }
}

#[test]
fn key_from_bytes_packs_big_endian() {
    let bytes = [
        0x2b, 0x7e, 0x15, 0x16, 0x28, 0xae, 0xd2, 0xa6, 0xab, 0xf7, 0x15, 0x88, 0x09, 0xcf, 0x4f,
        0x3c,
    ];
    let schedule = Key::from_bytes(&bytes).unwrap().create_schedule();
    assert_eq!(KeySchedule::new(&EXAMPLE_SCHEDULE), schedule);

    let plain = [0x32, 0x43, 0xf6, 0xa8, 0x88, 0x5a, 0x30, 0x8d, 0x31, 0x31, 0x98, 0xa2, 0xe0, 0x37, 0x07, 0x34];
    let a = encrypt(&Key::from_bytes(&bytes).unwrap(), &plain).unwrap();
    let b = encrypt(&Key::new(&EXAMPLE_KEY).unwrap(), &plain).unwrap();
    assert_eq!(a, b);
}

#[test]
fn key_from_bytes_refuses_other_lengths() {
    for n in [0usize, 4, 15, 17, 20, 28, 31, 33, 64] {
        let bytes = vec![0u8; n];
        assert!(matches!(Key::from_bytes(&bytes), Err(AesError::InvalidKeySize)), "{} bytes", n);
    }
    for n in [16usize, 24, 32] {
        assert!(Key::from_bytes(&vec![0u8; n]).is_ok());
    }
}
