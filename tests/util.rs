use aes::sbox::{inv_sub_byte, sub_byte, sub_word};
use aes::util::{bytes_to_word, rot_word, word_to_bytes};

#[test]
fn util_test_word_to_bytes() {
    assert_eq!((0xde, 0xad, 0xbe, 0xef), word_to_bytes(0xdeadbeef));
}

#[test]
fn util_test_bytes_to_word() {
    assert_eq!(0xdeadbeef, bytes_to_word((0xde, 0xad, 0xbe, 0xef)));
}

#[test]
fn util_test_rot_word() {
    assert_eq!(rot_word(0x09cf4f3c), 0xcf4f3c09);
    assert_eq!(rot_word(0x2a6c7605), 0x6c76052a);
}

#[test]
fn test_test_word_to_bytes() {
    assert_eq!((0xde, 0xad, 0xbe, 0xef), word_to_bytes(0xdeadbeef));
}

#[test]
fn test_test_bytes_to_word() {
    assert_eq!(0xdeadbeef, bytes_to_word((0xde, 0xad, 0xbe, 0xef)));
}

#[test]
fn test_sub_word() {
    assert_eq!(sub_word(0x00102030), 0x63cab704);
    assert_eq!(sub_word(0x40506070), 0x0953d051);
    assert_eq!(sub_word(0x8090a0b0), 0xcd60e0e7);
    assert_eq!(sub_word(0xc0d0e0f0), 0xba70e18c);
}

#[test]
fn test_sub_byte() {
    assert_eq!(sub_byte(0x40), 0x09);
    assert_eq!(sub_byte(0x50), 0x53);
    assert_eq!(sub_byte(0x60), 0xd0);
    assert_eq!(sub_byte(0x70), 0x51);
}

#[test]
fn test_test_rot_word() {
    assert_eq!(rot_word(0x09cf4f3c), 0xcf4f3c09);
    assert_eq!(rot_word(0x2a6c7605), 0x6c76052a);
}

#[test]
fn word_round_trip_on_sample_words() {
    for w in [0u32, 1, 0xff, 0x100, 0xdeadbeef, 0x80000000, 0xffffffff, 0x01020304] {
        assert_eq!(w, bytes_to_word(word_to_bytes(w)));
    }
}

#[test]
fn rot_word_rotates_by_one_byte() {
    assert_eq!(rot_word(0x01020304), 0x02030401);
    assert_eq!(rot_word(0xff000000), 0x000000ff);
}

#[test]
fn sbox_corners() {
    assert_eq!(sub_byte(0x00), 0x63);
    assert_eq!(sub_byte(0xff), 0x16);
    assert_eq!(inv_sub_byte(0x63), 0x00);
    assert_eq!(inv_sub_byte(0x00), 0x52);
    assert_eq!(inv_sub_byte(0x16), 0xff);
}

#[test]
fn inverse_sbox_undoes_sbox_for_every_byte() {
    for b in 0..=255u8 {
        assert_eq!(b, inv_sub_byte(sub_byte(b)));
        assert_eq!(b, sub_byte(inv_sub_byte(b)));
    }
}
