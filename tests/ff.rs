use aes::ff::FF;

#[test]
fn add() {
    assert_eq!(FF::new(0xd4), FF::new(0x57) + FF::new(0x83));
    assert_eq!(FF::new(0xd4), FF::new(0x83) + FF::new(0x57));
}

#[test]
fn xtime() {
    assert_eq!(FF::new(0xae), FF::new(0x57).xtime());
    assert_eq!(FF::new(0x47), FF::new(0xae).xtime());
    assert_eq!(FF::new(0x8e), FF::new(0x47).xtime());
    assert_eq!(FF::new(0x07), FF::new(0x8e).xtime());
}

#[test]
fn mult() {
    assert_eq!(FF::new(0xfe), FF::new(0x57) * FF::new(0x13));
}

#[test]
fn mult_more_products() {
    assert_eq!(FF::new(0xc1), FF::new(0x57) * FF::new(0x83));
    assert_eq!(FF::new(0x01), FF::new(0x53) * FF::new(0xca));
    assert_eq!(FF::new(0x1b), FF::new(0x80) * FF::new(0x02));
    assert_eq!(FF::new(0x00), FF::new(0x00) * FF::new(0xff));
}

#[test]
fn value_gives_the_byte_back() {
    for a in 0..=255u8 {
        assert_eq!(a, FF::new(a).value());
    }
}

#[test]
fn add_self_is_zero_for_every_byte() {
    for a in 0..=255u8 {
        assert_eq!(FF::new(0), FF::new(a) + FF::new(a));
    }
}

#[test]
fn mul_commutes_for_every_pair() {
    for a in 0..=255u8 {
        for b in 0..=255u8 {
            assert_eq!(FF::new(a) * FF::new(b), FF::new(b) * FF::new(a));
        }
    }
}

#[test]
fn mul_by_one_and_zero() {
    for a in 0..=255u8 {
        assert_eq!(FF::new(a), FF::new(a) * FF::new(0x01));
        assert_eq!(FF::new(0), FF::new(a) * FF::new(0x00));
    }
}

#[test]
fn xtime_is_mul_by_two() {
    for a in 0..=255u8 {
        assert_eq!(FF::new(a).xtime(), FF::new(a) * FF::new(0x02));
    }
}
