use aes::state::State;

fn test_state() -> State {
    State { state: [
        [0x19, 0xa0, 0x9a, 0xe9],
        [0x3d, 0xf4, 0xc6, 0xf8],
        [0xe3, 0xe2, 0x8d, 0x48],
        [0xbe, 0x2b, 0x2a, 0x08],
    ] }
}

#[test]
fn state_test_sub_bytes() {
    assert_eq!(test_state().sub_bytes(), State { state: [
        [0xd4, 0xe0, 0xb8, 0x1e],
        [0x27, 0xbf, 0xb4, 0x41],
        [0x11, 0x98, 0x5d, 0x52],
        [0xae, 0xf1, 0xe5, 0x30],
    ] });
}

#[test]
fn test_test_sub_bytes() {
    assert_eq!(test_state().sub_bytes(), State { state: [
        [0xd4, 0xe0, 0xb8, 0x1e],
        [0x27, 0xbf, 0xb4, 0x41],
        [0x11, 0x98, 0x5d, 0x52],
        [0xae, 0xf1, 0xe5, 0x30],
    ] });
}

#[test]
fn state_test_shift_rows() {
    assert_eq!(test_state().sub_bytes().shift_rows(), State { state: [
        [0xd4, 0xe0, 0xb8, 0x1e],
        [0xbf, 0xb4, 0x41, 0x27],
        [0x5d, 0x52, 0x11, 0x98],
        [0x30, 0xae, 0xf1, 0xe5],
    ] });
    assert_eq!(State::from_slice(&[
        0x63, 0xca, 0xb7, 0x04,
        0x09, 0x53, 0xd0, 0x51,
        0xcd, 0x60, 0xe0, 0xe7,
        0xba, 0x70, 0xe1, 0x8c,
    ]).shift_rows(), State::from_slice(&[
        0x63, 0x53, 0xe0, 0x8c,
        0x09, 0x60, 0xe1, 0x04,
        0xcd, 0x70, 0xb7, 0x51,
        0xba, 0xca, 0xd0, 0xe7,
    ]));
}

#[test]
fn test_test_shift_rows() {
    assert_eq!(test_state().sub_bytes().shift_rows(), State { state: [
        [0xd4, 0xe0, 0xb8, 0x1e],
        [0xbf, 0xb4, 0x41, 0x27],
        [0x5d, 0x52, 0x11, 0x98],
        [0x30, 0xae, 0xf1, 0xe5],
    ] });
}

#[test]
fn test_inv_shift_rows() {
    assert_eq!(State::from_slice(&[
        0x63, 0x53, 0xe0, 0x8c,
        0x09, 0x60, 0xe1, 0x04,
        0xcd, 0x70, 0xb7, 0x51,
        0xba, 0xca, 0xd0, 0xe7,
    ]).inv_shift_rows(), State::from_slice(&[
        0x63, 0xca, 0xb7, 0x04,
        0x09, 0x53, 0xd0, 0x51,
        0xcd, 0x60, 0xe0, 0xe7,
        0xba, 0x70, 0xe1, 0x8c,
    ]));
}

#[test]
fn state_test_shift_row() {
    assert_eq!([1, 2, 3, 4], State::shift_row(&([1, 2, 3, 4] as [u8; 4]), 0));
    assert_eq!([2, 3, 4, 1], State::shift_row(&([1, 2, 3, 4] as [u8; 4]), 1));
    assert_eq!([3, 4, 1, 2], State::shift_row(&([1, 2, 3, 4] as [u8; 4]), 2));
    assert_eq!([4, 1, 2, 3], State::shift_row(&([1, 2, 3, 4] as [u8; 4]), 3));
}

#[test]
fn test_test_shift_row() {
    assert_eq!([1, 2, 3, 4], State::shift_row(&([1, 2, 3, 4] as [u8; 4]), 0));
    assert_eq!([3, 4, 1, 2], State::shift_row(&([1, 2, 3, 4] as [u8; 4]), 2));
}

#[test]
fn test_inv_shift_row() {
    assert_eq!([1, 2, 3, 4], State::inv_shift_row(&([1, 2, 3, 4] as [u8; 4]), 0));
    assert_eq!([1, 2, 3, 4], State::inv_shift_row(&([2, 3, 4, 1] as [u8; 4]), 1));
    assert_eq!([1, 2, 3, 4], State::inv_shift_row(&([3, 4, 1, 2] as [u8; 4]), 2));
    assert_eq!([1, 2, 3, 4], State::inv_shift_row(&([4, 1, 2, 3] as [u8; 4]), 3));
}

#[test]
fn state_test_mix_columns() {
    assert_eq!(test_state().sub_bytes().shift_rows().mix_columns(), State { state: [
        [0x04, 0xe0, 0x48, 0x28],
        [0x66, 0xcb, 0xf8, 0x06],
        [0x81, 0x19, 0xd3, 0x26],
        [0xe5, 0x9a, 0x7a, 0x4c],
    ] });
}

#[test]
fn test_test_mix_columns() {
    assert_eq!(test_state().sub_bytes().shift_rows().mix_columns(), State { state: [
        [0x04, 0xe0, 0x48, 0x28],
        [0x66, 0xcb, 0xf8, 0x06],
        [0x81, 0x19, 0xd3, 0x26],
        [0xe5, 0x9a, 0x7a, 0x4c],
    ] });
}

#[test]
fn test_inv_mix_columns() {
    assert_eq!(State::from_slice(&[
        0x62, 0x7b, 0xce, 0xb9,
        0x99, 0x9d, 0x5a, 0xaa,
        0xc9, 0x45, 0xec, 0xf4,
        0x23, 0xf5, 0x6d, 0xa5,
    ]).inv_mix_columns(), State::from_slice(&[
        0xe5, 0x1c, 0x95, 0x02,
        0xa5, 0xc1, 0x95, 0x05,
        0x06, 0xa6, 0x10, 0x24,
        0x59, 0x6b, 0x2b, 0x07,
    ]));
}

#[test]
fn test_add_round_key() {
    assert_eq!(State { state: [
        [0x04, 0xe0, 0x48, 0x28],
        [0x66, 0xcb, 0xf8, 0x06],
        [0x81, 0x19, 0xd3, 0x26],
        [0xe5, 0x9a, 0x7a, 0x4c],
    ] }.add_round_key(&[0xa0fafe17, 0x88542cb1, 0x23a33939, 0x2a6c7605]), State { state: [
        [0xa4, 0x68, 0x6b, 0x02],
        [0x9c, 0x9f, 0x5b, 0x6a],
        [0x7f, 0x35, 0xea, 0x50],
        [0xf2, 0x2b, 0x43, 0x49],
    ] });
    assert_eq!(State::from_slice(&[
        0x00, 0x11, 0x22, 0x33,
        0x44, 0x55, 0x66, 0x77,
        0x88, 0x99, 0xaa, 0xbb,
        0xcc, 0xdd, 0xee, 0xff,
    ]).add_round_key(&[
        0x00010203, 0x04050607, 0x08090a0b, 0x0c0d0e0f,
    ]), State::from_slice(&[
        0x00, 0x10, 0x20, 0x30,
        0x40, 0x50, 0x60, 0x70,
        0x80, 0x90, 0xa0, 0xb0,
        0xc0, 0xd0, 0xe0, 0xf0,
    ]));
}

#[test]
fn from_slice_is_column_major() {
    let bytes: Vec<u8> = (0..16).collect();
    let s = State::from_slice(&bytes);
    assert_eq!(s.state, [[0, 4, 8, 12], [1, 5, 9, 13], [2, 6, 10, 14], [3, 7, 11, 15]]);
    let back = s.to_byte_array();
    assert_eq!(back.to_vec(), bytes);
}

#[test]
fn first_round_checkpoint() {
    let input = [0x32, 0x43, 0xf6, 0xa8, 0x88, 0x5a, 0x30, 0x8d, 0x31, 0x31, 0x98, 0xa2, 0xe0, 0x37, 0x07, 0x34];
    let k0 = [0x2b7e1516, 0x28aed2a6, 0xabf71588, 0x09cf4f3c];
    let start = State::from_slice(&input).add_round_key(&k0);
    let mixed = start.sub_bytes().shift_rows().mix_columns();
    assert_eq!(start.to_byte_array(), [
        0x19, 0x3d, 0xe3, 0xbe, 0xa0, 0xf4, 0xe2, 0x2b, 0x9a, 0xc6, 0x8d, 0x2a, 0xe9, 0xf8, 0x48, 0x08,
    ]);
    assert_eq!(mixed.to_byte_array(), [
        0x04, 0x66, 0x81, 0xe5, 0xe0, 0xcb, 0x19, 0x9a, 0x48, 0xf8, 0xd3, 0x7a, 0x28, 0x06, 0x26, 0x4c,
    ]);
}

fn sample_states() -> Vec<State> {
    let mut out = vec![test_state()];
    let mut seed: u32 = 0x1234_5678;
    for _ in 0..64 {
        let mut bytes = [0u8; 16];
        for b in bytes.iter_mut() {
            seed = seed.wrapping_mul(1_103_515_245).wrapping_add(12_345);
            *b = (seed >> 16) as u8;
        }
        out.push(State::from_slice(&bytes));
    }
    out.push(State::from_slice(&[0u8; 16]));
    out.push(State::from_slice(&[0xffu8; 16]));
    out
}

#[test]
fn inv_shift_rows_undoes_shift_rows() {
    for s in sample_states() {
        assert_eq!(s.shift_rows().inv_shift_rows(), s);
        assert_eq!(s.inv_shift_rows().shift_rows(), s);
    }
}

#[test]
fn inv_mix_columns_undoes_mix_columns() {
    for s in sample_states() {
        assert_eq!(s.mix_columns().inv_mix_columns(), s);
        assert_eq!(s.inv_mix_columns().mix_columns(), s);
    }
}

#[test]
fn inv_sub_bytes_undoes_sub_bytes() {
    for s in sample_states() {
        assert_eq!(s.sub_bytes().inv_sub_bytes(), s);
    }
}

#[test]
fn add_round_key_twice_is_identity() {
    let keys = [[0u32; 4], [0xa0fafe17, 0x88542cb1, 0x23a33939, 0x2a6c7605], [0xffffffff; 4]];
    for s in sample_states() {
        for k in keys.iter() {
            assert_eq!(s.add_round_key(k).add_round_key(k), s);
        }
    }
}

#[test]
fn mix_columns_single_column_example() {
    let s = State::from_slice(&[
        0xdb, 0x13, 0x53, 0x45, 0xf2, 0x0a, 0x22, 0x5c, 0x01, 0x01, 0x01, 0x01, 0xc6, 0xc6, 0xc6, 0xc6,
    ]);
    assert_eq!(s.mix_columns().to_byte_array(), [
        0x8e, 0x4d, 0xa1, 0xbc, 0x9f, 0xdc, 0x58, 0x9d, 0x01, 0x01, 0x01, 0x01, 0xc6, 0xc6, 0xc6, 0xc6,
    ]);
}
