use vstd::prelude::*;

use crate::ff::{gf_mul, lemma_mul_distributes, FF};
use crate::sbox::{inv_sbox_spec, inv_sub_byte, lemma_sbox_inverse, sbox_spec, sub_byte};
use crate::util::{bytes_to_word, lemma_word_xor_bytes, word_byte, word_to_bytes};

verus! {

/// The byte at row `r`, column `c` of a block laid out column by column.
pub open spec fn cell(b: Seq<u8>, r: int, c: int) -> u8 {
    b[4 * c + r]
}

/// SubBytes: each byte through the forward S-box.
pub open spec fn sub_bytes_spec(b: Seq<u8>) -> Seq<u8> {
    Seq::new(16, |i: int| sbox_spec(b[i]))
}

/// InvSubBytes: each byte through the inverse S-box.
pub open spec fn inv_sub_bytes_spec(b: Seq<u8>) -> Seq<u8> {
    Seq::new(16, |i: int| inv_sbox_spec(b[i]))
}

/// ShiftRows: row `r` rotated left by `r` places.
pub open spec fn shift_rows_spec(b: Seq<u8>) -> Seq<u8> {
    Seq::new(16, |i: int| cell(b, i % 4, (i / 4 + i % 4) % 4))
}

/// InvShiftRows: row `r` rotated right by `r` places.
pub open spec fn inv_shift_rows_spec(b: Seq<u8>) -> Seq<u8> {
    Seq::new(16, |i: int| cell(b, i % 4, (i / 4 + 4 - i % 4) % 4))
}

/// One output byte of MixColumns, from the column's bytes starting at its
/// own row: `2·a ⊕ 3·b ⊕ c ⊕ d`.
pub open spec fn mix_byte(a: u8, b: u8, c: u8, d: u8) -> u8 {
    gf_mul(a, 2) ^ gf_mul(b, 3) ^ c ^ d
}

/// One output byte of InvMixColumns: `0e·a ⊕ 0b·b ⊕ 0d·c ⊕ 09·d`.
pub open spec fn inv_mix_byte(a: u8, b: u8, c: u8, d: u8) -> u8 {
    gf_mul(a, 0x0e) ^ gf_mul(b, 0x0b) ^ gf_mul(c, 0x0d) ^ gf_mul(d, 0x09)
}

/// MixColumns: each column multiplied by the fixed circulant matrix.
pub open spec fn mix_columns_spec(b: Seq<u8>) -> Seq<u8> {
    Seq::new(
        16,
        |i: int|
            {
                let (r, c) = (i % 4, i / 4);
                mix_byte(
                    cell(b, r, c),
                    cell(b, (r + 1) % 4, c),
                    cell(b, (r + 2) % 4, c),
                    cell(b, (r + 3) % 4, c),
                )
            },
    )
}

/// InvMixColumns: each column multiplied by the inverse matrix.
pub open spec fn inv_mix_columns_spec(b: Seq<u8>) -> Seq<u8> {
    Seq::new(
        16,
        |i: int|
            {
                let (r, c) = (i % 4, i / 4);
                inv_mix_byte(
                    cell(b, r, c),
                    cell(b, (r + 1) % 4, c),
                    cell(b, (r + 2) % 4, c),
                    cell(b, (r + 3) % 4, c),
                )
            },
    )
}

/// AddRoundKey: column `c` xor-ed with the big-endian bytes of key word `c`.
pub open spec fn add_round_key_spec(b: Seq<u8>, k: Seq<u32>) -> Seq<u8> {
    Seq::new(16, |i: int| b[i] ^ word_byte(k[i / 4], i % 4))
}

/// The AES state: a 4×4 matrix of bytes, `state[row][col]`.
#[derive(Debug, PartialEq, Eq)]
pub struct State {
    pub state: [[u8; 4]; 4],
}

impl View for State {
    /// The sixteen bytes in column-major order, as a block is read and written.
    type V = Seq<u8>;

    open spec fn view(&self) -> Seq<u8> {
        Seq::new(16, |i: int| self.state[i % 4][i / 4])
    }
}

proof fn lemma_cell_index(r: int, c: int)
    requires
        0 <= r < 4,
        0 <= c < 4,
    ensures
        (4 * c + r) % 4 == r,
        (4 * c + r) / 4 == c,
        0 <= 4 * c + r < 16,
{
}

/// Byte `4·c + r` of a state's view is the matrix entry at row `r`, column `c`.
proof fn lemma_view_cell(s: State)
    ensures
        forall|r: int, c: int| 0 <= r < 4 && 0 <= c < 4 ==> #[trigger] s@[4 * c + r] == s.state[r][c],
{
    assert forall|r: int, c: int| 0 <= r < 4 && 0 <= c < 4 implies #[trigger] s@[4 * c + r] == s.state[r][c] by {
        lemma_cell_index(r, c);
    }
}

/// A state whose every entry agrees with a block has that block as its view.
proof fn lemma_view_from_cells(s: State, b: Seq<u8>)
    requires
        b.len() == 16,
        forall|r: int, c: int| 0 <= r < 4 && 0 <= c < 4 ==> s.state[r][c] == #[trigger] b[4 * c + r],
    ensures
        s@ == b,
{
    assert forall|i: int| 0 <= i < 16 implies s@[i] == b[i] by {
        lemma_cell_index(i % 4, i / 4);
    }
    assert(s@ =~= b);
}

/// `gf_mul` distributes over a sum of four terms.
proof fn lemma_mul_xor4(p: u8, q: u8, r: u8, s: u8, k: u8)
    ensures
        gf_mul(p ^ q ^ r ^ s, k) == gf_mul(p, k) ^ gf_mul(q, k) ^ gf_mul(r, k) ^ gf_mul(s, k),
{
    lemma_mul_distributes(p ^ q ^ r, s, k);
    lemma_mul_distributes(p ^ q, r, k);
    lemma_mul_distributes(p, q, k);
}

/// Sixteen terms, summed by rows, sum to the same as summed by the four
/// diagonals that the two matrices' product picks out.
proof fn lemma_xor_regroup(
    t00: u8, t01: u8, t02: u8, t03: u8,
    t10: u8, t11: u8, t12: u8, t13: u8,
    t20: u8, t21: u8, t22: u8, t23: u8,
    t30: u8, t31: u8, t32: u8, t33: u8,
    a: u8,
)
    requires
        t00 ^ t13 ^ t22 ^ t31 == a,
        t01 ^ t10 ^ t23 ^ t32 == 0,
        t02 ^ t11 ^ t20 ^ t33 == 0,
        t03 ^ t12 ^ t21 ^ t30 == 0,
    ensures
        (t00 ^ t01 ^ t02 ^ t03) ^ (t10 ^ t11 ^ t12 ^ t13) ^ (t20 ^ t21 ^ t22 ^ t23) ^ (t30 ^ t31
            ^ t32 ^ t33) == a,
{
    assert((t00 ^ t01 ^ t02 ^ t03) ^ (t10 ^ t11 ^ t12 ^ t13) ^ (t20 ^ t21 ^ t22 ^ t23) ^ (t30 ^ t31
        ^ t32 ^ t33) == a) by (bit_vector)
        requires
            t00 ^ t13 ^ t22 ^ t31 == a,
            t01 ^ t10 ^ t23 ^ t32 == 0,
            t02 ^ t11 ^ t20 ^ t33 == 0,
            t03 ^ t12 ^ t21 ^ t30 == 0,
    ;
}

/// One byte of InvMixColumns after MixColumns, for the column `a, b, c, d`
/// read from the byte's own row on.
proof fn lemma_inv_mix_after_mix(a: u8, b: u8, c: u8, d: u8)
    ensures
        inv_mix_byte(mix_byte(a, b, c, d), mix_byte(b, c, d, a), mix_byte(c, d, a, b), mix_byte(d, a, b, c)) == a,
{
    let (a2, a3, b2, b3) = (gf_mul(a, 2), gf_mul(a, 3), gf_mul(b, 2), gf_mul(b, 3));
    let (c2, c3, d2, d3) = (gf_mul(c, 2), gf_mul(c, 3), gf_mul(d, 2), gf_mul(d, 3));
    lemma_mul_xor4(a2, b3, c, d, 0x0e);
    lemma_mul_xor4(b2, c3, d, a, 0x0b);
    lemma_mul_xor4(c2, d3, a, b, 0x0d);
    lemma_mul_xor4(d2, a3, b, c, 0x09);
    assert(gf_mul(gf_mul(a, 2), 0x0e) ^ gf_mul(a, 0x0b) ^ gf_mul(a, 0x0d) ^ gf_mul(gf_mul(a, 3), 0x09) == a) by (bit_vector);
    assert(gf_mul(gf_mul(b, 3), 0x0e) ^ gf_mul(gf_mul(b, 2), 0x0b) ^ gf_mul(b, 0x0d) ^ gf_mul(b, 0x09) == 0) by (bit_vector);
    assert(gf_mul(c, 0x0e) ^ gf_mul(gf_mul(c, 3), 0x0b) ^ gf_mul(gf_mul(c, 2), 0x0d) ^ gf_mul(c, 0x09) == 0) by (bit_vector);
    assert(gf_mul(d, 0x0e) ^ gf_mul(d, 0x0b) ^ gf_mul(gf_mul(d, 3), 0x0d) ^ gf_mul(gf_mul(d, 2), 0x09) == 0) by (bit_vector);
    lemma_xor_regroup(
        gf_mul(a2, 0x0e), gf_mul(b3, 0x0e), gf_mul(c, 0x0e), gf_mul(d, 0x0e),
        gf_mul(b2, 0x0b), gf_mul(c3, 0x0b), gf_mul(d, 0x0b), gf_mul(a, 0x0b),
        gf_mul(c2, 0x0d), gf_mul(d3, 0x0d), gf_mul(a, 0x0d), gf_mul(b, 0x0d),
        gf_mul(d2, 0x09), gf_mul(a3, 0x09), gf_mul(b, 0x09), gf_mul(c, 0x09),
        a,
    );
}

/// One byte of MixColumns after InvMixColumns, for the column `a, b, c, d`
/// read from the byte's own row on.
proof fn lemma_mix_after_inv_mix(a: u8, b: u8, c: u8, d: u8)
    ensures
        mix_byte(inv_mix_byte(a, b, c, d), inv_mix_byte(b, c, d, a), inv_mix_byte(c, d, a, b), inv_mix_byte(d, a, b, c)) == a,
{
    let (ae, ab, ad, a9) = (gf_mul(a, 0x0e), gf_mul(a, 0x0b), gf_mul(a, 0x0d), gf_mul(a, 0x09));
    let (be, bb, bd, b9) = (gf_mul(b, 0x0e), gf_mul(b, 0x0b), gf_mul(b, 0x0d), gf_mul(b, 0x09));
    let (ce, cb, cd, c9) = (gf_mul(c, 0x0e), gf_mul(c, 0x0b), gf_mul(c, 0x0d), gf_mul(c, 0x09));
    let (de, db, dd, d9) = (gf_mul(d, 0x0e), gf_mul(d, 0x0b), gf_mul(d, 0x0d), gf_mul(d, 0x09));
    lemma_mul_xor4(ae, bb, cd, d9, 2);
    lemma_mul_xor4(be, cb, dd, a9, 3);
    assert(gf_mul(gf_mul(a, 0x0e), 2) ^ gf_mul(gf_mul(a, 0x09), 3) ^ gf_mul(a, 0x0d) ^ gf_mul(a, 0x0b) == a) by (bit_vector);
    assert(gf_mul(gf_mul(b, 0x0b), 2) ^ gf_mul(gf_mul(b, 0x0e), 3) ^ gf_mul(b, 0x09) ^ gf_mul(b, 0x0d) == 0) by (bit_vector);
    assert(gf_mul(gf_mul(c, 0x0d), 2) ^ gf_mul(gf_mul(c, 0x0b), 3) ^ gf_mul(c, 0x0e) ^ gf_mul(c, 0x09) == 0) by (bit_vector);
    assert(gf_mul(gf_mul(d, 0x09), 2) ^ gf_mul(gf_mul(d, 0x0d), 3) ^ gf_mul(d, 0x0b) ^ gf_mul(d, 0x0e) == 0) by (bit_vector);
    lemma_xor_regroup(
        gf_mul(ae, 2), gf_mul(bb, 2), gf_mul(cd, 2), gf_mul(d9, 2),
        gf_mul(be, 3), gf_mul(cb, 3), gf_mul(dd, 3), gf_mul(a9, 3),
        ce, db, ad, b9,
        de, ab, bd, c9,
        a,
    );
}

/// InvSubBytes undoes SubBytes, and the other way round, on every state.
pub proof fn lemma_sub_bytes_inverse(b: Seq<u8>)
    requires
        b.len() == 16,
    ensures
        inv_sub_bytes_spec(sub_bytes_spec(b)) == b,
        sub_bytes_spec(inv_sub_bytes_spec(b)) == b,
{
    assert forall|i: int| 0 <= i < 16 implies inv_sub_bytes_spec(sub_bytes_spec(b))[i] == b[i]
        && sub_bytes_spec(inv_sub_bytes_spec(b))[i] == b[i] by {
        lemma_sbox_inverse(b[i]);
    }
    assert(inv_sub_bytes_spec(sub_bytes_spec(b)) =~= b);
    assert(sub_bytes_spec(inv_sub_bytes_spec(b)) =~= b);
}

/// InvShiftRows undoes ShiftRows, and the other way round, on every state.
pub proof fn lemma_shift_rows_inverse(b: Seq<u8>)
    requires
        b.len() == 16,
    ensures
        inv_shift_rows_spec(shift_rows_spec(b)) == b,
        shift_rows_spec(inv_shift_rows_spec(b)) == b,
{
    assert forall|i: int| 0 <= i < 16 implies inv_shift_rows_spec(shift_rows_spec(b))[i] == b[i]
        && shift_rows_spec(inv_shift_rows_spec(b))[i] == b[i] by {
        let (r, c) = (i % 4, i / 4);
        lemma_cell_index(r, c);
        lemma_cell_index(r, (c + 4 - r) % 4);
        lemma_cell_index(r, (c + r) % 4);
    }
    assert(inv_shift_rows_spec(shift_rows_spec(b)) =~= b);
    assert(shift_rows_spec(inv_shift_rows_spec(b)) =~= b);
}

/// InvMixColumns undoes MixColumns, and the other way round, on every state.
pub proof fn lemma_mix_columns_inverse(b: Seq<u8>)
    requires
        b.len() == 16,
    ensures
        inv_mix_columns_spec(mix_columns_spec(b)) == b,
        mix_columns_spec(inv_mix_columns_spec(b)) == b,
{
    assert forall|i: int| 0 <= i < 16 implies inv_mix_columns_spec(mix_columns_spec(b))[i] == b[i]
        && mix_columns_spec(inv_mix_columns_spec(b))[i] == b[i] by {
        let (r, c) = (i % 4, i / 4);
        lemma_cell_index(r, c);
        lemma_cell_index(0, c);
        lemma_cell_index(1, c);
        lemma_cell_index(2, c);
        lemma_cell_index(3, c);
        let (x0, x1, x2, x3) = (cell(b, 0, c), cell(b, 1, c), cell(b, 2, c), cell(b, 3, c));
        if r == 0 {
            lemma_inv_mix_after_mix(x0, x1, x2, x3);
            lemma_mix_after_inv_mix(x0, x1, x2, x3);
        } else if r == 1 {
            lemma_inv_mix_after_mix(x1, x2, x3, x0);
            lemma_mix_after_inv_mix(x1, x2, x3, x0);
        } else if r == 2 {
            lemma_inv_mix_after_mix(x2, x3, x0, x1);
            lemma_mix_after_inv_mix(x2, x3, x0, x1);
        } else {
            lemma_inv_mix_after_mix(x3, x0, x1, x2);
            lemma_mix_after_inv_mix(x3, x0, x1, x2);
        }
    }
    assert(inv_mix_columns_spec(mix_columns_spec(b)) =~= b);
    assert(mix_columns_spec(inv_mix_columns_spec(b)) =~= b);
}

/// AddRoundKey with the same four words twice gives the state back.
pub proof fn lemma_add_round_key_involution(b: Seq<u8>, k: Seq<u32>)
    requires
        b.len() == 16,
        k.len() == 4,
    ensures
        add_round_key_spec(add_round_key_spec(b, k), k) == b,
{
    assert forall|i: int| 0 <= i < 16 implies add_round_key_spec(add_round_key_spec(b, k), k)[i]
        == b[i] by {
        let (x, y) = (b[i], word_byte(k[i / 4], i % 4));
        assert((x ^ y) ^ y == x) by (bit_vector);
    }
    assert(add_round_key_spec(add_round_key_spec(b, k), k) =~= b);
}

impl State {
    /// A state from sixteen bytes in column-major order.
    pub fn from_slice(slice: &[u8]) -> (r: State)
        requires
            slice@.len() == 16,
        ensures
            r@ == slice@,
    {
        let mut state = [[0u8; 4]; 4];
        for c in 0..4
            invariant
                slice@.len() == 16,
                forall|rr: int, cc: int|
                    0 <= rr < 4 && 0 <= cc < c ==> state[rr][cc] == #[trigger] slice@[4 * cc + rr],
        {
            for r in 0..4
                invariant
                    slice@.len() == 16,
                    0 <= c < 4,
                    forall|rr: int, cc: int|
                        0 <= rr < 4 && 0 <= cc < c ==> state[rr][cc] == #[trigger] slice@[4 * cc
                            + rr],
                    forall|rr: int| 0 <= rr < r ==> state[rr][c as int] == #[trigger] slice@[4 * (c as int) + rr],
            {
                state[r][c] = slice[c * 4 + r];
            }
        }
        let r = State { state };
        proof {
            lemma_view_from_cells(r, slice@);
        }
        r
    }

    /// SubBytes.
    pub fn sub_bytes(&self) -> (r: State)
        ensures
            r@ == sub_bytes_spec(self@),
    {
        let mut ret = [[0u8; 4]; 4];
        for i in 0..4
            invariant
                forall|a: int, b: int|
                    0 <= a < i && 0 <= b < 4 ==> ret[a][b] == sbox_spec(#[trigger] self.state[a][b]),
        {
            for j in 0..4
                invariant
                    0 <= i < 4,
                    forall|a: int, b: int|
                        0 <= a < i && 0 <= b < 4 ==> ret[a][b] == sbox_spec(
                            #[trigger] self.state[a][b],
                        ),
                    forall|b: int| 0 <= b < j ==> ret[i as int][b] == sbox_spec(#[trigger] self.state[i as int][b]),
            {
                ret[i][j] = sub_byte(self.state[i][j]);
            }
        }
        let r = State { state: ret };
        proof {
            lemma_view_cell(*self);
            lemma_view_from_cells(r, sub_bytes_spec(self@));
        }
        r
    }

    /// InvSubBytes.
    pub fn inv_sub_bytes(&self) -> (r: State)
        ensures
            r@ == inv_sub_bytes_spec(self@),
    {
        let mut ret = [[0u8; 4]; 4];
        for i in 0..4
            invariant
                forall|a: int, b: int|
                    0 <= a < i && 0 <= b < 4 ==> ret[a][b] == inv_sbox_spec(#[trigger] self.state[a][b]),
        {
            for j in 0..4
                invariant
                    0 <= i < 4,
                    forall|a: int, b: int|
                        0 <= a < i && 0 <= b < 4 ==> ret[a][b] == inv_sbox_spec(
                            #[trigger] self.state[a][b],
                        ),
                    forall|b: int| 0 <= b < j ==> ret[i as int][b] == inv_sbox_spec(#[trigger] self.state[i as int][b]),
            {
                ret[i][j] = inv_sub_byte(self.state[i][j]);
            }
        }
        let r = State { state: ret };
        proof {
            lemma_view_cell(*self);
            lemma_view_from_cells(r, inv_sub_bytes_spec(self@));
        }
        r
    }

    /// ShiftRows.
    pub fn shift_rows(&self) -> (r: State)
        ensures
            r@ == shift_rows_spec(self@),
    {
        let r = State {
            state: [
                State::shift_row(&self.state[0], 0),
                State::shift_row(&self.state[1], 1),
                State::shift_row(&self.state[2], 2),
                State::shift_row(&self.state[3], 3),
            ],
        };
        proof {
            lemma_view_cell(*self);
            assert forall|a: int, b: int| 0 <= a < 4 && 0 <= b < 4 implies r.state[a][b]
                == #[trigger] shift_rows_spec(self@)[4 * b + a] by {
                lemma_cell_index(a, b);
                lemma_cell_index(a, (b + a) % 4);
            }
            lemma_view_from_cells(r, shift_rows_spec(self@));
        }
        r
    }

    /// InvShiftRows.
    pub fn inv_shift_rows(&self) -> (r: State)
        ensures
            r@ == inv_shift_rows_spec(self@),
    {
        let r = State {
            state: [
                State::inv_shift_row(&self.state[0], 0),
                State::inv_shift_row(&self.state[1], 1),
                State::inv_shift_row(&self.state[2], 2),
                State::inv_shift_row(&self.state[3], 3),
            ],
        };
        proof {
            lemma_view_cell(*self);
            assert forall|a: int, b: int| 0 <= a < 4 && 0 <= b < 4 implies r.state[a][b]
                == #[trigger] inv_shift_rows_spec(self@)[4 * b + a] by {
                lemma_cell_index(a, b);
                lemma_cell_index(a, (b + 4 - a) % 4);
            }
            lemma_view_from_cells(r, inv_shift_rows_spec(self@));
        }
        r
    }

    /// A row rotated left by `amount` places.
    pub fn shift_row(row: &[u8; 4], amount: usize) -> (r: [u8; 4])
        requires
            amount < 4,
        ensures
            forall|i: int| 0 <= i < 4 ==> r[i] == row[(i + amount) % 4],
    {
        let mut ret = [0u8; 4];
        for i in 0..4
            invariant
                amount < 4,
                forall|j: int| 0 <= j < i ==> ret[j] == row[(j + amount) % 4],
        {
            ret[i] = row[(i + amount) % 4];
        }
        ret
    }

    /// A row rotated right by `amount` places.
    pub fn inv_shift_row(row: &[u8; 4], amount: usize) -> (r: [u8; 4])
        requires
            amount < 4,
        ensures
            forall|i: int| 0 <= i < 4 ==> r[i] == row[(i + 4 - amount) % 4],
    {
        let mut ret = [0u8; 4];
        for i in 0..4
            invariant
                amount < 4,
                forall|j: int| 0 <= j < i ==> ret[j] == row[(j + 4 - amount) % 4],
        {
            ret[i] = row[(i + 4 - amount) % 4];
        }
        ret
    }

    /// MixColumns.
    pub fn mix_columns(&self) -> (r: State)
        ensures
            r@ == mix_columns_spec(self@),
    {
        let mut ret = self.state;
        for i in 0..4
            invariant
                forall|a: int, b: int|
                    0 <= a < 4 && 0 <= b < i ==> #[trigger] ret[a][b] == mix_byte(
                        self.state[a][b],
                        self.state[(a + 1) % 4][b],
                        self.state[(a + 2) % 4][b],
                        self.state[(a + 3) % 4][b],
                    ),
        {
            let col = State::mix_column(&self.state, i);
            for j in 0..4
                invariant
                    0 <= i < 4,
                    forall|a: int| 0 <= a < 4 ==> #[trigger] col[a] == mix_byte(
                        self.state[a][i as int],
                        self.state[(a + 1) % 4][i as int],
                        self.state[(a + 2) % 4][i as int],
                        self.state[(a + 3) % 4][i as int],
                    ),
                    forall|a: int, b: int|
                        0 <= a < 4 && 0 <= b < i ==> #[trigger] ret[a][b] == mix_byte(
                            self.state[a][b],
                            self.state[(a + 1) % 4][b],
                            self.state[(a + 2) % 4][b],
                            self.state[(a + 3) % 4][b],
                        ),
                    forall|a: int| 0 <= a < j ==> #[trigger] ret[a][i as int] == col[a],
            {
                ret[j][i] = col[j];
            }
        }
        let r = State { state: ret };
        proof {
            lemma_view_cell(*self);
            assert forall|a: int, b: int| 0 <= a < 4 && 0 <= b < 4 implies r.state[a][b]
                == #[trigger] mix_columns_spec(self@)[4 * b + a] by {
                lemma_cell_index(a, b);
                lemma_cell_index((a + 1) % 4, b);
                lemma_cell_index((a + 2) % 4, b);
                lemma_cell_index((a + 3) % 4, b);
            }
            lemma_view_from_cells(r, mix_columns_spec(self@));
        }
        r
    }

    /// Column `col` of `arr` after MixColumns; every output byte is computed
    /// from the column as it was, before any of it is overwritten.
    fn mix_column(arr: &[[u8; 4]; 4], col: usize) -> (r: [u8; 4])
        requires
            col < 4,
        ensures
            forall|i: int| 0 <= i < 4 ==> #[trigger] r[i] == mix_byte(
                arr[i][col as int],
                arr[(i + 1) % 4][col as int],
                arr[(i + 2) % 4][col as int],
                arr[(i + 3) % 4][col as int],
            ),
    {
        let mut ret = [0u8; 4];
        for i in 0..4
            invariant
                col < 4,
                forall|j: int| 0 <= j < i ==> #[trigger] ret[j] == mix_byte(
                    arr[j][col as int],
                    arr[(j + 1) % 4][col as int],
                    arr[(j + 2) % 4][col as int],
                    arr[(j + 3) % 4][col as int],
                ),
        {
            ret[i] = (FF::new(arr[i][col]) * FF::new(0x02) + FF::new(arr[(i + 1) % 4][col])
                * FF::new(0x03) + FF::new(arr[(i + 2) % 4][col]) + FF::new(
                arr[(i + 3) % 4][col],
            )).value();
        }
        ret
    }

    /// InvMixColumns.
    pub fn inv_mix_columns(&self) -> (r: State)
        ensures
            r@ == inv_mix_columns_spec(self@),
    {
        let mut ret = self.state;
        for i in 0..4
            invariant
                forall|a: int, b: int|
                    0 <= a < 4 && 0 <= b < i ==> #[trigger] ret[a][b] == inv_mix_byte(
                        self.state[a][b],
                        self.state[(a + 1) % 4][b],
                        self.state[(a + 2) % 4][b],
                        self.state[(a + 3) % 4][b],
                    ),
        {
            let col = State::inv_mix_column(&self.state, i);
            for j in 0..4
                invariant
                    0 <= i < 4,
                    forall|a: int| 0 <= a < 4 ==> #[trigger] col[a] == inv_mix_byte(
                        self.state[a][i as int],
                        self.state[(a + 1) % 4][i as int],
                        self.state[(a + 2) % 4][i as int],
                        self.state[(a + 3) % 4][i as int],
                    ),
                    forall|a: int, b: int|
                        0 <= a < 4 && 0 <= b < i ==> #[trigger] ret[a][b] == inv_mix_byte(
                            self.state[a][b],
                            self.state[(a + 1) % 4][b],
                            self.state[(a + 2) % 4][b],
                            self.state[(a + 3) % 4][b],
                        ),
                    forall|a: int| 0 <= a < j ==> #[trigger] ret[a][i as int] == col[a],
            {
                ret[j][i] = col[j];
            }
        }
        let r = State { state: ret };
        proof {
            lemma_view_cell(*self);
            assert forall|a: int, b: int| 0 <= a < 4 && 0 <= b < 4 implies r.state[a][b]
                == #[trigger] inv_mix_columns_spec(self@)[4 * b + a] by {
                lemma_cell_index(a, b);
                lemma_cell_index((a + 1) % 4, b);
                lemma_cell_index((a + 2) % 4, b);
                lemma_cell_index((a + 3) % 4, b);
            }
            lemma_view_from_cells(r, inv_mix_columns_spec(self@));
        }
        r
    }

    /// Column `col` of `arr` after InvMixColumns.
    fn inv_mix_column(arr: &[[u8; 4]; 4], col: usize) -> (r: [u8; 4])
        requires
            col < 4,
        ensures
            forall|i: int| 0 <= i < 4 ==> #[trigger] r[i] == inv_mix_byte(
                arr[i][col as int],
                arr[(i + 1) % 4][col as int],
                arr[(i + 2) % 4][col as int],
                arr[(i + 3) % 4][col as int],
            ),
    {
        let mut ret = [0u8; 4];
        for i in 0..4
            invariant
                col < 4,
                forall|j: int| 0 <= j < i ==> #[trigger] ret[j] == inv_mix_byte(
                    arr[j][col as int],
                    arr[(j + 1) % 4][col as int],
                    arr[(j + 2) % 4][col as int],
                    arr[(j + 3) % 4][col as int],
                ),
        {
            ret[i] = (FF::new(arr[i][col]) * FF::new(0x0e) + FF::new(arr[(i + 1) % 4][col])
                * FF::new(0x0b) + FF::new(arr[(i + 2) % 4][col]) * FF::new(0x0d) + FF::new(
                arr[(i + 3) % 4][col],
            ) * FF::new(0x09)).value();
        }
        ret
    }

    /// AddRoundKey with the four words of a round key, one per column.
    pub fn add_round_key(&self, slice: &[u32]) -> (r: State)
        requires
            slice@.len() == 4,
        ensures
            r@ == add_round_key_spec(self@, slice@),
    {
        let mut ret = [[0u8; 4]; 4];
        for c in 0..4
            invariant
                slice@.len() == 4,
                forall|a: int, b: int|
                    0 <= a < 4 && 0 <= b < c ==> #[trigger] ret[a][b] == self.state[a][b]
                        ^ word_byte(slice@[b], a),
        {
            let word = bytes_to_word(
                (self.state[0][c], self.state[1][c], self.state[2][c], self.state[3][c]),
            );
            let res = word ^ slice[c];
            let bytes = word_to_bytes(res);
            proof {
                lemma_word_xor_bytes(
                    self.state[0][c as int],
                    self.state[1][c as int],
                    self.state[2][c as int],
                    self.state[3][c as int],
                    slice@[c as int],
                );
            }
            ret[0][c] = bytes.0;
            ret[1][c] = bytes.1;
            ret[2][c] = bytes.2;
            ret[3][c] = bytes.3;
        }
        let r = State { state: ret };
        proof {
            lemma_view_cell(*self);
            assert forall|a: int, b: int| 0 <= a < 4 && 0 <= b < 4 implies r.state[a][b]
                == #[trigger] add_round_key_spec(self@, slice@)[4 * b + a] by {
                lemma_cell_index(a, b);
            }
            lemma_view_from_cells(r, add_round_key_spec(self@, slice@));
        }
        r
    }

    /// The sixteen bytes in column-major order.
    pub fn to_byte_array(self) -> (r: [u8; 16])
        ensures
            r@ == self@,
    {
        let mut ret = [0u8; 16];
        for c in 0..4
            invariant
                forall|rr: int, cc: int|
                    0 <= rr < 4 && 0 <= cc < c ==> #[trigger] ret[4 * cc + rr] == self.state[rr][cc],
        {
            for r in 0..4
                invariant
                    0 <= c < 4,
                    forall|rr: int, cc: int|
                        0 <= rr < 4 && 0 <= cc < c ==> #[trigger] ret[4 * cc + rr]
                            == self.state[rr][cc],
                    forall|rr: int| 0 <= rr < r ==> #[trigger] ret[4 * (c as int) + rr] == self.state[rr][c as int],
            {
                ret[c * 4 + r] = self.state[r][c];
            }
        }
        proof {
            lemma_view_cell(self);
            assert forall|i: int| 0 <= i < 16 implies ret@[i] == self@[i] by {
                lemma_cell_index(i % 4, i / 4);
            }
            assert(ret@ =~= self@);
        }
        ret
    }
}

} // verus!
