use vstd::prelude::*;

use crate::error::AesError;
use crate::key::{expand_key, valid_key_len, valid_schedule_len, Key, KeySchedule};
use crate::state::{
    add_round_key_spec, inv_mix_columns_spec, inv_shift_rows_spec, inv_sub_bytes_spec,
    lemma_add_round_key_involution, lemma_mix_columns_inverse, lemma_shift_rows_inverse,
    lemma_sub_bytes_inverse, mix_columns_spec, shift_rows_spec, sub_bytes_spec, State,
};

verus! {

/// The four words of round key `r` in a schedule.
pub open spec fn round_key(w: Seq<u32>, r: int) -> Seq<u32> {
    w.subrange(4 * r, 4 * r + 4)
}

/// The number of rounds that a schedule provides keys for.
pub open spec fn rounds_of(w: Seq<u32>) -> int {
    w.len() / 4 - 1
}

/// The state of the cipher after the initial AddRoundKey and rounds `1..=r`.
pub open spec fn encrypt_rounds(b: Seq<u8>, w: Seq<u32>, r: nat) -> Seq<u8>
    decreases r,
{
    if r == 0 {
        add_round_key_spec(b, round_key(w, 0))
    } else {
        add_round_key_spec(
            mix_columns_spec(shift_rows_spec(sub_bytes_spec(encrypt_rounds(b, w, (r - 1) as nat)))),
            round_key(w, r as int),
        )
    }
}

/// The cipher under a key schedule: the final round has no MixColumns.
pub open spec fn cipher_spec(w: Seq<u32>, b: Seq<u8>) -> Seq<u8> {
    let nr = rounds_of(w);
    add_round_key_spec(
        shift_rows_spec(sub_bytes_spec(encrypt_rounds(b, w, (nr - 1) as nat))),
        round_key(w, nr),
    )
}

/// The inverse rounds `r`, `r - 1`, ..., 1 applied to `s`, in that order.
pub open spec fn decrypt_rounds(s: Seq<u8>, w: Seq<u32>, r: nat) -> Seq<u8>
    decreases r,
{
    if r == 0 {
        s
    } else {
        decrypt_rounds(
            inv_mix_columns_spec(
                add_round_key_spec(inv_sub_bytes_spec(inv_shift_rows_spec(s)), round_key(w, r as int)),
            ),
            w,
            (r - 1) as nat,
        )
    }
}

/// The inverse cipher under a key schedule: the round keys in reverse order.
pub open spec fn inv_cipher_spec(w: Seq<u32>, b: Seq<u8>) -> Seq<u8> {
    let nr = rounds_of(w);
    add_round_key_spec(
        inv_sub_bytes_spec(
            inv_shift_rows_spec(
                decrypt_rounds(add_round_key_spec(b, round_key(w, nr)), w, (nr - 1) as nat),
            ),
        ),
        round_key(w, 0),
    )
}

/// Encryption of a block under a cipher key.
pub open spec fn encrypt_spec(key: Seq<u32>, b: Seq<u8>) -> Seq<u8> {
    cipher_spec(expand_key(key), b)
}

/// Decryption of a block under a cipher key.
pub open spec fn decrypt_spec(key: Seq<u32>, b: Seq<u8>) -> Seq<u8> {
    inv_cipher_spec(expand_key(key), b)
}

/// Encrypts one block under a key schedule.
pub fn cipher(schedule: &KeySchedule, block: &[u8]) -> (r: [u8; 16])
    requires
        block@.len() == 16,
    ensures
        r@ == cipher_spec(schedule@, block@),
{
    let nr = schedule.rounds();
    let mut state = State::from_slice(block);
    let ks = schedule.round_key(0);
    state = state.add_round_key(&ks);
    let mut round: usize = 1;
    while round < nr
        invariant
            valid_schedule_len(schedule@.len()),
            nr == rounds_of(schedule@),
            1 <= round <= nr,
            state@ == encrypt_rounds(block@, schedule@, (round - 1) as nat),
        decreases nr - round,
    {
        state = state.sub_bytes();
        state = state.shift_rows();
        state = state.mix_columns();
        let ks = schedule.round_key(round);
        state = state.add_round_key(&ks);
        round = round + 1;
    }
    state = state.sub_bytes();
    state = state.shift_rows();
    let ks = schedule.round_key(nr);
    state = state.add_round_key(&ks);
    state.to_byte_array()
}

/// Decrypts one block under a key schedule.
pub fn inv_cipher(schedule: &KeySchedule, block: &[u8]) -> (r: [u8; 16])
    requires
        block@.len() == 16,
    ensures
        r@ == inv_cipher_spec(schedule@, block@),
{
    let nr = schedule.rounds();
    let mut state = State::from_slice(block);
    let ks = schedule.round_key(nr);
    state = state.add_round_key(&ks);
    let ghost start = state@;
    let mut round: usize = nr - 1;
    while round > 0
        invariant
            valid_schedule_len(schedule@.len()),
            nr == rounds_of(schedule@),
            round < nr,
            decrypt_rounds(state@, schedule@, round as nat) == decrypt_rounds(
                start,
                schedule@,
                (nr - 1) as nat,
            ),
        decreases round,
    {
        state = state.inv_shift_rows();
        state = state.inv_sub_bytes();
        let ks = schedule.round_key(round);
        state = state.add_round_key(&ks);
        state = state.inv_mix_columns();
        round = round - 1;
    }
    state = state.inv_shift_rows();
    state = state.inv_sub_bytes();
    let ks = schedule.round_key(0);
    state = state.add_round_key(&ks);
    state.to_byte_array()
}

/// Encrypts a block under a key; fails unless the block has 16 bytes.
pub fn encrypt(key: &Key, block: &[u8]) -> (r: Result<[u8; 16], AesError>)
    ensures
        match r {
            Ok(out) => block@.len() == 16 && out@ == encrypt_spec(key@, block@),
            Err(e) => block@.len() != 16 && e == AesError::InvalidBlockSize,
        },
{
    if block.len() != 16 {
        return Err(AesError::InvalidBlockSize);
    }
    let schedule = key.create_schedule();
    Ok(cipher(&schedule, block))
}

/// Decrypts a block under a key; fails unless the block has 16 bytes.
pub fn decrypt(key: &Key, block: &[u8]) -> (r: Result<[u8; 16], AesError>)
    ensures
        match r {
            Ok(out) => block@.len() == 16 && out@ == decrypt_spec(key@, block@),
            Err(e) => block@.len() != 16 && e == AesError::InvalidBlockSize,
        },
{
    if block.len() != 16 {
        return Err(AesError::InvalidBlockSize);
    }
    let schedule = key.create_schedule();
    Ok(inv_cipher(&schedule, block))
}

/// Encrypts blocks under one key.
pub struct Encryptor {
    key: Key,
}

impl View for Encryptor {
    type V = Seq<u32>;

    closed spec fn view(&self) -> Seq<u32> {
        self.key@
    }
}

impl Encryptor {
    pub fn using(key: Key) -> (r: Encryptor)
        ensures
            r@ == key@,
    {
        Encryptor { key }
    }

    /// Encrypts a block; fails unless it has 16 bytes.
    pub fn encrypt(&self, input: &[u8]) -> (r: Result<[u8; 16], AesError>)
        ensures
            match r {
                Ok(out) => input@.len() == 16 && out@ == encrypt_spec(self@, input@),
                Err(e) => input@.len() != 16 && e == AesError::InvalidBlockSize,
            },
    {
        encrypt(&self.key, input)
    }
}

/// Decrypts blocks under one key.
pub struct Decryptor {
    key: Key,
}

impl View for Decryptor {
    type V = Seq<u32>;

    closed spec fn view(&self) -> Seq<u32> {
        self.key@
    }
}

impl Decryptor {
    pub fn using(key: Key) -> (r: Decryptor)
        ensures
            r@ == key@,
    {
        Decryptor { key }
    }

    /// Decrypts a block; fails unless it has 16 bytes.
    pub fn decrypt(&self, input: &[u8]) -> (r: Result<[u8; 16], AesError>)
        ensures
            match r {
                Ok(out) => input@.len() == 16 && out@ == decrypt_spec(self@, input@),
                Err(e) => input@.len() != 16 && e == AesError::InvalidBlockSize,
            },
    {
        decrypt(&self.key, input)
    }
}

/// The inverse rounds, from the state that SubBytes and ShiftRows make of
/// the cipher's state after round `r`, reach the one they make of it after
/// the initial AddRoundKey.
proof fn lemma_decrypt_rounds_undo(p: Seq<u8>, w: Seq<u32>, r: nat)
    requires
        4 * r + 4 <= w.len(),
    ensures
        decrypt_rounds(shift_rows_spec(sub_bytes_spec(encrypt_rounds(p, w, r))), w, r)
            == shift_rows_spec(sub_bytes_spec(encrypt_rounds(p, w, 0))),
    decreases r,
{
    if r > 0 {
        let prev = shift_rows_spec(sub_bytes_spec(encrypt_rounds(p, w, (r - 1) as nat)));
        let x = encrypt_rounds(p, w, r);
        let k = round_key(w, r as int);
        lemma_sub_bytes_inverse(x);
        lemma_shift_rows_inverse(sub_bytes_spec(x));
        lemma_add_round_key_involution(mix_columns_spec(prev), k);
        lemma_mix_columns_inverse(prev);
        lemma_decrypt_rounds_undo(p, w, (r - 1) as nat);
    }
}

/// The inverse cipher undoes the cipher under every key schedule.
pub proof fn lemma_inv_cipher_cipher(w: Seq<u32>, p: Seq<u8>)
    requires
        valid_schedule_len(w.len()),
        p.len() == 16,
    ensures
        inv_cipher_spec(w, cipher_spec(w, p)) == p,
{
    let nr = rounds_of(w);
    let last = shift_rows_spec(sub_bytes_spec(encrypt_rounds(p, w, (nr - 1) as nat)));
    lemma_add_round_key_involution(last, round_key(w, nr));
    lemma_decrypt_rounds_undo(p, w, (nr - 1) as nat);
    let x0 = encrypt_rounds(p, w, 0);
    lemma_sub_bytes_inverse(x0);
    lemma_shift_rows_inverse(sub_bytes_spec(x0));
    lemma_add_round_key_involution(p, round_key(w, 0));
}

/// Decryption undoes encryption, for every valid key and every block.
pub proof fn lemma_decrypt_encrypt(key: Seq<u32>, p: Seq<u8>)
    requires
        valid_key_len(key.len()),
        p.len() == 16,
    ensures
        decrypt_spec(key, encrypt_spec(key, p)) == p,
{
    lemma_inv_cipher_cipher(expand_key(key), p);
}

/// Two different blocks never encrypt to the same block under one key: a
/// change to any bit of the block changes the result.
pub proof fn lemma_encrypt_injective(key: Seq<u32>, p1: Seq<u8>, p2: Seq<u8>)
    requires
        valid_key_len(key.len()),
        p1.len() == 16,
        p2.len() == 16,
        p1 != p2,
    ensures
        encrypt_spec(key, p1) != encrypt_spec(key, p2),
{
    lemma_decrypt_encrypt(key, p1);
    lemma_decrypt_encrypt(key, p2);
}

} // verus!
