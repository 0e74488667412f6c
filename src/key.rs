use vstd::prelude::*;
use vstd::slice::slice_to_vec;

use crate::error::AesError;
use crate::ff::{xtime_spec, FF};
use crate::sbox::{sub_word, sub_word_spec};
use crate::util::{bytes_to_word, rot_word, rot_word_spec, word_of};

verus! {

/// A cipher key has 4, 6 or 8 words (AES-128, AES-192, AES-256).
pub open spec fn valid_key_len(nk: nat) -> bool {
    nk == 4 || nk == 6 || nk == 8
}

/// A key schedule has four words for each of the `nk + 7` round keys.
pub open spec fn valid_schedule_len(n: nat) -> bool {
    n == 44 || n == 52 || n == 60
}

/// The round constant byte: 1 at index 1, then each one `xtime` of the one
/// before. Index 0 is never consulted.
pub open spec fn rc_spec(j: nat) -> u8
    decreases j,
{
    if j <= 1 {
        1
    } else {
        xtime_spec(rc_spec((j - 1) as nat))
    }
}

/// The round constant word `Rcon[j]`: the constant byte in the high byte.
pub open spec fn rcon_spec(j: nat) -> u32 {
    word_of(rc_spec(j), 0, 0, 0)
}

/// Word `i` of the key expansion of `key`.
pub open spec fn schedule_word(key: Seq<u32>, i: nat) -> u32
    decreases i,
{
    let nk = key.len();
    if nk == 0 {
        0
    } else if i < nk {
        key[i as int]
    } else {
        let prev = schedule_word(key, (i - 1) as nat);
        let temp = if i % nk == 0 {
            sub_word_spec(rot_word_spec(prev)) ^ rcon_spec(i / nk)
        } else if nk > 6 && i % nk == 4 {
            sub_word_spec(prev)
        } else {
            prev
        };
        schedule_word(key, (i - nk) as nat) ^ temp
    }
}

/// The key expansion: `4 * (nr + 1)` words, with `nr = nk + 6` rounds.
pub open spec fn expand_key(key: Seq<u32>) -> Seq<u32> {
    Seq::new((4 * (key.len() + 7)) as nat, |i: int| schedule_word(key, i as nat))
}

/// The word count of a key given as big-endian bytes, and its words.
pub open spec fn words_of_bytes(b: Seq<u8>) -> Seq<u32> {
    Seq::new(b.len() / 4, |i: int| word_of(b[4 * i], b[4 * i + 1], b[4 * i + 2], b[4 * i + 3]))
}

/// A cipher key of 4, 6 or 8 words.
pub struct Key {
    words: Vec<u32>,
}

impl View for Key {
    type V = Seq<u32>;

    closed spec fn view(&self) -> Seq<u32> {
        self.words@
    }
}

/// A key schedule: the round keys, four words each, one after the other.
#[derive(Debug, PartialEq, Eq)]
pub struct KeySchedule {
    words: Vec<u32>,
}

impl View for KeySchedule {
    type V = Seq<u32>;

    closed spec fn view(&self) -> Seq<u32> {
        self.words@
    }
}

/// The round constant word `Rcon[j]`, computed by repeated `xtime`.
fn rcon(j: usize) -> (r: u32)
    requires
        j >= 1,
    ensures
        r == rcon_spec(j as nat),
{
    let mut rc = FF::new(1);
    let mut k: usize = 1;
    while k < j
        invariant
            1 <= k <= j,
            rc@ == rc_spec(k as nat),
        decreases j - k,
    {
        rc = rc.xtime();
        k = k + 1;
    }
    bytes_to_word((rc.value(), 0, 0, 0))
}

impl Key {
    #[verifier::type_invariant]
    spec fn inv(&self) -> bool {
        valid_key_len(self.words@.len())
    }

    /// A key from its words; fails unless there are 4, 6 or 8 of them.
    pub fn new(words: &[u32]) -> (r: Result<Key, AesError>)
        ensures
            match r {
                Ok(key) => valid_key_len(words@.len()) && key@ == words@,
                Err(e) => !valid_key_len(words@.len()) && e == AesError::InvalidKeySize,
            },
    {
        let n = words.len();
        if n != 4 && n != 6 && n != 8 {
            return Err(AesError::InvalidKeySize);
        }
        Ok(Key { words: slice_to_vec(words) })
    }

    /// A key from its bytes, four to a word, most significant first; fails
    /// unless there are 16, 24 or 32 of them.
    pub fn from_bytes(bytes: &[u8]) -> (r: Result<Key, AesError>)
        ensures
            match r {
                Ok(key) => valid_key_len(bytes@.len() / 4) && bytes@.len() % 4 == 0
                    && key@ == words_of_bytes(bytes@),
                Err(e) => !(valid_key_len(bytes@.len() / 4) && bytes@.len() % 4 == 0)
                    && e == AesError::InvalidKeySize,
            },
    {
        let n = bytes.len();
        if n != 16 && n != 24 && n != 32 {
            return Err(AesError::InvalidKeySize);
        }
        let mut words: Vec<u32> = Vec::new();
        let mut i: usize = 0;
        while i < n / 4
            invariant
                n == bytes@.len(),
                n == 16 || n == 24 || n == 32,
                i <= n / 4,
                words@ =~= words_of_bytes(bytes@).take(i as int),
            decreases n / 4 - i,
        {
            let w = bytes_to_word((bytes[4 * i], bytes[4 * i + 1], bytes[4 * i + 2], bytes[4 * i + 3]));
            words.push(w);
            i = i + 1;
        }
        Ok(Key { words })
    }

    /// Expands the key into its schedule of `4 * (nk + 7)` words.
    pub fn create_schedule(&self) -> (r: KeySchedule)
        ensures
            r@ == expand_key(self@),
    {
        proof {
            use_type_invariant(self);
        }
        let nk = self.words.len();
        let total = 4 * (nk + 7);
        let mut w: Vec<u32> = self.words.clone();
        let mut i = nk;
        while i < total
            invariant
                nk == self@.len(),
                valid_key_len(nk as nat),
                total == 4 * (nk + 7),
                nk <= i <= total,
                w@.len() == i,
                forall|j: int| 0 <= j < i ==> w@[j] == schedule_word(self@, j as nat),
            decreases total - i,
        {
            let prev = w[i - 1];
            let temp = if i % nk == 0 {
                sub_word(rot_word(prev)) ^ rcon(i / nk)
            } else if nk > 6 && i % nk == 4 {
                sub_word(prev)
            } else {
                prev
            };
            let earlier = w[i - nk];
            w.push(earlier ^ temp);
            i = i + 1;
        }
        assert(w@ =~= expand_key(self@));
        KeySchedule { words: w }
    }
}

impl KeySchedule {
    #[verifier::type_invariant]
    spec fn inv(&self) -> bool {
        valid_schedule_len(self.words@.len())
    }

    /// A schedule from its words; there must be 44, 52 or 60 of them.
    pub fn new(words: &[u32]) -> (r: KeySchedule)
        requires
            valid_schedule_len(words@.len()),
        ensures
            r@ == words@,
    {
        KeySchedule { words: slice_to_vec(words) }
    }

    /// The number of rounds, 10, 12 or 14.
    pub fn rounds(&self) -> (r: usize)
        ensures
            valid_schedule_len(self@.len()),
            r == self@.len() / 4 - 1,
    {
        proof {
            use_type_invariant(self);
        }
        self.words.len() / 4 - 1
    }

    /// The four words of the round key of round `round`.
    pub fn round_key(&self, round: usize) -> (r: [u32; 4])
        requires
            4 * round + 4 <= self@.len(),
        ensures
            r@ == self@.subrange(4 * round as int, 4 * round + 4),
    {
        proof {
            use_type_invariant(self);
        }
        let k = 4 * round;
        let r = [self.words[k], self.words[k + 1], self.words[k + 2], self.words[k + 3]];
        assert(r@ =~= self@.subrange(4 * round as int, 4 * round + 4));
        r
    }
}

} // verus!
