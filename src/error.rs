use vstd::prelude::*;

verus! {

/// The two ways an input can be refused.
#[derive(Debug, Clone, Copy, PartialEq, Eq, Structural)]
pub enum AesError {
    /// A key of a word count other than 4, 6 or 8 (or a byte count other than
    /// 16, 24 or 32).
    InvalidKeySize,
    /// A block of a length other than 16 bytes.
    InvalidBlockSize,
}

} // verus!
