//! The selectable digest algorithms.
use vstd::prelude::*;

verus! {

/// The hashing algorithm. SHA-1 and SHA-2 algorithms are supported.
#[derive(Debug, Clone, Copy, PartialEq, Eq, Structural)]
pub enum Hashing {
    /// SHA-1. Should generally be avoided unless working with legacy software.
    Sha1,
    /// SHA-2 with a 256-bit output.
    Sha256,
    /// SHA-2 with a 384-bit output.
    Sha384,
    /// SHA-2 with a 512-bit output.
    Sha512,
    /// SHA-512 truncated to 256 bits.
    Sha512_256,
}

/// The largest number of input bytes a digest can be computed over: the
/// input's length in bits must fit in 64 bits.
pub const MAX_INPUT_LEN: u64 = 0x1fff_ffff_ffff_ffff;

impl Hashing {
    /// The number of bytes in a digest of this algorithm.
    pub open spec fn output_len(self) -> nat {
        match self {
            Hashing::Sha1 => 20,
            Hashing::Sha256 => 32,
            Hashing::Sha384 => 48,
            Hashing::Sha512 => 64,
            Hashing::Sha512_256 => 32,
        }
    }

    /// Returns the number of bytes in a digest of this algorithm.
    pub fn digest_len(&self) -> (r: usize)
        ensures
            r == self.output_len(),
    {
        match self {
            Hashing::Sha1 => 20,
            Hashing::Sha256 => 32,
            Hashing::Sha384 => 48,
            Hashing::Sha512 => 64,
            Hashing::Sha512_256 => 32,
        }
    }
}

} // verus!
