//! Hash algorithms used by the signature and cipher suites.
use vstd::prelude::*;

verus! {

/// A SHA-2 hash algorithm.
#[derive(Debug, Clone, Copy, PartialEq, Eq, Structural)]
pub enum HashAlgorithm {
    /// SHA-256.
    Sha256,
    /// SHA-384.
    Sha384,
    /// SHA-512.
    Sha512,
}

/// Output length in bytes of `hash`.
pub open spec fn hash_output_len(hash: HashAlgorithm) -> usize {
    match hash {
        HashAlgorithm::Sha256 => 32,
        HashAlgorithm::Sha384 => 48,
        HashAlgorithm::Sha512 => 64,
    }
}

impl HashAlgorithm {
    /// Output length in bytes.
    pub fn output_len(&self) -> (n: usize)
        ensures
            n == hash_output_len(*self),
    {
        match self {
            HashAlgorithm::Sha256 => 32,
            HashAlgorithm::Sha384 => 48,
            HashAlgorithm::Sha512 => 64,
        }
    }
}

} // verus!
