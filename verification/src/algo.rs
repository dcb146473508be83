use vstd::prelude::*;

verus! {

/// The asymmetric algorithm class of a key: RSA or elliptic curve.
#[derive(Clone, Copy, Debug, PartialEq, Eq, Structural)]
pub enum KeyFamily {
    Rsa,
    Ec,
}

/// The digest algorithm used to condense a message before it is signed
/// or a signature over it is checked.
#[derive(Clone, Copy, Debug, PartialEq, Eq, Structural)]
pub enum Digest {
    Sha256,
    Sha384,
    Sha512,
}

impl Digest {
    /// Output size of the digest in bits.
    pub open spec fn spec_bits(self) -> u64 {
        match self {
            Digest::Sha256 => 256,
            Digest::Sha384 => 384,
            Digest::Sha512 => 512,
        }
    }

    /// Executable form of `spec_bits`.
    pub fn bits(&self) -> (r: u64)
        ensures
            r == self.spec_bits(),
    {
        match self {
            Digest::Sha256 => 256,
            Digest::Sha384 => 384,
            Digest::Sha512 => 512,
        }
    }
}

} // verus!
