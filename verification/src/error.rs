use vstd::prelude::*;

verus! {

/// The error kinds this library reports.
#[derive(Clone, Copy, Debug, PartialEq, Eq, Structural)]
pub enum Error {
    /// Malformed key bytes, or the decoded private key's public component
    /// does not match the reference public key.
    InvalidData,
    /// Signature metadata (usage, key family, digest algorithm or signer
    /// identity) does not match the key it is checked against.
    InvalidInput,
    /// The cryptographic backend rejected the operation, or the
    /// key-family/usage combination has no descriptor format.
    CryptoFailure,
}

} // verus!
