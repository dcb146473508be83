use vstd::prelude::*;

verus! {

/// The role a key or signature plays in a certificate hierarchy.  A
/// signature is applicable to a key only when the two usages are equal.
#[derive(Clone, Copy, Debug, PartialEq, Eq, Structural)]
pub enum Usage {
    /// Root key of the hierarchy (root-signing role).
    Ark,
    /// Intermediate signing key under the root (chain-signing role).
    Ask,
    /// Chip endorsement key (chain-signing role).
    Cek,
    /// Owner certificate authority (owner-signing role).
    Oca,
    /// Platform endorsement key (endpoint-signing role).
    Pek,
    /// Platform key-agreement key: key encipherment, not a signing role.
    Pdh,
}

impl Usage {
    /// Whether this usage is one of the signing roles.
    pub open spec fn spec_is_signing(self) -> bool {
        !(self is Pdh)
    }

    /// Executable form of `spec_is_signing`.
    pub fn is_signing(&self) -> (r: bool)
        ensures
            r == self.spec_is_signing(),
    {
        match self {
            Usage::Pdh => false,
            _ => true,
        }
    }
}

} // verus!
