use vstd::prelude::*;
use crate::error::Error;

verus! {

/// Marker handed to a message's canonical-encoding routine to select the
/// body encoding covered by a signature.
pub struct Body;

/// A value that can check itself and yield its verified form.
pub trait Verifiable {
    type Output;

    fn verify(self) -> Result<Self::Output, Error>;
}

/// A key that can sign a target, yielding some output.
pub trait Signer<T> {
    type Output;

    fn sign(&self, target: &mut T) -> Result<Self::Output, Error>;
}

} // verus!
