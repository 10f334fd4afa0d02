use vstd::prelude::*;

verus! {

/// Failures of the protocol, surfaced at message boundaries only.
#[derive(Clone, Copy, Debug, PartialEq, Eq, Structural)]
pub enum Error {
    /// A DLEQ proof's Fiat-Shamir challenge did not recompute.
    InvalidDleq,
    /// An opening did not match the committed digest.
    CommitmentMismatch,
    /// 32 bytes that are not a canonical point encoding.
    MalformedPoint,
    /// 32 bytes that are not a canonical scalar encoding.
    MalformedScalar,
}

} // verus!
