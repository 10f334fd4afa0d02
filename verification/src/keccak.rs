//! Keccak-256 digests and reduction of digests to scalars, the two steps of
//! every transcript hash in the protocol.

use crate::encoding::le_val;
use crate::scalar::{group_order, Scalar};
use tiny_keccak::Hasher;
use vstd::prelude::*;

verus! {

/// The 32-byte Keccak-256 digest of a byte string: what tiny-keccak's
/// `Keccak::v256` absorbs-then-squeezes.
pub uninterp spec fn keccak256_of(input: Seq<u8>) -> Seq<u8>;

/// The scalar value a transcript hashes to: the digest read little-endian,
/// reduced modulo the group order.
pub open spec fn hash_to_scalar_val(input: Seq<u8>) -> nat {
    le_val(keccak256_of(input)) % group_order()
}

/// Relies on tiny-keccak `Keccak::v256` with `update` and `finalize`: the
/// 32-byte Keccak-256 digest of the absorbed bytes, a function of those
/// bytes alone.
#[verifier::external_body]
pub(crate) fn keccak256(data: &[u8]) -> (r: [u8; 32])
    ensures
        r@ == keccak256_of(data@),
{
    let mut hasher = tiny_keccak::Keccak::v256();
    hasher.update(data);
    let mut output = [0u8; 32];
    hasher.finalize(&mut output);
    output
}

/// Hash a transcript into a scalar.
pub(crate) fn hash_to_scalar(data: &[u8]) -> (r: Scalar)
    ensures
        r.val() == hash_to_scalar_val(data@),
{
    let digest = keccak256(data);
    Scalar::from_bytes_mod_order(digest)
}

} // verus!
