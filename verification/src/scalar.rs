//! Scalars of the Ed25519 prime-order group, kept in canonical little-endian
//! form. Arithmetic is curve25519-dalek's, trusted to compute modulo the
//! group order; everything stated about it is in terms of [`le_val`].

use crate::encoding::le_val;
use crate::error::Error;
use vstd::prelude::*;

verus! {

/// The order `l` of the prime-order subgroup of Ed25519:
/// `2^252 + 27742317777372353535851937790883648493`.
pub open spec fn group_order() -> nat {
    7237005577332262213973186563042994240857116359379907606001950938285454250989nat
}

/// `(a + b) mod l`.
pub open spec fn add_mod(a: nat, b: nat) -> nat {
    (a + b) % group_order()
}

/// `(a * b) mod l`.
pub open spec fn mul_mod(a: nat, b: nat) -> nat {
    (a * b) % group_order()
}

/// `(a - b) mod l`, for `b <= a + l`.
pub open spec fn sub_mod(a: nat, b: nat) -> nat {
    (((a + group_order()) - b) % (group_order() as int)) as nat
}

/// A scalar modulo the group order, stored as its canonical 32-byte
/// little-endian encoding. The view is the encoding; [`Scalar::val`] is the
/// value it encodes.
#[derive(Clone, Copy, Debug)]
pub struct Scalar {
    bytes: [u8; 32],
}

impl View for Scalar {
    type V = Seq<u8>;

    closed spec fn view(&self) -> Seq<u8> {
        self.bytes@
    }
}

impl Scalar {
    /// Holds of every scalar value: the stored encoding is 32 bytes and
    /// canonical (its value lies below the group order).
    #[verifier::type_invariant]
    pub open spec fn canonical(self) -> bool {
        self@.len() == 32 && le_val(self@) < group_order()
    }

    /// The value this scalar encodes.
    pub open spec fn val(self) -> nat {
        le_val(self@)
    }

    /// The canonical little-endian encoding.
    pub fn to_bytes(&self) -> (r: [u8; 32])
        ensures
            r@ == self@,
            le_val(r@) == self.val(),
    {
        self.bytes
    }

    /// Accept exactly the canonical encodings: 32 bytes whose value is below
    /// the group order.
    pub fn from_bytes(bytes: [u8; 32]) -> (r: Result<Scalar, Error>)
        ensures
            le_val(bytes@) < group_order() ==> (r matches Ok(s) && s@ == bytes@),
            le_val(bytes@) >= group_order() ==> (r matches Err(e) && e == Error::MalformedScalar),
    {
        match scalar_from_canonical(bytes) {
            Some(s) => Ok(s),
            None => Err(Error::MalformedScalar),
        }
    }

    /// The scalar of a 256-bit little-endian integer, reduced modulo the
    /// group order.
    pub fn from_bytes_mod_order(bytes: [u8; 32]) -> (r: Scalar)
        ensures
            r.val() == le_val(bytes@) % group_order(),
    {
        scalar_reduce(bytes)
    }

    /// The scalar with value `x`.
    pub fn from_u64(x: u64) -> (r: Scalar)
        ensures
            r.val() == x,
    {
        scalar_from_u64(x)
    }

    /// `(self + other) mod l`.
    pub fn add(&self, other: &Scalar) -> (r: Scalar)
        ensures
            r.val() == add_mod(self.val(), other.val()),
    {
        scalar_add(self, other)
    }

    /// `(self - other) mod l`.
    pub fn sub(&self, other: &Scalar) -> (r: Scalar)
        ensures
            r.val() == sub_mod(self.val(), other.val()),
    {
        scalar_sub(self, other)
    }

    /// `(self * other) mod l`.
    pub fn mul(&self, other: &Scalar) -> (r: Scalar)
        ensures
            r.val() == mul_mod(self.val(), other.val()),
    {
        scalar_mul(self, other)
    }

    /// Compare by encoding; equal encodings mean equal values and conversely,
    /// since the stored encoding is canonical.
    pub fn eq_ct(&self, other: &Scalar) -> (r: bool)
        ensures
            r <==> self@ == other@,
            r <==> self.val() == other.val(),
    {
        proof {
            use_type_invariant(self);
            use_type_invariant(other);
            if self.val() == other.val() {
                crate::encoding::lemma_le_val_injective(self@, other@);
            }
        }
        crate::encoding::eq_bytes32(&self.bytes, &other.bytes)
    }
}

/// Relies on curve25519-dalek `Scalar::from_canonical_bytes`: it accepts
/// exactly the 32-byte strings whose little-endian value is below the group
/// order, and keeps the bytes as given.
#[verifier::external_body]
fn scalar_from_canonical(bytes: [u8; 32]) -> (r: Option<Scalar>)
    ensures
        r is Some <==> le_val(bytes@) < group_order(),
        r matches Some(s) ==> s@ == bytes@,
{
    let c = curve25519_dalek::scalar::Scalar::from_canonical_bytes(bytes);
    if bool::from(c.is_some()) {
        Some(Scalar { bytes })
    } else {
        None
    }
}

/// Relies on curve25519-dalek `Scalar::from_bytes_mod_order`: it reduces a
/// 256-bit little-endian integer modulo the group order.
#[verifier::external_body]
fn scalar_reduce(bytes: [u8; 32]) -> (r: Scalar)
    ensures
        r.val() == le_val(bytes@) % group_order(),
{
    Scalar { bytes: curve25519_dalek::scalar::Scalar::from_bytes_mod_order(bytes).to_bytes() }
}

/// Relies on curve25519-dalek `From<u64> for Scalar`: the scalar encoding the
/// given integer.
#[verifier::external_body]
fn scalar_from_u64(x: u64) -> (r: Scalar)
    ensures
        r.val() == x,
{
    Scalar { bytes: curve25519_dalek::scalar::Scalar::from(x).to_bytes() }
}

/// Relies on curve25519-dalek `Add for Scalar`: addition modulo the group
/// order on canonical scalars.
#[verifier::external_body]
fn scalar_add(a: &Scalar, b: &Scalar) -> (r: Scalar)
    ensures
        r.val() == add_mod(a.val(), b.val()),
{
    let x = curve25519_dalek::scalar::Scalar::from_canonical_bytes(a.bytes).unwrap();
    let y = curve25519_dalek::scalar::Scalar::from_canonical_bytes(b.bytes).unwrap();
    Scalar { bytes: (x + y).to_bytes() }
}

/// Relies on curve25519-dalek `Sub for Scalar`: subtraction modulo the group
/// order on canonical scalars.
#[verifier::external_body]
fn scalar_sub(a: &Scalar, b: &Scalar) -> (r: Scalar)
    ensures
        r.val() == sub_mod(a.val(), b.val()),
{
    let x = curve25519_dalek::scalar::Scalar::from_canonical_bytes(a.bytes).unwrap();
    let y = curve25519_dalek::scalar::Scalar::from_canonical_bytes(b.bytes).unwrap();
    Scalar { bytes: (x - y).to_bytes() }
}

/// Relies on curve25519-dalek `Mul for Scalar`: multiplication modulo the
/// group order on canonical scalars.
#[verifier::external_body]
fn scalar_mul(a: &Scalar, b: &Scalar) -> (r: Scalar)
    ensures
        r.val() == mul_mod(a.val(), b.val()),
{
    let x = curve25519_dalek::scalar::Scalar::from_canonical_bytes(a.bytes).unwrap();
    let y = curve25519_dalek::scalar::Scalar::from_canonical_bytes(b.bytes).unwrap();
    Scalar { bytes: (x * y).to_bytes() }
}

/// Relies on curve25519-dalek `Scalar::invert`: the multiplicative inverse
/// modulo the group order of a nonzero scalar.
#[verifier::external_body]
pub(crate) fn scalar_invert(a: &Scalar) -> (r: Scalar)
    requires
        a.val() != 0,
    ensures
        mul_mod(r.val(), a.val()) == 1,
{
    let x = curve25519_dalek::scalar::Scalar::from_canonical_bytes(a.bytes).unwrap();
    Scalar { bytes: x.invert().to_bytes() }
}

} // verus!
