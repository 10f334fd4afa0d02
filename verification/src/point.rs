//! Points of the Ed25519 group, stored as their 32-byte compressed
//! encodings. The group operations are curve25519-dalek's; what they return
//! is only named, never restated, so every contract built on them speaks of
//! the same opaque functions that both signer and verifier use.

use crate::error::Error;
use crate::scalar::Scalar;
use vstd::prelude::*;

verus! {

/// Whether 32 bytes decompress to a curve point: the encodings that
/// curve25519-dalek `CompressedEdwardsY::decompress` accepts.
pub uninterp spec fn point_valid(enc: Seq<u8>) -> bool;

/// Compressed encoding of the sum of the points behind two encodings.
pub uninterp spec fn point_add_of(a: Seq<u8>, b: Seq<u8>) -> Seq<u8>;

/// Compressed encoding of the difference of the points behind two encodings.
pub uninterp spec fn point_sub_of(a: Seq<u8>, b: Seq<u8>) -> Seq<u8>;

/// Compressed encoding of the scalar multiple (by value `k`) of the point
/// behind an encoding.
pub uninterp spec fn point_mul_of(k: nat, p: Seq<u8>) -> Seq<u8>;

/// Compressed encoding of the Ed25519 base point `G`: the y-coordinate `4/5`
/// with an even x-coordinate.
pub open spec fn basepoint_bytes() -> Seq<u8> {
    Seq::new(32, |i: int| if i == 0 { 0x58u8 } else { 0x66u8 })
}

/// A group element, stored compressed. The view is the 32-byte encoding.
#[derive(Clone, Copy, Debug)]
pub struct Point {
    bytes: [u8; 32],
}

impl View for Point {
    type V = Seq<u8>;

    closed spec fn view(&self) -> Seq<u8> {
        self.bytes@
    }
}

impl Point {
    /// Holds of every point value: the stored bytes are a 32-byte encoding
    /// that decompresses.
    #[verifier::type_invariant]
    pub open spec fn well_encoded(self) -> bool {
        self@.len() == 32 && point_valid(self@)
    }

    /// The compressed encoding.
    pub fn to_bytes(&self) -> (r: [u8; 32])
        ensures
            r@ == self@,
    {
        self.bytes
    }

    /// Accept exactly the encodings of curve points.
    pub fn from_bytes(bytes: [u8; 32]) -> (r: Result<Point, Error>)
        ensures
            point_valid(bytes@) ==> (r matches Ok(p) && p@ == bytes@),
            !point_valid(bytes@) ==> (r matches Err(e) && e == Error::MalformedPoint),
    {
        match point_from_bytes(bytes) {
            Some(p) => Ok(p),
            None => Err(Error::MalformedPoint),
        }
    }

    /// The base point `G`.
    pub fn basepoint() -> (r: Point)
        ensures
            r@ == basepoint_bytes(),
    {
        basepoint_wrapper()
    }

    /// Group addition.
    pub fn add(&self, other: &Point) -> (r: Point)
        ensures
            r@ == point_add_of(self@, other@),
    {
        point_add(self, other)
    }

    /// Group subtraction.
    pub fn sub(&self, other: &Point) -> (r: Point)
        ensures
            r@ == point_sub_of(self@, other@),
    {
        point_sub(self, other)
    }

    /// Scalar multiplication.
    pub fn mul(&self, k: &Scalar) -> (r: Point)
        ensures
            r@ == point_mul_of(k.val(), self@),
    {
        point_mul(k, self)
    }

    /// Compare by encoding.
    pub fn eq_ct(&self, other: &Point) -> (r: bool)
        ensures
            r <==> self@ == other@,
    {
        crate::encoding::eq_bytes32(&self.bytes, &other.bytes)
    }
}

/// Relies on curve25519-dalek `CompressedEdwardsY::decompress`: it accepts
/// exactly the encodings of curve points and the bytes are kept as given.
#[verifier::external_body]
fn point_from_bytes(bytes: [u8; 32]) -> (r: Option<Point>)
    ensures
        r is Some <==> point_valid(bytes@),
        r matches Some(p) ==> p@ == bytes@,
{
    let c = curve25519_dalek::edwards::CompressedEdwardsY(bytes);
    match c.decompress() {
        Some(_) => Some(Point { bytes }),
        None => None,
    }
}

/// Relies on curve25519-dalek `ED25519_BASEPOINT_COMPRESSED`: the compressed
/// base point, `0x58` then thirty-one `0x66` bytes, a valid encoding.
#[verifier::external_body]
fn basepoint_wrapper() -> (r: Point)
    ensures
        r@ == basepoint_bytes(),
        point_valid(r@),
{
    Point { bytes: curve25519_dalek::constants::ED25519_BASEPOINT_COMPRESSED.to_bytes() }
}

/// Relies on curve25519-dalek `Add for EdwardsPoint` and on compression:
/// the sum of two decompressible encodings compresses to a decompressible
/// encoding, a function of the two inputs alone.
#[verifier::external_body]
fn point_add(a: &Point, b: &Point) -> (r: Point)
    ensures
        r@ == point_add_of(a@, b@),
        point_valid(r@),
{
    let x = curve25519_dalek::edwards::CompressedEdwardsY(a.bytes).decompress().unwrap();
    let y = curve25519_dalek::edwards::CompressedEdwardsY(b.bytes).decompress().unwrap();
    Point { bytes: (x + y).compress().to_bytes() }
}

/// Relies on curve25519-dalek `Sub for EdwardsPoint` and on compression, as
/// for addition.
#[verifier::external_body]
fn point_sub(a: &Point, b: &Point) -> (r: Point)
    ensures
        r@ == point_sub_of(a@, b@),
        point_valid(r@),
{
    let x = curve25519_dalek::edwards::CompressedEdwardsY(a.bytes).decompress().unwrap();
    let y = curve25519_dalek::edwards::CompressedEdwardsY(b.bytes).decompress().unwrap();
    Point { bytes: (x - y).compress().to_bytes() }
}

/// Relies on curve25519-dalek `Mul<EdwardsPoint> for Scalar`: the multiple
/// depends on the scalar's value and the point alone, and compresses to a
/// decompressible encoding.
#[verifier::external_body]
fn point_mul(k: &Scalar, p: &Point) -> (r: Point)
    ensures
        r@ == point_mul_of(k.val(), p@),
        point_valid(r@),
{
    let s = curve25519_dalek::scalar::Scalar::from_canonical_bytes(k.to_bytes()).unwrap();
    let x = curve25519_dalek::edwards::CompressedEdwardsY(p.bytes).decompress().unwrap();
    Point { bytes: (s * x).compress().to_bytes() }
}

} // verus!
