//! Discrete-log-equality proofs: a Schnorr-style sigma protocol compiled
//! with Fiat-Shamir over Keccak, proving that two points share one
//! discrete log across two bases.

use crate::encoding::extend_bytes;
use crate::error::Error;
use crate::keccak::{hash_to_scalar, hash_to_scalar_val};
use crate::point::{point_mul_of, point_sub_of, Point};
use crate::scalar::{add_mod, mul_mod, Scalar};
use vstd::prelude::*;

verus! {

/// The Fiat-Shamir challenge of a DLEQ transcript: both bases, both images,
/// and the two commitment points, hashed to a scalar.
pub open spec fn dleq_challenge_val(
    g: Seq<u8>,
    xg: Seq<u8>,
    h: Seq<u8>,
    xh: Seq<u8>,
    rg: Seq<u8>,
    rh: Seq<u8>,
) -> nat {
    hash_to_scalar_val(g + xg + h + xh + rg + rh)
}

/// What an honestly produced proof looks like: the challenge hashes the
/// nonce commitments `r*G` and `r*H`, and the response is `r + c*x`.
pub open spec fn honest_dleq(
    pf: DleqProof,
    g: Seq<u8>,
    xg: Seq<u8>,
    h: Seq<u8>,
    xh: Seq<u8>,
    x: nat,
    r: nat,
) -> bool {
    &&& pf.c.val() == dleq_challenge_val(g, xg, h, xh, point_mul_of(r, g), point_mul_of(r, h))
    &&& pf.s.val() == add_mod(r, mul_mod(pf.c.val(), x))
}

/// Whether a proof passes verification against bases `G`, `H` and images
/// `xG`, `xH`: the challenge recomputes from `s*G - c*xG` and `s*H - c*xH`.
pub open spec fn dleq_accepts(pf: DleqProof, g: Seq<u8>, xg: Seq<u8>, h: Seq<u8>, xh: Seq<u8>) -> bool {
    pf.c.val() == dleq_challenge_val(
        g,
        xg,
        h,
        xh,
        point_sub_of(point_mul_of(pf.s.val(), g), point_mul_of(pf.c.val(), xg)),
        point_sub_of(point_mul_of(pf.s.val(), h), point_mul_of(pf.c.val(), xh)),
    )
}

/// A non-interactive proof that some `x` satisfies `xG = x*G` and
/// `xH = x*H`.
#[derive(Clone, Copy, Debug)]
pub struct DleqProof {
    /// Response `s = r + c*x`.
    pub s: Scalar,
    /// Fiat-Shamir challenge.
    pub c: Scalar,
}

impl DleqProof {
    /// Prove knowledge of `x` with `xG = x*G`, `xH = x*H`, using the fresh
    /// nonce `r`.
    pub fn new(G: &Point, xG: &Point, H: &Point, xH: &Point, x: &Scalar, r: &Scalar) -> (pf:
        DleqProof)
        ensures
            honest_dleq(pf, G@, xG@, H@, xH@, x.val(), r.val()),
    {
        let rG = G.mul(r);
        let rH = H.mul(r);
        let c = Self::challenge(G, xG, H, xH, &rG, &rH);
        let s = r.add(&c.mul(x));
        DleqProof { s, c }
    }

    /// Recompute the nonce commitments from the proof and check that the
    /// challenge matches.
    pub fn verify(&self, G: &Point, xG: &Point, H: &Point, xH: &Point) -> (r: Result<(), Error>)
        ensures
            r is Ok <==> dleq_accepts(*self, G@, xG@, H@, xH@),
            r matches Err(e) ==> e == Error::InvalidDleq,
    {
        let rG = G.mul(&self.s).sub(&xG.mul(&self.c));
        let rH = H.mul(&self.s).sub(&xH.mul(&self.c));
        let c_prime = Self::challenge(G, xG, H, xH, &rG, &rH);
        if self.c.eq_ct(&c_prime) {
            Ok(())
        } else {
            Err(Error::InvalidDleq)
        }
    }

    /// Hash the six-point transcript to a scalar.
    fn challenge(G: &Point, xG: &Point, H: &Point, xH: &Point, rG: &Point, rH: &Point) -> (c:
        Scalar)
        ensures
            c.val() == dleq_challenge_val(G@, xG@, H@, xH@, rG@, rH@),
    {
        let mut buf: Vec<u8> = Vec::new();
        let gb = G.to_bytes();
        extend_bytes(&mut buf, gb.as_slice());
        let xgb = xG.to_bytes();
        extend_bytes(&mut buf, xgb.as_slice());
        let hb = H.to_bytes();
        extend_bytes(&mut buf, hb.as_slice());
        let xhb = xH.to_bytes();
        extend_bytes(&mut buf, xhb.as_slice());
        let rgb = rG.to_bytes();
        extend_bytes(&mut buf, rgb.as_slice());
        let rhb = rH.to_bytes();
        extend_bytes(&mut buf, rhb.as_slice());
        proof {
            assert(Seq::<u8>::empty() + G@ =~= G@);
        }
        hash_to_scalar(buf.as_slice())
    }
}

} // verus!
