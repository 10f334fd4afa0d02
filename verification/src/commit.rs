//! The hash commitment that hides Alice's first-move material until her
//! opening: a Keccak digest of the ten decoy responses and her three public
//! points.

use crate::encoding::{concat_all, extend_bytes, lemma_concat_all_push};
use crate::error::Error;
use crate::keccak::{keccak256, keccak256_of};
use crate::point::Point;
use crate::scalar::Scalar;
use vstd::prelude::*;

verus! {

/// The commitment pre-image: the decoy responses' encodings concatenated,
/// then `I_a`, `I_hat_a` and `T_a`.
pub open spec fn commit_input(
    fake_responses: Seq<Seq<u8>>,
    I_a: Seq<u8>,
    I_hat_a: Seq<u8>,
    T_a: Seq<u8>,
) -> Seq<u8> {
    concat_all(fake_responses) + I_a + I_hat_a + T_a
}

/// A 32-byte Keccak digest binding an [`Opening`]'s tuple.
#[derive(Clone, Copy, Debug)]
pub struct Commitment(pub [u8; 32]);

impl Commitment {
    /// Digest the tuple.
    pub fn new(
        fake_responses: &[Scalar; 10],
        I_a: &Point,
        I_hat_a: &Point,
        T_a: &Point,
    ) -> (c: Commitment)
        ensures
            c.0@ == keccak256_of(
                commit_input(
                    fake_responses@.map_values(|s: Scalar| s@),
                    I_a@,
                    I_hat_a@,
                    T_a@,
                ),
            ),
    {
        let ghost views = fake_responses@.map_values(|s: Scalar| s@);
        let mut buf: Vec<u8> = Vec::new();
        let mut i: usize = 0;
        while i < 10
            invariant
                i <= 10,
                views == fake_responses@.map_values(|s: Scalar| s@),
                views.len() == 10,
                buf@ == concat_all(views.take(i as int)),
            decreases 10 - i,
        {
            let sb = fake_responses[i].to_bytes();
            extend_bytes(&mut buf, sb.as_slice());
            proof {
                lemma_concat_all_push(views.take(i as int), views[i as int]);
                assert(views.take(i as int).push(views[i as int]) =~= views.take(i + 1));
            }
            i += 1;
        }
        proof {
            assert(views.take(10) =~= views);
        }
        let ib = I_a.to_bytes();
        extend_bytes(&mut buf, ib.as_slice());
        let ihb = I_hat_a.to_bytes();
        extend_bytes(&mut buf, ihb.as_slice());
        let tb = T_a.to_bytes();
        extend_bytes(&mut buf, tb.as_slice());
        Commitment(keccak256(buf.as_slice()))
    }
}

/// The pre-image tuple of a [`Commitment`], sent as the opening.
pub struct Opening {
    /// The ten decoy responses.
    pub fake_responses: [Scalar; 10],
    /// Alice's key-image share.
    pub I_a: Point,
    /// Alice's nonce image `alpha_a * H_p(P_0)`.
    pub I_hat_a: Point,
    /// Alice's nonce commitment `alpha_a * G`.
    pub T_a: Point,
}

impl Opening {
    /// Record the tuple.
    pub fn new(
        fake_responses: [Scalar; 10],
        I_a: Point,
        I_hat_a: Point,
        T_a: Point,
    ) -> (o: Opening)
        ensures
            o.fake_responses == fake_responses,
            o.I_a == I_a,
            o.I_hat_a == I_hat_a,
            o.T_a == T_a,
    {
        Opening { fake_responses, I_a, I_hat_a, T_a }
    }

    /// Recompute the digest of the stored tuple and compare it with the
    /// commitment; hand the tuple back exactly when they agree.
    pub fn open(self, commitment: Commitment) -> (r: Result<
        ([Scalar; 10], Point, Point, Point),
        Error,
    >)
        ensures
            ({
                let digest = keccak256_of(
                    commit_input(
                        self.fake_responses@.map_values(|s: Scalar| s@),
                        self.I_a@,
                        self.I_hat_a@,
                        self.T_a@,
                    ),
                );
                &&& (r is Ok <==> digest == commitment.0@)
                &&& (r matches Ok(t) ==> t == (self.fake_responses, self.I_a, self.I_hat_a,
                self.T_a))
                &&& (r matches Err(e) ==> e == Error::CommitmentMismatch)
            }),
    {
        let recomputed = Commitment::new(&self.fake_responses, &self.I_a, &self.I_hat_a, &self.T_a);
        if crate::encoding::eq_bytes32(&recomputed.0, &commitment.0) {
            Ok((self.fake_responses, self.I_a, self.I_hat_a, self.T_a))
        } else {
            Err(Error::CommitmentMismatch)
        }
    }
}

} // verus!
