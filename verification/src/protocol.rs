//! The two-party adaptor protocol: Alice and Bob each walk a three-state
//! machine, exchanging four messages, and end up holding the same adaptor
//! signature, whose completion with the adaptor secret yields a full CLSAG
//! signature.
//!
//! Secrets and nonces are inputs: the caller samples them from its own
//! randomness source and hands them to the constructors, which keeps every
//! run reproducible under a seeded sampler.

use crate::clsag::{
    challenge_val, chain_val, closing_response, kernel_chain_input, sign, Signature,
};
use crate::commit::{commit_input, Commitment, Opening};
use crate::dleq::{dleq_accepts, honest_dleq, DleqProof};
use crate::error::Error;
use crate::keccak::keccak256_of;
use crate::point::{basepoint_bytes, point_add_of, point_mul_of, Point};
use crate::ring::Ring;
use crate::scalar::{add_mod, Scalar};
use vstd::prelude::*;

verus! {

/// One party's half of an adaptor signature: its additive share of the
/// closing response, with the fully formed remainder of the signature.
pub struct HalfAdaptorSignature {
    /// This party's share of the closing response.
    pub s_0_half: Scalar,
    /// The ten decoy responses.
    pub fake_responses: [Scalar; 10],
    /// The initial challenge.
    pub h_0: Scalar,
    /// Key image of the real key in the ring.
    pub I: Point,
    /// Commitment image `D = z * H_p(P_0)`.
    pub D: Point,
}

impl HalfAdaptorSignature {
    /// Fold in the other party's share of the closing response.
    pub fn complete(self, s_other_half: Scalar) -> (a: AdaptorSignature)
        ensures
            a.s_0.val() == add_mod(self.s_0_half.val(), s_other_half.val()),
            a.fake_responses == self.fake_responses,
            a.h_0 == self.h_0,
            a.I == self.I,
            a.D == self.D,
    {
        AdaptorSignature {
            s_0: self.s_0_half.add(&s_other_half),
            fake_responses: self.fake_responses,
            h_0: self.h_0,
            I: self.I,
            D: self.D,
        }
    }
}

/// A signature missing the adaptor secret: its closing response is offset
/// by the unknown discrete log of the encryption point.
pub struct AdaptorSignature {
    /// Sum of both parties' shares of the closing response.
    pub s_0: Scalar,
    /// The ten decoy responses.
    pub fake_responses: [Scalar; 10],
    /// The initial challenge.
    pub h_0: Scalar,
    /// Key image of the real key in the ring.
    pub I: Point,
    /// Commitment image `D = z * H_p(P_0)`.
    pub D: Point,
}

impl AdaptorSignature {
    /// Complete the signature with the adaptor secret `y`: the closing
    /// response becomes `s_0 + y`, so publishing the result reveals `y` to
    /// anyone holding the half.
    pub fn adapt(self, y: Scalar) -> (sig: Signature)
        ensures
            sig.responses@[10].val() == add_mod(self.s_0.val(), y.val()),
            forall|j: int| 0 <= j < 10 ==> sig.responses@[j] == self.fake_responses@[j],
            sig.h_0 == self.h_0,
            sig.I == self.I,
            sig.D == self.D,
    {
        let r_last = self.s_0.add(&y);
        Signature {
            responses: [
                self.fake_responses[0],
                self.fake_responses[1],
                self.fake_responses[2],
                self.fake_responses[3],
                self.fake_responses[4],
                self.fake_responses[5],
                self.fake_responses[6],
                self.fake_responses[7],
                self.fake_responses[8],
                self.fake_responses[9],
                r_last,
            ],
            h_0: self.h_0,
            I: self.I,
            D: self.D,
        }
    }
}

/// What a party's half-signature must say after its kernel run with the
/// spliced nonce points `L`, `R` and the aggregated key image `I`: the
/// initial challenge hashes the spliced points, and the share of the
/// closing response closes the decoy chain under the party's own secret
/// share and nonce.
pub open spec fn half_sig_ok(
    half: HalfAdaptorSignature,
    ring: Seq<Seq<u8>>,
    commitment_ring: Seq<Seq<u8>>,
    hashed_ring: Seq<Seq<u8>>,
    pseudo: Seq<u8>,
    msg: Seq<u8>,
    L: Seq<u8>,
    R: Seq<u8>,
    I: Seq<u8>,
    fakes: Seq<Scalar>,
    x: nat,
    alpha: nat,
    z: nat,
) -> bool {
    let d = point_mul_of(z, hashed_ring[0]);
    let ci = kernel_chain_input(
        ring,
        commitment_ring,
        hashed_ring,
        pseudo,
        I,
        d,
        fakes.map_values(|s: Scalar| s.val()),
        msg,
    );
    let h_0 = challenge_val(ci.prefix, L, R);
    &&& half.h_0.val() == h_0
    &&& half.fake_responses@ == fakes
    &&& half.s_0_half.val() == closing_response(
        alpha,
        chain_val(ci, h_0, 10),
        ci.mu_p,
        x,
        ci.mu_c,
        z,
    )
    &&& half.I@ == I
    &&& half.D@ == d
}

/// Alice's first message: the commitment to her material and the DLEQ proof
/// for her nonce images.
pub struct Message0 {
    /// Commitment to `(fake_responses, I_a, I_hat_a, T_a)`.
    pub c_a: Commitment,
    /// Proof that `T_a` and `I_hat_a` share the discrete log `alpha_a`.
    pub pi_a: DleqProof,
}

/// Bob's reply: his public material and his DLEQ proof.
pub struct Message1 {
    /// Bob's key-image share.
    pub I_b: Point,
    /// Bob's nonce commitment `alpha_b * G`.
    pub T_b: Point,
    /// Bob's nonce image `alpha_b * H_p(P_0)`.
    pub I_hat_b: Point,
    /// Proof that `T_b` and `I_hat_b` share the discrete log `alpha_b`.
    pub pi_b: DleqProof,
}

/// Alice's opening and her share of the closing response.
pub struct Message2 {
    /// Opening of the commitment sent in the first message.
    pub d_a: Opening,
    /// Alice's share of the closing response.
    pub s_0_a: Scalar,
}

/// Bob's share of the closing response.
#[derive(Clone, Copy)]
pub struct Message3 {
    /// Bob's share of the closing response.
    pub s_0_b: Scalar,
}

/// Alice before any message: her secrets, her sampled material, and the
/// shared public inputs.
pub struct Alice0 {
    /// Public-key ring; the real (joint) key sits at index 0.
    pub ring: Ring,
    /// Her sampled decoy responses.
    pub fake_responses: [Scalar; 10],
    /// Commitment ring paired with the public-key ring.
    pub commitment_ring: Ring,
    /// `H_p` of each ring member, computed by the external hash-to-point
    /// collaborator.
    pub hashed_ring: [Point; 11],
    /// Pseudo-output commitment.
    pub pseudo_output_commitment: Point,
    /// The 32-byte message to sign.
    pub msg: [u8; 32],
    /// Encryption point `R_a = r_a * G`.
    pub R_a: Point,
    /// Encryption image `R'_a = r_a * H_p(P_0)`.
    pub R_prime_a: Point,
    /// Her share of the signing key.
    pub s_prime_a: Scalar,
    /// Her nonce.
    pub alpha_a: Scalar,
    /// Her key-image share `s'_a * H_p(P_0)`.
    pub I_a: Point,
    /// Her nonce image `alpha_a * H_p(P_0)`.
    pub I_hat_a: Point,
    /// Her nonce commitment `alpha_a * G`.
    pub T_a: Point,
}

impl Alice0 {
    /// Set Alice up from the shared public inputs, her key share, and her
    /// freshly sampled nonce and decoy responses.
    pub fn new(
        ring: [Point; 11],
        msg: [u8; 32],
        commitment_ring: [Point; 11],
        hashed_ring: [Point; 11],
        pseudo_output_commitment: Point,
        R_a: Point,
        R_prime_a: Point,
        s_prime_a: Scalar,
        alpha_a: Scalar,
        fake_responses: [Scalar; 10],
    ) -> (a: Alice0)
        ensures
            a.ring@ == ring@.map_values(|p: Point| p@),
            a.commitment_ring@ == commitment_ring@.map_values(|p: Point| p@),
            a.hashed_ring == hashed_ring,
            a.fake_responses == fake_responses,
            a.pseudo_output_commitment == pseudo_output_commitment,
            a.msg == msg,
            a.R_a == R_a,
            a.R_prime_a == R_prime_a,
            a.s_prime_a == s_prime_a,
            a.alpha_a == alpha_a,
            a.I_a@ == point_mul_of(s_prime_a.val(), hashed_ring@[0]@),
            a.I_hat_a@ == point_mul_of(alpha_a.val(), hashed_ring@[0]@),
            a.T_a@ == point_mul_of(alpha_a.val(), basepoint_bytes()),
    {
        let H_p_pk = hashed_ring[0];
        let I_a = H_p_pk.mul(&s_prime_a);
        let I_hat_a = H_p_pk.mul(&alpha_a);
        let T_a = Point::basepoint().mul(&alpha_a);
        Alice0 {
            ring: Ring::new(ring),
            fake_responses,
            commitment_ring: Ring::new(commitment_ring),
            hashed_ring,
            pseudo_output_commitment,
            msg,
            R_a,
            R_prime_a,
            s_prime_a,
            alpha_a,
            I_a,
            I_hat_a,
            T_a,
        }
    }

    /// Message 0: commit to her material and prove her nonce images
    /// consistent, using the fresh DLEQ nonce `r`.
    pub fn next_message(&self, r: &Scalar) -> (m: Message0)
        ensures
            honest_dleq(
                m.pi_a,
                basepoint_bytes(),
                self.T_a@,
                self.hashed_ring@[0]@,
                self.I_hat_a@,
                self.alpha_a.val(),
                r.val(),
            ),
            m.c_a.0@ == keccak256_of(
                commit_input(
                    self.fake_responses@.map_values(|s: Scalar| s@),
                    self.I_a@,
                    self.I_hat_a@,
                    self.T_a@,
                ),
            ),
    {
        let base = Point::basepoint();
        Message0 {
            pi_a: DleqProof::new(
                &base,
                &self.T_a,
                &self.hashed_ring[0],
                &self.I_hat_a,
                &self.alpha_a,
                r,
            ),
            c_a: Commitment::new(&self.fake_responses, &self.I_a, &self.I_hat_a, &self.T_a),
        }
    }

    /// Receive Bob's material: check his DLEQ proof, then run the kernel on
    /// her own key share with the spliced nonce points, keeping her share
    /// of the closing response.
    pub fn receive(self, msg: Message1, z: Scalar) -> (r: Result<Alice1, Error>)
        ensures
            r is Ok <==> dleq_accepts(
                msg.pi_b,
                basepoint_bytes(),
                msg.T_b@,
                self.hashed_ring@[0]@,
                msg.I_hat_b@,
            ),
            r matches Err(e) ==> e == Error::InvalidDleq,
            r matches Ok(a1) ==> {
                &&& a1.fake_responses == self.fake_responses
                &&& a1.I_a == self.I_a
                &&& a1.I_hat_a == self.I_hat_a
                &&& a1.T_a == self.T_a
                &&& half_sig_ok(
                    a1.sig,
                    self.ring@,
                    self.commitment_ring@,
                    self.hashed_ring@.map_values(|p: Point| p@),
                    self.pseudo_output_commitment@,
                    self.msg@,
                    point_add_of(point_add_of(self.T_a@, msg.T_b@), self.R_a@),
                    point_add_of(point_add_of(self.I_hat_a@, msg.I_hat_b@), self.R_prime_a@),
                    point_add_of(self.I_a@, msg.I_b@),
                    self.fake_responses@,
                    self.s_prime_a.val(),
                    self.alpha_a.val(),
                    z.val(),
                )
            },
    {
        let base = Point::basepoint();
        match msg.pi_b.verify(&base, &msg.T_b, &self.hashed_ring[0], &msg.I_hat_b) {
            Ok(()) => {},
            Err(e) => {
                return Err(e);
            },
        }
        let L = self.T_a.add(&msg.T_b).add(&self.R_a);
        let R = self.I_hat_a.add(&msg.I_hat_b).add(&self.R_prime_a);
        let I = self.I_a.add(&msg.I_b);
        let sig = sign(
            &self.fake_responses,
            &self.ring,
            &self.commitment_ring,
            &self.hashed_ring,
            &z,
            &self.pseudo_output_commitment,
            &L,
            &R,
            &I,
            self.msg.as_slice(),
            &self.s_prime_a,
            &self.alpha_a,
        );
        let s_0_half = sig.responses[10];
        let half = HalfAdaptorSignature {
            s_0_half,
            fake_responses: self.fake_responses,
            h_0: sig.h_0,
            I: sig.I,
            D: sig.D,
        };
        Ok(
            Alice1 {
                fake_responses: self.fake_responses,
                I_a: self.I_a,
                I_hat_a: self.I_hat_a,
                T_a: self.T_a,
                sig: half,
            },
        )
    }
}

/// Alice holding her half-signature, before sending her opening.
pub struct Alice1 {
    /// Her decoy responses, to be opened.
    pub fake_responses: [Scalar; 10],
    /// Her key-image share.
    pub I_a: Point,
    /// Her nonce image.
    pub I_hat_a: Point,
    /// Her nonce commitment.
    pub T_a: Point,
    /// Her half of the adaptor signature.
    pub sig: HalfAdaptorSignature,
}

impl Alice1 {
    /// Message 2: the opening of her commitment and her response share.
    pub fn next_message(&self) -> (m: Message2)
        ensures
            m.d_a.fake_responses == self.fake_responses,
            m.d_a.I_a == self.I_a,
            m.d_a.I_hat_a == self.I_hat_a,
            m.d_a.T_a == self.T_a,
            m.s_0_a == self.sig.s_0_half,
    {
        Message2 {
            d_a: Opening::new(self.fake_responses, self.I_a, self.I_hat_a, self.T_a),
            s_0_a: self.sig.s_0_half,
        }
    }

    /// Receive Bob's response share and complete the adaptor signature.
    pub fn receive(self, msg: Message3) -> (a: Alice2)
        ensures
            a.adaptor_sig.s_0.val() == add_mod(self.sig.s_0_half.val(), msg.s_0_b.val()),
            a.adaptor_sig.fake_responses == self.sig.fake_responses,
            a.adaptor_sig.h_0 == self.sig.h_0,
            a.adaptor_sig.I == self.sig.I,
            a.adaptor_sig.D == self.sig.D,
    {
        let adaptor_sig = self.sig.complete(msg.s_0_b);
        Alice2 { adaptor_sig }
    }
}

/// Alice after the exchange: she holds the adaptor signature.
pub struct Alice2 {
    /// The completed adaptor signature.
    pub adaptor_sig: AdaptorSignature,
}

/// Bob before any message: his secrets and the shared public inputs.
pub struct Bob0 {
    /// Public-key ring; the real (joint) key sits at index 0.
    pub ring: Ring,
    /// The 32-byte message to sign.
    pub msg: [u8; 32],
    /// Commitment ring paired with the public-key ring.
    pub commitment_ring: Ring,
    /// `H_p` of each ring member.
    pub hashed_ring: [Point; 11],
    /// Pseudo-output commitment.
    pub pseudo_output_commitment: Point,
    /// Encryption point `R_a = r_a * G`.
    pub R_a: Point,
    /// Encryption image `R'_a = r_a * H_p(P_0)`.
    pub R_prime_a: Point,
    /// His share of the signing key.
    pub s_b: Scalar,
    /// His nonce.
    pub alpha_b: Scalar,
    /// His key-image share `s_b * H_p(P_0)`.
    pub I_b: Point,
    /// His nonce image `alpha_b * H_p(P_0)`.
    pub I_hat_b: Point,
    /// His nonce commitment `alpha_b * G`.
    pub T_b: Point,
}

impl Bob0 {
    /// Set Bob up from the shared public inputs, his key share and his
    /// freshly sampled nonce.
    pub fn new(
        ring: [Point; 11],
        msg: [u8; 32],
        commitment_ring: [Point; 11],
        hashed_ring: [Point; 11],
        pseudo_output_commitment: Point,
        R_a: Point,
        R_prime_a: Point,
        s_b: Scalar,
        alpha_b: Scalar,
    ) -> (b: Bob0)
        ensures
            b.ring@ == ring@.map_values(|p: Point| p@),
            b.commitment_ring@ == commitment_ring@.map_values(|p: Point| p@),
            b.hashed_ring == hashed_ring,
            b.pseudo_output_commitment == pseudo_output_commitment,
            b.msg == msg,
            b.R_a == R_a,
            b.R_prime_a == R_prime_a,
            b.s_b == s_b,
            b.alpha_b == alpha_b,
            b.I_b@ == point_mul_of(s_b.val(), hashed_ring@[0]@),
            b.I_hat_b@ == point_mul_of(alpha_b.val(), hashed_ring@[0]@),
            b.T_b@ == point_mul_of(alpha_b.val(), basepoint_bytes()),
    {
        let H_p_pk = hashed_ring[0];
        let I_b = H_p_pk.mul(&s_b);
        let I_hat_b = H_p_pk.mul(&alpha_b);
        let T_b = Point::basepoint().mul(&alpha_b);
        Bob0 {
            ring: Ring::new(ring),
            msg,
            commitment_ring: Ring::new(commitment_ring),
            hashed_ring,
            pseudo_output_commitment,
            R_a,
            R_prime_a,
            s_b,
            alpha_b,
            I_b,
            I_hat_b,
            T_b,
        }
    }

    /// Store Alice's commitment and proof; nothing to check yet.
    pub fn receive(self, msg: Message0) -> (b: Bob1)
        ensures
            b.ring == self.ring,
            b.msg == self.msg,
            b.commitment_ring == self.commitment_ring,
            b.hashed_ring == self.hashed_ring,
            b.pseudo_output_commitment == self.pseudo_output_commitment,
            b.R_a == self.R_a,
            b.R_prime_a == self.R_prime_a,
            b.s_b == self.s_b,
            b.alpha_b == self.alpha_b,
            b.I_b == self.I_b,
            b.I_hat_b == self.I_hat_b,
            b.T_b == self.T_b,
            b.pi_a == msg.pi_a,
            b.c_a == msg.c_a,
    {
        Bob1 {
            ring: self.ring,
            msg: self.msg,
            commitment_ring: self.commitment_ring,
            hashed_ring: self.hashed_ring,
            pseudo_output_commitment: self.pseudo_output_commitment,
            R_a: self.R_a,
            R_prime_a: self.R_prime_a,
            s_b: self.s_b,
            alpha_b: self.alpha_b,
            I_b: self.I_b,
            I_hat_b: self.I_hat_b,
            T_b: self.T_b,
            pi_a: msg.pi_a,
            c_a: msg.c_a,
        }
    }
}

/// Bob holding Alice's commitment, before sending his own material.
pub struct Bob1 {
    /// Public-key ring.
    pub ring: Ring,
    /// The message to sign.
    pub msg: [u8; 32],
    /// Commitment ring.
    pub commitment_ring: Ring,
    /// `H_p` of each ring member.
    pub hashed_ring: [Point; 11],
    /// Pseudo-output commitment.
    pub pseudo_output_commitment: Point,
    /// Encryption point.
    pub R_a: Point,
    /// Encryption image.
    pub R_prime_a: Point,
    /// His key share.
    pub s_b: Scalar,
    /// His nonce.
    pub alpha_b: Scalar,
    /// His key-image share.
    pub I_b: Point,
    /// His nonce image.
    pub I_hat_b: Point,
    /// His nonce commitment.
    pub T_b: Point,
    /// Alice's DLEQ proof, held until her opening arrives.
    pub pi_a: DleqProof,
    /// Alice's commitment, held until her opening arrives.
    pub c_a: Commitment,
}

impl Bob1 {
    /// Message 1: his public material and his DLEQ proof, using the fresh
    /// DLEQ nonce `r`.
    pub fn next_message(&self, r: &Scalar) -> (m: Message1)
        ensures
            m.I_b == self.I_b,
            m.T_b == self.T_b,
            m.I_hat_b == self.I_hat_b,
            honest_dleq(
                m.pi_b,
                basepoint_bytes(),
                self.T_b@,
                self.hashed_ring@[0]@,
                self.I_hat_b@,
                self.alpha_b.val(),
                r.val(),
            ),
    {
        let base = Point::basepoint();
        Message1 {
            I_b: self.I_b,
            T_b: self.T_b,
            I_hat_b: self.I_hat_b,
            pi_b: DleqProof::new(
                &base,
                &self.T_b,
                &self.hashed_ring[0],
                &self.I_hat_b,
                &self.alpha_b,
                r,
            ),
        }
    }

    /// Receive Alice's opening: check it against her commitment, check her
    /// DLEQ proof, run the kernel on his own key share, and complete the
    /// adaptor signature with her response share.
    pub fn receive(self, msg: Message2, z: Scalar) -> (r: Result<Bob2, Error>)
        ensures
            ({
                let digest_ok = keccak256_of(
                    commit_input(
                        msg.d_a.fake_responses@.map_values(|s: Scalar| s@),
                        msg.d_a.I_a@,
                        msg.d_a.I_hat_a@,
                        msg.d_a.T_a@,
                    ),
                ) == self.c_a.0@;
                let accepts = dleq_accepts(
                    self.pi_a,
                    basepoint_bytes(),
                    msg.d_a.T_a@,
                    self.hashed_ring@[0]@,
                    msg.d_a.I_hat_a@,
                );
                &&& (r is Ok <==> digest_ok && accepts)
                &&& (!digest_ok ==> (r matches Err(e) && e == Error::CommitmentMismatch))
                &&& (digest_ok && !accepts ==> (r matches Err(e) && e == Error::InvalidDleq))
                &&& (r matches Ok(b2) ==> {
                    &&& half_sig_ok(
                        half_of_bob2(b2),
                        self.ring@,
                        self.commitment_ring@,
                        self.hashed_ring@.map_values(|p: Point| p@),
                        self.pseudo_output_commitment@,
                        self.msg@,
                        point_add_of(point_add_of(msg.d_a.T_a@, self.T_b@), self.R_a@),
                        point_add_of(point_add_of(msg.d_a.I_hat_a@, self.I_hat_b@), self.R_prime_a@),
                        point_add_of(msg.d_a.I_a@, self.I_b@),
                        msg.d_a.fake_responses@,
                        self.s_b.val(),
                        self.alpha_b.val(),
                        z.val(),
                    )
                    &&& b2.adaptor_sig.s_0.val() == add_mod(b2.s_0_b.val(), msg.s_0_a.val())
                    &&& b2.adaptor_sig.fake_responses == msg.d_a.fake_responses
                    &&& b2.adaptor_sig.h_0 == half_of_bob2(b2).h_0
                    &&& b2.adaptor_sig.I == half_of_bob2(b2).I
                    &&& b2.adaptor_sig.D == half_of_bob2(b2).D
                })
            }),
    {
        let (fake_responses, I_a, I_hat_a, T_a) = match msg.d_a.open(self.c_a) {
            Ok(t) => t,
            Err(e) => {
                return Err(e);
            },
        };
        let base = Point::basepoint();
        match self.pi_a.verify(&base, &T_a, &self.hashed_ring[0], &I_hat_a) {
            Ok(()) => {},
            Err(e) => {
                return Err(e);
            },
        }
        let L = T_a.add(&self.T_b).add(&self.R_a);
        let R = I_hat_a.add(&self.I_hat_b).add(&self.R_prime_a);
        let I = I_a.add(&self.I_b);
        let sig = sign(
            &fake_responses,
            &self.ring,
            &self.commitment_ring,
            &self.hashed_ring,
            &z,
            &self.pseudo_output_commitment,
            &L,
            &R,
            &I,
            self.msg.as_slice(),
            &self.s_b,
            &self.alpha_b,
        );
        let s_0_b = sig.responses[10];
        let half = HalfAdaptorSignature {
            s_0_half: s_0_b,
            fake_responses,
            h_0: sig.h_0,
            I: sig.I,
            D: sig.D,
        };
        let adaptor_sig = half.complete(msg.s_0_a);
        Ok(Bob2 { s_0_b, adaptor_sig })
    }
}

/// Bob's half-signature share seen as a [`HalfAdaptorSignature`], for
/// stating what his kernel run produced.
pub open spec fn half_of_bob2(b: Bob2) -> HalfAdaptorSignature {
    HalfAdaptorSignature {
        s_0_half: b.s_0_b,
        fake_responses: b.adaptor_sig.fake_responses,
        h_0: b.adaptor_sig.h_0,
        I: b.adaptor_sig.I,
        D: b.adaptor_sig.D,
    }
}

/// Bob after the exchange: his response share, to be sent, and the adaptor
/// signature.
pub struct Bob2 {
    /// His share of the closing response.
    pub s_0_b: Scalar,
    /// The completed adaptor signature.
    pub adaptor_sig: AdaptorSignature,
}

impl Bob2 {
    /// Message 3: his response share.
    pub fn next_message(&self) -> (m: Message3)
        ensures
            m.s_0_b == self.s_0_b,
    {
        Message3 { s_0_b: self.s_0_b }
    }
}

} // verus!
