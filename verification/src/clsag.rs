//! The CLSAG signing kernel: aggregation hashes, the per-round challenge
//! recurrence, the signer that closes the ring, and the verifier that
//! replays the recurrence.
//!
//! Every transcript is pinned down to the byte: the spec functions below
//! rebuild each hash input from the views of the parts, so the signer's and
//! the verifier's transcripts are provably the same sequences.

use crate::encoding::{concat_all, extend_bytes};
use crate::keccak::{hash_to_scalar, hash_to_scalar_val};
use crate::point::{basepoint_bytes, point_add_of, point_mul_of, point_sub_of, Point};
use crate::ring::Ring;
use crate::scalar::{add_mod, group_order, mul_mod, sub_mod, Scalar};
use vstd::arithmetic::div_mod::lemma_small_mod;
use vstd::arithmetic::mul::{lemma_mul_is_associative, lemma_mul_is_commutative};
use vstd::arithmetic::div_mod::{lemma_mul_mod_noop_left, lemma_mul_mod_noop_right};
use vstd::prelude::*;

verus! {

/// Domain separator of the first aggregation hash: the ASCII bytes of
/// `CLSAG_agg_0`.
pub open spec fn domain_agg_0() -> Seq<u8> {
    seq![67u8, 76u8, 83u8, 65u8, 71u8, 95u8, 97u8, 103u8, 103u8, 95u8, 48u8]
}

/// Domain separator of the second aggregation hash: the ASCII bytes of
/// `CLSAG_agg_1`.
pub open spec fn domain_agg_1() -> Seq<u8> {
    seq![67u8, 76u8, 83u8, 65u8, 71u8, 95u8, 97u8, 103u8, 103u8, 95u8, 49u8]
}

/// Domain separator of the round hash: the ASCII bytes of `CLSAG_round`.
pub open spec fn domain_round() -> Seq<u8> {
    seq![67u8, 76u8, 83u8, 65u8, 71u8, 95u8, 114u8, 111u8, 117u8, 110u8, 100u8]
}

/// Input of an aggregation hash: domain separator, both rings' bytes, the
/// key image, the commitment image `D`, and the pseudo-output commitment.
pub open spec fn agg_hash_input(
    domain: Seq<u8>,
    ring_bytes: Seq<u8>,
    commitment_ring_bytes: Seq<u8>,
    key_image: Seq<u8>,
    commitment_image: Seq<u8>,
    pseudo: Seq<u8>,
) -> Seq<u8> {
    domain + ring_bytes + commitment_ring_bytes + key_image + commitment_image + pseudo
}

/// The aggregation scalar `mu_P`.
pub open spec fn mu_p_val(
    ring_bytes: Seq<u8>,
    commitment_ring_bytes: Seq<u8>,
    key_image: Seq<u8>,
    commitment_image: Seq<u8>,
    pseudo: Seq<u8>,
) -> nat {
    hash_to_scalar_val(
        agg_hash_input(
            domain_agg_0(),
            ring_bytes,
            commitment_ring_bytes,
            key_image,
            commitment_image,
            pseudo,
        ),
    )
}

/// The aggregation scalar `mu_C`.
pub open spec fn mu_c_val(
    ring_bytes: Seq<u8>,
    commitment_ring_bytes: Seq<u8>,
    key_image: Seq<u8>,
    commitment_image: Seq<u8>,
    pseudo: Seq<u8>,
) -> nat {
    hash_to_scalar_val(
        agg_hash_input(
            domain_agg_1(),
            ring_bytes,
            commitment_ring_bytes,
            key_image,
            commitment_image,
            pseudo,
        ),
    )
}

/// The prefix common to every round hash: `CLSAG_round`, both rings' bytes,
/// the pseudo-output commitment, and the message.
pub open spec fn round_prefix(
    ring_bytes: Seq<u8>,
    commitment_ring_bytes: Seq<u8>,
    pseudo: Seq<u8>,
    msg: Seq<u8>,
) -> Seq<u8> {
    domain_round() + ring_bytes + commitment_ring_bytes + pseudo + msg
}

/// A round's challenge: the prefix and the round's two nonce points, hashed
/// to a scalar.
pub open spec fn challenge_val(prefix: Seq<u8>, l_bytes: Seq<u8>, r_bytes: Seq<u8>) -> nat {
    hash_to_scalar_val(prefix + l_bytes + r_bytes)
}

/// The round point `L_i = s_i*G + (h*mu_P)*P_i + (h*mu_C)*(C_i - C_pseudo)`.
pub open spec fn round_l_bytes(
    h_prev: nat,
    mu_p: nat,
    mu_c: nat,
    response: nat,
    member: Seq<u8>,
    adjusted_commitment: Seq<u8>,
) -> Seq<u8> {
    point_add_of(
        point_add_of(
            point_mul_of(response, basepoint_bytes()),
            point_mul_of(mul_mod(h_prev, mu_p), member),
        ),
        point_mul_of(mul_mod(h_prev, mu_c), adjusted_commitment),
    )
}

/// The round point `R_i = s_i*H_p(P_i) + (h*mu_P)*I + (h*mu_C)*D'`.
pub open spec fn round_r_bytes(
    h_prev: nat,
    mu_p: nat,
    mu_c: nat,
    response: nat,
    hashed_member: Seq<u8>,
    key_image: Seq<u8>,
    commitment_offset: Seq<u8>,
) -> Seq<u8> {
    point_add_of(
        point_add_of(
            point_mul_of(response, hashed_member),
            point_mul_of(mul_mod(h_prev, mu_p), key_image),
        ),
        point_mul_of(mul_mod(h_prev, mu_c), commitment_offset),
    )
}

/// Everything a challenge round reads besides the running challenge: the
/// common prefix, the aggregation scalars, the response values, the views of
/// both rings and of the hashed ring, and the three fixed points.
pub struct ChainInput {
    /// Common round-hash prefix.
    pub prefix: Seq<u8>,
    /// Aggregation scalar `mu_P`.
    pub mu_p: nat,
    /// Aggregation scalar `mu_C`.
    pub mu_c: nat,
    /// Response values, one per round, in round order.
    pub responses: Seq<nat>,
    /// Member encodings of the public-key ring.
    pub ring: Seq<Seq<u8>>,
    /// Member encodings of the commitment ring.
    pub commitment_ring: Seq<Seq<u8>>,
    /// Encodings of `H_p` of each ring member.
    pub hashed_ring: Seq<Seq<u8>>,
    /// Pseudo-output commitment encoding.
    pub pseudo: Seq<u8>,
    /// Key image encoding.
    pub key_image: Seq<u8>,
    /// `D' = (1/8)*D`, the commitment offset mixed into every round.
    pub commitment_offset: Seq<u8>,
}

/// The challenge after round `t`, where round `t` (1-based) consumes
/// response `t - 1` and speaks of ring position `t % 11`.
pub open spec fn chain_val(ci: ChainInput, h_0: nat, t: nat) -> nat
    decreases t,
{
    if t == 0 {
        h_0
    } else {
        let h_prev = chain_val(ci, h_0, (t - 1) as nat);
        let position = (t % 11) as int;
        challenge_val(
            ci.prefix,
            round_l_bytes(
                h_prev,
                ci.mu_p,
                ci.mu_c,
                ci.responses[t - 1],
                ci.ring[position],
                point_sub_of(ci.commitment_ring[position], ci.pseudo),
            ),
            round_r_bytes(
                h_prev,
                ci.mu_p,
                ci.mu_c,
                ci.responses[t - 1],
                ci.hashed_ring[position],
                ci.key_image,
                ci.commitment_offset,
            ),
        )
    }
}

/// The inverse of 8 modulo the group order, the cofactor adjustment baked
/// into the per-round commitment offset.
pub open spec fn inv_eight() -> nat {
    2713877091499598330239944961141122840321418634767465352250731601857045344121nat
}

/// Modular inverses are unique below the modulus.
proof fn lemma_mod_inverse_unique(x: nat, y: nat, a: nat)
    requires
        x < group_order(),
        y < group_order(),
        mul_mod(x, a) == 1,
        mul_mod(y, a) == 1,
    ensures
        x == y,
{
    let l = group_order() as int;
    let xi = x as int;
    let yi = y as int;
    let ai = a as int;
    lemma_small_mod(x, group_order());
    lemma_small_mod(y, group_order());
    lemma_mul_mod_noop_right(xi, yi * ai, l);
    lemma_mul_mod_noop_right(yi, xi * ai, l);
    lemma_mul_is_associative(xi, yi, ai);
    lemma_mul_is_associative(yi, xi, ai);
    lemma_mul_is_commutative(xi, yi);
    lemma_mul_mod_noop_left(yi * ai, xi, l);
    lemma_mul_mod_noop_left(xi * ai, yi, l);
    assert((xi * (yi * ai)) % l == (yi * (xi * ai)) % l);
    assert(x == (xi * ((yi * ai) % l)) % l);
    assert(y == (yi * ((xi * ai) % l)) % l);
}

/// The scalar `1/8`, proved to carry the value [`inv_eight`].
fn scalar_inv_eight() -> (r: Scalar)
    ensures
        r.val() == inv_eight(),
{
    let eight = Scalar::from_u64(8);
    let r = crate::scalar::scalar_invert(&eight);
    proof {
        use_type_invariant(&r);
        assert(inv_eight() * 8 == group_order() * 3 + 1);
        vstd::arithmetic::div_mod::lemma_mod_multiples_vanish(
            3,
            1,
            group_order() as int,
        );
        lemma_small_mod(1, group_order());
        assert(mul_mod(inv_eight(), 8) == 1);
        lemma_mod_inverse_unique(r.val(), inv_eight(), 8);
    }
    r
}

/// The two aggregation scalars of a kernel run.
pub struct AggregationHashes {
    /// Weight of the public-key component in the challenge cycle.
    pub mu_P: Scalar,
    /// Weight of the commitment component in the challenge cycle.
    pub mu_C: Scalar,
}

impl AggregationHashes {
    /// Hash both rings, the key image, the commitment image and the
    /// pseudo-output commitment under the two aggregation domains.
    pub fn new(
        ring: &Ring,
        commitment_ring: &Ring,
        I: &Point,
        pseudo_output_commitment: &Point,
        D: &Point,
    ) -> (r: AggregationHashes)
        ensures
            r.mu_P.val() == mu_p_val(
                concat_all(ring@),
                concat_all(commitment_ring@),
                I@,
                D@,
                pseudo_output_commitment@,
            ),
            r.mu_C.val() == mu_c_val(
                concat_all(ring@),
                concat_all(commitment_ring@),
                I@,
                D@,
                pseudo_output_commitment@,
            ),
    {
        let mu_P = Self::hash(
            true,
            ring,
            commitment_ring,
            I,
            D,
            pseudo_output_commitment,
        );
        let mu_C = Self::hash(
            false,
            ring,
            commitment_ring,
            I,
            D,
            pseudo_output_commitment,
        );
        AggregationHashes { mu_P, mu_C }
    }

    /// One aggregation hash; `first_domain` picks `CLSAG_agg_0` over
    /// `CLSAG_agg_1`.
    fn hash(
        first_domain: bool,
        ring: &Ring,
        commitment_ring: &Ring,
        I: &Point,
        z_key_image: &Point,
        pseudo_output_commitment: &Point,
    ) -> (r: Scalar)
        ensures
            r.val() == hash_to_scalar_val(
                agg_hash_input(
                    if first_domain {
                        domain_agg_0()
                    } else {
                        domain_agg_1()
                    },
                    concat_all(ring@),
                    concat_all(commitment_ring@),
                    I@,
                    z_key_image@,
                    pseudo_output_commitment@,
                ),
            ),
    {
        let mut buf: Vec<u8> = Vec::new();
        let domain: [u8; 11] = if first_domain {
            [67, 76, 83, 65, 71, 95, 97, 103, 103, 95, 48]
        } else {
            [67, 76, 83, 65, 71, 95, 97, 103, 103, 95, 49]
        };
        proof {
            if first_domain {
                assert(domain@ =~= domain_agg_0());
            } else {
                assert(domain@ =~= domain_agg_1());
            }
            assert(Seq::<u8>::empty() + domain@ =~= domain@);
        }
        extend_bytes(&mut buf, domain.as_slice());
        extend_bytes(&mut buf, ring.as_bytes());
        extend_bytes(&mut buf, commitment_ring.as_bytes());
        let ib = I.to_bytes();
        extend_bytes(&mut buf, ib.as_slice());
        let db = z_key_image.to_bytes();
        extend_bytes(&mut buf, db.as_slice());
        let pb = pseudo_output_commitment.to_bytes();
        extend_bytes(&mut buf, pb.as_slice());
        hash_to_scalar(buf.as_slice())
    }
}

/// Compute the round point `L_i`.
fn compute_L(
    h_prev: &Scalar,
    mus: &AggregationHashes,
    s_i: &Scalar,
    pk_i: &Point,
    adjusted_commitment_i: &Point,
) -> (r: Point)
    ensures
        r@ == round_l_bytes(
            h_prev.val(),
            mus.mu_P.val(),
            mus.mu_C.val(),
            s_i.val(),
            pk_i@,
            adjusted_commitment_i@,
        ),
{
    let c_p = h_prev.mul(&mus.mu_P);
    let c_c = h_prev.mul(&mus.mu_C);
    let base = Point::basepoint();
    base.mul(s_i).add(&pk_i.mul(&c_p)).add(&adjusted_commitment_i.mul(&c_c))
}

/// Compute the round point `R_i`.
fn compute_R(
    h_prev: &Scalar,
    mus: &AggregationHashes,
    s_i: &Scalar,
    H_p_pk_i: &Point,
    I: &Point,
    D: &Point,
) -> (r: Point)
    ensures
        r@ == round_r_bytes(
            h_prev.val(),
            mus.mu_P.val(),
            mus.mu_C.val(),
            s_i.val(),
            H_p_pk_i@,
            I@,
            D@,
        ),
{
    let c_p = h_prev.mul(&mus.mu_P);
    let c_c = h_prev.mul(&mus.mu_C);
    H_p_pk_i.mul(s_i).add(&I.mul(&c_p)).add(&D.mul(&c_c))
}

/// Hash one round: the common prefix, then `L_i`, then `R_i`.
fn challenge(
    prefix: &[u8],
    s_i: &Scalar,
    pk_i: &Point,
    H_p_pk_i: &Point,
    adjusted_commitment_i: &Point,
    D: &Point,
    h_prev: &Scalar,
    I: &Point,
    mus: &AggregationHashes,
) -> (r: Scalar)
    ensures
        r.val() == challenge_val(
            prefix@,
            round_l_bytes(
                h_prev.val(),
                mus.mu_P.val(),
                mus.mu_C.val(),
                s_i.val(),
                pk_i@,
                adjusted_commitment_i@,
            ),
            round_r_bytes(
                h_prev.val(),
                mus.mu_P.val(),
                mus.mu_C.val(),
                s_i.val(),
                H_p_pk_i@,
                I@,
                D@,
            ),
        ),
{
    let L_i = compute_L(h_prev, mus, s_i, pk_i, adjusted_commitment_i);
    let R_i = compute_R(h_prev, mus, s_i, H_p_pk_i, I, D);
    let mut buf: Vec<u8> = Vec::new();
    extend_bytes(&mut buf, prefix);
    let lb = L_i.to_bytes();
    extend_bytes(&mut buf, lb.as_slice());
    let rb = R_i.to_bytes();
    extend_bytes(&mut buf, rb.as_slice());
    proof {
        assert(Seq::<u8>::empty() + prefix@ =~= prefix@);
    }
    hash_to_scalar(buf.as_slice())
}

/// The chain input of a kernel run or a verification replay: transcripts
/// and weights are derived from the rings, the images and the message the
/// same way on both sides.
pub open spec fn kernel_chain_input(
    ring: Seq<Seq<u8>>,
    commitment_ring: Seq<Seq<u8>>,
    hashed_ring: Seq<Seq<u8>>,
    pseudo: Seq<u8>,
    key_image: Seq<u8>,
    commitment_image: Seq<u8>,
    responses: Seq<nat>,
    msg: Seq<u8>,
) -> ChainInput {
    ChainInput {
        prefix: round_prefix(concat_all(ring), concat_all(commitment_ring), pseudo, msg),
        mu_p: mu_p_val(
            concat_all(ring),
            concat_all(commitment_ring),
            key_image,
            commitment_image,
            pseudo,
        ),
        mu_c: mu_c_val(
            concat_all(ring),
            concat_all(commitment_ring),
            key_image,
            commitment_image,
            pseudo,
        ),
        responses,
        ring,
        commitment_ring,
        hashed_ring,
        pseudo,
        key_image,
        commitment_offset: point_mul_of(inv_eight(), commitment_image),
    }
}

/// The response closing the ring: `alpha - h * (mu_P*x + mu_C*z) mod l`.
pub open spec fn closing_response(alpha: nat, h: nat, mu_p: nat, x: nat, mu_c: nat, z: nat) -> nat {
    sub_mod(alpha, mul_mod(h, add_mod(mul_mod(mu_p, x), mul_mod(mu_c, z))))
}

/// A CLSAG signature: eleven responses (the ten decoys first, the real
/// signer's last), the initial challenge, the key image and the commitment
/// image.
pub struct Signature {
    /// Responses; index `j < 10` answers ring position `j + 1`, index 10
    /// answers position 0.
    pub responses: [Scalar; 11],
    /// The initial challenge `c_1 = h_0`.
    pub h_0: Scalar,
    /// Key image of the real key in the ring.
    pub I: Point,
    /// Commitment image `D = z * H_p(P_0)`.
    pub D: Point,
}

/// Whether a signature passes the CLSAG verification equation: replaying
/// the challenge recurrence for all eleven positions, starting and ending
/// at `h_0`.
pub open spec fn verify_spec(
    sig: Signature,
    ring: Seq<Seq<u8>>,
    commitment_ring: Seq<Seq<u8>>,
    hashed_ring: Seq<Seq<u8>>,
    pseudo: Seq<u8>,
    msg: Seq<u8>,
) -> bool {
    let ci = kernel_chain_input(
        ring,
        commitment_ring,
        hashed_ring,
        pseudo,
        sig.I@,
        sig.D@,
        sig.responses@.map_values(|s: Scalar| s.val()),
        msg,
    );
    chain_val(ci, sig.h_0.val(), 11) == sig.h_0.val()
}

/// Produce a CLSAG signature over `msg`.
///
/// The ring's real member sits at index 0; `fake_responses[j]` answers ring
/// position `j + 1`. `hashed_ring` holds `H_p` of each ring member in
/// order, as the external hash-to-point collaborator computed it; its index
/// 0 is the `H_p(P_0)` from which the commitment image is formed. `L` and
/// `R` are the extra nonce points mixed into the first challenge, and `I`
/// the (possibly aggregated) key image for position 0.
#[verifier::loop_isolation(false)]
pub fn sign(
    fake_responses: &[Scalar; 10],
    ring: &Ring,
    commitment_ring: &Ring,
    hashed_ring: &[Point; 11],
    z: &Scalar,
    pseudo_output_commitment: &Point,
    L: &Point,
    R: &Point,
    I: &Point,
    msg: &[u8],
    signing_key: &Scalar,
    alpha: &Scalar,
) -> (sig: Signature)
    ensures
        ({
            let hashed = hashed_ring@.map_values(|p: Point| p@);
            let d = point_mul_of(z.val(), hashed[0]);
            let ci = kernel_chain_input(
                ring@,
                commitment_ring@,
                hashed,
                pseudo_output_commitment@,
                I@,
                d,
                fake_responses@.map_values(|s: Scalar| s.val()),
                msg@,
            );
            let h_0 = challenge_val(ci.prefix, L@, R@);
            &&& sig.h_0.val() == h_0
            &&& forall|j: int| 0 <= j < 10 ==> sig.responses@[j] == fake_responses@[j]
            &&& sig.responses@[10].val() == closing_response(
                alpha.val(),
                chain_val(ci, h_0, 10),
                ci.mu_p,
                signing_key.val(),
                ci.mu_c,
                z.val(),
            )
            &&& sig.I == *I
            &&& sig.D@ == d
        }),
{
    let ghost hashed = hashed_ring@.map_values(|p: Point| p@);
    let D = hashed_ring[0].mul(z);
    let inv8 = scalar_inv_eight();
    let D_inv_8 = D.mul(&inv8);
    let prefix = clsag_round_hash_prefix(ring, commitment_ring, pseudo_output_commitment, msg);

    let mut buf: Vec<u8> = Vec::new();
    extend_bytes(&mut buf, prefix.as_slice());
    let lb = L.to_bytes();
    extend_bytes(&mut buf, lb.as_slice());
    let rb = R.to_bytes();
    extend_bytes(&mut buf, rb.as_slice());
    proof {
        assert(Seq::<u8>::empty() + prefix@ =~= prefix@);
    }
    let h_0 = hash_to_scalar(buf.as_slice());

    let mus = AggregationHashes::new(ring, commitment_ring, I, pseudo_output_commitment, &D);

    let ghost ci = kernel_chain_input(
        ring@,
        commitment_ring@,
        hashed,
        pseudo_output_commitment@,
        I@,
        D@,
        fake_responses@.map_values(|s: Scalar| s.val()),
        msg@,
    );
    let mut h_prev = h_0;
    let mut i: usize = 0;
    while i < 10
        invariant
            i <= 10,
            h_prev.val() == chain_val(ci, h_0.val(), i as nat),
        decreases 10 - i,
    {
        let pos = i + 1;
        let adjusted_commitment_i = commitment_ring.member(pos).sub(pseudo_output_commitment);
        h_prev = challenge(
            prefix.as_slice(),
            &fake_responses[i],
            ring.member(pos),
            &hashed_ring[pos],
            &adjusted_commitment_i,
            &D_inv_8,
            &h_prev,
            I,
            &mus,
        );
        proof {
            lemma_small_mod((i + 1) as nat, 11);
            assert(h_prev.val() == chain_val(ci, h_0.val(), (i + 1) as nat));
        }
        i += 1;
    }

    let w = mus.mu_P.mul(signing_key).add(&mus.mu_C.mul(z));
    let s_last = alpha.sub(&h_prev.mul(&w));

    Signature {
        responses: [
            fake_responses[0],
            fake_responses[1],
            fake_responses[2],
            fake_responses[3],
            fake_responses[4],
            fake_responses[5],
            fake_responses[6],
            fake_responses[7],
            fake_responses[8],
            fake_responses[9],
            s_last,
        ],
        h_0,
        I: *I,
        D,
    }
}

impl Signature {
    /// The responses in the on-chain order: by ring position, so the real
    /// signer's response (stored last) comes first, then the decoys.
    pub fn wire_responses(&self) -> (r: Vec<[u8; 32]>)
        ensures
            r@.len() == 11,
            r@[0]@ == self.responses@[10]@,
            forall|i: int| 1 <= i < 11 ==> r@[i]@ == self.responses@[i - 1]@,
    {
        let mut out: Vec<[u8; 32]> = Vec::new();
        out.push(self.responses[10].to_bytes());
        let mut i: usize = 0;
        while i < 10
            invariant
                i <= 10,
                out@.len() == i + 1,
                out@[0]@ == self.responses@[10]@,
                forall|j: int| 1 <= j <= i ==> out@[j]@ == self.responses@[j - 1]@,
            decreases 10 - i,
        {
            out.push(self.responses[i].to_bytes());
            i += 1;
        }
        out
    }

    /// Replay the challenge recurrence over all eleven ring positions and
    /// check that it closes back on `h_0`. The caller supplies the same
    /// ring data the signer used, `hashed_ring` again being `H_p` of each
    /// member.
    #[verifier::loop_isolation(false)]
    pub fn verify(
        &self,
        ring: &Ring,
        commitment_ring: &Ring,
        hashed_ring: &[Point; 11],
        pseudo_output_commitment: &Point,
        msg: &[u8],
    ) -> (r: bool)
        ensures
            r == verify_spec(
                *self,
                ring@,
                commitment_ring@,
                hashed_ring@.map_values(|p: Point| p@),
                pseudo_output_commitment@,
                msg@,
            ),
    {
        let prefix = clsag_round_hash_prefix(ring, commitment_ring, pseudo_output_commitment, msg);
        let inv8 = scalar_inv_eight();
        let D_inv_8 = self.D.mul(&inv8);
        let mus = AggregationHashes::new(
            ring,
            commitment_ring,
            &self.I,
            pseudo_output_commitment,
            &self.D,
        );
        let ghost ci = kernel_chain_input(
            ring@,
            commitment_ring@,
            hashed_ring@.map_values(|p: Point| p@),
            pseudo_output_commitment@,
            self.I@,
            self.D@,
            self.responses@.map_values(|s: Scalar| s.val()),
            msg@,
        );
        let mut h = self.h_0;
        let mut i: usize = 0;
        while i < 11
            invariant
                i <= 11,
                h.val() == chain_val(ci, self.h_0.val(), i as nat),
            decreases 11 - i,
        {
            let pos = if i == 10 {
                0
            } else {
                i + 1
            };
            let adjusted_commitment_i = commitment_ring.member(pos).sub(pseudo_output_commitment);
            h = challenge(
                prefix.as_slice(),
                &self.responses[i],
                ring.member(pos),
                &hashed_ring[pos],
                &adjusted_commitment_i,
                &D_inv_8,
                &h,
                &self.I,
                &mus,
            );
            proof {
                if i == 10 {
                    assert(((i + 1) as nat) % 11 == 0) by {
                        vstd::arithmetic::div_mod::lemma_mod_self_0(11);
                    }
                } else {
                    lemma_small_mod((i + 1) as nat, 11);
                }
                assert(h.val() == chain_val(ci, self.h_0.val(), (i + 1) as nat));
            }
            i += 1;
        }
        self.h_0.eq_ct(&h)
    }
}

/// Compute the prefix common to every round hash.
fn clsag_round_hash_prefix(
    ring: &Ring,
    commitment_ring: &Ring,
    pseudo_output_commitment: &Point,
    msg: &[u8],
) -> (r: Vec<u8>)
    ensures
        r@ == round_prefix(
            concat_all(ring@),
            concat_all(commitment_ring@),
            pseudo_output_commitment@,
            msg@,
        ),
{
    let mut prefix: Vec<u8> = Vec::new();
    let domain: [u8; 11] = [67, 76, 83, 65, 71, 95, 114, 111, 117, 110, 100];
    proof {
        assert(domain@ =~= domain_round());
        assert(Seq::<u8>::empty() + domain@ =~= domain@);
    }
    extend_bytes(&mut prefix, domain.as_slice());
    extend_bytes(&mut prefix, ring.as_bytes());
    extend_bytes(&mut prefix, commitment_ring.as_bytes());
    let pb = pseudo_output_commitment.to_bytes();
    extend_bytes(&mut prefix, pb.as_slice());
    extend_bytes(&mut prefix, msg);
    prefix
}

} // verus!
