//! The laws the protocol rests on, proved once and for all: responses add
//! across parties, the adaptor secret is recoverable, and the two
//! aggregation transcripts can never coincide.

use crate::clsag::{
    agg_hash_input, chain_val, challenge_val, closing_response, domain_agg_0, domain_agg_1,
    kernel_chain_input,
};
use crate::point::point_mul_of;
use crate::protocol::{half_sig_ok, HalfAdaptorSignature};
use crate::scalar::{add_mod, group_order, mul_mod, sub_mod, Scalar};
use vstd::arithmetic::div_mod::{
    lemma_add_mod_noop, lemma_add_mod_noop_right, lemma_mod_multiples_vanish,
    lemma_mul_mod_noop_right, lemma_small_mod, lemma_sub_mod_noop_right,
};
use vstd::arithmetic::mul::lemma_mul_is_distributive_add;
use vstd::prelude::*;

verus! {

/// The nested weight term of a closing response reduces to one product
/// modulo the group order.
proof fn lemma_weight_reduces(h: nat, mu_p: nat, x: nat, mu_c: nat, z: nat)
    ensures
        mul_mod(h, add_mod(mul_mod(mu_p, x), mul_mod(mu_c, z))) == (h as int * (mu_p * x + mu_c
            * z)) % (group_order() as int),
{
    let l = group_order() as int;
    let wp: int = mu_p as int * x as int;
    let wc: int = mu_c as int * z as int;
    lemma_add_mod_noop(wp, wc, l);
    lemma_mul_mod_noop_right(h as int, wp + wc, l);
}

/// Responses add across parties: two closing responses computed under one
/// challenge, each from its party's own nonce, key share and the shared
/// blinding delta, sum to the closing response of a single signer holding
/// the summed nonce, the summed key and the summed delta.
pub proof fn lemma_half_responses_add(
    alpha_a: nat,
    alpha_b: nat,
    h: nat,
    mu_p: nat,
    mu_c: nat,
    x_a: nat,
    x_b: nat,
    z_a: nat,
    z_b: nat,
)
    ensures
        add_mod(
            closing_response(alpha_a, h, mu_p, x_a, mu_c, z_a),
            closing_response(alpha_b, h, mu_p, x_b, mu_c, z_b),
        ) == closing_response(
            add_mod(alpha_a, alpha_b),
            h,
            mu_p,
            add_mod(x_a, x_b),
            mu_c,
            add_mod(z_a, z_b),
        ),
{
    let l = group_order() as int;
    let hi = h as int;
    let aa = alpha_a as int;
    let ab = alpha_b as int;
    let mp = mu_p as int;
    let mc = mu_c as int;
    let xa = x_a as int;
    let xb = x_b as int;
    let za = z_a as int;
    let zb = z_b as int;
    let wa: int = mp * xa + mc * za;
    let wb: int = mp * xb + mc * zb;

    lemma_weight_reduces(h, mu_p, x_a, mu_c, z_a);
    lemma_weight_reduces(h, mu_p, x_b, mu_c, z_b);

    // Each closing response is `(alpha + l - h*w) % l`.
    lemma_sub_mod_noop_right(aa + l, hi * wa, l);
    lemma_sub_mod_noop_right(ab + l, hi * wb, l);
    assert(closing_response(alpha_a, h, mu_p, x_a, mu_c, z_a) == (aa + l - hi * wa) % l);
    assert(closing_response(alpha_b, h, mu_p, x_b, mu_c, z_b) == (ab + l - hi * wb) % l);

    // Their sum modulo `l`.
    lemma_add_mod_noop(aa + l - hi * wa, ab + l - hi * wb, l);

    // The joint weight term reduces the same way.
    lemma_mul_is_distributive_add(mp, xa, xb);
    lemma_mul_is_distributive_add(mc, za, zb);
    assert(mul_mod(h, add_mod(mul_mod(mu_p, add_mod(x_a, x_b)), mul_mod(mu_c, add_mod(z_a, z_b))))
        == (hi * (wa + wb)) % l) by {
        lemma_mul_mod_noop_right(mp, xa + xb, l);
        lemma_mul_mod_noop_right(mc, za + zb, l);
        lemma_add_mod_noop(mp * (xa + xb), mc * (za + zb), l);
        lemma_mul_mod_noop_right(hi, mp * (xa + xb) + mc * (za + zb), l);
    }

    // The joint closing response is `(alpha_a + alpha_b + l - h*(wa+wb)) % l`.
    lemma_sub_mod_noop_right(((aa + ab) % l) + l, hi * (wa + wb), l);
    lemma_add_mod_noop_right(l - hi * (wa + wb), aa + ab, l);

    // Distribute and drop the extra multiple of `l`.
    lemma_mul_is_distributive_add(hi, wa, wb);
    lemma_mod_multiples_vanish(1, aa + ab + l - hi * (wa + wb), l);
}

/// The adaptor secret is recoverable: completing an adaptor signature with
/// `y` and subtracting the half-sum again yields exactly `y`.
pub proof fn lemma_adaptor_extraction(s_0: nat, y: nat)
    requires
        y < group_order(),
    ensures
        sub_mod(add_mod(s_0, y), s_0) == y,
{
    let l = group_order() as int;
    let s0 = s_0 as int;
    let yi = y as int;
    lemma_add_mod_noop_right(l - s0, s0 + yi, l);
    lemma_mod_multiples_vanish(1, yi, l);
    lemma_small_mod(y, group_order());
}

/// Domain separation: the two aggregation transcripts differ on every
/// input, at the domain separator's last byte, so the two aggregation
/// scalars can only coincide on a Keccak collision.
pub proof fn lemma_domain_separation(
    ring_bytes: Seq<u8>,
    commitment_ring_bytes: Seq<u8>,
    key_image: Seq<u8>,
    commitment_image: Seq<u8>,
    pseudo: Seq<u8>,
)
    ensures
        agg_hash_input(
            domain_agg_0(),
            ring_bytes,
            commitment_ring_bytes,
            key_image,
            commitment_image,
            pseudo,
        ) != agg_hash_input(
            domain_agg_1(),
            ring_bytes,
            commitment_ring_bytes,
            key_image,
            commitment_image,
            pseudo,
        ),
{
    let a = agg_hash_input(
        domain_agg_0(),
        ring_bytes,
        commitment_ring_bytes,
        key_image,
        commitment_image,
        pseudo,
    );
    let b = agg_hash_input(
        domain_agg_1(),
        ring_bytes,
        commitment_ring_bytes,
        key_image,
        commitment_image,
        pseudo,
    );
    assert(a[10] == 48u8);
    assert(b[10] == 49u8);
}

/// Two-party equivalence at the response level: if both parties' kernel
/// runs answered the same public transcript (same rings, message, spliced
/// nonce points and aggregated key image, and the same blinding delta),
/// they agree on the initial challenge and both images, and their response
/// shares sum to the closing response of one signer holding the summed key
/// and the summed nonce, with delta counted once per party.
pub proof fn lemma_two_party_equivalence(
    half_a: HalfAdaptorSignature,
    half_b: HalfAdaptorSignature,
    ring: Seq<Seq<u8>>,
    commitment_ring: Seq<Seq<u8>>,
    hashed_ring: Seq<Seq<u8>>,
    pseudo: Seq<u8>,
    msg: Seq<u8>,
    L: Seq<u8>,
    R: Seq<u8>,
    I: Seq<u8>,
    fakes: Seq<Scalar>,
    x_a: nat,
    alpha_a: nat,
    x_b: nat,
    alpha_b: nat,
    z: nat,
)
    requires
        half_sig_ok(
            half_a,
            ring,
            commitment_ring,
            hashed_ring,
            pseudo,
            msg,
            L,
            R,
            I,
            fakes,
            x_a,
            alpha_a,
            z,
        ),
        half_sig_ok(
            half_b,
            ring,
            commitment_ring,
            hashed_ring,
            pseudo,
            msg,
            L,
            R,
            I,
            fakes,
            x_b,
            alpha_b,
            z,
        ),
    ensures
        half_a.h_0.val() == half_b.h_0.val(),
        half_a.I@ == half_b.I@,
        half_a.D@ == half_b.D@,
        ({
            let ci = kernel_chain_input(
                ring,
                commitment_ring,
                hashed_ring,
                pseudo,
                I,
                point_mul_of(z, hashed_ring[0]),
                fakes.map_values(|s: Scalar| s.val()),
                msg,
            );
            let h_0 = challenge_val(ci.prefix, L, R);
            add_mod(half_a.s_0_half.val(), half_b.s_0_half.val()) == closing_response(
                add_mod(alpha_a, alpha_b),
                chain_val(ci, h_0, 10),
                ci.mu_p,
                add_mod(x_a, x_b),
                ci.mu_c,
                add_mod(z, z),
            )
        }),
{
    let ci = kernel_chain_input(
        ring,
        commitment_ring,
        hashed_ring,
        pseudo,
        I,
        point_mul_of(z, hashed_ring[0]),
        fakes.map_values(|s: Scalar| s.val()),
        msg,
    );
    let h_0 = challenge_val(ci.prefix, L, R);
    let h = chain_val(ci, h_0, 10);
    lemma_half_responses_add(alpha_a, alpha_b, h, ci.mu_p, ci.mu_c, x_a, x_b, z, z);
}

} // verus!
