//! End-to-end runs of the two-party exchange: the happy path, the tampering
//! scenarios, and the equivalence with a single-signer kernel run.

use monero_adaptor::{
    sign, Alice0, Alice2, Bob0, Bob2, Error, Message2, Opening, Point, Ring, Scalar,
};
use tiny_keccak::Hasher;

fn sc(x: u64) -> Scalar {
    Scalar::from_u64(x)
}

fn zero() -> Scalar {
    Scalar::from_u64(0)
}

fn pt(x: u64) -> Point {
    Point::basepoint().mul(&sc(x))
}

/// Deterministic stand-in for the external hash-to-point collaborator: a
/// point derived from a Keccak digest of the member's encoding. The
/// protocol only needs both parties to agree on the hashed ring.
fn hp(p: &Point) -> Point {
    let mut hasher = tiny_keccak::Keccak::v256();
    hasher.update(&p.to_bytes());
    let mut digest = [0u8; 32];
    hasher.finalize(&mut digest);
    Point::basepoint().mul(&Scalar::from_bytes_mod_order(digest))
}

struct Setup {
    ring: [Point; 11],
    commitment_ring: [Point; 11],
    hashed_ring: [Point; 11],
    pseudo: Point,
    r_a: Scalar,
    big_r_a: Point,
    big_r_prime_a: Point,
    s_prime_a: Scalar,
    s_b: Scalar,
    alpha_a: Scalar,
    alpha_b: Scalar,
    fakes: [Scalar; 10],
    msg: [u8; 32],
}

fn setup(decoy_seed: u64) -> Setup {
    let base = Point::basepoint();
    let s_prime_a = sc(101);
    let s_b = sc(202);
    let joint = s_prime_a.add(&s_b);
    let pk = base.mul(&joint);

    let mut ring = [pk; 11];
    for i in 1..11 {
        ring[i] = pt(decoy_seed + i as u64);
    }
    let mut hashed_ring = [pk; 11];
    for i in 0..11 {
        hashed_ring[i] = hp(&ring[i]);
    }
    let mut commitment_ring = [base.mul(&sc(404)); 11];
    for i in 1..11 {
        commitment_ring[i] = pt(decoy_seed + 50 + i as u64);
    }
    // C_pseudo equals the real commitment, so the blinding delta z is 0.
    let pseudo = commitment_ring[0];

    let r_a = sc(303);
    let big_r_a = base.mul(&r_a);
    let big_r_prime_a = hashed_ring[0].mul(&r_a);

    let mut fakes = [zero(); 10];
    for (j, slot) in fakes.iter_mut().enumerate() {
        *slot = sc(700 + j as u64);
    }

    Setup {
        ring,
        commitment_ring,
        hashed_ring,
        pseudo,
        r_a,
        big_r_a,
        big_r_prime_a,
        s_prime_a,
        s_b,
        alpha_a: sc(505),
        alpha_b: sc(606),
        fakes,
        msg: *b"hello world, monero is amazing!!",
    }
}

fn run_protocol(s: &Setup) -> (Alice2, Bob2) {
    let alice0 = Alice0::new(
        s.ring,
        s.msg,
        s.commitment_ring,
        s.hashed_ring,
        s.pseudo,
        s.big_r_a,
        s.big_r_prime_a,
        s.s_prime_a,
        s.alpha_a,
        s.fakes,
    );
    let bob0 = Bob0::new(
        s.ring,
        s.msg,
        s.commitment_ring,
        s.hashed_ring,
        s.pseudo,
        s.big_r_a,
        s.big_r_prime_a,
        s.s_b,
        s.alpha_b,
    );

    let msg0 = alice0.next_message(&sc(808));
    let bob1 = bob0.receive(msg0);

    let msg1 = bob1.next_message(&sc(909));
    let alice1 = alice0.receive(msg1, zero()).unwrap();

    let msg2 = alice1.next_message();
    let bob2 = bob1.receive(msg2, zero()).unwrap();

    let msg3 = bob2.next_message();
    let alice2 = alice1.receive(msg3);

    (alice2, bob2)
}

#[test]
fn sign_and_verify_success() {
    let s = setup(1_000);
    let (alice2, _bob2) = run_protocol(&s);

    let sig = alice2.adaptor_sig.adapt(s.r_a);
    assert!(sig.verify(
        &Ring::new(s.ring),
        &Ring::new(s.commitment_ring),
        &s.hashed_ring,
        &s.pseudo,
        &s.msg,
    ));
}

#[test]
fn both_parties_agree_on_adaptor_signature() {
    let s = setup(2_000);
    let (alice2, bob2) = run_protocol(&s);

    let a = &alice2.adaptor_sig;
    let b = &bob2.adaptor_sig;
    assert_eq!(a.s_0.to_bytes(), b.s_0.to_bytes());
    assert_eq!(a.h_0.to_bytes(), b.h_0.to_bytes());
    assert_eq!(a.I.to_bytes(), b.I.to_bytes());
    assert_eq!(a.D.to_bytes(), b.D.to_bytes());
}

#[test]
fn two_party_run_equals_single_signer_kernel() {
    let s = setup(3_000);
    let (alice2, _) = run_protocol(&s);
    let joint_sig = alice2.adaptor_sig.adapt(s.r_a);

    // A single signer holding the summed key and the summed nonce, with the
    // same decoys and the same spliced nonce points.
    let base = Point::basepoint();
    let joint_key = s.s_prime_a.add(&s.s_b);
    let joint_alpha = s.alpha_a.add(&s.alpha_b).add(&s.r_a);
    let big_l = base.mul(&joint_alpha);
    let big_r = s.hashed_ring[0].mul(&joint_alpha);
    let key_image = s.hashed_ring[0].mul(&joint_key);

    let single_sig = sign(
        &s.fakes,
        &Ring::new(s.ring),
        &Ring::new(s.commitment_ring),
        &s.hashed_ring,
        &zero(),
        &s.pseudo,
        &big_l,
        &big_r,
        &key_image,
        &s.msg,
        &joint_key,
        &joint_alpha,
    );

    for i in 0..11 {
        assert_eq!(
            joint_sig.responses[i].to_bytes(),
            single_sig.responses[i].to_bytes()
        );
    }
    assert_eq!(joint_sig.h_0.to_bytes(), single_sig.h_0.to_bytes());
    assert_eq!(joint_sig.I.to_bytes(), single_sig.I.to_bytes());
    assert_eq!(joint_sig.D.to_bytes(), single_sig.D.to_bytes());
}

#[test]
fn adaptor_secret_extraction() {
    let s = setup(4_000);
    let (alice2, _) = run_protocol(&s);

    let half_sum = alice2.adaptor_sig.s_0;
    let sig = alice2.adaptor_sig.adapt(s.r_a);
    let recovered = sig.responses[10].sub(&half_sum);
    assert_eq!(recovered.to_bytes(), s.r_a.to_bytes());
}

#[test]
fn tampered_ring_fails_verification() {
    let s = setup(5_000);
    let (alice2, _) = run_protocol(&s);
    let sig = alice2.adaptor_sig.adapt(s.r_a);

    let mut tampered = s.ring;
    tampered[3] = pt(123_456);
    assert!(!sig.verify(
        &Ring::new(tampered),
        &Ring::new(s.commitment_ring),
        &s.hashed_ring,
        &s.pseudo,
        &s.msg,
    ));
}

#[test]
fn bad_dleq_in_message1_is_rejected() {
    let s = setup(6_000);
    let alice0 = Alice0::new(
        s.ring,
        s.msg,
        s.commitment_ring,
        s.hashed_ring,
        s.pseudo,
        s.big_r_a,
        s.big_r_prime_a,
        s.s_prime_a,
        s.alpha_a,
        s.fakes,
    );
    let bob0 = Bob0::new(
        s.ring,
        s.msg,
        s.commitment_ring,
        s.hashed_ring,
        s.pseudo,
        s.big_r_a,
        s.big_r_prime_a,
        s.s_b,
        s.alpha_b,
    );

    let msg0 = alice0.next_message(&sc(808));
    let bob1 = bob0.receive(msg0);

    // Bob substitutes a shifted nonce image while keeping the proof.
    let mut msg1 = bob1.next_message(&sc(909));
    msg1.I_hat_b = msg1.I_hat_b.add(&Point::basepoint());

    let r = alice0.receive(msg1, zero());
    assert!(matches!(r, Err(Error::InvalidDleq)));
}

#[test]
fn bad_opening_in_message2_is_rejected() {
    let s = setup(7_000);
    let alice0 = Alice0::new(
        s.ring,
        s.msg,
        s.commitment_ring,
        s.hashed_ring,
        s.pseudo,
        s.big_r_a,
        s.big_r_prime_a,
        s.s_prime_a,
        s.alpha_a,
        s.fakes,
    );
    let bob0 = Bob0::new(
        s.ring,
        s.msg,
        s.commitment_ring,
        s.hashed_ring,
        s.pseudo,
        s.big_r_a,
        s.big_r_prime_a,
        s.s_b,
        s.alpha_b,
    );

    let msg0 = alice0.next_message(&sc(808));
    let bob1 = bob0.receive(msg0);
    let msg1 = bob1.next_message(&sc(909));
    let alice1 = alice0.receive(msg1, zero()).unwrap();

    // Alice's opening arrives with one decoy response altered.
    let msg2 = alice1.next_message();
    let opening = msg2.d_a;
    let mut altered = opening.fake_responses;
    altered[0] = altered[0].add(&sc(1));
    let tampered = Message2 {
        d_a: Opening::new(altered, opening.I_a, opening.I_hat_a, opening.T_a),
        s_0_a: msg2.s_0_a,
    };

    let r = bob1.receive(tampered, zero());
    assert!(matches!(r, Err(Error::CommitmentMismatch)));
}

#[test]
fn wrong_adaptor_secret_fails_verification() {
    let s = setup(8_000);
    let (alice2, _) = run_protocol(&s);

    let wrong = s.r_a.add(&sc(1));
    let sig = alice2.adaptor_sig.adapt(wrong);
    assert!(!sig.verify(
        &Ring::new(s.ring),
        &Ring::new(s.commitment_ring),
        &s.hashed_ring,
        &s.pseudo,
        &s.msg,
    ));
}

#[test]
fn key_image_is_stable_across_rings() {
    // Same joint key and hashed real member, different decoys.
    let first = setup(9_000);
    let second = setup(10_000);

    let (alice_first, _) = run_protocol(&first);
    let (alice_second, _) = run_protocol(&second);

    let sig_first = alice_first.adaptor_sig.adapt(first.r_a);
    let sig_second = alice_second.adaptor_sig.adapt(second.r_a);
    assert_eq!(sig_first.I.to_bytes(), sig_second.I.to_bytes());
}
