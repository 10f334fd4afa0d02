//! Tests of the building blocks: scalars, points, the kernel's closure,
//! aggregation hashes, DLEQ proofs, and commitments.

use monero_adaptor::{
    sign, AggregationHashes, Commitment, DleqProof, Error, Opening, Point, Ring, Scalar,
};

fn sc(x: u64) -> Scalar {
    Scalar::from_u64(x)
}

fn pt(x: u64) -> Point {
    Point::basepoint().mul(&sc(x))
}

/// Little-endian encoding of the group order `l`.
fn group_order_bytes() -> [u8; 32] {
    [
        237, 211, 245, 92, 26, 99, 18, 88, 214, 156, 247, 162, 222, 249, 222, 20, 0, 0, 0, 0, 0,
        0, 0, 0, 0, 0, 0, 0, 0, 0, 0, 16,
    ]
}

#[test]
fn scalar_arithmetic_matches_values() {
    assert_eq!(sc(2).add(&sc(3)).to_bytes(), sc(5).to_bytes());
    assert_eq!(sc(5).mul(&sc(7)).to_bytes(), sc(35).to_bytes());
    let a = sc(1_000);
    let b = sc(999_999);
    assert_eq!(a.sub(&b).add(&b).to_bytes(), a.to_bytes());
}

#[test]
fn scalar_reduction_wraps_at_group_order() {
    let reduced = Scalar::from_bytes_mod_order(group_order_bytes());
    assert_eq!(reduced.to_bytes(), sc(0).to_bytes());
}

#[test]
fn non_canonical_scalar_bytes_are_rejected() {
    assert!(matches!(
        Scalar::from_bytes([0xFF; 32]),
        Err(Error::MalformedScalar)
    ));
    assert!(matches!(
        Scalar::from_bytes(group_order_bytes()),
        Err(Error::MalformedScalar)
    ));
    let mut below = group_order_bytes();
    below[0] -= 1;
    assert!(Scalar::from_bytes(below).is_ok());
    let five = Scalar::from_bytes(sc(5).to_bytes()).unwrap();
    assert_eq!(five.to_bytes(), sc(5).to_bytes());
}

#[test]
fn basepoint_has_its_known_encoding() {
    let mut expected = [0x66u8; 32];
    expected[0] = 0x58;
    assert_eq!(Point::basepoint().to_bytes(), expected);
}

#[test]
fn invalid_point_bytes_are_rejected() {
    // y = 2 is not the y-coordinate of any curve point.
    let mut bad = [0u8; 32];
    bad[0] = 2;
    assert!(matches!(Point::from_bytes(bad), Err(Error::MalformedPoint)));
    let good = Point::from_bytes(Point::basepoint().to_bytes()).unwrap();
    assert_eq!(good.to_bytes(), Point::basepoint().to_bytes());
}

#[test]
fn point_arithmetic_is_consistent() {
    let base = Point::basepoint();
    let twice = base.mul(&sc(2));
    assert_eq!(twice.to_bytes(), base.add(&base).to_bytes());
    assert_ne!(twice.to_bytes(), base.to_bytes());
    assert_eq!(base.mul(&sc(1)).to_bytes(), base.to_bytes());
    let q = pt(7);
    assert_eq!(base.add(&q).sub(&q).to_bytes(), base.to_bytes());
}

#[test]
fn aggregation_hashes_are_domain_separated() {
    let members: [Point; 11] = core::array::from_fn(|i| pt(40 + i as u64));
    let commitments: [Point; 11] = core::array::from_fn(|i| pt(80 + i as u64));
    let mus = AggregationHashes::new(
        &Ring::new(members),
        &Ring::new(commitments),
        &pt(5),
        &pt(6),
        &pt(7),
    );
    assert_ne!(mus.mu_P.to_bytes(), mus.mu_C.to_bytes());
}

#[test]
fn kernel_closes_over_the_ring() {
    let base = Point::basepoint();
    let x = sc(42);
    let alpha = sc(77);

    let mut ring = [base.mul(&x); 11];
    for i in 1..11 {
        ring[i] = pt(200 + i as u64);
    }
    let hashed_ring: [Point; 11] = core::array::from_fn(|i| pt(300 + i as u64));
    let mut commitment_ring = [pt(400); 11];
    for i in 1..11 {
        commitment_ring[i] = pt(400 + i as u64);
    }
    let pseudo = commitment_ring[0];
    let z = sc(0);
    let fakes: [Scalar; 10] = core::array::from_fn(|j| sc(500 + j as u64));

    let key_image = hashed_ring[0].mul(&x);
    let big_l = base.mul(&alpha);
    let big_r = hashed_ring[0].mul(&alpha);
    let msg = *b"hello world, monero is amazing!!";

    let ring = Ring::new(ring);
    let commitment_ring = Ring::new(commitment_ring);
    let sig = sign(
        &fakes,
        &ring,
        &commitment_ring,
        &hashed_ring,
        &z,
        &pseudo,
        &big_l,
        &big_r,
        &key_image,
        &msg,
        &x,
        &alpha,
    );
    assert!(sig.verify(&ring, &commitment_ring, &hashed_ring, &pseudo, &msg));

    // A flipped message breaks the closure.
    let other = *b"hello world, monero is amazing!?";
    assert!(!sig.verify(&ring, &commitment_ring, &hashed_ring, &pseudo, &other));

    // The wire order puts the real signer's response first.
    let wire = sig.wire_responses();
    assert_eq!(wire.len(), 11);
    assert_eq!(wire[0], sig.responses[10].to_bytes());
    for i in 1..11 {
        assert_eq!(wire[i], sig.responses[i - 1].to_bytes());
    }
}

#[test]
fn dleq_accepts_honest_proofs_and_rejects_tampering() {
    let g = Point::basepoint();
    let h = pt(11);
    let x = sc(13);
    let xg = g.mul(&x);
    let xh = h.mul(&x);

    let proof = DleqProof::new(&g, &xg, &h, &xh, &x, &sc(17));
    assert!(proof.verify(&g, &xg, &h, &xh).is_ok());

    // Any flipped input bit is rejected.
    let wrong = xh.add(&g);
    assert!(matches!(
        proof.verify(&g, &xg, &h, &wrong),
        Err(Error::InvalidDleq)
    ));
    let not_the_witness = g.mul(&sc(14));
    assert!(matches!(
        proof.verify(&g, &not_the_witness, &h, &xh),
        Err(Error::InvalidDleq)
    ));
}

#[test]
fn commitment_digest_matches_known_keccak_vector() {
    // Tuple with fully known encodings: the scalars 0..9 and the base point
    // three times, 416 bytes in all. The expected digest is Keccak-256 of
    // those bytes, computed with an independent implementation.
    let fakes: [Scalar; 10] = core::array::from_fn(|j| sc(j as u64));
    let base = Point::basepoint();
    let commitment = Commitment::new(&fakes, &base, &base, &base);
    let expected: [u8; 32] = [
        224, 135, 153, 110, 92, 65, 24, 145, 158, 248, 96, 110, 241, 208, 147, 250, 37, 232, 13,
        121, 46, 140, 124, 112, 65, 145, 157, 24, 170, 180, 174, 0,
    ];
    assert_eq!(commitment.0, expected);
}

#[test]
fn commitment_opens_only_to_its_own_tuple() {
    let fakes: [Scalar; 10] = core::array::from_fn(|j| sc(600 + j as u64));
    let i_a = pt(21);
    let i_hat_a = pt(22);
    let t_a = pt(23);

    let commitment = Commitment::new(&fakes, &i_a, &i_hat_a, &t_a);
    let opened = Opening::new(fakes, i_a, i_hat_a, t_a).open(commitment).unwrap();
    assert_eq!(opened.1.to_bytes(), i_a.to_bytes());

    // A tuple differing only in the last point gives a different digest.
    let other = Commitment::new(&fakes, &i_a, &i_hat_a, &pt(24));
    assert_ne!(commitment.0, other.0);

    let commitment = Commitment::new(&fakes, &i_a, &i_hat_a, &t_a);
    let r = Opening::new(fakes, i_a, i_hat_a, pt(24)).open(commitment);
    assert!(matches!(r, Err(Error::CommitmentMismatch)));
}
