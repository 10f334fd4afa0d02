//! Two-party CLSAG adaptor signatures for Monero-style transaction inputs.
//!
//! The crate implements the CLSAG ring-signature kernel (ring size 11, real
//! signer at index 0), a Fiat-Shamir DLEQ proof, a Keccak hash commitment,
//! and the four-message Alice/Bob protocol that jointly produces an adaptor
//! signature whose completion reveals the adaptor secret.
//!
//! Curve and hash arithmetic is performed by curve25519-dalek and
//! tiny-keccak behind small trusted wrappers; everything else is verified.
//! The Monero hash-to-point function `H_p` is an external collaborator:
//! its values enter the library as ordinary points (the hashed ring).

#![allow(non_snake_case)]

use vstd::prelude::*;

mod encoding;
mod error;
mod scalar;
mod point;
mod keccak;
mod ring;
mod clsag;
mod dleq;
mod commit;
mod protocol;
mod laws;

pub use ring::Ring;
pub use clsag::AggregationHashes;
pub use clsag::Signature;
pub use clsag::sign;
pub use clsag::verify_spec;
pub use clsag::ChainInput;
pub use clsag::chain_val;
pub use clsag::kernel_chain_input;
pub use clsag::closing_response;
pub use clsag::challenge_val;
pub use clsag::round_prefix;
pub use clsag::round_l_bytes;
pub use clsag::round_r_bytes;
pub use clsag::agg_hash_input;
pub use clsag::mu_p_val;
pub use clsag::mu_c_val;
pub use clsag::domain_agg_0;
pub use clsag::domain_agg_1;
pub use clsag::domain_round;
pub use clsag::inv_eight;
pub use dleq::DleqProof;
pub use dleq::dleq_challenge_val;
pub use dleq::honest_dleq;
pub use dleq::dleq_accepts;
pub use commit::Commitment;
pub use commit::Opening;
pub use commit::commit_input;
pub use protocol::AdaptorSignature;
pub use protocol::HalfAdaptorSignature;
pub use protocol::Alice0;
pub use protocol::Alice1;
pub use protocol::Alice2;
pub use protocol::Bob0;
pub use protocol::Bob1;
pub use protocol::Bob2;
pub use protocol::Message0;
pub use protocol::Message1;
pub use protocol::Message2;
pub use protocol::Message3;
pub use protocol::half_sig_ok;
pub use laws::lemma_half_responses_add;
pub use laws::lemma_adaptor_extraction;
pub use laws::lemma_domain_separation;
pub use laws::lemma_two_party_equivalence;
pub use encoding::le_val;
pub use encoding::concat_all;
pub use error::Error;
pub use scalar::Scalar;
pub use scalar::group_order;
pub use scalar::add_mod;
pub use scalar::mul_mod;
pub use scalar::sub_mod;
pub use point::Point;
pub use point::point_valid;
pub use point::point_add_of;
pub use point::point_sub_of;
pub use point::point_mul_of;
pub use point::basepoint_bytes;
pub use keccak::keccak256_of;
pub use keccak::hash_to_scalar_val;

verus! {

/// Number of members in a CLSAG ring: one real signer (index 0) and ten decoys.
pub const RING_SIZE: usize = 11;

} // verus!
