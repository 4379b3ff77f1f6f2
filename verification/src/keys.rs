//! Keys and seeds.
use vstd::prelude::*;

verus! {

/// The X25519 public key that belongs to the private key with the given bytes.
pub uninterp spec fn x25519_public(private: Seq<u8>) -> Seq<u8>;

/// Derives a public key with `x25519_dalek::PublicKey::from(&StaticSecret)`. The key depends on the
/// bytes of the private key alone.
#[verifier::external_body]
pub(crate) fn public_key(private: &[u8; 32]) -> (public: [u8; 32])
    ensures
        public@ == x25519_public(private@),
{
    x25519_dalek::PublicKey::from(&x25519_dalek::StaticSecret::from(*private)).to_bytes()
}

/// Draws a number with `rand::random`. Nothing is claimed of it.
#[verifier::external_body]
pub(crate) fn random_seed() -> (seed: u64) {
    rand::random()
}

} // verus!
