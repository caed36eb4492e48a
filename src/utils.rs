//! Time, seeds, keypairs and user identifiers.
use vstd::prelude::*;

use crate::crypto::{ed25519_public_of, random_bytes, Keypair};
use crate::zbase32::z32_encode_spec;

verus! {

/// Relies on std::time::SystemTime::now and duration_since(UNIX_EPOCH): the current
/// Unix time in seconds. Nothing is promised of its value.
#[verifier::external_body]
pub fn now() -> (r: u64) {
    std::time::SystemTime::now()
        .duration_since(std::time::UNIX_EPOCH)
        .expect("Time went backwards")
        .as_secs()
}

/// A fresh 32-byte seed from the secure random source.
pub fn generate_seed() -> (r: [u8; 32])
    ensures
        r@.len() == 32,
{
    let bytes = random_bytes(32);
    let mut seed = [0u8; 32];
    let mut i: usize = 0;
    while i < 32
        invariant
            bytes@.len() == 32,
            i <= 32,
        decreases 32 - i,
    {
        seed[i] = bytes[i];
        i = i + 1;
    }
    seed
}

/// The keypair whose secret key is `seed`, or a random one without a seed.
pub fn generate_keypair(seed: Option<&[u8; 32]>) -> (k: Keypair)
    ensures
        k.public_spec() == ed25519_public_of(k.secret_spec()),
        seed matches Some(s) ==> k.secret_spec() == s@,
{
    match seed {
        Some(s) => Keypair::from_seed(s),
        None => Keypair::random(),
    }
}

/// The user identifier of `seed`'s keypair: its public key in z-base-32.
pub fn get_user_id(seed: Option<&[u8; 32]>) -> (r: String)
    ensures
        seed matches Some(s) ==> r@ == z32_encode_spec(ed25519_public_of(s@)),
{
    let keypair = generate_keypair(seed);
    keypair.to_z32()
}

} // verus!
