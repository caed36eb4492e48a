//! Signing identities, key derivation and the byte-level helpers around them.
use vstd::prelude::*;

use ed25519_dalek::{Signer, Verifier};
use rand::RngCore;

use crate::zbase32::{z32_encode, z32_encode_spec};

verus! {

/// The 32-byte key that BLAKE3 derives from a context string and key material.
pub uninterp spec fn blake3_derived_key(context: Seq<char>, material: Seq<u8>) -> Seq<u8>;

/// The Ed25519 public key that belongs to a 32-byte secret key.
pub uninterp spec fn ed25519_public_of(secret: Seq<u8>) -> Seq<u8>;

/// The Ed25519 signature that a 32-byte secret key makes over a message.
pub uninterp spec fn ed25519_signature_of(secret: Seq<u8>, message: Seq<u8>) -> Seq<u8>;

/// Whether an Ed25519 signature over a message is accepted for a public key.
pub uninterp spec fn ed25519_accepts(public: Seq<u8>, message: Seq<u8>, signature: Seq<u8>) -> bool;

/// Relies on blake3::derive_key: a 32-byte key that depends on its two arguments alone.
#[verifier::external_body]
pub(crate) fn blake3_derive_key(context: &str, material: &[u8]) -> (r: [u8; 32])
    ensures
        r@ == blake3_derived_key(context@, material@),
{
    blake3::derive_key(context, material)
}

/// Relies on ed25519_dalek::SigningKey::verifying_key: the public half of a secret key.
#[verifier::external_body]
fn ed25519_public_key(secret: &[u8; 32]) -> (r: [u8; 32])
    ensures
        r@ == ed25519_public_of(secret@),
{
    ed25519_dalek::SigningKey::from_bytes(secret).verifying_key().to_bytes()
}

/// Relies on ed25519_dalek::Signer::sign for SigningKey: Ed25519 signatures are
/// deterministic, so the result depends on the key and the message alone.
#[verifier::external_body]
fn ed25519_sign(secret: &[u8; 32], message: &[u8]) -> (r: [u8; 64])
    ensures
        r@ == ed25519_signature_of(secret@, message@),
{
    ed25519_dalek::SigningKey::from_bytes(secret).sign(message).to_bytes()
}

/// Relies on ed25519_dalek::VerifyingKey::verify (after VerifyingKey::from_bytes, whose
/// failure counts as a rejection): a signature that a secret key made over a message is
/// accepted for that key's public half.
#[verifier::external_body]
pub(crate) fn ed25519_verify(public: &[u8; 32], message: &[u8], signature: &[u8; 64]) -> (r: bool)
    ensures
        r == ed25519_accepts(public@, message@, signature@),
        forall|s: Seq<u8>|
            #![trigger ed25519_signature_of(s, message@)]
            public@ == ed25519_public_of(s) && signature@ == ed25519_signature_of(s, message@)
                ==> r,
{
    match ed25519_dalek::VerifyingKey::from_bytes(public) {
        Ok(key) => key.verify(message, &ed25519_dalek::Signature::from_bytes(signature)).is_ok(),
        Err(_) => false,
    }
}

/// Relies on rand::rngs::OsRng through RngCore::fill_bytes: `len` bytes from the
/// operating system's secure source. Nothing is promised of their values.
#[verifier::external_body]
pub fn random_bytes(len: usize) -> (r: Vec<u8>)
    ensures
        r@.len() == len,
{
    let mut buffer = vec![0u8; len];
    rand::rngs::OsRng.fill_bytes(&mut buffer);
    buffer
}

/// Overwrites every byte of `buf` with zero.
pub fn zeroize(buf: &mut [u8])
    ensures
        final(buf)@.len() == old(buf)@.len(),
        forall|i: int| 0 <= i < final(buf)@.len() ==> final(buf)@[i] == 0,
{
    let n = buf.len();
    let mut i: usize = 0;
    while i < n
        invariant
            n == old(buf)@.len(),
            buf@.len() == n,
            i <= n,
            forall|j: int| 0 <= j < i ==> buf@[j] == 0,
        decreases n - i,
    {
        buf[i] = 0;
        i = i + 1;
    }
}

/// An Ed25519 signing identity: a 32-byte secret key and its public half.
pub struct Keypair {
    secret: [u8; 32],
    public: [u8; 32],
}

/// Makes a signing identity of a type, from a seed or from the secure random source.
pub trait DeterministicKeyGen: Sized {
    fn generate(seed: Option<&[u8; 32]>) -> Self;
}

impl Keypair {
    /// The secret key bytes.
    pub closed spec fn secret_spec(&self) -> Seq<u8> {
        self.secret@
    }

    /// The public key bytes.
    pub closed spec fn public_spec(&self) -> Seq<u8> {
        self.public@
    }

    /// Whether the public key is the one that belongs to `secret` (false once scrubbed).
    pub open spec fn derived_from(&self, secret: Seq<u8>) -> bool {
        &&& self.secret_spec() == secret
        &&& self.public_spec() == ed25519_public_of(secret)
    }

    /// Whether every byte of the secret key is zero.
    pub open spec fn is_scrubbed(&self) -> bool {
        forall|i: int| 0 <= i < self.secret_spec().len() ==> self.secret_spec()[i] == 0
    }

    /// The keypair whose secret key is `seed`.
    pub fn from_seed(seed: &[u8; 32]) -> (k: Keypair)
        ensures
            k.derived_from(seed@),
            k.public_spec().len() == 32,
    {
        let public = ed25519_public_key(seed);
        Keypair { secret: *seed, public }
    }

    /// A keypair from a fresh random secret key.
    pub fn random() -> (k: Keypair)
        ensures
            k.public_spec() == ed25519_public_of(k.secret_spec()),
            k.secret_spec().len() == 32,
    {
        let bytes = random_bytes(32);
        let mut seed = [0u8; 32];
        let mut i: usize = 0;
        while i < 32
            invariant
                bytes@.len() == 32,
                i <= 32,
                forall|j: int| 0 <= j < i ==> seed@[j] == bytes@[j],
            decreases 32 - i,
        {
            seed[i] = bytes[i];
            i = i + 1;
        }
        Keypair::from_seed(&seed)
    }

    /// The public key bytes.
    pub fn public_key(&self) -> (r: [u8; 32])
        ensures
            r@ == self.public_spec(),
    {
        self.public
    }

    /// The secret key bytes.
    pub fn secret_key(&self) -> (r: [u8; 32])
        ensures
            r@ == self.secret_spec(),
    {
        self.secret
    }

    /// Signs `message` with the secret key.
    pub fn sign(&self, message: &[u8]) -> (r: [u8; 64])
        ensures
            r@ == ed25519_signature_of(self.secret_spec(), message@),
    {
        ed25519_sign(&self.secret, message)
    }

    /// The user identifier: the public key in z-base-32.
    pub fn to_z32(&self) -> (r: String)
        ensures
            r@ == z32_encode_spec(self.public_spec()),
    {
        z32_encode(&self.public)
    }

    /// Overwrites the secret key with zeros; the public key stays.
    pub fn scrub(&mut self)
        ensures
            final(self).is_scrubbed(),
            final(self).secret_spec().len() == old(self).secret_spec().len(),
            final(self).public_spec() == old(self).public_spec(),
    {
        let mut i: usize = 0;
        while i < 32
            invariant
                i <= 32,
                self.public == old(self).public,
                forall|j: int| 0 <= j < i ==> self.secret@[j] == 0,
            decreases 32 - i,
        {
            self.secret[i] = 0;
            i = i + 1;
        }
    }
}

impl DeterministicKeyGen for Keypair {
    fn generate(seed: Option<&[u8; 32]>) -> Keypair {
        match seed {
            Some(seed) => Keypair::from_seed(seed),
            None => Keypair::random(),
        }
    }
}

} // verus!
