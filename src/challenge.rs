//! The homeserver's signed, time-bounded nonce and its 40-byte wire form.
use vstd::prelude::*;

use crate::crypto::{blake3_derive_key, blake3_derived_key, ed25519_accepts, ed25519_verify, random_bytes};
use crate::error::ChallengeError;
use crate::utils::now;

verus! {

/// Domain-separation context under which the signable bytes are derived.
pub const CONTEXT: &'static str = "pubky:homeserver:challenge";

/// Length of the wire form: the nonce, then the expiry.
pub const CHALLENGE_LEN: usize = 40;

/// The bytes to sign for a nonce: a BLAKE3 key derived under `CONTEXT`.
pub open spec fn signable_of(value: Seq<u8>) -> Seq<u8> {
    blake3_derived_key(CONTEXT@, value)
}

/// `x` as eight big-endian bytes.
pub open spec fn be_bytes(x: u64) -> Seq<u8> {
    seq![
        (x >> 56u64) as u8,
        (x >> 48u64) as u8,
        (x >> 40u64) as u8,
        (x >> 32u64) as u8,
        (x >> 24u64) as u8,
        (x >> 16u64) as u8,
        (x >> 8u64) as u8,
        x as u8,
    ]
}

/// The integer that eight big-endian bytes spell.
pub open spec fn from_be_bytes(b: Seq<u8>) -> u64 {
    ((b[0] as u64) << 56u64) | ((b[1] as u64) << 48u64) | ((b[2] as u64) << 40u64) | ((
    b[3] as u64) << 32u64) | ((b[4] as u64) << 24u64) | ((b[5] as u64) << 16u64) | ((
    b[6] as u64) << 8u64) | (b[7] as u64)
}

/// A nonce issued by a homeserver, its expiry in Unix seconds, and the bytes to sign.
#[derive(Debug)]
pub struct Challenge {
    pub value: [u8; 32],
    pub expires_at: u64,
    pub signable: [u8; 32],
}

impl Challenge {
    /// The signable bytes are the ones derived from the nonce.
    pub open spec fn wf(&self) -> bool {
        self.signable@ == signable_of(self.value@)
    }

    /// The wire form: the nonce, then the expiry in big-endian order.
    pub open spec fn wire(&self) -> Seq<u8> {
        self.value@ + be_bytes(self.expires_at)
    }

    /// Whether the challenge has expired at time `now`.
    pub open spec fn expired_spec(&self, now: u64) -> bool {
        self.expires_at <= now
    }

    /// A challenge of the three parts given.
    pub fn new(value: [u8; 32], expires_at: u64, signable: [u8; 32]) -> (r: Challenge)
        ensures
            r.value == value,
            r.expires_at == expires_at,
            r.signable == signable,
    {
        Challenge { value, expires_at, signable }
    }

    /// A challenge over `challenge`, or over a random nonce without one, with its
    /// signable bytes derived.
    pub fn create(expires_at: u64, challenge: Option<[u8; 32]>) -> (r: Challenge)
        ensures
            r.wf(),
            r.expires_at == expires_at,
            challenge matches Some(c) ==> r.value == c,
    {
        let value = match challenge {
            Some(c) => c,
            None => {
                let bytes = random_bytes(32);
                let mut v = [0u8; 32];
                let mut i: usize = 0;
                while i < 32
                    invariant
                        bytes@.len() == 32,
                        i <= 32,
                    decreases 32 - i,
                {
                    v[i] = bytes[i];
                    i = i + 1;
                }
                v
            },
        };
        let signable = Self::signable(&value);
        Self::new(value, expires_at, signable)
    }

    /// The 40-byte wire form.
    pub fn serialize(&self) -> (r: Vec<u8>)
        ensures
            r@ == self.wire(),
    {
        let mut bytes: Vec<u8> = Vec::with_capacity(CHALLENGE_LEN);
        let mut i: usize = 0;
        while i < 32
            invariant
                i <= 32,
                bytes@ =~= self.value@.subrange(0, i as int),
            decreases 32 - i,
        {
            bytes.push(self.value[i]);
            i = i + 1;
        }
        let x = self.expires_at;
        bytes.push((x >> 56u64) as u8);
        bytes.push((x >> 48u64) as u8);
        bytes.push((x >> 40u64) as u8);
        bytes.push((x >> 32u64) as u8);
        bytes.push((x >> 24u64) as u8);
        bytes.push((x >> 16u64) as u8);
        bytes.push((x >> 8u64) as u8);
        bytes.push(x as u8);
        assert(bytes@ =~= self.wire());
        bytes
    }

    /// Reads the wire form: the nonce from the first 32 bytes, the expiry from the next
    /// eight; the signable bytes are derived anew, never read.
    pub fn deserialize(bytes: &[u8]) -> (r: Challenge)
        requires
            bytes@.len() >= CHALLENGE_LEN,
        ensures
            r.value@ == bytes@.subrange(0, 32),
            r.expires_at == from_be_bytes(bytes@.subrange(32, 40)),
            r.wf(),
    {
        let mut value = [0u8; 32];
        let mut i: usize = 0;
        while i < 32
            invariant
                bytes@.len() >= 40,
                i <= 32,
                forall|j: int| 0 <= j < i ==> value@[j] == bytes@[j],
            decreases 32 - i,
        {
            value[i] = bytes[i];
            i = i + 1;
        }
        assert(value@ =~= bytes@.subrange(0, 32));
        let expires_at = ((bytes[32] as u64) << 56u64) | ((bytes[33] as u64) << 48u64) | ((
        bytes[34] as u64) << 40u64) | ((bytes[35] as u64) << 32u64) | ((bytes[36] as u64)
            << 24u64) | ((bytes[37] as u64) << 16u64) | ((bytes[38] as u64) << 8u64) | (
        bytes[39] as u64);
        let signable = Self::signable(&value);
        Self::new(value, expires_at, signable)
    }

    /// Reads a challenge from a response body, which must be exactly the wire form.
    pub fn parse(bytes: &[u8]) -> (r: Option<Challenge>)
        ensures
            bytes@.len() != CHALLENGE_LEN ==> r is None,
            bytes@.len() == CHALLENGE_LEN ==> (r matches Some(c) && c.wf() && c.value@
                == bytes@.subrange(0, 32) && c.expires_at == from_be_bytes(
                bytes@.subrange(32, 40),
            )),
    {
        if bytes.len() == CHALLENGE_LEN {
            Some(Self::deserialize(bytes))
        } else {
            None
        }
    }

    /// Whether the challenge has expired by the clock's current time.
    pub fn expired(&self) -> (r: bool)
        ensures
            self.expires_at == 0 ==> r,
    {
        self.expired_at(now())
    }

    /// Whether the challenge has expired at time `now`: its expiry is not after it.
    pub fn expired_at(&self, now: u64) -> (r: bool)
        ensures
            r == self.expired_spec(now),
    {
        self.expires_at <= now
    }

    /// The bytes to sign for the nonce `challenge`.
    pub fn signable(challenge: &[u8]) -> (r: [u8; 32])
        ensures
            r@ == signable_of(challenge@),
    {
        blake3_derive_key(CONTEXT, challenge)
    }

    /// Checks `signature` over the signable bytes with `public_key`, at time `now`.
    pub fn verify_at(&self, signature: &[u8; 64], public_key: &[u8; 32], now: u64) -> (r: Result<
        (),
        ChallengeError,
    >)
        ensures
            self.expired_spec(now) ==> r == Err::<(), ChallengeError>(ChallengeError::Expired),
            !self.expired_spec(now) ==> (r is Ok <==> ed25519_accepts(
                public_key@,
                self.signable@,
                signature@,
            )),
            !self.expired_spec(now) && r is Err ==> r == Err::<(), ChallengeError>(
                ChallengeError::InvalidSignature,
            ),
    {
        if self.expired_at(now) {
            return Err(ChallengeError::Expired);
        }
        if ed25519_verify(public_key, &self.signable, signature) {
            Ok(())
        } else {
            Err(ChallengeError::InvalidSignature)
        }
    }

    /// Checks `signature` over the signable bytes with `public_key`, by the clock's
    /// current time.
    pub fn verify(&self, signature: &[u8; 64], public_key: &[u8; 32]) -> (r: Result<
        (),
        ChallengeError,
    >)
        ensures
            r is Ok ==> ed25519_accepts(public_key@, self.signable@, signature@),
            r == Err::<(), ChallengeError>(ChallengeError::InvalidSignature) ==> !ed25519_accepts(
                public_key@,
                self.signable@,
                signature@,
            ),
            self.expires_at == 0 ==> r == Err::<(), ChallengeError>(ChallengeError::Expired),
    {
        self.verify_at(signature, public_key, now())
    }
}

/// Reading the wire form of a challenge gives back its nonce and expiry, and the
/// signable bytes that the nonce derives.
pub proof fn lemma_wire_round_trip(c: Challenge)
    ensures
        c.wire().len() == CHALLENGE_LEN,
        c.wire().subrange(0, 32) == c.value@,
        from_be_bytes(c.wire().subrange(32, 40)) == c.expires_at,
{
    let w = c.wire();
    assert(w.subrange(0, 32) =~= c.value@);
    let b = w.subrange(32, 40);
    assert(b =~= be_bytes(c.expires_at));
    let x = c.expires_at;
    assert(((((x >> 56u64) as u8) as u64) << 56u64) | ((((x >> 48u64) as u8) as u64) << 48u64)
        | ((((x >> 40u64) as u8) as u64) << 40u64) | ((((x >> 32u64) as u8) as u64) << 32u64)
        | ((((x >> 24u64) as u8) as u64) << 24u64) | ((((x >> 16u64) as u8) as u64) << 16u64)
        | ((((x >> 8u64) as u8) as u64) << 8u64) | ((x as u8) as u64) == x) by (bit_vector);
}

/// Writing back what was read from any 40 bytes gives the same bytes.
pub proof fn lemma_bytes_round_trip(bytes: Seq<u8>)
    requires
        bytes.len() == CHALLENGE_LEN,
    ensures
        bytes.subrange(0, 32) + be_bytes(from_be_bytes(bytes.subrange(32, 40))) == bytes,
{
    let e = bytes.subrange(32, 40);
    let (b0, b1, b2, b3, b4, b5, b6, b7) = (e[0], e[1], e[2], e[3], e[4], e[5], e[6], e[7]);
    let x = from_be_bytes(e);
    assert(x == ((b0 as u64) << 56u64) | ((b1 as u64) << 48u64) | ((b2 as u64) << 40u64) | ((
    b3 as u64) << 32u64) | ((b4 as u64) << 24u64) | ((b5 as u64) << 16u64) | ((b6 as u64)
        << 8u64) | (b7 as u64));
    assert(((x >> 56u64) as u8) == b0 && ((x >> 48u64) as u8) == b1 && ((x >> 40u64) as u8)
        == b2 && ((x >> 32u64) as u8) == b3 && ((x >> 24u64) as u8) == b4 && ((x >> 16u64) as u8)
        == b5 && ((x >> 8u64) as u8) == b6 && (x as u8) == b7) by (bit_vector)
        requires
            x == ((b0 as u64) << 56u64) | ((b1 as u64) << 48u64) | ((b2 as u64) << 40u64) | ((
            b3 as u64) << 32u64) | ((b4 as u64) << 24u64) | ((b5 as u64) << 16u64) | ((
            b6 as u64) << 8u64) | (b7 as u64),
    ;
    assert(bytes.subrange(0, 32) + be_bytes(x) =~= bytes);
}

/// Expiry is inclusive: a challenge has expired at the very second its expiry names,
/// and not one second before.
pub proof fn lemma_expiry_boundary(c: Challenge, now: u64)
    ensures
        c.expires_at == now ==> c.expired_spec(now),
        c.expires_at == now + 1 ==> !c.expired_spec(now),
{
}

} // verus!
