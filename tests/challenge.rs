use pubky_core_client::challenge::{Challenge, CHALLENGE_LEN};
use pubky_core_client::crypto::{random_bytes, Keypair};
use pubky_core_client::error::ChallengeError;
use pubky_core_client::utils::now;

#[test]
fn challenge_test_challenge() {
    let challenge = Challenge::create(now(), None);
    let serialized = challenge.serialize();
    let deserialized = Challenge::deserialize(&serialized);

    assert_eq!(challenge.value, deserialized.value);
    assert_eq!(challenge.expires_at, deserialized.expires_at);
    assert!(challenge.expires_at <= now())
}

#[test]
fn challenge_test_signable() {
    let challenge = random_bytes(32);
    let signable = Challenge::signable(&challenge);

    assert_eq!(signable.len(), 32);
}

#[test]
fn challenge_test_expired() {
    let challenge = Challenge::create(now() - 1000, None);

    assert!(challenge.expired());
}

#[test]
fn challenge_test_verify() {
    let challenge = Challenge::create(now() + 1000, None);
    let keypair = Keypair::random();
    let signature = keypair.sign(&challenge.signable);

    assert!(challenge.verify(&signature, &keypair.public_key()).is_ok());
}

#[test]
fn wire_form_is_nonce_then_big_endian_expiry() {
    let challenge = Challenge::create(0x0102030405060708, Some([7u8; 32]));
    let bytes = challenge.serialize();
    assert_eq!(bytes.len(), CHALLENGE_LEN);
    assert_eq!(&bytes[0..32], &[7u8; 32]);
    assert_eq!(&bytes[32..40], &[1, 2, 3, 4, 5, 6, 7, 8]);
}

#[test]
fn round_trip_rederives_signable() {
    let mut bytes = vec![9u8; 32];
    bytes.extend_from_slice(&u64::MAX.to_be_bytes());
    let c = Challenge::deserialize(&bytes);
    assert_eq!(c.value, [9u8; 32]);
    assert_eq!(c.expires_at, u64::MAX);
    assert_eq!(c.signable, Challenge::signable(&[9u8; 32]));
    assert_eq!(c.serialize(), bytes);

    let forged = Challenge::new([9u8; 32], 5, [0u8; 32]);
    let read_back = Challenge::deserialize(&forged.serialize());
    assert_eq!(read_back.signable, Challenge::signable(&[9u8; 32]));
    assert_ne!(read_back.signable, [0u8; 32]);
}

#[test]
fn signable_is_a_derived_key_not_the_nonce() {
    let value = [3u8; 32];
    let signable = Challenge::signable(&value);
    assert_ne!(signable, value);
    assert_eq!(signable, Challenge::signable(&value));
    assert_ne!(signable, Challenge::signable(&[4u8; 32]));
}

#[test]
fn parse_takes_exactly_the_wire_length() {
    assert!(Challenge::parse(&[0u8; 39]).is_none());
    assert!(Challenge::parse(&[0u8; 41]).is_none());
    let c = Challenge::parse(&[0u8; 40]).unwrap();
    assert_eq!(c.expires_at, 0);
}

#[test]
fn expiry_boundary() {
    let t = 1_700_000_000u64;
    assert!(Challenge::create(t, Some([0u8; 32])).expired_at(t));
    assert!(!Challenge::create(t + 1, Some([0u8; 32])).expired_at(t));
}

#[test]
fn verify_at_reports_each_error() {
    let keypair = Keypair::from_seed(&[5u8; 32]);
    let challenge = Challenge::create(100, Some([1u8; 32]));
    let signature = keypair.sign(&challenge.signable);
    assert_eq!(challenge.verify_at(&signature, &keypair.public_key(), 99), Ok(()));
    assert_eq!(
        challenge.verify_at(&signature, &keypair.public_key(), 100),
        Err(ChallengeError::Expired)
    );
    let other = Challenge::create(100, Some([2u8; 32]));
    assert_eq!(
        other.verify_at(&signature, &keypair.public_key(), 99),
        Err(ChallengeError::InvalidSignature)
    );
    let stranger = Keypair::from_seed(&[6u8; 32]);
    assert_eq!(
        challenge.verify_at(&signature, &stranger.public_key(), 99),
        Err(ChallengeError::InvalidSignature)
    );
}

#[test]
fn same_nonce_signature_verifies_across_expiries() {
    let keypair = Keypair::from_seed(&[5u8; 32]);
    let a = Challenge::create(100, Some([1u8; 32]));
    let b = Challenge::create(200, Some([1u8; 32]));
    let signature = keypair.sign(&a.signable);
    assert_eq!(a.signable, b.signable);
    assert_eq!(b.verify_at(&signature, &keypair.public_key(), 99), Ok(()));
}
