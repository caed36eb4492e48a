use pubky_core_client::crypto::{random_bytes, zeroize, DeterministicKeyGen, Keypair};
use pubky_core_client::utils::{generate_keypair, generate_seed, get_user_id, now};
use pubky_core_client::zbase32::z32_encode;

#[test]
fn test_zeroize() {
    let mut buf = vec![1, 2, 3, 4, 5];
    zeroize(&mut buf);
    assert_eq!(buf, vec![0, 0, 0, 0, 0]);
}

#[test]
fn test_deterministic_keygen() {
    let seed_1 = b"it is a seed for key generation!";
    let seed_2 = b"not a seed for a key generation!";

    assert_eq!(
        Keypair::generate(Some(seed_1)).to_z32(),
        Keypair::generate(Some(seed_1)).to_z32()
    );

    assert_ne!(
        Keypair::generate(Some(seed_1)).to_z32(),
        Keypair::generate(Some(seed_2)).to_z32()
    );
}

#[test]
fn test_random_bytes() {
    let len = 32;
    let bytes_1 = random_bytes(len);
    let bytes_2 = random_bytes(len);

    assert_eq!(bytes_1.len(), len);
    assert_eq!(bytes_2.len(), len);
    assert_ne!(bytes_1, bytes_2);
}

#[test]
fn z32_known_vectors() {
    assert_eq!(z32_encode(b""), "");
    assert_eq!(z32_encode(b"peter"), "qb1ze3m1");
    assert_eq!(
        z32_encode("The quick brown fox jumps over the lazy dog. 👀".as_bytes()),
        "ktwgkedtqiwsg43ycj3g675qrbug66bypj4s4hdurbzzc3m1rb4go3jyptozw6jyctzsqmty6nx3dyy"
    );
    assert_eq!(z32_encode(&[0u8; 32]).len(), 52);
}

#[test]
fn keypair_from_seed_is_ed25519() {
    // RFC 8032, test 1.
    let seed: [u8; 32] = [
        0x9d, 0x61, 0xb1, 0x9d, 0xef, 0xfd, 0x5a, 0x60, 0xba, 0x84, 0x4a, 0xf4, 0x92, 0xec,
        0x2c, 0xc4, 0x44, 0x49, 0xc5, 0x69, 0x7b, 0x32, 0x69, 0x19, 0x70, 0x3b, 0xac, 0x03,
        0x1c, 0xae, 0x7f, 0x60,
    ];
    let public: [u8; 32] = [
        0xd7, 0x5a, 0x98, 0x01, 0x82, 0xb1, 0x0a, 0xb7, 0xd5, 0x4b, 0xfe, 0xd3, 0xc9, 0x64,
        0x07, 0x3a, 0x0e, 0xe1, 0x72, 0xf3, 0xda, 0xa6, 0x23, 0x25, 0xaf, 0x02, 0x1a, 0x68,
        0xf7, 0x07, 0x51, 0x1a,
    ];
    let keypair = Keypair::from_seed(&seed);
    assert_eq!(keypair.secret_key(), seed);
    assert_eq!(keypair.public_key(), public);
    let signature = keypair.sign(b"");
    assert_eq!(
        &signature[0..4],
        &[0xe5, 0x56, 0x43, 0x00]
    );
    assert_eq!(keypair.to_z32(), z32_encode(&public));
}

#[test]
fn scrub_zeroes_the_secret_only() {
    let mut keypair = Keypair::from_seed(&[8u8; 32]);
    let public = keypair.public_key();
    keypair.scrub();
    assert_eq!(keypair.secret_key(), [0u8; 32]);
    assert_eq!(keypair.public_key(), public);
}

#[test]
fn utils_keys_and_ids() {
    let seed = b"it is a seed for key generation!";
    let a = generate_keypair(Some(seed));
    let b = generate_keypair(Some(seed));
    let r = generate_keypair(None);
    assert_eq!(a.public_key(), b.public_key());
    assert_ne!(a.public_key(), r.public_key());
    assert_eq!(get_user_id(Some(seed)), a.to_z32());
    assert_ne!(get_user_id(None), get_user_id(Some(seed)));
    assert_ne!(generate_seed(), generate_seed());
    let t = now();
    assert!(t <= now());
}
