use stark_link_core::crypto::{decrypt, encrypt, ephemeral_keypair, fingerprint_of, KeyPair, NONCE_LEN};
use stark_link_core::error::StarkLinkError;

#[test]
fn round_trip_encryption() {
    let key = [42u8; 32];
    let plaintext = b"hello stark-link";
    let encrypted = encrypt(&key, plaintext).unwrap();
    let decrypted = decrypt(&key, &encrypted).unwrap();
    assert_eq!(&decrypted, plaintext);
}

#[test]
fn wrong_key_fails() {
    let key = [42u8; 32];
    let wrong = [99u8; 32];
    let encrypted = encrypt(&key, b"secret").unwrap();
    assert!(decrypt(&wrong, &encrypted).is_err());
}

#[test]
fn fingerprint_format() {
    let kp = KeyPair::generate();
    let fp = kp.fingerprint();
    // XXXX-XXXX-XXXX-XXXX
    assert_eq!(fp.len(), 19);
    assert_eq!(fp.chars().filter(|c| *c == '-').count(), 3);
}

#[test]
fn ecdh_shared_secret() {
    let alice = KeyPair::generate();
    let bob = KeyPair::generate();
    let key_a = alice.derive_aes_key(bob.public_key());
    let key_b = bob.derive_aes_key(alice.public_key());
    assert_eq!(key_a, key_b);
}

#[test]
fn encrypted_output_layout() {
    let key = [7u8; 32];
    let out = encrypt(&key, b"abc").unwrap();
    // nonce, then ciphertext of the same length as the plaintext, then a 16-byte tag
    assert_eq!(out.len(), NONCE_LEN + 3 + 16);
    // two encryptions of the same plaintext use different nonces
    let again = encrypt(&key, b"abc").unwrap();
    assert_ne!(out[..NONCE_LEN], again[..NONCE_LEN]);
    assert_eq!(decrypt(&key, &again).unwrap(), b"abc".to_vec());
}

#[test]
fn empty_plaintext_round_trip() {
    let key = [1u8; 32];
    let out = encrypt(&key, b"").unwrap();
    assert_eq!(out.len(), NONCE_LEN + 16);
    assert_eq!(decrypt(&key, &out).unwrap(), Vec::<u8>::new());
}

#[test]
fn decrypt_too_short() {
    let key = [1u8; 32];
    let err = decrypt(&key, &[0u8; 11]).unwrap_err();
    assert_eq!(
        err,
        StarkLinkError::Crypto("ciphertext too short to contain a nonce".to_string())
    );
}

#[test]
fn decrypt_tampered() {
    let key = [3u8; 32];
    let mut out = encrypt(&key, b"payload").unwrap();
    let last = out.len() - 1;
    out[last] ^= 1;
    let err = decrypt(&key, &out).unwrap_err();
    assert_eq!(err, StarkLinkError::Crypto("decryption failed: aead::Error".to_string()));
}

#[test]
fn fingerprint_known_value() {
    // SHA-256 of 32 zero bytes starts with 66687aadf862bd77
    let fp = fingerprint_of(&[0u8; 32]);
    assert_eq!(fp, "6668-7aad-f862-bd77");
    let kp = KeyPair::generate();
    assert_eq!(kp.fingerprint(), fingerprint_of(&kp.public_key_bytes()));
}

#[test]
fn derived_key_is_digest_of_shared_secret() {
    let a = KeyPair::generate();
    let b = KeyPair::generate();
    let shared = a.diffie_hellman(b.public_key());
    let key = a.derive_aes_key(b.public_key());
    let expected = stark_link_core::transfer::sha256_hex(&shared);
    let got: String = key.iter().map(|x| format!("{x:02x}")).collect();
    assert_eq!(got, expected);
}

#[test]
fn diffie_hellman_agrees() {
    let a = KeyPair::generate();
    let b = KeyPair::generate();
    assert_eq!(a.diffie_hellman(b.public_key()), b.diffie_hellman(a.public_key()));
    assert_ne!(a.public_key_bytes(), b.public_key_bytes());
}

#[test]
fn ephemeral_public_key_belongs_to_its_secret() {
    let (secret, public) = ephemeral_keypair();
    let peer = KeyPair::generate();
    let ours = secret.diffie_hellman(&x25519_dalek::PublicKey::from(peer.public_key_bytes()));
    assert_eq!(ours.to_bytes(), peer.diffie_hellman(&public));
}
