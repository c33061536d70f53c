use filedrop::crypto::{public_key_from_base64, CryptoError, EphemeralKeyPair};

#[test]
fn test_keypair_generation() {
    let kp = EphemeralKeyPair::generate();
    let bytes = kp.public_key_bytes();
    // Uncompressed SEC1 P-256 public key is 65 bytes (0x04 + 32 + 32)
    assert_eq!(bytes.len(), 65);
    assert_eq!(bytes[0], 0x04);
}

#[test]
fn test_base64_roundtrip() {
    let kp = EphemeralKeyPair::generate();
    let b64 = kp.public_key_base64();
    let decoded = public_key_from_base64(&b64).unwrap();
    assert_eq!(decoded, kp.public_key_bytes());
}

#[test]
fn test_key_exchange_and_encryption() {
    // Simulate two parties
    let alice = EphemeralKeyPair::generate();
    let bob = EphemeralKeyPair::generate();

    let alice_pub = alice.public_key_bytes();
    let bob_pub = bob.public_key_bytes();

    let mut alice_key = alice.derive_session_key(&bob_pub).unwrap();
    let bob_key = bob.derive_session_key(&alice_pub).unwrap();

    // Both should derive the same key
    assert_eq!(alice_key.key_bytes(), bob_key.key_bytes());

    // Test encrypt/decrypt roundtrip
    let plaintext = b"Hello, FileDrop E2E!";
    let encrypted = alice_key.encrypt_chunk(plaintext).unwrap();
    let decrypted = bob_key.decrypt_chunk(&encrypted).unwrap();
    assert_eq!(decrypted, plaintext);
}

#[test]
fn test_nonce_increments() {
    let kp1 = EphemeralKeyPair::generate();
    let kp2 = EphemeralKeyPair::generate();
    let mut key = kp1.derive_session_key(&kp2.public_key_bytes()).unwrap();

    let enc1 = key.encrypt_chunk(b"first").unwrap();
    let enc2 = key.encrypt_chunk(b"second").unwrap();

    // Nonces should differ (first 12 bytes)
    assert_ne!(&enc1[..12], &enc2[..12]);
}

#[test]
fn test_decrypt_short_data_fails() {
    let kp1 = EphemeralKeyPair::generate();
    let kp2 = EphemeralKeyPair::generate();
    let key = kp1.derive_session_key(&kp2.public_key_bytes()).unwrap();

    let result = key.decrypt_chunk(&[0u8; 10]);
    assert!(result.is_err());
}

#[test]
fn nonces_are_a_big_endian_counter() {
    let kp1 = EphemeralKeyPair::generate();
    let kp2 = EphemeralKeyPair::generate();
    let mut key = kp1.derive_session_key(&kp2.public_key_bytes()).unwrap();
    let enc0 = key.encrypt_chunk(b"").unwrap();
    let enc1 = key.encrypt_chunk(b"x").unwrap();
    assert_eq!(&enc0[..12], &[0u8; 12]);
    assert_eq!(&enc1[..12], &[0, 0, 0, 0, 0, 0, 0, 0, 0, 0, 0, 1]);
    // nonce + ciphertext + 16-byte tag
    assert_eq!(enc1.len(), 12 + 1 + 16);
}

#[test]
fn tampered_chunk_is_refused() {
    let kp1 = EphemeralKeyPair::generate();
    let kp2 = EphemeralKeyPair::generate();
    let mut key = kp1.derive_session_key(&kp2.public_key_bytes()).unwrap();
    let mut enc = key.encrypt_chunk(b"payload").unwrap();
    let last = enc.len() - 1;
    enc[last] ^= 1;
    assert_eq!(key.decrypt_chunk(&enc), Err(CryptoError::DecryptionFailed));
    assert_eq!(key.decrypt_chunk(&[0u8; 27]), Err(CryptoError::DataTooShort(27)));
}

#[test]
fn bad_peer_key_and_bad_base64_are_refused() {
    let kp = EphemeralKeyPair::generate();
    assert_eq!(kp.derive_session_key(&[4u8; 65]).err(), Some(CryptoError::InvalidPeerKey));
    assert_eq!(public_key_from_base64("not base64!"), Err(CryptoError::InvalidBase64));
}

#[test]
fn both_sides_derive_one_key_and_chunks_grow_by_nonce_and_tag() {
    let alice = EphemeralKeyPair::generate();
    let bob = EphemeralKeyPair::generate();
    let (alice_pub, bob_pub) = (alice.public_key_bytes(), bob.public_key_bytes());
    let mut a = alice.derive_session_key(&bob_pub).unwrap();
    let b = bob.derive_session_key(&alice_pub).unwrap();
    assert_eq!(a.key_bytes(), b.key_bytes());
    assert_ne!(a.key_bytes(), [0u8; 32]);
    for n in [0usize, 1, 100, 5000] {
        let data = vec![7u8; n];
        let enc = a.encrypt_chunk(&data).unwrap();
        assert_eq!(enc.len(), 12 + n + 16);
        assert_eq!(b.decrypt_chunk(&enc).unwrap(), data);
    }
}
