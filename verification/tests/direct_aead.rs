use hkdfguard::direct_aead::{decrypt, encrypt, encrypt_with_nonce, NONCE_LEN, OVERHEAD};
use hkdfguard::error::Error;

#[test]
fn round_trips_all_key_sizes() {
    for key_len in [16usize, 24, 32] {
        let key = vec![0x42u8; key_len];
        let plaintext = b"the quick brown fox jumps over the lazy dog".to_vec();
        let aad = b"context-binding-data".to_vec();

        let sealed = encrypt(&key, &plaintext, &aad).unwrap();
        assert_eq!(sealed.len(), plaintext.len() + OVERHEAD);

        let recovered = decrypt(&key, &sealed, &aad).unwrap();
        assert_eq!(&*recovered, &plaintext, "key length {key_len} failed to round-trip");
    }
}

#[test]
fn round_trips_empty_plaintext() {
    let key = vec![0x11u8; 32];
    let sealed = encrypt(&key, &[], &[]).unwrap();
    assert_eq!(sealed.len(), OVERHEAD);
    let recovered = decrypt(&key, &sealed, &[]).unwrap();
    assert!(recovered.is_empty());
}

#[test]
fn round_trips_without_aad() {
    let key = vec![0x22u8; 16];
    let plaintext = b"no aad here".to_vec();
    let sealed = encrypt(&key, &plaintext, &[]).unwrap();
    let recovered = decrypt(&key, &sealed, &[]).unwrap();
    assert_eq!(&*recovered, &plaintext);
}

#[test]
fn rejects_invalid_key_length() {
    let bad_key = vec![0u8; 20];
    assert!(encrypt(&bad_key, b"data", &[]).is_err());
    let sealed = encrypt(&vec![0u8; 32], b"data", &[]).unwrap();
    assert!(decrypt(&bad_key, &sealed, &[]).is_err());
}

#[test]
fn direct_aead_rejects_truncated_payload() {
    let key = vec![0x33u8; 32];
    let sealed = encrypt(&key, b"some data", &[]).unwrap();
    for len in 0..OVERHEAD {
        assert!(
            decrypt(&key, &sealed[..len], &[]).is_err(),
            "should reject payload truncated to {len} bytes (below the {OVERHEAD}-byte overhead)"
        );
    }
}

#[test]
fn wrong_key_fails_to_decrypt() {
    let key = vec![0x44u8; 32];
    let wrong_key = vec![0x55u8; 32];
    let sealed = encrypt(&key, b"secret payload", &[]).unwrap();
    assert!(decrypt(&wrong_key, &sealed, &[]).is_err());
}

#[test]
fn wrong_aad_fails_to_decrypt() {
    let key = vec![0x66u8; 32];
    let sealed = encrypt(&key, b"secret payload", b"correct-aad").unwrap();
    assert!(decrypt(&key, &sealed, b"wrong-aad").is_err());
    assert!(decrypt(&key, &sealed, b"").is_err());
}

#[test]
fn tampered_ciphertext_fails_to_decrypt() {
    let key = vec![0x77u8; 32];
    let mut sealed = encrypt(&key, b"secret payload", &[]).unwrap();
    let last = sealed.len() - 1;
    sealed[last] ^= 0x01;
    assert!(decrypt(&key, &sealed, &[]).is_err());

    let mut sealed2 = encrypt(&key, b"secret payload", &[]).unwrap();
    sealed2[NONCE_LEN] ^= 0x01;
    assert!(decrypt(&key, &sealed2, &[]).is_err());

    let mut sealed3 = encrypt(&key, b"secret payload", &[]).unwrap();
    sealed3[0] ^= 0x01;
    assert!(decrypt(&key, &sealed3, &[]).is_err());
}

#[test]
fn same_plaintext_encrypted_twice_yields_different_ciphertexts() {
    let key = vec![0x88u8; 32];
    let a = encrypt(&key, b"same message", &[]).unwrap();
    let b = encrypt(&key, b"same message", &[]).unwrap();
    assert_ne!(a, b, "random nonce must randomize output");
}

#[test]
fn each_key_size_produces_a_distinct_result_for_the_same_plaintext() {
    let plaintext = b"identical plaintext, different key sizes".to_vec();
    let sealed128 = encrypt(&vec![0x99u8; 16], &plaintext, &[]).unwrap();
    let sealed192 = encrypt(&vec![0x99u8; 24], &plaintext, &[]).unwrap();
    let sealed256 = encrypt(&vec![0x99u8; 32], &plaintext, &[]).unwrap();
    assert_eq!(sealed128.len(), sealed192.len());
    assert_eq!(sealed192.len(), sealed256.len());
    assert_ne!(sealed128[NONCE_LEN..], sealed192[NONCE_LEN..]);
    assert_ne!(sealed192[NONCE_LEN..], sealed256[NONCE_LEN..]);
}

// The test vectors of the GCM specification with all-zero key, nonce and plaintext.
#[test]
fn zero_keys_give_the_published_ciphertexts() {
    let expected: [(usize, [u8; 32]); 3] = [
        (
            16,
            [
                0x03, 0x88, 0xda, 0xce, 0x60, 0xb6, 0xa3, 0x92, 0xf3, 0x28, 0xc2, 0xb9, 0x71, 0xb2,
                0xfe, 0x78, 0xab, 0x6e, 0x47, 0xd4, 0x2c, 0xec, 0x13, 0xbd, 0xf5, 0x3a, 0x67, 0xb2,
                0x12, 0x57, 0xbd, 0xdf,
            ],
        ),
        (
            24,
            [
                0x98, 0xe7, 0x24, 0x7c, 0x07, 0xf0, 0xfe, 0x41, 0x1c, 0x26, 0x7e, 0x43, 0x84, 0xb0,
                0xf6, 0x00, 0x2f, 0xf5, 0x8d, 0x80, 0x03, 0x39, 0x27, 0xab, 0x8e, 0xf4, 0xd4, 0x58,
                0x75, 0x14, 0xf0, 0xfb,
            ],
        ),
        (
            32,
            [
                0xce, 0xa7, 0x40, 0x3d, 0x4d, 0x60, 0x6b, 0x6e, 0x07, 0x4e, 0xc5, 0xd3, 0xba, 0xf3,
                0x9d, 0x18, 0xd0, 0xd1, 0xc8, 0xa7, 0x99, 0x99, 0x6b, 0xf0, 0x26, 0x5b, 0x98, 0xb5,
                0xd4, 0x8a, 0xb9, 0x19,
            ],
        ),
    ];
    for (key_len, body) in expected {
        let key = vec![0u8; key_len];
        let sealed = encrypt_with_nonce(&key, &[0u8; NONCE_LEN], &[0u8; 16], &[]).unwrap();
        assert_eq!(sealed[..NONCE_LEN], [0u8; NONCE_LEN]);
        assert_eq!(sealed[NONCE_LEN..], body);
        assert_eq!(decrypt(&key, &sealed, &[]).unwrap(), vec![0u8; 16]);
    }
}

#[test]
fn each_failure_has_its_message() {
    let message = |r: Result<Vec<u8>, Error>| match r {
        Err(Error::Crypto(message)) => message,
        _ => panic!("expected a crypto error"),
    };
    assert_eq!(
        message(encrypt(&[0u8; 31], b"data", b"")),
        "key length must be 16, 24, or 32 bytes"
    );
    assert_eq!(
        message(decrypt(&[0u8; 31], &[0u8; 28], b"")),
        "key length must be 16, 24, or 32 bytes"
    );
    assert_eq!(
        message(decrypt(&[0u8; 31], &[0u8; 27], b"")),
        "payload shorter than the fixed nonce+tag overhead"
    );
    assert_eq!(
        message(decrypt(&[0u8; 16], &[0u8; 28], b"")),
        "AES-128-GCM authentication failed"
    );
    assert_eq!(
        message(decrypt(&[0u8; 24], &[0u8; 28], b"")),
        "AES-192-GCM authentication failed"
    );
    assert_eq!(
        message(decrypt(&[0u8; 32], &[0u8; 28], b"")),
        "AES-256-GCM authentication failed"
    );
}
