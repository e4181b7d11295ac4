use hkdfguard::keys::{PublicKey, SecretKey};

fn unhex(text: &str) -> Vec<u8> {
    (0..text.len() / 2)
        .map(|i| u8::from_str_radix(&text[2 * i..2 * i + 2], 16).unwrap())
        .collect()
}

fn scalar(last: u8) -> [u8; 32] {
    let mut bytes = [0u8; 32];
    bytes[31] = last;
    bytes
}

const GENERATOR: &str = "046b17d1f2e12c4247f8bce6e563a440f277037d812deb33a0f4a13945d898c2964fe342e2fe1a7f9b8ee7eb4a7c0f9e162bce33576b315ececbb6406837bf51f5";
const DOUBLE_X: &str = "7cf27b188d034f7e8a52380304b51ac3c08969e277f21b35a60b48fc47669978";
const ORDER: &str = "ffffffff00000000ffffffffffffffffbce6faada7179e84f3b9cac2fc632551";

#[test]
fn the_key_one_has_the_generator_as_its_public_half() {
    let one = SecretKey::from_scalar_bytes(&scalar(1)).unwrap();
    assert_eq!(one.public_key().to_bytes().to_vec(), unhex(GENERATOR));
}

#[test]
fn agreement_gives_the_x_coordinate_of_the_product() {
    let two = SecretKey::from_scalar_bytes(&scalar(2)).unwrap();
    let generator: [u8; 65] = unhex(GENERATOR).try_into().unwrap();
    let peer = PublicKey::from_sec1_bytes(&generator).unwrap();
    assert_eq!(two.diffie_hellman(&peer).to_vec(), unhex(DOUBLE_X));
}

#[test]
fn both_sides_agree_on_one_secret() {
    let a = SecretKey::random();
    let b = SecretKey::random();
    assert_eq!(
        a.diffie_hellman(&b.public_key()),
        b.diffie_hellman(&a.public_key())
    );
}

#[test]
fn scalars_outside_the_group_are_refused() {
    assert_eq!(
        SecretKey::from_scalar_bytes(&[0u8; 32]).err(),
        Some("crypto error".to_string())
    );
    let order: [u8; 32] = unhex(ORDER).try_into().unwrap();
    assert_eq!(
        SecretKey::from_scalar_bytes(&order).err(),
        Some("crypto error".to_string())
    );
    let mut largest = order;
    largest[31] -= 1;
    assert_eq!(
        SecretKey::from_scalar_bytes(&largest).unwrap().to_bytes(),
        largest
    );
}

#[test]
fn points_off_the_curve_are_refused() {
    let generator: [u8; 65] = unhex(GENERATOR).try_into().unwrap();
    assert!(PublicKey::from_sec1_bytes(&generator).is_some());
    for position in [0usize, 1, 40, 64] {
        let mut moved = generator;
        moved[position] ^= 1;
        assert!(PublicKey::from_sec1_bytes(&moved).is_none());
    }
}

#[test]
fn keys_survive_pkcs8() {
    let key = SecretKey::random();
    let der = key.to_pkcs8_der().unwrap();
    assert_eq!(der.len(), 138);
    assert_eq!(der[0], 0x30);
    let read = SecretKey::from_pkcs8_der(&der).unwrap();
    assert_eq!(read.to_bytes(), key.to_bytes());
    assert!(SecretKey::from_pkcs8_der(&der[1..]).is_err());
}

#[test]
fn erased_keys_are_zeros() {
    let mut key = SecretKey::random();
    let copy = key.clone();
    assert!(!key.is_erased());
    key.erase();
    assert!(key.is_erased());
    assert_eq!(key.to_bytes(), [0u8; 32]);
    assert!(!copy.is_erased());
}

#[test]
fn random_keys_differ() {
    assert_ne!(SecretKey::random().to_bytes(), SecretKey::random().to_bytes());
}
