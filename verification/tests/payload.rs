use hkdfguard::error::Error;
use hkdfguard::payload::{Payload, NONCE_LEN, UNCOMPRESSED_POINT_LEN};
use hkdfguard::provider::ProviderType;

fn sample() -> Payload {
    Payload {
        provider_type: ProviderType::Ephemeral,
        key_id: vec![],
        ephemeral_public_key: [1u8; UNCOMPRESSED_POINT_LEN],
        nonce: [2u8; NONCE_LEN],
        ciphertext: vec![3u8; 16],
    }
}

fn refusal(bytes: &[u8]) -> &'static str {
    match Payload::from_bytes(bytes) {
        Err(Error::Crypto(message)) => message,
        Err(other) => panic!("unexpected error {other:?}"),
        Ok(_) => panic!("unexpected success"),
    }
}

#[test]
fn round_trips() {
    let payload = Payload {
        provider_type: ProviderType::Software,
        key_id: vec![1, 2, 3, 4],
        ephemeral_public_key: [7u8; UNCOMPRESSED_POINT_LEN],
        nonce: [9u8; NONCE_LEN],
        ciphertext: vec![0xAA; 48],
    };
    let bytes = payload.to_bytes();
    let parsed = Payload::from_bytes(&bytes).unwrap();
    assert_eq!(parsed.provider_type, payload.provider_type);
    assert_eq!(parsed.key_id, payload.key_id);
    assert_eq!(parsed.ephemeral_public_key, payload.ephemeral_public_key);
    assert_eq!(parsed.nonce, payload.nonce);
    assert_eq!(parsed.ciphertext, payload.ciphertext);
}

#[test]
fn payload_rejects_truncated_payload() {
    let payload = sample();
    let mut bytes = payload.to_bytes();
    bytes.truncate(bytes.len() - 5);
    assert!(Payload::from_bytes(&bytes).is_err());
}

#[test]
fn rejects_trailing_bytes() {
    let payload = sample();
    let mut bytes = payload.to_bytes();
    bytes.push(0xFF);
    assert!(Payload::from_bytes(&bytes).is_err());
}

#[test]
fn fields_lie_where_the_layout_says() {
    let payload = Payload {
        provider_type: ProviderType::Pkcs11,
        key_id: vec![0x5A; 300],
        ephemeral_public_key: [0x04; UNCOMPRESSED_POINT_LEN],
        nonce: [0x0C; NONCE_LEN],
        ciphertext: vec![0xC7; 70000],
    };
    let bytes = payload.to_bytes();
    assert_eq!(bytes.len(), 85 + 300 + 70000);
    assert_eq!(bytes[..4], [1, 2, 0x2C, 0x01]);
    assert_eq!(bytes[4..304], [0x5A; 300]);
    assert_eq!(bytes[304..369], [0x04; 65]);
    assert_eq!(bytes[369..381], [0x0C; 12]);
    assert_eq!(bytes[381..385], [0x70, 0x11, 0x01, 0x00]);
    assert_eq!(bytes[385], 0xC7);
    assert_eq!(Payload::from_bytes(&bytes).unwrap().ciphertext.len(), 70000);
}

#[test]
fn what_is_read_is_written_back_as_it_was() {
    let mut bytes = vec![1u8, 3, 2, 0, b'i', b'd'];
    bytes.extend([8u8; 65 + 12]);
    bytes.extend([3, 0, 0, 0, 0xA, 0xB, 0xC]);
    let payload = Payload::from_bytes(&bytes).unwrap();
    assert_eq!(payload.provider_type, ProviderType::ExternalSecret);
    assert_eq!(payload.key_id, b"id");
    assert_eq!(payload.ciphertext, [0xA, 0xB, 0xC]);
    assert_eq!(payload.to_bytes(), bytes);
}

#[test]
fn every_prefix_of_a_payload_is_truncated() {
    let bytes = sample().to_bytes();
    for len in 0..bytes.len() {
        assert_eq!(refusal(&bytes[..len]), "wrapped payload is truncated");
    }
}

#[test]
fn each_malformation_has_its_message() {
    let mut bytes = sample().to_bytes();
    bytes.push(0);
    assert_eq!(refusal(&bytes), "trailing bytes after wrapped payload");

    let mut bytes = sample().to_bytes();
    bytes[0] = 2;
    assert_eq!(refusal(&bytes), "unsupported wrapped payload version");

    for tag in [0u8, 6, 255] {
        let mut bytes = sample().to_bytes();
        bytes[1] = tag;
        assert_eq!(refusal(&bytes), "unknown provider type in wrapped payload");
    }
}

#[test]
fn an_overlong_key_name_does_not_survive_the_wire() {
    let mut payload = sample();
    payload.key_id = vec![9u8; 65536];
    let bytes = payload.to_bytes();
    assert_eq!(bytes.len(), 85 + 65536 + 16);
    assert_eq!(bytes[2..4], [0, 0]);
    assert!(Payload::from_bytes(&bytes).is_err());
}
