use hkdfguard::error::Error;
use hkdfguard::status;

#[test]
fn error_status_codes_match_contract() {
    assert_eq!(
        Error::NoProviderAvailable.status_code(),
        status::PROVIDER_UNAVAILABLE
    );
    assert_eq!(
        Error::Provider("device failure".into()).status_code(),
        status::PROVIDER_ERROR
    );
    assert_eq!(
        Error::KeyNotProvisioned("missing file").status_code(),
        status::PROVIDER_ERROR
    );
    assert_eq!(
        Error::Crypto("invalid tag").status_code(),
        status::CRYPTO_ERROR
    );
}

#[test]
fn error_display_formatting() {
    assert_eq!(
        Error::NoProviderAvailable.to_string(),
        "no KEK provider is available"
    );
    assert_eq!(
        Error::Provider("TPM timeout".into()).to_string(),
        "provider error: TPM timeout"
    );
    assert_eq!(
        Error::KeyNotProvisioned("not found").to_string(),
        "no key provisioned: not found"
    );
    assert_eq!(
        Error::Crypto("bad MAC").to_string(),
        "cryptographic error: bad MAC"
    );
}

#[test]
fn error_debug_formatting() {
    let err = Error::Provider("io err".into());
    let dbg = format!("{err:?}");
    assert!(dbg.contains("Provider"));
    assert!(dbg.contains("io err"));
}

#[test]
fn status_codes_have_their_values() {
    assert_eq!(status::OK, 0);
    assert_eq!(status::INVALID_ARGUMENT, -1);
    assert_eq!(status::BUFFER_TOO_SMALL, -2);
    assert_eq!(status::PROVIDER_UNAVAILABLE, -3);
    assert_eq!(status::PROVIDER_ERROR, -4);
    assert_eq!(status::CRYPTO_ERROR, -5);
    assert_eq!(status::INTERNAL_ERROR, -6);
    assert_eq!(status::INVALID_UTF8, -7);
    assert_eq!(status::MISSING_SERVICE_NAME, -8);
}
