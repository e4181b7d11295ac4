use hkdfguard::error::Error;
use hkdfguard::files::FileRead;
use hkdfguard::keys::SecretKey;
use hkdfguard::provider::ephemeral::EphemeralProvider;
use hkdfguard::provider::external_secret::{
    candidate_mounts, parse_secret_key, ExternalSecretProvider, Mount,
};
use hkdfguard::provider::pkcs11::{
    candidate_module_paths, choose_slot, key_label, private_template, Attribute, KeyType,
    ObjectClass, Pkcs11Provider, Pkcs11Step,
};
use hkdfguard::provider::tpm2::{
    encode_peer_point, service_fingerprint, service_public_template, Tpm2Provider, Tpm2Step,
};
use hkdfguard::provider::{KekHandle, ProviderType};

fn unhex(text: &str) -> Vec<u8> {
    (0..text.len() / 2)
        .map(|i| u8::from_str_radix(&text[2 * i..2 * i + 2], 16).unwrap())
        .collect()
}

fn mounted(is_dir: bool) -> ExternalSecretProvider {
    ExternalSecretProvider::new(vec![Mount {
        path: "/secrets".to_string(),
        is_dir,
    }])
}

#[test]
fn provider_type_round_trips_through_u8() {
    for t in [
        ProviderType::Tpm2,
        ProviderType::Pkcs11,
        ProviderType::ExternalSecret,
        ProviderType::Software,
        ProviderType::Ephemeral,
    ] {
        assert_eq!(ProviderType::from_u8(t.to_u8()), Some(t));
    }
    assert_eq!(ProviderType::from_u8(0), None);
    assert_eq!(ProviderType::from_u8(6), None);
    assert_eq!(ProviderType::from_u8(255), None);
}

#[test]
fn provider_types_have_their_tags() {
    assert_eq!(ProviderType::Tpm2.to_u8(), 1);
    assert_eq!(ProviderType::Pkcs11.to_u8(), 2);
    assert_eq!(ProviderType::ExternalSecret.to_u8(), 3);
    assert_eq!(ProviderType::Software.to_u8(), 4);
    assert_eq!(ProviderType::Ephemeral.to_u8(), 5);
}

#[test]
fn provider_type_as_str() {
    assert_eq!(ProviderType::Tpm2.as_str(), "TPM2");
    assert_eq!(ProviderType::Pkcs11.as_str(), "PKCS11");
    assert_eq!(ProviderType::ExternalSecret.as_str(), "EXTERNAL_SECRET");
    assert_eq!(ProviderType::Software.as_str(), "SOFTWARE");
    assert_eq!(ProviderType::Ephemeral.as_str(), "EPHEMERAL");
}

// The memory-only provider.

#[test]
fn probe_and_provider_type() {
    let provider = EphemeralProvider::new();
    assert!(provider.probe());
    assert_eq!(provider.provider_type(), ProviderType::Ephemeral);

    let default_provider = EphemeralProvider::default();
    assert!(default_provider.probe());
}

#[test]
fn key_id_format() {
    let mut provider = EphemeralProvider::new();
    let handle = provider.get_or_create_kek("com.company.orders").unwrap();
    assert_eq!(handle.key_id(), b"ephemeral:com.company.orders");
}

#[test]
fn same_service_returns_same_key_within_process() {
    let mut provider = EphemeralProvider::new();
    let h1 = provider.get_or_create_kek("com.company.orders").unwrap();
    let h2 = provider.get_or_create_kek("com.company.orders").unwrap();

    let eph = SecretKey::random();
    let eph_pub = eph.public_key();

    let s1 = h1.ecdh(&eph_pub).unwrap();
    let s2 = h2.ecdh(&eph_pub).unwrap();
    assert_eq!(s1, s2);
}

#[test]
fn different_services_have_different_keys() {
    let mut provider = EphemeralProvider::new();
    let h1 = provider.get_or_create_kek("com.company.orders").unwrap();
    let h2 = provider.get_or_create_kek("com.company.billing").unwrap();

    let eph = SecretKey::random();
    let eph_pub = eph.public_key();

    let s1 = h1.ecdh(&eph_pub).unwrap();
    let s2 = h2.ecdh(&eph_pub).unwrap();
    assert_ne!(s1, s2);
}

#[test]
fn a_key_stays_while_other_services_come() {
    let mut provider = EphemeralProvider::new();
    let peer = SecretKey::random().public_key();
    let secret = SecretKey::random();
    let first = provider.get_or_create_with("service.a", secret.clone()).unwrap();
    assert_eq!(first.ecdh(&peer).unwrap(), secret.diffie_hellman(&peer));
    for i in 0..20 {
        provider.get_or_create_kek(&format!("service.{i}")).unwrap();
    }
    let again = provider.get_or_create_with("service.a", SecretKey::random()).unwrap();
    assert_eq!(again.ecdh(&peer).unwrap(), secret.diffie_hellman(&peer));
}

// The external-secret provider.

#[test]
fn declines_when_no_secret_provisioned() {
    let provider = mounted(true);
    assert!(provider.probe());
    assert_eq!(
        provider.secret_path("com.company.orders"),
        Some("/secrets/com.company.orders".to_string())
    );
    match provider.get_or_create_kek("com.company.orders", FileRead::NotFound) {
        Err(Error::KeyNotProvisioned(_)) => {}
        Err(other) => panic!("expected KeyNotProvisioned, got {other:?}"),
        Ok(_) => panic!("expected KeyNotProvisioned, got Ok"),
    }
}

#[test]
fn external_failures_have_their_messages() {
    let text = |r: Result<_, Error>| match r {
        Ok(_) => panic!("expected an error"),
        Err(error) => error.to_string(),
    };
    let provider = mounted(true);
    assert_eq!(
        text(provider.get_or_create_kek("s", FileRead::NotFound)),
        "no key provisioned: no secret file provisioned for this service"
    );
    assert_eq!(
        text(provider.get_or_create_kek("s", FileRead::Failed("denied".to_string()))),
        "provider error: failed to read external secret /secrets/s: denied"
    );
    assert_eq!(
        text(provider.get_or_create_kek("s", FileRead::Contents(vec![0u8; 32]))),
        "provider error: invalid raw external KEK scalar: crypto error"
    );
    assert!(text(provider.get_or_create_kek("s", FileRead::Contents(vec![0u8; 31])))
        .starts_with("provider error: external secret is not a valid P-256 key: "));

    let unmounted = mounted(false);
    assert!(!unmounted.probe());
    assert_eq!(unmounted.secret_path("s"), None);
    assert_eq!(
        text(unmounted.get_or_create_kek("s", FileRead::NotFound)),
        "no key provisioned: no external secret mount found"
    );
    assert!(parse_secret_key(&[]).is_err());
}

#[test]
fn the_first_mount_that_is_a_directory_is_used() {
    let mounts = candidate_mounts(None);
    assert_eq!(
        mounts,
        vec![
            "/var/run/secrets/hkdfguard",
            "/run/secrets/hkdfguard",
            "/vault/secrets/hkdfguard",
            "/mnt/secrets-store/hkdfguard",
        ]
    );
    let provider = ExternalSecretProvider::new(
        mounts
            .into_iter()
            .enumerate()
            .map(|(i, path)| Mount { path, is_dir: i >= 2 })
            .collect(),
    );
    assert_eq!(provider.provider_type(), ProviderType::ExternalSecret);
    assert_eq!(
        provider.secret_path("s"),
        Some("/vault/secrets/hkdfguard/s".to_string())
    );
    assert_eq!(candidate_mounts(Some("/x".to_string())), vec!["/x"]);
}

// The TPM provider.

#[test]
fn templates_hold_the_label_of_the_service() {
    let template = service_public_template("svc");
    let label = unhex("348c658682ae8701d3e9d21f191872491cf15e6acbb1681770b1cb787c1cf7ff");
    assert_eq!(template.unique.x.to_vec(), label);
    assert_eq!(template.unique.y.to_vec(), label);
    assert_ne!(service_public_template("other").unique.x, template.unique.x);
    assert!(template.attributes.fixed_tpm && template.attributes.fixed_parent);
    assert!(template.attributes.decrypt && !template.attributes.sign_encrypt);
    assert_eq!(
        service_fingerprint("svc"),
        unhex("348c658682ae8701d3e9d21f191872491cf15e6acbb1681770b1cb787c1cf7ff")
    );
}

/// Runs an agreement against canned answers; the result names the steps that were taken.
fn agree_with_tpm(
    created: Result<(), String>,
    shared: Result<Vec<u8>, String>,
) -> (Vec<&'static str>, Result<[u8; 32], Error>) {
    let handle = Tpm2Provider::new(true).get_or_create_kek("svc").unwrap();
    assert_eq!(handle.key_id(), service_fingerprint("svc"));
    let peer = SecretKey::random().public_key();
    let mut steps = Vec::new();
    let mut step = handle.ecdh(true, &peer);
    loop {
        step = match step {
            Tpm2Step::CreatePrimary(query) => {
                steps.push("create");
                let label = service_public_template("svc").unique.x;
                assert_eq!(query.template().unique.x, label);
                query.answered(created.clone())
            }
            Tpm2Step::Agree(query) => {
                steps.push("agree");
                assert_eq!(query.peer().x, encode_peer_point(&peer).x);
                assert_eq!(query.peer().y.to_vec(), peer.to_bytes()[33..].to_vec());
                query.answered(shared.clone())
            }
            Tpm2Step::Flush(query) => {
                steps.push("flush");
                query.flushed()
            }
            Tpm2Step::Done(r) => return (steps, r),
        };
    }
}

#[test]
fn every_derived_key_is_flushed() {
    let (steps, r) = agree_with_tpm(Ok(()), Ok(vec![7u8; 32]));
    assert_eq!(steps, ["create", "agree", "flush"]);
    assert_eq!(r.unwrap(), [7u8; 32]);

    let (steps, r) = agree_with_tpm(Ok(()), Err("broken".to_string()));
    assert_eq!(steps, ["create", "agree", "flush"]);
    assert_eq!(r.unwrap_err().to_string(), "provider error: TPM2_ECDH_ZGen failed: broken");

    let (steps, r) = agree_with_tpm(Ok(()), Ok(vec![7u8; 31]));
    assert_eq!(steps, ["create", "agree", "flush"]);
    assert_eq!(
        r.unwrap_err().to_string(),
        "provider error: TPM returned unexpected ECDH shared point size"
    );

    let (steps, r) = agree_with_tpm(Err("full".to_string()), Ok(vec![]));
    assert_eq!(steps, ["create"]);
    assert_eq!(r.unwrap_err().to_string(), "provider error: TPM2_CreatePrimary failed: full");
}

#[test]
fn a_missing_tpm_is_reported() {
    let provider = Tpm2Provider::new(false);
    assert!(!provider.probe());
    assert_eq!(provider.provider_type(), ProviderType::Tpm2);
    assert_eq!(
        provider.get_or_create_kek("svc").unwrap_err().to_string(),
        "provider error: TPM context not available"
    );
    let handle = Tpm2Provider::new(true).get_or_create_kek("svc").unwrap();
    let step = handle.ecdh(false, &SecretKey::random().public_key());
    assert!(matches!(step, Tpm2Step::Done(Err(Error::Provider(_)))));
}

// The PKCS#11 provider.

#[test]
fn modules_and_slots_are_chosen_in_order() {
    assert_eq!(candidate_module_paths(Some("/m.so".to_string())), vec!["/m.so"]);
    assert_eq!(candidate_module_paths(None)[0], "/usr/lib/softhsm/libsofthsm2.so");
    assert_eq!(candidate_module_paths(None).len(), 4);
    assert_eq!(choose_slot(None, 2), Some(0));
    assert_eq!(choose_slot(None, 0), None);
    assert_eq!(choose_slot(Some("1"), 2), Some(1));
    assert_eq!(choose_slot(Some("2"), 2), None);
    assert_eq!(choose_slot(Some("first"), 2), None);
    assert_eq!(choose_slot(Some(""), 2), None);
}

#[test]
fn private_keys_are_made_to_stay() {
    assert_eq!(key_label("svc"), "hkdfguard:svc");
    let template = private_template("svc");
    assert!(template.iter().any(|a| matches!(a, Attribute::Sensitive(true))));
    assert!(template.iter().any(|a| matches!(a, Attribute::Extractable(false))));
    assert!(template
        .iter()
        .any(|a| matches!(a, Attribute::Label(label) if label == b"hkdfguard:svc")));
}

/// Runs an agreement against a token that holds the given objects; the result names the steps
/// that were taken.
fn agree_with_token(
    found: Result<Vec<u32>, String>,
    made: Result<u32, String>,
    derived: Result<u32, String>,
    read: Result<Vec<u8>, String>,
) -> (Vec<String>, Result<[u8; 32], Error>) {
    let handle = Pkcs11Provider::new(true).get_or_create_kek("svc").unwrap();
    assert_eq!(handle.key_id(), b"hkdfguard:svc");
    let peer = SecretKey::random().public_key();
    let mut steps = Vec::new();
    let mut step = handle.ecdh(true, &peer);
    loop {
        step = match step {
            Pkcs11Step::Find(query) => {
                steps.push("find".to_string());
                assert!(matches!(
                    query.template()[..],
                    [
                        Attribute::Class(ObjectClass::PrivateKey),
                        Attribute::KeyType(KeyType::Ec),
                        Attribute::Label(_)
                    ]
                ));
                query.answered(found.clone())
            }
            Pkcs11Step::Generate(query) => {
                steps.push("generate".to_string());
                let (public, private) = query.templates();
                assert_eq!((public.len(), private.len()), (8, 10));
                query.answered(made.clone())
            }
            Pkcs11Step::Derive(query) => {
                let (key, point, template) = query.parameters();
                steps.push(format!("derive with {key}"));
                assert_eq!(*point, peer.to_bytes());
                assert!(template.iter().any(|a| matches!(a, Attribute::Token(false))));
                query.answered(derived.clone())
            }
            Pkcs11Step::Read(query) => {
                steps.push(format!("read {}", query.object()));
                let attributes = read.clone().map(|value| {
                    vec![Attribute::Other, Attribute::Value(vec![1]), Attribute::Value(value)]
                });
                query.answered(attributes)
            }
            Pkcs11Step::Destroy(query) => {
                steps.push(format!("destroy {}", query.object()));
                query.destroyed()
            }
            Pkcs11Step::Done(r) => return (steps, r),
        };
    }
}

#[test]
fn a_key_pair_on_the_token_is_used_again() {
    let value = vec![5u8; 32];
    let (steps, r) = agree_with_token(Ok(vec![10, 11]), Ok(20), Ok(30), Ok(value.clone()));
    assert_eq!(steps, ["find", "derive with 10", "read 30", "destroy 30"]);
    assert_eq!(r.unwrap(), [5u8; 32]);

    let (steps, r) = agree_with_token(Ok(vec![]), Ok(20), Ok(30), Ok(value));
    assert_eq!(steps, ["find", "generate", "derive with 20", "read 30", "destroy 30"]);
    assert_eq!(r.unwrap(), [5u8; 32]);
}

#[test]
fn token_failures_have_their_messages() {
    let bad = || "bad".to_string();
    let message = |r: (Vec<String>, Result<[u8; 32], Error>)| r.1.unwrap_err().to_string();
    assert_eq!(
        message(agree_with_token(Err(bad()), Ok(1), Ok(2), Ok(vec![]))),
        "provider error: PKCS#11 find_objects failed: bad"
    );
    assert_eq!(
        message(agree_with_token(Ok(vec![]), Err(bad()), Ok(2), Ok(vec![]))),
        "provider error: PKCS#11 EC key pair generation failed: bad"
    );
    assert_eq!(
        message(agree_with_token(Ok(vec![1]), Ok(1), Err(bad()), Ok(vec![]))),
        "provider error: CKM_ECDH1_DERIVE failed: bad"
    );
    assert_eq!(
        message(agree_with_token(Ok(vec![1]), Ok(1), Ok(2), Err(bad()))),
        "provider error: PKCS#11 get_attributes failed: bad"
    );
    assert_eq!(
        message(agree_with_token(Ok(vec![1]), Ok(1), Ok(2), Ok(vec![9u8; 33]))),
        "provider error: PKCS#11 token did not return a CKA_VALUE for derived secret"
    );
    assert_eq!(
        Pkcs11Provider::new(false).get_or_create_kek("svc").unwrap_err().to_string(),
        "provider error: PKCS#11 session not available"
    );
}
