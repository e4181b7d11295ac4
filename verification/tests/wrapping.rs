//! Wrapping and unwrapping over providers whose files are kept in memory.
use base64::engine::general_purpose::STANDARD;
use base64::Engine;
use elliptic_curve::pkcs8::{DecodePrivateKey, EncodePrivateKey};
use hkdfguard::abi::{
    check_unwrap_request, check_wrap_request, cstr_to_service, deliver_unwrapped, deliver_wrapped,
};
use hkdfguard::crypto::{
    derive_wrapping_key, ephemeral_key, read_wrapped, unwrap_with, wrap_with, WrapSession, DEK_LEN,
};
use hkdfguard::error::Error;
use hkdfguard::files::{FileRead, FileTask};
use hkdfguard::initialize::arguments::{parse_args, ParseOutcome};
use hkdfguard::initialize::delete::{secure_delete, DeleteStep, PassOutcome};
use hkdfguard::initialize::run::{run, OutputStage, RunStep, WrapReply, KEY_FILE_MODE};
use hkdfguard::keys::SecretKey;
use hkdfguard::operations::{start_unwrap, start_wrap, UnwrapStep, WrapStep};
use hkdfguard::payload::Payload;
use hkdfguard::provider::ephemeral::EphemeralProvider;
use hkdfguard::provider::external_secret::{ExternalSecretProvider, Mount};
use hkdfguard::provider::local::LocalHandle;
use hkdfguard::provider::selection::{
    all_providers, current_best_provider_type, get_by_type, migration_hint, select_for_wrap,
    Choice, Features, Preference, SelectionCache, Step,
};
use hkdfguard::provider::software::{
    decrypt_private_key, encrypt_private_key, Fresh, LoadStep, PathKind, SoftwareProvider,
};
use hkdfguard::provider::{KekHandle, ProviderType};
use hkdfguard::status;
use std::collections::HashMap;
use std::rc::Rc;

/// Files and directories by path, with their permission bits.
#[derive(Default)]
struct Disk {
    files: HashMap<String, (Vec<u8>, u32)>,
    directories: HashMap<String, u32>,
    /// Creating a directory fails.
    broken: bool,
    /// Reading this file fails.
    unreadable: Option<String>,
    tasks: usize,
}

impl Disk {
    fn read(&self, path: &str) -> FileRead {
        if self.unreadable.as_deref() == Some(path) {
            return FileRead::Failed("permission denied".to_string());
        }
        match self.files.get(path) {
            Some((bytes, _)) => FileRead::Contents(bytes.clone()),
            None => FileRead::NotFound,
        }
    }

    fn perform(&mut self, task: FileTask) -> Result<(), String> {
        self.tasks += 1;
        match task {
            FileTask::CreateDir(path) => {
                if self.broken {
                    return Err("not a directory".to_string());
                }
                self.directories.entry(path).or_insert(0o755);
            }
            FileTask::SetMode(path, mode) => match self.files.get_mut(&path) {
                Some(file) => file.1 = mode,
                None => {
                    self.directories.insert(path, mode);
                }
            },
            FileTask::Write(path, contents) => {
                self.files.insert(path, (contents, 0o644));
            }
            FileTask::Rename(from, to) => {
                let file = self.files.remove(&from).expect("renamed file exists");
                self.files.insert(to, file);
            }
        }
        Ok(())
    }
}

fn load(
    provider: &SoftwareProvider,
    disk: &mut Disk,
    service: &str,
) -> Result<LocalHandle, Error> {
    let mut step = provider.get_or_create_kek(service);
    loop {
        step = match step {
            LoadStep::Change(query) => {
                let r = disk.perform(query.task());
                query.answered(r)
            }
            LoadStep::Read(query) => {
                let read = disk.read(&query.path());
                query.answered(read)
            }
            LoadStep::Loaded(handle) => return Ok(handle),
            LoadStep::Failed(error) => return Err(error),
        };
    }
}

fn software_in(dir: &str) -> SoftwareProvider {
    SoftwareProvider::new(Some(dir.to_string()), false, None, "/tmp".to_string())
}

enum Provider {
    External(ExternalSecretProvider),
    Software(SoftwareProvider),
    Ephemeral,
}

/// One process on one host.
struct Host {
    external: Disk,
    external_mounted: bool,
    disk: Disk,
    ephemeral: EphemeralProvider,
    cache: SelectionCache<Rc<Provider>>,
    warnings: usize,
    constructed: usize,
}

impl Host {
    fn new() -> Host {
        Host {
            external: Disk::default(),
            external_mounted: false,
            disk: Disk::default(),
            ephemeral: EphemeralProvider::new(),
            cache: SelectionCache::new(),
            warnings: 0,
            constructed: 0,
        }
    }

    fn construct(&mut self, t: ProviderType) -> Rc<Provider> {
        self.constructed += 1;
        Rc::new(match t {
            ProviderType::ExternalSecret => Provider::External(ExternalSecretProvider::new(vec![
                Mount {
                    path: "/secrets".to_string(),
                    is_dir: self.external_mounted,
                },
            ])),
            ProviderType::Software => Provider::Software(software_in("/keys")),
            ProviderType::Ephemeral => Provider::Ephemeral,
            other => panic!("{} is not offered", other.as_str()),
        })
    }

    fn probe(&self, provider: &Provider) -> bool {
        match provider {
            Provider::External(p) => p.probe(),
            Provider::Software(p) => p.probe(&vec![if self.disk.broken {
                PathKind::Other
            } else {
                PathKind::Directory {
                    writable: true,
                    adjustable: true,
                }
            }]),
            Provider::Ephemeral => self.ephemeral.probe(),
        }
    }

    fn ask(&mut self, provider: &Provider, service: &str) -> Result<LocalHandle, Error> {
        match provider {
            Provider::External(p) => {
                let read = match p.secret_path(service) {
                    Some(path) => self.external.read(&path),
                    None => FileRead::NotFound,
                };
                p.get_or_create_kek(service, read)
            }
            Provider::Software(p) => load(p, &mut self.disk, service),
            Provider::Ephemeral => self.ephemeral.get_or_create_kek(service),
        }
    }

    fn select(&mut self, service: &str) -> Result<(ProviderType, Rc<Provider>, LocalHandle), Error> {
        let chain = all_providers(&Features::default());
        let mut built: Vec<Rc<Provider>> = Vec::new();
        let mut step = select_for_wrap(chain.clone(), self.cache.selected().is_some());
        loop {
            step = match step {
                Step::AskCached(query) => {
                    let cached = Rc::clone(self.cache.selected().unwrap());
                    let answer = self.ask(&cached, service);
                    query.answered(answer)
                }
                Step::Probe(query) => {
                    if built.is_empty() {
                        for t in &chain {
                            let provider = self.construct(*t);
                            built.push(provider);
                        }
                    }
                    let reachable = self.probe(&built[query.index()]);
                    query.answered(reachable)
                }
                Step::Ask(query) => {
                    let provider = Rc::clone(&built[query.index()]);
                    let answer = self.ask(&provider, service);
                    query.answered(answer)
                }
                Step::Chosen(Choice::Cached, handle) => {
                    let t = self.cache.selected_type().unwrap();
                    let cached = Rc::clone(self.cache.selected().unwrap());
                    return Ok((t, cached, handle));
                }
                Step::Chosen(Choice::Listed(i), handle) => {
                    if self.cache.record(chain[i], Rc::clone(&built[i])) {
                        self.warnings += 1;
                    }
                    return Ok((chain[i], Rc::clone(&built[i]), handle));
                }
                Step::Exhausted(error) => return Err(error),
            };
        }
    }

    fn wrap(&mut self, service: &str, dek: &[u8; DEK_LEN]) -> Result<Vec<u8>, Error> {
        let mut selected = None;
        let mut step = start_wrap(service);
        loop {
            step = match step {
                WrapStep::Select(query) => {
                    let answer = self.select(service).map(|(t, _, handle)| {
                        let key_id = handle.key_id().to_vec();
                        selected = Some(handle);
                        (t, key_id)
                    });
                    query.answered(answer)
                }
                WrapStep::Agree(query) => {
                    let shared = selected.as_ref().unwrap().ecdh(query.peer());
                    query.answered(shared, dek)
                }
                WrapStep::Done(r) => return r,
            };
        }
    }

    fn provider_of(&mut self, t: ProviderType) -> Result<Rc<Provider>, Error> {
        let chain = all_providers(&Features::default());
        match get_by_type(t, self.cache.selected_type(), &chain)? {
            Choice::Cached => Ok(Rc::clone(self.cache.selected().unwrap())),
            Choice::Listed(i) => Ok(self.construct(chain[i])),
        }
    }

    fn unwrap(&mut self, service: &str, wrapped: &[u8]) -> Result<[u8; DEK_LEN], Error> {
        let mut given = None;
        let mut step = start_unwrap(service, wrapped);
        loop {
            step = match step {
                UnwrapStep::Ask(query) => {
                    let answer = self
                        .provider_of(query.provider_type())
                        .and_then(|provider| self.ask(&provider, service))
                        .map(|handle| given = Some(handle));
                    query.answered(answer)
                }
                UnwrapStep::Agree(query) => {
                    let shared = given.as_ref().unwrap().ecdh(query.peer());
                    query.answered(shared)
                }
                UnwrapStep::Done(r) => return r,
            };
        }
    }

    fn wrap_dek(
        &mut self,
        service: Option<&[u8]>,
        dek: &[u8],
        dek_len: i32,
        out: &mut [u8],
        out_len: &mut i32,
    ) -> i32 {
        let service = match check_wrap_request(service, true, dek_len, Some(*out_len)) {
            Ok(service) => service,
            Err(code) => return code,
        };
        let result = self.wrap(service, dek.try_into().unwrap());
        deliver_wrapped(result, out, true, out_len)
    }

    fn unwrap_dek(
        &mut self,
        service: Option<&[u8]>,
        wrapped: &[u8],
        out: &mut [u8],
        out_len: &mut i32,
    ) -> i32 {
        let checked = check_unwrap_request(service, true, wrapped.len() as i32, Some(*out_len));
        let result = match checked {
            Ok(service) => self.unwrap(service, wrapped).map_err(|e| e.status_code()),
            Err(code) => Err(code),
        };
        deliver_unwrapped(result, out, true, out_len)
    }
}

const ORDERS: &str = "com.company.orders";

// The protocol.

#[test]
fn round_trips_through_software_provider() {
    let mut host = Host::new();
    let dek = [0x42u8; DEK_LEN];
    let wrapped = host.wrap("com.company.orders", &dek).unwrap();
    let recovered = host.unwrap("com.company.orders", &wrapped).unwrap();
    assert_eq!(dek, recovered);
}

#[test]
fn wrong_service_fails_to_unwrap() {
    let mut host = Host::new();
    let dek = [0x11u8; DEK_LEN];
    let wrapped = host.wrap("com.company.orders", &dek).unwrap();
    let err = host.unwrap("com.company.billing", &wrapped).unwrap_err();
    assert!(matches!(err, Error::Crypto(_)));
}

#[test]
fn tampered_ciphertext_fails_to_unwrap() {
    let mut host = Host::new();
    let dek = [0x99u8; DEK_LEN];
    let mut wrapped = host.wrap("com.company.orders", &dek).unwrap();
    let last = wrapped.len() - 1;
    wrapped[last] ^= 0x01;
    let err = host.unwrap("com.company.orders", &wrapped).unwrap_err();
    assert!(matches!(err, Error::Crypto(_)));
}

#[test]
fn truncated_ciphertext_fails_to_unwrap() {
    let mut host = Host::new();
    let dek = [0x22u8; DEK_LEN];
    let mut wrapped = host.wrap("com.company.orders", &dek).unwrap();
    wrapped.truncate(wrapped.len() - 5);
    let err = host.unwrap("com.company.orders", &wrapped).unwrap_err();
    assert!(matches!(err, Error::Crypto(_)));
}

#[test]
fn same_dek_wrapped_twice_yields_different_ciphertexts() {
    let mut host = Host::new();
    let dek = [0x77u8; DEK_LEN];
    let a = host.wrap("com.company.orders", &dek).unwrap();
    let b = host.wrap("com.company.orders", &dek).unwrap();
    assert_ne!(a, b, "ephemeral ECDH + random nonce must randomize output");
}

#[test]
fn derive_wrapping_key_properties() {
    let secret1 = [0x11u8; 32];
    let secret2 = [0x22u8; 32];

    let k1 = derive_wrapping_key(&secret1, "service.a").unwrap();
    let k1_repeat = derive_wrapping_key(&secret1, "service.a").unwrap();
    assert_eq!(k1, k1_repeat, "HKDF must be deterministic for identical inputs");

    let k2 = derive_wrapping_key(&secret1, "service.b").unwrap();
    assert_ne!(k1, k2, "service name must provide domain separation");

    let k3 = derive_wrapping_key(&secret2, "service.a").unwrap();
    assert_ne!(k1, k3, "different shared secrets must yield different wrapping keys");
}

#[test]
fn derived_keys_are_those_of_hkdf_sha256() {
    let key = derive_wrapping_key(&[0x11u8; 32], "service.a").unwrap();
    assert_eq!(
        key,
        [
            0x08, 0xfb, 0x19, 0x66, 0x2d, 0xc4, 0xe0, 0xcf, 0x0c, 0xe1, 0xd6, 0xed, 0xe5, 0xa1,
            0x2d, 0x76, 0x2d, 0xfe, 0x11, 0x38, 0x7f, 0xdd, 0x52, 0x63, 0x4e, 0xa0, 0x5f, 0x85,
            0x66, 0x9f, 0x62, 0x83,
        ]
    );
}

#[test]
fn round_trips_various_dek_patterns() {
    let mut host = Host::new();
    let patterns: [[u8; DEK_LEN]; 4] = [
        [0x00u8; DEK_LEN],
        [0xFFu8; DEK_LEN],
        core::array::from_fn(|i| i as u8),
        core::array::from_fn(|i| (255 - i) as u8),
    ];
    for dek in patterns {
        let wrapped = host.wrap("com.company.orders", &dek).unwrap();
        let recovered = host.unwrap("com.company.orders", &wrapped).unwrap();
        assert_eq!(dek, recovered);
    }
}

#[test]
fn round_trips_through_ephemeral_provider() {
    let mut host = Host::new();
    host.disk.broken = true;
    let dek = [0x88u8; DEK_LEN];
    let wrapped = host.wrap("com.company.ephemeral.test", &dek).unwrap();
    let recovered = host.unwrap("com.company.ephemeral.test", &wrapped).unwrap();
    assert_eq!(dek, recovered);
}

#[test]
fn tampered_ephemeral_public_key_fails_to_unwrap() {
    let mut host = Host::new();
    let dek = [0x33u8; DEK_LEN];
    let wrapped = host.wrap("com.company.orders", &dek).unwrap();
    let mut payload = Payload::from_bytes(&wrapped).unwrap();
    payload.ephemeral_public_key[1] ^= 0x01;
    let tampered_bytes = payload.to_bytes();
    let err = host.unwrap("com.company.orders", &tampered_bytes).unwrap_err();
    assert!(matches!(err, Error::Crypto(_)));
}

#[test]
fn tampered_nonce_fails_to_unwrap() {
    let mut host = Host::new();
    let dek = [0x44u8; DEK_LEN];
    let wrapped = host.wrap("com.company.orders", &dek).unwrap();
    let mut payload = Payload::from_bytes(&wrapped).unwrap();
    payload.nonce[0] ^= 0x01;
    let tampered_bytes = payload.to_bytes();
    let err = host.unwrap("com.company.orders", &tampered_bytes).unwrap_err();
    assert!(matches!(err, Error::Crypto(_)));
}

#[test]
fn wrapping_is_a_function_of_its_inputs() {
    let peer = SecretKey::random().public_key();
    let shared = [7u8; 32];
    let nonce = [9u8; 12];
    let dek = [0x5Cu8; DEK_LEN];
    let wrap = || {
        wrap_with(ORDERS, ProviderType::Tpm2, b"id", &peer, &shared, &nonce, &dek).unwrap()
    };
    let wrapped = wrap();
    assert_eq!(wrapped, wrap());
    let payload = read_wrapped(&wrapped).unwrap();
    assert_eq!(payload.provider_type, ProviderType::Tpm2);
    assert_eq!(payload.key_id, b"id");
    assert_eq!(payload.ephemeral_public_key, peer.to_bytes());
    assert_eq!(payload.nonce, nonce);
    assert_eq!(payload.ciphertext.len(), 48);
    assert_ne!(payload.ciphertext[..32], dek);
    assert_eq!(unwrap_with(ORDERS, &payload, &shared).unwrap(), dek);
    assert!(unwrap_with("other", &payload, &shared).is_err());
    assert!(unwrap_with(ORDERS, &payload, &[8u8; 32]).is_err());
}

#[test]
fn unwrapping_failures_have_their_messages() {
    let mut host = Host::new();
    let wrapped = host.wrap(ORDERS, &[1u8; DEK_LEN]).unwrap();

    let mut payload = Payload::from_bytes(&wrapped).unwrap();
    payload.ciphertext.push(0);
    assert!(matches!(
        host.unwrap(ORDERS, &payload.to_bytes()),
        Err(Error::Crypto("wrapped ciphertext has unexpected length"))
    ));

    let mut payload = Payload::from_bytes(&wrapped).unwrap();
    payload.ephemeral_public_key[0] = 5;
    assert!(matches!(
        host.unwrap(ORDERS, &payload.to_bytes()),
        Err(Error::Crypto("malformed ephemeral public key in wrapped payload"))
    ));

    let mut payload = Payload::from_bytes(&wrapped).unwrap();
    payload.ciphertext[0] ^= 1;
    assert!(matches!(
        host.unwrap(ORDERS, &payload.to_bytes()),
        Err(Error::Crypto(
            "AES-256-GCM authentication failed (tampered, wrong service, or wrong KEK)"
        ))
    ));

    let mut payload = Payload::from_bytes(&wrapped).unwrap();
    payload.provider_type = ProviderType::Tpm2;
    assert!(matches!(
        host.unwrap(ORDERS, &payload.to_bytes()),
        Err(Error::NoProviderAvailable)
    ));
}

#[test]
fn erased_handles_agree_on_nothing() {
    let mut host = Host::new();
    let (t, _, mut handle) = host.select(ORDERS).unwrap();
    handle.erase();
    let wrapped = host.wrap(ORDERS, &[0u8; DEK_LEN]).unwrap();
    let payload = read_wrapped(&wrapped).unwrap();
    let erased = "provider error: the key has been erased";
    let error = handle.ecdh(&SecretKey::random().public_key()).unwrap_err();
    assert_eq!(error.to_string(), erased);
    let error = hkdfguard::crypto::wrap(ORDERS, t, &handle, &[0u8; DEK_LEN]).unwrap_err();
    assert_eq!(error.to_string(), erased);
    let error = hkdfguard::crypto::unwrap(ORDERS, &payload, &handle).unwrap_err();
    assert_eq!(error.to_string(), erased);
}

#[test]
fn a_handle_wraps_and_unwraps_by_itself() {
    let mut host = Host::new();
    let (t, _, handle) = host.select(ORDERS).unwrap();
    let dek = [0x2Bu8; DEK_LEN];
    let wrapped = hkdfguard::crypto::wrap(ORDERS, t, &handle, &dek).unwrap();
    let payload = read_wrapped(&wrapped).unwrap();
    assert_eq!(hkdfguard::crypto::unwrap(ORDERS, &payload, &handle).unwrap(), dek);
    assert_eq!(host.unwrap(ORDERS, &wrapped).unwrap(), dek);
}

#[test]
fn an_unwrapping_asks_the_provider_of_the_payload() {
    let mut host = Host::new();
    let wrapped = host.wrap(ORDERS, &[3u8; DEK_LEN]).unwrap();
    for t in [ProviderType::Tpm2, ProviderType::Ephemeral] {
        let mut payload = Payload::from_bytes(&wrapped).unwrap();
        payload.provider_type = t;
        match start_unwrap(ORDERS, &payload.to_bytes()) {
            UnwrapStep::Ask(query) => assert_eq!(query.provider_type(), t),
            _ => panic!("unexpected step"),
        }
    }
    assert!(matches!(
        start_unwrap(ORDERS, &wrapped[1..]),
        UnwrapStep::Done(Err(Error::Crypto("unsupported wrapped payload version")))
    ));
}

#[test]
fn errors_of_the_providers_come_out_unchanged() {
    let failure = || Error::Provider("TPM timeout".to_string());
    let is_failure = |error: &Error| error.to_string() == "provider error: TPM timeout";
    let dek = [3u8; DEK_LEN];
    let select = || match start_wrap(ORDERS) {
        WrapStep::Select(query) => query,
        _ => panic!("unexpected step"),
    };
    assert!(matches!(
        select().answered(Err(failure())),
        WrapStep::Done(Err(error)) if is_failure(&error)
    ));
    match select().answered(Ok((ProviderType::Tpm2, b"id".to_vec()))) {
        WrapStep::Agree(query) => assert!(matches!(
            query.answered(Err(failure()), &dek),
            WrapStep::Done(Err(error)) if is_failure(&error)
        )),
        _ => panic!("unexpected step"),
    }

    let wrapped = Host::new().wrap(ORDERS, &dek).unwrap();
    let ask = || match start_unwrap(ORDERS, &wrapped) {
        UnwrapStep::Ask(query) => query,
        _ => panic!("unexpected step"),
    };
    assert!(matches!(
        ask().answered(Err(failure())),
        UnwrapStep::Done(Err(error)) if is_failure(&error)
    ));
    match ask().answered(Ok(())) {
        UnwrapStep::Agree(query) => assert!(matches!(
            query.answered(Err(failure())),
            UnwrapStep::Done(Err(error)) if is_failure(&error)
        )),
        _ => panic!("unexpected step"),
    }
}

#[test]
fn a_mismatched_service_is_a_crypto_error_with_every_provider() {
    let mut host = Host::new();
    host.external_mounted = true;
    let file = (SecretKey::random().to_bytes().to_vec(), 0o600);
    host.external.files.insert("/secrets/com.company.orders".to_string(), file);
    let wrapped = host.wrap(ORDERS, &[6u8; DEK_LEN]).unwrap();
    assert_eq!(host.unwrap(ORDERS, &wrapped).unwrap(), [6u8; DEK_LEN]);
    let error = host.unwrap("com.company.billing", &wrapped).unwrap_err();
    assert_eq!(error.status_code(), status::CRYPTO_ERROR);

    host.external.files.clear();
    let error = host.unwrap(ORDERS, &wrapped).unwrap_err();
    assert_eq!(error.status_code(), status::PROVIDER_ERROR);

    let mut host = Host::new();
    host.disk.broken = true;
    let wrapped = host.wrap(ORDERS, &[6u8; DEK_LEN]).unwrap();
    let error = host.unwrap("com.company.billing", &wrapped).unwrap_err();
    assert_eq!(error.status_code(), status::CRYPTO_ERROR);
}

#[test]
fn the_longest_service_fits_512_bytes() {
    let service = "s".repeat(255);
    let mut host = Host::new();
    host.disk.broken = true;
    let wrapped = host.wrap(&service, &[1u8; DEK_LEN]).unwrap();
    assert_eq!(wrapped.len(), 133 + 10 + 255);
    assert_eq!(host.unwrap(&service, &wrapped).unwrap(), [1u8; DEK_LEN]);
}

#[test]
fn a_session_wraps_under_a_secret_agreed_elsewhere() {
    let kek = SecretKey::random();
    let session = WrapSession::new();
    let shared = kek.diffie_hellman(session.peer());
    let dek = [0xD4u8; DEK_LEN];
    let wrapped = session.finish(ORDERS, ProviderType::Pkcs11, b"id", shared, &dek).unwrap();
    let payload = read_wrapped(&wrapped).unwrap();
    let shared = kek.diffie_hellman(&ephemeral_key(&payload).unwrap());
    assert_eq!(unwrap_with(ORDERS, &payload, &shared).unwrap(), dek);
}

// The choice of a provider.

#[test]
fn get_by_type_finds_compiled_providers() {
    let chain = all_providers(&Features::default());
    for t in [
        ProviderType::Ephemeral,
        ProviderType::Software,
        ProviderType::ExternalSecret,
    ] {
        match get_by_type(t, None, &chain).unwrap() {
            Choice::Listed(i) => assert_eq!(chain[i], t),
            Choice::Cached => panic!("nothing was settled on"),
        }
    }
}

#[test]
fn select_for_wrap_prefers_external_secret_when_provisioned() {
    let mut host = Host::new();
    host.external_mounted = true;
    let secret = SecretKey::random();
    host.external.files.insert(
        "/secrets/com.company.orders".to_string(),
        (secret.to_bytes().to_vec(), 0o600),
    );

    let (t, _, handle) = host.select("com.company.orders").unwrap();
    assert_eq!(t, ProviderType::ExternalSecret);
    assert_eq!(handle.key_id(), b"external:com.company.orders");

    let (t2, _, handle2) = host.select("com.company.billing").unwrap();
    assert_eq!(t2, ProviderType::Software);
    assert_eq!(handle2.key_id().len(), 64);
}

#[test]
fn a_single_fall_through_does_not_disturb_the_settled_provider() {
    let mut host = Host::new();
    host.external_mounted = true;
    host.external.files.insert(
        "/secrets/com.company.orders".to_string(),
        (SecretKey::random().to_bytes().to_vec(), 0o600),
    );
    host.select("com.company.orders").unwrap();
    assert_eq!(host.cache.selected_type(), Some(ProviderType::ExternalSecret));
    host.select("com.company.billing").unwrap();
    assert_eq!(host.cache.selected_type(), Some(ProviderType::ExternalSecret));
    let (t, _, _) = host.select("com.company.orders").unwrap();
    assert_eq!(t, ProviderType::ExternalSecret);
}

#[test]
fn select_for_wrap_falls_back_to_ephemeral_when_software_fails() {
    let mut host = Host::new();
    host.disk.broken = true;
    let (t, _, handle) = host.select("com.company.orders").unwrap();
    assert_eq!(t, ProviderType::Ephemeral);
    assert_eq!(handle.key_id(), b"ephemeral:com.company.orders");
}

#[test]
fn select_for_wrap_reuses_cached_provider_instance_across_calls() {
    let mut host = Host::new();
    let (t, provider1, _) = host.select("com.company.a").unwrap();
    assert_eq!(t, ProviderType::Software);
    let constructed = host.constructed;
    let (_, provider2, _) = host.select("com.company.b").unwrap();
    assert!(
        Rc::ptr_eq(&provider1, &provider2),
        "second call must reuse the exact cached provider instance"
    );
    assert_eq!(host.constructed, constructed);
}

#[test]
fn select_for_wrap_does_not_cache_ephemeral() {
    let mut host = Host::new();
    host.disk.broken = true;
    let (t, _, _) = host.select("com.company.orders").unwrap();
    assert_eq!(t, ProviderType::Ephemeral);
    assert!(
        host.cache.selected().is_none(),
        "an Ephemeral-only resolution must not populate the cache"
    );
    host.select("com.company.orders").unwrap();
    assert_eq!(host.warnings, 1);
    host.disk.broken = false;
    let (t, _, _) = host.select("com.company.orders").unwrap();
    assert_eq!(t, ProviderType::Software);
}

#[test]
fn no_weaker_provider_is_asked_than_the_one_chosen() {
    let mut host = Host::new();
    host.external_mounted = true;
    host.external.files.insert(
        "/secrets/com.company.orders".to_string(),
        (SecretKey::random().to_bytes().to_vec(), 0o600),
    );
    host.select("com.company.orders").unwrap();
    assert_eq!(host.disk.tasks, 0);
}

#[test]
fn an_exhausted_chain_reports_the_last_failure() {
    let chain = vec![ProviderType::Tpm2, ProviderType::ExternalSecret, ProviderType::Software];
    let mut step: Step<()> = select_for_wrap(chain, false);
    let mut asked = Vec::new();
    let error = loop {
        step = match step {
            Step::Probe(query) => {
                let reachable = query.index() != 2;
                query.answered(reachable)
            }
            Step::Ask(query) => {
                asked.push(query.index());
                let answer = Err(if query.index() == 0 {
                    Error::Provider("TPM timeout".to_string())
                } else {
                    Error::KeyNotProvisioned("none")
                });
                query.answered(answer)
            }
            Step::Exhausted(error) => break error,
            _ => panic!("unexpected step"),
        };
    };
    assert_eq!(asked, vec![0, 1]);
    assert!(matches!(error, Error::KeyNotProvisioned("none")));

    let step: Step<()> = select_for_wrap(vec![], false);
    assert!(matches!(step, Step::Exhausted(Error::NoProviderAvailable)));
}

#[test]
fn all_features_give_the_whole_chain() {
    let features = Features {
        tpm2: true,
        pkcs11: true,
        external_secret: true,
        software: true,
        ephemeral: true,
    };
    assert_eq!(
        all_providers(&features),
        vec![
            ProviderType::Tpm2,
            ProviderType::Pkcs11,
            ProviderType::ExternalSecret,
            ProviderType::Software,
            ProviderType::Ephemeral,
        ]
    );
    assert!(matches!(
        get_by_type(ProviderType::Tpm2, None, &all_providers(&Features::default())),
        Err(Error::NoProviderAvailable)
    ));
    assert!(matches!(
        get_by_type(ProviderType::Tpm2, Some(ProviderType::Tpm2), &vec![]),
        Ok(Choice::Cached)
    ));
}

#[test]
fn the_preferred_provider_is_the_first_reachable_one() {
    let chain = all_providers(&Features::default());
    let best = |probed: &[bool]| current_best_provider_type(None, &chain, &probed.to_vec());
    assert_eq!(best(&[]), Preference::Probe(0));
    assert_eq!(best(&[false]), Preference::Probe(1));
    assert_eq!(best(&[false, true]), Preference::Known(Some(ProviderType::Software)));
    assert_eq!(best(&[false, false, false]), Preference::Known(None));
    assert_eq!(
        current_best_provider_type(Some(ProviderType::Tpm2), &chain, &vec![]),
        Preference::Known(Some(ProviderType::Tpm2))
    );
}

#[test]
fn a_migration_hint_names_both_providers() {
    assert_eq!(
        migration_hint(Some(ProviderType::Tpm2), ProviderType::Software),
        Some(
            "hkdfguard: migration event - DEK was wrapped with SOFTWARE but TPM2 is now the \
             preferred provider; consider re-wrapping"
                .to_string()
        )
    );
    assert_eq!(migration_hint(Some(ProviderType::Tpm2), ProviderType::Tpm2), None);
    assert_eq!(migration_hint(None, ProviderType::Tpm2), None);
}

// The software provider.

#[test]
fn creates_and_reloads_same_key() {
    let provider = software_in("/keys");
    let mut disk = Disk::default();
    let h1 = load(&provider, &mut disk, "com.company.orders").unwrap();
    let h2 = load(&provider, &mut disk, "com.company.orders").unwrap();
    let eph_pub = SecretKey::random().public_key();
    assert_eq!(h1.ecdh(&eph_pub).unwrap(), h2.ecdh(&eph_pub).unwrap());
}

#[test]
fn private_key_file_is_not_plaintext_pkcs8() {
    let provider = software_in("/keys");
    let mut disk = Disk::default();
    load(&provider, &mut disk, "com.company.orders").unwrap();
    let path = provider.key_path("com.company.orders");
    let stored = &disk.files[&path].0;
    assert_eq!(stored.len(), 166);
    assert!(p256::SecretKey::from_pkcs8_der(stored).is_err());
}

#[test]
fn file_permissions_are_0600() {
    let provider = software_in("/keys");
    let mut disk = Disk::default();
    load(&provider, &mut disk, "com.company.orders").unwrap();
    let path = provider.key_path("com.company.orders");
    assert_eq!(disk.files[&path].1, 0o600);
    assert_eq!(disk.files[&provider.vault_key_path()].1, 0o600);
    assert_eq!(disk.directories["/keys"], 0o700);
    assert_eq!(disk.files.len(), 2);
}

#[test]
fn key_files_are_named_after_the_fingerprint() {
    let provider = software_in("/keys/");
    assert_eq!(
        provider.key_path("com.company.orders"),
        "/keys/c3bbf77121f7bda02b893679374a842b52727df890f663190d858ea297baecdc.key"
    );
    assert_eq!(provider.vault_key_path(), "/keys/vault.key");
}

#[test]
fn the_directory_is_chosen_in_order() {
    let dir = |setting: Option<&str>, superuser: bool, config: Option<&str>| {
        SoftwareProvider::new(
            setting.map(String::from),
            superuser,
            config.map(String::from),
            "/tmp".to_string(),
        )
        .directory()
        .to_string()
    };
    assert_eq!(dir(Some("/d"), true, Some("/c")), "/d");
    assert_eq!(dir(None, true, Some("/c")), "/var/lib/hkdfguard");
    assert_eq!(dir(None, false, Some("/c")), "/c/hkdfguard");
    assert_eq!(dir(None, false, None), "/tmp/hkdfguard");
}

#[test]
fn a_directory_that_exists_or_could_be_made_is_reachable() {
    let provider = software_in("/a/b");
    let kind = |writable, adjustable| PathKind::Directory {
        writable,
        adjustable,
    };
    let (missing, directory) = (PathKind::Missing, kind(true, true));
    assert!(provider.probe(&vec![directory]));
    assert!(provider.probe(&vec![missing, missing, directory]));
    assert!(!provider.probe(&vec![PathKind::Other, directory]));
    assert!(!provider.probe(&vec![missing, PathKind::Other, directory]));
    assert!(!provider.probe(&vec![]));

    assert!(provider.probe(&vec![kind(false, true)]));
    assert!(!provider.probe(&vec![kind(true, false), directory]));
    assert!(provider.probe(&vec![missing, kind(true, false)]));
    assert!(!provider.probe(&vec![missing, kind(false, true), directory]));
}

#[test]
fn loading_failures_have_their_messages() {
    let provider = software_in("/keys");
    let message = |disk: &mut Disk| match load(&provider, disk, ORDERS) {
        Err(Error::Provider(message)) => message,
        _ => panic!("expected a provider error"),
    };

    let mut disk = Disk::default();
    disk.broken = true;
    assert_eq!(message(&mut disk), "failed to create /keys: not a directory");

    let mut disk = Disk::default();
    disk.unreadable = Some("/keys/vault.key".to_string());
    assert_eq!(
        message(&mut disk),
        "failed to read vault key /keys/vault.key: permission denied"
    );

    let mut disk = Disk::default();
    disk.unreadable = Some(provider.key_path(ORDERS));
    assert_eq!(
        message(&mut disk),
        format!("failed to read KEK file {}: permission denied", provider.key_path(ORDERS))
    );

    let mut disk = Disk::default();
    disk.files.insert(provider.vault_key_path(), (vec![1u8; 31], 0o600));
    assert_eq!(
        message(&mut disk),
        "vault key file /keys/vault.key has unexpected length"
    );

    let mut disk = Disk::default();
    disk.files.insert(provider.key_path(ORDERS), (vec![1u8; 165], 0o600));
    assert_eq!(message(&mut disk), "stored KEK file has unexpected length");

    let mut disk = Disk::default();
    disk.files.insert(provider.key_path(ORDERS), (vec![1u8; 166], 0o600));
    assert_eq!(
        message(&mut disk),
        "failed to decrypt stored KEK (corrupt or tampered)"
    );
}

#[test]
fn the_vault_key_is_made_once_and_kept() {
    let provider = software_in("/keys");
    let vault = provider.vault_key_path();
    let mut disk = Disk::default();
    load(&provider, &mut disk, "a").unwrap();
    let made = disk.files[&vault].clone();
    assert_eq!(made.0.len(), 32);
    load(&provider, &mut disk, "b").unwrap();
    assert_eq!(disk.files[&vault], made);

    disk.files.get_mut(&vault).unwrap().0.push(0);
    let before = disk.files.clone();
    assert!(load(&provider, &mut disk, "c").is_err());
    assert_eq!(disk.files, before);
}

#[test]
fn an_altered_key_file_is_left_alone() {
    let provider = software_in("/keys");
    let mut disk = Disk::default();
    load(&provider, &mut disk, ORDERS).unwrap();
    disk.files.get_mut(&provider.key_path(ORDERS)).unwrap().0[80] ^= 1;
    let before = disk.files.clone();
    assert!(matches!(load(&provider, &mut disk, ORDERS), Err(Error::Provider(_))));
    assert_eq!(disk.files, before);
}

#[test]
fn each_failed_change_has_its_message() {
    let failing = |fail_at: usize| {
        let provider = software_in("/keys");
        let mut disk = Disk::default();
        let mut count = 0;
        let mut step = provider.get_or_create_kek(ORDERS);
        loop {
            step = match step {
                LoadStep::Change(query) => {
                    let r = if count == fail_at {
                        Err("disk full".to_string())
                    } else {
                        disk.perform(query.task())
                    };
                    count += 1;
                    query.answered(r)
                }
                LoadStep::Read(query) => {
                    let read = disk.read(&query.path());
                    query.answered(read)
                }
                LoadStep::Loaded(_) => return "loaded".to_string(),
                LoadStep::Failed(error) => return error.to_string(),
            };
        }
    };
    let key = software_in("/keys").key_path(ORDERS);
    let scratch = key.replace(".key", ".tmp");
    assert_eq!(failing(0), "provider error: failed to create /keys: disk full");
    assert_eq!(failing(1), "provider error: failed to chmod /keys: disk full");
    assert_eq!(failing(2), "provider error: failed to write /keys/vault.tmp: disk full");
    assert_eq!(failing(3), "provider error: failed to chmod /keys/vault.tmp: disk full");
    assert_eq!(failing(4), "provider error: failed to finalize /keys/vault.key: disk full");
    assert_eq!(failing(5), format!("provider error: failed to write {scratch}: disk full"));
    assert_eq!(failing(6), format!("provider error: failed to chmod {scratch}: disk full"));
    assert_eq!(failing(7), format!("provider error: failed to finalize {key}: disk full"));
    assert_eq!(failing(8), "loaded");
}

#[test]
fn stored_keys_load_under_their_vault_key_only() {
    let vault_key = [3u8; 32];
    let key = SecretKey::random();
    let stored = encrypt_private_key(&vault_key, &key).unwrap();
    assert_eq!(stored.len(), 166);
    let read = decrypt_private_key(&vault_key, &stored).unwrap();
    assert_eq!(read.to_bytes(), key.to_bytes());
    assert!(decrypt_private_key(&[4u8; 32], &stored).is_err());
    assert_ne!(encrypt_private_key(&vault_key, &key).unwrap(), stored);
}

#[test]
fn services_do_not_disturb_each_other() {
    let provider = software_in("/keys");
    let mut disk = Disk::default();
    load(&provider, &mut disk, "com.company.a").unwrap();
    let before = disk.files.clone();
    load(&provider, &mut disk, "com.company.b").unwrap();
    for (path, file) in before {
        assert_eq!(disk.files[&path], file);
    }
    assert_eq!(disk.files.len(), 3);
}

#[test]
fn fresh_values_differ() {
    let (a, b) = (Fresh::random(), Fresh::random());
    assert_ne!(a.vault_key, b.vault_key);
    assert_ne!(a.nonce, b.nonce);
    assert_ne!(a.secret_key.to_bytes(), b.secret_key.to_bytes());
}

// The external-secret provider over real documents.

#[test]
fn loads_provisioned_pkcs8_secret() {
    let secret_key = p256::SecretKey::random(&mut rand_core::OsRng);
    let der = secret_key.to_pkcs8_der().unwrap();
    let provider = ExternalSecretProvider::new(vec![Mount {
        path: "/secrets".to_string(),
        is_dir: true,
    }]);
    let handle = provider
        .get_or_create_kek(ORDERS, FileRead::Contents(der.as_bytes().to_vec()))
        .unwrap();
    assert_same_agreement(&secret_key, &handle);
}

#[test]
fn loads_provisioned_raw_scalar_secret() {
    let secret_key = p256::SecretKey::random(&mut rand_core::OsRng);
    let provider = ExternalSecretProvider::new(vec![Mount {
        path: "/secrets".to_string(),
        is_dir: true,
    }]);
    let handle = provider
        .get_or_create_kek(ORDERS, FileRead::Contents(secret_key.to_bytes().to_vec()))
        .unwrap();
    assert_same_agreement(&secret_key, &handle);
}

fn assert_same_agreement(secret_key: &p256::SecretKey, handle: &LocalHandle) {
    let eph = SecretKey::random();
    let eph_public = p256::PublicKey::from_sec1_bytes(&eph.public_key().to_bytes()).unwrap();
    let expected =
        p256::ecdh::diffie_hellman(secret_key.to_nonzero_scalar(), eph_public.as_affine());
    let actual = handle.ecdh(&eph.public_key()).unwrap();
    assert_eq!(actual.as_slice(), expected.raw_secret_bytes().as_slice());
}

// The C interface.

#[test]
fn ffi_round_trip() {
    let mut host = Host::new();
    let dek = [0xABu8; 32];
    let mut wrapped_buf = [0u8; 512];
    let mut wrapped_len: i32 = wrapped_buf.len() as i32;
    let service = Some("com.company.orders".as_bytes());
    let rc = host.wrap_dek(service, &dek, 32, &mut wrapped_buf, &mut wrapped_len);
    assert_eq!(rc, status::OK);

    let mut out = [0u8; 32];
    let mut out_len: i32 = out.len() as i32;
    let rc = host.unwrap_dek(
        service,
        &wrapped_buf[..wrapped_len as usize],
        &mut out,
        &mut out_len,
    );
    assert_eq!(rc, status::OK);
    assert_eq!(out_len, 32);
    assert_eq!(out, dek);
}

#[test]
fn rejects_wrong_dek_length() {
    let rc = check_wrap_request(Some(b"com.company.orders"), true, 16, Some(512));
    assert_eq!(rc, Err(status::INVALID_ARGUMENT));
}

#[test]
fn buffer_too_small_reports_required_size_without_writing() {
    let mut host = Host::new();
    let dek = [0x55u8; 32];
    let mut tiny = [0xFFu8; 4];
    let mut tiny_len: i32 = tiny.len() as i32;
    let service = Some("com.company.orders".as_bytes());
    let rc = host.wrap_dek(service, &dek, 32, &mut tiny, &mut tiny_len);
    assert_eq!(rc, status::BUFFER_TOO_SMALL);
    assert!(tiny_len > 4);
    assert_eq!(tiny, [0xFFu8; 4], "must not write on BUFFER_TOO_SMALL");

    let mut enough = vec![0u8; tiny_len as usize];
    let rc = host.wrap_dek(service, &dek, 32, &mut enough, &mut tiny_len);
    assert_eq!(rc, status::OK);
    assert_eq!(host.unwrap(ORDERS, &enough).unwrap(), dek);
}

#[test]
fn unwrap_failure_zeroes_caller_buffer() {
    let mut host = Host::new();
    let garbage = [0u8; 8];
    let mut out = [0xAAu8; 32];
    let mut out_len: i32 = out.len() as i32;
    let service = Some("com.company.orders".as_bytes());
    let rc = host.unwrap_dek(service, &garbage, &mut out, &mut out_len);
    assert_ne!(rc, status::OK);
    assert_eq!(out, [0u8; 32], "output buffer must be zeroed on failure");
}

#[test]
fn null_service_is_invalid_argument() {
    let rc = check_wrap_request(None, true, 32, Some(512));
    assert_eq!(rc, Err(status::INVALID_ARGUMENT));
}

#[test]
fn refused_requests_have_their_codes() {
    let name: &[u8] = b"svc";
    assert_eq!(check_wrap_request(Some(name), true, 32, Some(0)), Ok("svc"));
    assert_eq!(check_wrap_request(Some(name), false, 32, Some(0)), Err(status::INVALID_ARGUMENT));
    assert_eq!(check_wrap_request(Some(name), true, 32, None), Err(status::INVALID_ARGUMENT));
    assert_eq!(check_wrap_request(Some(name), true, 32, Some(-1)), Err(status::INVALID_ARGUMENT));
    assert_eq!(check_unwrap_request(Some(name), true, 0, Some(0)), Ok("svc"));
    assert_eq!(check_unwrap_request(Some(name), false, 0, Some(0)), Err(status::INVALID_ARGUMENT));
    assert_eq!(check_unwrap_request(Some(name), true, -1, Some(0)), Err(status::INVALID_ARGUMENT));
    assert_eq!(check_unwrap_request(Some(name), true, 0, Some(-1)), Err(status::INVALID_ARGUMENT));
    assert_eq!(check_unwrap_request(Some(name), true, 0, None), Err(status::INVALID_ARGUMENT));
    assert_eq!(check_wrap_request(Some(b""), true, 32, Some(0)), Err(status::MISSING_SERVICE_NAME));
    assert_eq!(check_unwrap_request(Some(b""), true, 0, Some(0)), Err(status::MISSING_SERVICE_NAME));
}

#[test]
fn service_names_are_utf8_of_1_to_255_bytes() {
    assert_eq!(cstr_to_service(Some("h\u{e9}".as_bytes())), Ok("h\u{e9}"));
    assert_eq!(cstr_to_service(Some(b"")), Err(status::MISSING_SERVICE_NAME));
    assert_eq!(cstr_to_service(None), Err(status::INVALID_ARGUMENT));
    assert_eq!(cstr_to_service(Some(&[0xFF, 0xFE])), Err(status::INVALID_UTF8));
    let long = "a".repeat(255);
    assert_eq!(cstr_to_service(Some(long.as_bytes())), Ok(long.as_str()));
    let longer = "a".repeat(256);
    assert_eq!(cstr_to_service(Some(longer.as_bytes())), Err(status::INVALID_ARGUMENT));
    assert_eq!(cstr_to_service(Some(&[0xFFu8; 300])), Err(status::INVALID_UTF8));
}

#[test]
fn replies_to_wrap_requests() {
    let mut out = [9u8; 6];
    let mut len = 6;
    assert_eq!(deliver_wrapped(Ok(vec![1, 2, 3]), &mut out, true, &mut len), status::OK);
    assert_eq!((out, len), ([1, 2, 3, 9, 9, 9], 3));

    let mut len = 6;
    let code = deliver_wrapped(Ok(vec![1, 2, 3]), &mut [], false, &mut len);
    assert_eq!((code, len), (status::INVALID_ARGUMENT, 6));

    let mut len = 0;
    let code = deliver_wrapped(Ok(vec![1, 2, 3]), &mut [], false, &mut len);
    assert_eq!((code, len), (status::BUFFER_TOO_SMALL, 3));

    let mut out = [9u8; 2];
    let mut len = 2;
    let code = deliver_wrapped(Err(Error::NoProviderAvailable), &mut out, true, &mut len);
    assert_eq!((code, out, len), (status::PROVIDER_UNAVAILABLE, [9, 9], 2));
}

#[test]
fn replies_to_unwrap_requests() {
    let mut out = [9u8; 33];
    let mut len = 33;
    assert_eq!(deliver_unwrapped(Ok([5u8; 32]), &mut out, true, &mut len), status::OK);
    assert_eq!(out[..32], [5u8; 32]);
    assert_eq!((out[32], len), (9, 32));

    let mut out = [9u8; 31];
    let mut len = 31;
    let code = deliver_unwrapped(Ok([5u8; 32]), &mut out, true, &mut len);
    assert_eq!((code, out, len), (status::BUFFER_TOO_SMALL, [0u8; 31], 32));

    let mut len = 40;
    let code = deliver_unwrapped(Ok([5u8; 32]), &mut [], false, &mut len);
    assert_eq!((code, len), (status::INVALID_ARGUMENT, 40));

    let mut out = [9u8; 40];
    let mut len = 40;
    let code = deliver_unwrapped(Err(status::INVALID_ARGUMENT), &mut out, true, &mut len);
    assert_eq!((code, out, len), (status::INVALID_ARGUMENT, [0u8; 40], 40));
}

// The command.

/// Runs the command against a host; the key file lies among the host's files.
fn run_command(host: &mut Host, words: &[&str]) -> Result<String, String> {
    let words: Vec<String> = words.iter().map(|w| w.to_string()).collect();
    let args = match parse_args(words)? {
        ParseOutcome::Run(args) => args,
        ParseOutcome::Help => return Ok("help".to_string()),
    };
    let mut step = run(args);
    loop {
        step = match step {
            RunStep::Exists(query) => {
                let exists = host.disk.files.contains_key(query.file());
                query.answered(exists)
            }
            RunStep::Delete(query) => {
                let r = delete(&mut host.disk, query.file()).map(|_| ());
                query.answered(r)
            }
            RunStep::Wrap(query) => {
                let (service, dek, capacity) = query.parameters();
                let mut buffer = vec![0u8; capacity];
                let mut len = capacity as i32;
                let code =
                    host.wrap_dek(Some(service.as_bytes()), dek, 32, &mut buffer, &mut len);
                query.answered(WrapReply {
                    code,
                    buffer,
                    len: len as usize,
                })
            }
            RunStep::Output(query) => {
                let (path, wrapped) = query.parameters();
                match query.stage() {
                    OutputStage::Open => {
                        host.disk.files.insert(path.to_string(), (vec![], KEY_FILE_MODE));
                    }
                    OutputStage::Write => {
                        host.disk.files.get_mut(path).unwrap().0 = wrapped.to_vec();
                    }
                    OutputStage::Limit => {
                        host.disk.files.get_mut(path).unwrap().1 = KEY_FILE_MODE;
                    }
                }
                query.answered(Ok(()))
            }
            RunStep::Done(message) => return Ok(message),
            RunStep::Failed(message) => return Err(message),
        };
    }
}

/// Deletes a file; the result is what the file was filled with, pass by pass.
fn delete(disk: &mut Disk, path: &str) -> Result<Vec<Vec<u8>>, String> {
    let mut passes = Vec::new();
    let mut step = secure_delete(path);
    loop {
        step = match step {
            DeleteStep::Stat(query) => {
                let len = match disk.files.get(query.file()) {
                    Some((bytes, _)) => Ok(bytes.len()),
                    None => Err("no such file".to_string()),
                };
                query.answered(len)
            }
            DeleteStep::Open(query) => query.answered(Ok(())),
            DeleteStep::Pass(query) => {
                passes.push(query.contents().to_vec());
                disk.files.get_mut(path).unwrap().0 = query.contents().to_vec();
                query.answered(PassOutcome::Done)
            }
            DeleteStep::Remove(query) => {
                disk.files.remove(query.file());
                query.answered(Ok(()))
            }
            DeleteStep::Done => return Ok(passes),
            DeleteStep::Failed(message) => return Err(message),
        };
    }
}

#[test]
fn cli_wrapped_dek_unwraps_to_original_input() {
    let mut host = Host::new();
    let original_dek: [u8; 32] = core::array::from_fn(|i| i as u8);
    let message = run_command(
        &mut host,
        &[
            "hkdfguard-v1-initialize",
            "/out/wrapped.key",
            "--material-identifier",
            "5",
            "--service-name",
            "com.example.orders",
            "--dek",
            &STANDARD.encode(original_dek),
        ],
    )
    .unwrap();
    let (wrapped, mode) = host.disk.files["/out/wrapped.key"].clone();
    assert_eq!(mode, 0o640, "wrapped key file must be written with mode 0640");
    assert_eq!(
        message,
        format!(
            "wrapped key written to /out/wrapped.key ({} bytes, service \"com.example.orders.5\")",
            wrapped.len()
        )
    );

    let mut recovered = [0u8; 32];
    let mut recovered_len: i32 = recovered.len() as i32;
    let rc = host.unwrap_dek(
        Some(b"com.example.orders.5"),
        &wrapped,
        &mut recovered,
        &mut recovered_len,
    );
    assert_eq!(rc, status::OK, "hkdfguard_unwrap_dek failed with status {rc}");
    assert_eq!(recovered_len, 32);
    assert_eq!(recovered, original_dek, "unwrapped DEK must match the original --dek input");
}

#[test]
fn cli_force_overwrite_secure_deletes_then_rewraps() {
    let mut host = Host::new();
    let first_dek: [u8; 32] = core::array::from_fn(|i| i as u8);
    let mut run_cli = |dek: [u8; 32], extra_args: &[&str]| {
        let dek_b64 = STANDARD.encode(dek);
        let common = [
            "hkdfguard-v1-initialize",
            "/out/wrapped.key",
            "--material-identifier",
            "9",
            "--service-name",
            "com.example.rotation",
            "--dek",
            &dek_b64,
        ];
        run_command(&mut host, &[&common[..], extra_args].concat())
    };
    assert!(run_cli(first_dek, &[]).is_ok(), "initial write should succeed");
    let second_dek: [u8; 32] = core::array::from_fn(|i| 255 - i as u8);
    assert!(run_cli(second_dek, &["--force"]).is_ok(), "forced overwrite should succeed");

    let wrapped = host.disk.files["/out/wrapped.key"].0.clone();
    let recovered = host.unwrap("com.example.rotation.9", &wrapped).unwrap();
    assert_eq!(recovered, second_dek, "file must contain the second wrap, not the first");
}

#[test]
fn cli_rejects_pre_existing_file_without_force() {
    let mut host = Host::new();
    host.disk.files.insert(
        "/out/wrapped.key".to_string(),
        (b"pre-existing content".to_vec(), 0o644),
    );
    let dek_b64 = STANDARD.encode([0x42u8; 32]);
    let r = run_command(
        &mut host,
        &[
            "hkdfguard-v1-initialize",
            "/out/wrapped.key",
            "--material-identifier",
            "1",
            "--service-name",
            "com.example.billing",
            "--dek",
            &dek_b64,
        ],
    );
    assert_eq!(
        r,
        Err("/out/wrapped.key already exists; pass --force|-f to overwrite".to_string())
    );
    assert_eq!(
        host.disk.files["/out/wrapped.key"].0,
        b"pre-existing content",
        "existing file must be left untouched without --force"
    );
}

#[test]
fn secure_delete_removes_the_file() {
    let mut disk = Disk::default();
    disk.files.insert("/f".to_string(), (b"sensitive content to be wiped".to_vec(), 0o644));
    let passes = delete(&mut disk, "/f").unwrap();
    assert!(!disk.files.contains_key("/f"));
    assert_eq!(passes.len(), 8);
    for (i, pass) in passes.iter().enumerate() {
        assert_eq!(pass.len(), 29);
        assert_eq!(pass.iter().all(|b| *b == 0), i % 2 == 0);
    }
    assert_ne!(passes[1], passes[3]);
}

#[test]
fn passes_write_zeros_and_what_was_drawn_in_turn() {
    let mut step = match secure_delete("/f") {
        DeleteStep::Stat(query) => query.answered(Ok(3)),
        _ => panic!("unexpected step"),
    };
    let mut passes = Vec::new();
    loop {
        step = match step {
            DeleteStep::Open(query) => query.answered(Ok(())),
            DeleteStep::Pass(query) => {
                passes.push(query.contents().to_vec());
                let drawn = vec![passes.len() as u8; 3];
                query.answered_with(PassOutcome::Done, drawn)
            }
            DeleteStep::Remove(_) => break,
            _ => panic!("unexpected step"),
        };
    }
    let expected: Vec<Vec<u8>> = [0u8, 1, 0, 3, 0, 5, 0, 7].iter().map(|b| vec![*b; 3]).collect();
    assert_eq!(passes, expected);
}

#[test]
fn what_was_written_is_erased() {
    let mut task = FileTask::Write("/f".to_string(), vec![7u8; 4]);
    task.erase_contents();
    assert!(matches!(task, FileTask::Write(path, bytes) if path == "/f" && bytes == [0u8; 4]));
    let mut task = FileTask::SetMode("/f".to_string(), 0o600);
    task.erase_contents();
    assert!(matches!(task, FileTask::SetMode(path, 0o600) if path == "/f"));
}

#[test]
fn secure_delete_handles_an_empty_file() {
    let mut disk = Disk::default();
    disk.files.insert("/f".to_string(), (vec![], 0o644));
    delete(&mut disk, "/f").unwrap();
    assert!(!disk.files.contains_key("/f"));
}

#[test]
fn secure_delete_fails_cleanly_on_a_missing_file() {
    let mut disk = Disk::default();
    assert_eq!(
        delete(&mut disk, "/f"),
        Err("failed to stat /f: no such file".to_string())
    );
}
