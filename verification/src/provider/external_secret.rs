//! Keys that the deployment platform provides as files.
//!
//! The key of a service is the file of that name in the first directory of a list that exists.
//! It is a PKCS#8 document or 32 bytes of private key. This provider never makes a key: without
//! a file for the service it declines, and the next provider is asked.
use crate::bytes::{array_from, same_bytes};
use crate::error::{outcome, Error, ErrorView};
use crate::files::{FileRead, FileReadView};
use crate::keys::SecretKey;
use crate::primitives::curve::{is_scalar, pkcs8_decode};
use crate::primitives::memory::scrub;
use crate::provider::local::LocalHandle;
use crate::provider::ProviderType;
use crate::status;
use crate::text::{concat2, concat4, join_path, joined, texts, utf8_is_injective};
use vstd::prelude::*;
use vstd::slice::slice_to_vec;
use vstd::utf8::encode_utf8;

verus! {

/// A directory that may hold the keys.
#[derive(Debug)]
pub struct Mount {
    pub path: String,
    /// Whether the path is that of a directory.
    pub is_dir: bool,
}

/// The provider that reads its keys from a directory, where there is one.
#[derive(Debug)]
pub struct ExternalSecretProvider {
    dir: Option<String>,
}

/// The directories that are looked at without an explicit setting, in order.
pub open spec fn default_mounts() -> Seq<Seq<char>> {
    seq![
        "/var/run/secrets/hkdfguard"@,
        "/run/secrets/hkdfguard"@,
        "/vault/secrets/hkdfguard"@,
        "/mnt/secrets-store/hkdfguard"@,
    ]
}

/// The directories to look at, in order: the explicit setting alone where there is one.
pub fn candidate_mounts(setting: Option<String>) -> (paths: Vec<String>)
    ensures
        texts(paths@) == match setting {
            Some(dir) => seq![dir@],
            None => default_mounts(),
        },
{
    let mut paths: Vec<String> = Vec::new();
    if let Some(dir) = setting {
        paths.push(dir);
        assert(texts(paths@) =~= seq![dir@]);
        return paths;
    }
    paths.push(String::from_str("/var/run/secrets/hkdfguard"));
    paths.push(String::from_str("/run/secrets/hkdfguard"));
    paths.push(String::from_str("/vault/secrets/hkdfguard"));
    paths.push(String::from_str("/mnt/secrets-store/hkdfguard"));
    assert(texts(paths@) =~= default_mounts());
    paths
}

/// The first directory among the mounts at or after `i`.
pub open spec fn first_dir(mounts: Seq<Mount>, i: int) -> Option<Seq<char>>
    decreases mounts.len() - i,
{
    if i >= mounts.len() {
        None
    } else if mounts[i].is_dir {
        Some(mounts[i].path@)
    } else {
        first_dir(mounts, i + 1)
    }
}

/// The name of a service's key.
pub open spec fn external_id(service: Seq<char>) -> Seq<u8> {
    encode_utf8("external:"@ + service)
}

/// The private key in a secret file, or why there is none.
pub open spec fn parsed_secret(bytes: Seq<u8>) -> Result<Seq<u8>, ErrorView> {
    if bytes.len() == 32 {
        if is_scalar(bytes) {
            Ok(bytes)
        } else {
            Err(ErrorView::Provider("invalid raw external KEK scalar: "@ + "crypto error"@))
        }
    } else {
        match pkcs8_decode(bytes) {
            Ok(secret) => Ok(secret),
            Err(text) => Err(
                ErrorView::Provider("external secret is not a valid P-256 key: "@ + text),
            ),
        }
    }
}

/// The private key that the outcome of reading a secret file gives, or why there is none.
pub open spec fn loaded_secret(
    dir: Option<Seq<char>>,
    service: Seq<char>,
    read: FileReadView,
) -> Result<Seq<u8>, ErrorView> {
    if dir is None {
        Err(ErrorView::KeyNotProvisioned("no external secret mount found"@))
    } else {
        match read {
            FileReadView::Contents(bytes) => parsed_secret(bytes),
            FileReadView::NotFound => Err(
                ErrorView::KeyNotProvisioned("no secret file provisioned for this service"@),
            ),
            FileReadView::Failed(reason) => Err(
                ErrorView::Provider(
                    "failed to read external secret "@ + joined(dir->0, service) + ": "@ + reason,
                ),
            ),
        }
    }
}

/// Reads a private key from the bytes of a secret file.
pub fn parse_secret_key(bytes: &[u8]) -> (r: Result<SecretKey, Error>)
    ensures
        outcome(r) == parsed_secret(bytes@),
        r matches Ok(key) ==> is_scalar(key@),
{
    if bytes.len() == 32 {
        let mut scalar: [u8; 32] = array_from(bytes);
        let r = SecretKey::from_scalar_bytes(&scalar);
        scrub(&mut scalar);
        return match r {
            Ok(key) => Ok(key),
            Err(text) => Err(
                Error::Provider(concat2("invalid raw external KEK scalar: ", text.as_str())),
            ),
        };
    }
    match SecretKey::from_pkcs8_der(bytes) {
        Ok(key) => Ok(key),
        Err(text) => Err(
            Error::Provider(concat2("external secret is not a valid P-256 key: ", text.as_str())),
        ),
    }
}

impl ExternalSecretProvider {
    /// The directory that holds the keys.
    pub closed spec fn dir(&self) -> Option<Seq<char>> {
        match self.dir {
            Some(dir) => Some(dir@),
            None => None,
        }
    }

    /// A provider that reads from the first mount that is a directory.
    pub fn new(mounts: Vec<Mount>) -> (provider: Self)
        ensures
            provider.dir() == first_dir(mounts@, 0),
    {
        let mut i: usize = 0;
        while i < mounts.len()
            invariant
                i <= mounts@.len(),
                first_dir(mounts@, 0) == first_dir(mounts@, i as int),
            decreases mounts@.len() - i,
        {
            if mounts[i].is_dir {
                return ExternalSecretProvider { dir: Some(mounts[i].path.clone()) };
            }
            i += 1;
        }
        ExternalSecretProvider { dir: None }
    }

    /// The type of this provider.
    pub fn provider_type(&self) -> (t: ProviderType)
        ensures
            t == ProviderType::ExternalSecret,
    {
        ProviderType::ExternalSecret
    }

    /// This provider is reachable where there is a directory.
    pub fn probe(&self) -> (reachable: bool)
        ensures
            reachable == (self.dir() is Some),
    {
        self.dir.is_some()
    }

    /// The file that holds the key of a service.
    pub fn secret_path(&self, service: &str) -> (path: Option<String>)
        ensures
            match self.dir() {
                Some(dir) => path matches Some(p) && p@ == joined(dir, service@),
                None => path is None,
            },
    {
        match &self.dir {
            Some(dir) => Some(join_path(dir.as_str(), service)),
            None => None,
        }
    }

    /// The key of a service, given the outcome of reading the file at
    /// [`ExternalSecretProvider::secret_path`]. The bytes of the file are scrubbed.
    pub fn get_or_create_kek(&self, service: &str, read: FileRead) -> (r: Result<
        LocalHandle,
        Error,
    >)
        ensures
            match r {
                Ok(handle) => {
                    &&& loaded_secret(self.dir(), service@, read@) == Ok::<Seq<u8>, ErrorView>(
                        handle.secret(),
                    )
                    &&& handle.name() == external_id(service@)
                    &&& is_scalar(handle.secret())
                },
                Err(error) => loaded_secret(self.dir(), service@, read@) == Err::<
                    Seq<u8>,
                    ErrorView,
                >(error@),
            },
    {
        let path = match self.secret_path(service) {
            Some(path) => path,
            None => return Err(Error::KeyNotProvisioned("no external secret mount found")),
        };
        let mut bytes = match read {
            FileRead::Contents(bytes) => bytes,
            FileRead::NotFound => return Err(
                Error::KeyNotProvisioned("no secret file provisioned for this service"),
            ),
            FileRead::Failed(reason) => return Err(
                Error::Provider(
                    concat4(
                        "failed to read external secret ",
                        path.as_str(),
                        ": ",
                        reason.as_str(),
                    ),
                ),
            ),
        };
        let parsed = parse_secret_key(bytes.as_slice());
        scrub(bytes.as_mut_slice());
        let secret_key = parsed?;
        let id = concat2("external:", service);
        Ok(LocalHandle::new(slice_to_vec(id.as_str().as_bytes()), secret_key))
    }
}

/// The error of an unwrapping for which this provider gave no key. Where there is no key for the
/// service because the payload was wrapped for another one, the payload is refused as a tampered
/// one is.
pub open spec fn refused_unwrap(
    service: Seq<char>,
    key_id: Seq<u8>,
    error: ErrorView,
) -> ErrorView {
    if error is KeyNotProvisioned && key_id != external_id(service) {
        ErrorView::Crypto(
            "AES-256-GCM authentication failed (tampered, wrong service, or wrong KEK)"@,
        )
    } else {
        error
    }
}

/// Tells a payload of another service, which `key_id` names, from one whose key is missing.
pub fn refuse_unwrap(service: &str, key_id: &[u8], error: Error) -> (r: Error)
    ensures
        r@ == refused_unwrap(service@, key_id@, error@),
{
    if let Error::KeyNotProvisioned(_) = &error {
        let id = concat2("external:", service);
        if !same_bytes(key_id, id.as_str().as_bytes()) {
            return Error::Crypto(
                "AES-256-GCM authentication failed (tampered, wrong service, or wrong KEK)",
            );
        }
    }
    error
}

/// An unwrapping for another service than the one that the payload was wrapped for is a
/// cryptographic error even where the provider has no key for it, and one for the right service
/// without its key is a provider error.
pub proof fn mismatches_are_crypto_errors(
    service: Seq<char>,
    wrapped_for: Seq<char>,
    dir: Option<Seq<char>>,
)
    ensures
        ({
            let error = loaded_secret(dir, service, FileReadView::NotFound)->Err_0;
            let refused = refused_unwrap(service, external_id(wrapped_for), error);
            if service == wrapped_for {
                refused.code() == status::PROVIDER_ERROR
            } else {
                refused.code() == status::CRYPTO_ERROR
            }
        }),
{
    if service != wrapped_for && external_id(service) == external_id(wrapped_for) {
        let prefix = "external:"@;
        utf8_is_injective(prefix + service, prefix + wrapped_for);
        assert((prefix + service).skip(prefix.len() as int) =~= service);
        assert((prefix + wrapped_for).skip(prefix.len() as int) =~= wrapped_for);
    }
}

} // verus!
