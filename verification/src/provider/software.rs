//! Keys in files, encrypted under a vault key that lies beside them.
//!
//! Each service has one key pair, kept as a PKCS#8 document under AES-256-GCM in a file named
//! after the service's fingerprint. The directory is open to its owner only, and so is every
//! file. Since the vault key is a file of the same directory, this guards against stray copies
//! and not against a reader of that directory.
use crate::bytes::{append, array_from, part};
use crate::error::{outcome, Error, ErrorView};
use crate::files::{change_view, FileRead, FileReadView, FileTask, FileTaskView};
use crate::keys::SecretKey;
use crate::primitives::aead::{aes256_gcm_open, aes256_gcm_seal, open_aes256, seal_aes256};
use crate::primitives::curve::{is_scalar, pkcs8_decode, pkcs8_encode};
use crate::primitives::digest::{sha256, sha256_digest};
use crate::primitives::memory::{fill_random, scrub};
use crate::provider::local::LocalHandle;
use crate::provider::ProviderType;
use crate::text::{
    concat2, concat3, concat4, decimal, decimal_text, hex, hex_encode, hex_is_ascii, join_path,
    joined, optional_text,
};
use vstd::prelude::*;
use vstd::slice::slice_to_vec;
use vstd::utf8::encode_utf8;

verus! {

/// Length of the vault key.
pub const VAULT_KEY_LEN: usize = 32;

/// Length of the nonce in front of a stored key.
pub const FILE_NONCE_LEN: usize = 12;

/// Length of the tag behind a stored key.
pub const TAG_LEN: usize = 16;

/// Length of the PKCS#8 document of a P-256 key pair.
pub const PKCS8_DER_LEN: usize = 138;

/// Length of a stored key with its nonce and tag.
pub const STORED_KEY_LEN: usize = 166;

/// Permission bits of the directory: its owner alone may use it.
pub const DIR_MODE: u32 = 0o700;

/// Permission bits of a file: its owner alone may read and write it.
pub const FILE_MODE: u32 = 0o600;

/// The data that is authenticated with every stored key.
pub open spec fn kek_aad() -> Seq<u8> {
    encode_utf8("hkdfguard-software-kek-v1"@)
}

/// A provider error with the given text.
pub open spec fn failure(text: Seq<char>) -> ErrorView {
    ErrorView::Provider(text)
}

/// The file contents that keep a private key, or why there are none.
pub open spec fn stored_key(vault_key: Seq<u8>, nonce: Seq<u8>, secret: Seq<u8>) -> Result<
    Seq<u8>,
    ErrorView,
> {
    match pkcs8_encode(secret) {
        Err(text) => Err(failure("failed to encode KEK as PKCS#8: "@ + text)),
        Ok(der) => if der.len() != PKCS8_DER_LEN {
            Err(
                failure(
                    "unexpected PKCS#8 DER length "@ + decimal(der.len()) + " (expected 138)"@,
                ),
            )
        } else {
            let parts = aes256_gcm_seal(vault_key, nonce, kek_aad(), der);
            Ok(nonce + parts.0 + parts.1)
        },
    }
}

/// The private key that file contents keep, or why there is none.
pub open spec fn loaded_key(vault_key: Seq<u8>, stored: Seq<u8>) -> Result<Seq<u8>, ErrorView> {
    if stored.len() != STORED_KEY_LEN {
        Err(failure("stored KEK file has unexpected length"@))
    } else {
        match aes256_gcm_open(
            vault_key,
            stored.subrange(0, 12),
            kek_aad(),
            stored.subrange(12, 150),
            stored.subrange(150, 166),
        ) {
            None => Err(failure("failed to decrypt stored KEK (corrupt or tampered)"@)),
            Some(der) => match pkcs8_decode(der) {
                Err(text) => Err(failure("stored KEK is not valid PKCS#8: "@ + text)),
                Ok(secret) => Ok(secret),
            },
        }
    }
}

/// The authenticated data is far below AES-GCM's limit.
proof fn aad_is_short()
    ensures
        kek_aad().len() == 25,
{
    reveal_strlit("hkdfguard-software-kek-v1");
    vstd::utf8::is_ascii_chars_encode_utf8("hkdfguard-software-kek-v1"@);
}

/// Encrypts a private key for storage, with a fresh random nonce in front. What is stored loads
/// to the same key under the same vault key.
pub fn encrypt_private_key(vault_key: &[u8; VAULT_KEY_LEN], secret_key: &SecretKey) -> (r: Result<
    Vec<u8>,
    Error,
>)
    requires
        is_scalar(secret_key@),
    ensures
        match r {
            Ok(stored) => {
                &&& stored_key(vault_key@, stored@.take(12), secret_key@) == Ok::<
                    Seq<u8>,
                    ErrorView,
                >(stored@)
                &&& loaded_key(vault_key@, stored@) == Ok::<Seq<u8>, ErrorView>(secret_key@)
            },
            Err(error) => forall|nonce: Seq<u8>|
                stored_key(vault_key@, nonce, secret_key@) == Err::<Seq<u8>, ErrorView>(error@),
        },
{
    let mut nonce: [u8; FILE_NONCE_LEN] = [0u8; FILE_NONCE_LEN];
    fill_random(&mut nonce);
    let r = encrypt_private_key_with(vault_key, secret_key, &nonce);
    assert(r matches Ok(stored) ==> stored@.take(12) =~= nonce@);
    r
}

/// Encrypts a private key for storage with the given nonce.
pub fn encrypt_private_key_with(
    vault_key: &[u8; VAULT_KEY_LEN],
    secret_key: &SecretKey,
    nonce: &[u8; FILE_NONCE_LEN],
) -> (r: Result<Vec<u8>, Error>)
    requires
        is_scalar(secret_key@),
    ensures
        outcome(r) == stored_key(vault_key@, nonce@, secret_key@),
        r matches Ok(stored) ==> {
            &&& stored@.len() == STORED_KEY_LEN
            &&& stored@.take(12) == nonce@
            &&& loaded_key(vault_key@, stored@) == Ok::<Seq<u8>, ErrorView>(secret_key@)
        },
{
    let mut der = match secret_key.to_pkcs8_der() {
        Ok(der) => der,
        Err(text) => return Err(
            Error::Provider(concat2("failed to encode KEK as PKCS#8: ", text.as_str())),
        ),
    };
    if der.len() != PKCS8_DER_LEN {
        let len = decimal_text(der.len() as u64);
        scrub(der.as_mut_slice());
        return Err(
            Error::Provider(
                concat3("unexpected PKCS#8 DER length ", len.as_str(), " (expected 138)"),
            ),
        );
    }
    let mut buf: [u8; PKCS8_DER_LEN] = array_from(der.as_slice());
    let ghost document = der@;
    scrub(der.as_mut_slice());
    proof {
        aad_is_short();
    }
    let tag = match seal_aes256(
        vault_key,
        nonce,
        "hkdfguard-software-kek-v1".as_bytes(),
        &mut buf,
    ) {
        Ok(tag) => tag,
        Err(_) => return Err(
            Error::Provider(String::from_str("failed to encrypt KEK for storage")),
        ),
    };
    let mut out = slice_to_vec(nonce);
    append(&mut out, &buf);
    append(&mut out, &tag);
    proof {
        assert(out@ =~= nonce@ + buf@ + tag@);
        assert(out@.subrange(0, 12) =~= nonce@);
        assert(out@.take(12) =~= nonce@);
        assert(out@.subrange(12, 150) =~= buf@);
        assert(out@.subrange(150, 166) =~= tag@);
    }
    Ok(out)
}

/// Decrypts a stored private key.
pub fn decrypt_private_key(vault_key: &[u8; VAULT_KEY_LEN], stored: &[u8]) -> (r: Result<
    SecretKey,
    Error,
>)
    ensures
        outcome(r) == loaded_key(vault_key@, stored@),
        r matches Ok(secret_key) ==> is_scalar(secret_key@),
{
    if stored.len() != STORED_KEY_LEN {
        return Err(Error::Provider(String::from_str("stored KEK file has unexpected length")));
    }
    let nonce = part(stored, 0, 12);
    let ciphertext = part(stored, 12, 150);
    let tag = part(stored, 150, 166);
    let mut buf: [u8; PKCS8_DER_LEN] = array_from(ciphertext.as_slice());
    let opened = open_aes256(
        vault_key,
        nonce.as_slice(),
        "hkdfguard-software-kek-v1".as_bytes(),
        &mut buf,
        tag.as_slice(),
    );
    if opened.is_err() {
        scrub(&mut buf);
        return Err(
            Error::Provider(String::from_str("failed to decrypt stored KEK (corrupt or tampered)")),
        );
    }
    let decoded = SecretKey::from_pkcs8_der(&buf);
    scrub(&mut buf);
    match decoded {
        Ok(secret_key) => Ok(secret_key),
        Err(text) => Err(
            Error::Provider(concat2("stored KEK is not valid PKCS#8: ", text.as_str())),
        ),
    }
}

/// The tag of a service in file names and payloads: the digest of its name.
pub open spec fn fingerprint(service: Seq<char>) -> Seq<char> {
    hex(sha256(encode_utf8(service)))
}

/// The file that keeps a service's key.
pub open spec fn key_path(dir: Seq<char>, service: Seq<char>) -> Seq<char> {
    joined(dir, fingerprint(service) + ".key"@)
}

/// The file that a service's key is written to before it is moved into place.
pub open spec fn key_scratch_path(dir: Seq<char>, service: Seq<char>) -> Seq<char> {
    joined(dir, fingerprint(service) + ".tmp"@)
}

/// The file that keeps the vault key.
pub open spec fn vault_path(dir: Seq<char>) -> Seq<char> {
    joined(dir, "vault.key"@)
}

/// The file that the vault key is written to before it is moved into place.
pub open spec fn vault_scratch_path(dir: Seq<char>) -> Seq<char> {
    joined(dir, "vault.tmp"@)
}

/// The tag of a service in file names and payloads. It says where a key is kept; the key itself
/// is random.
pub fn service_fingerprint(service: &str) -> (r: String)
    ensures
        r@ == fingerprint(service@),
        r@ == hex(sha256(encode_utf8(service@))),
        r@.len() == 64,
        encode_utf8(r@).len() == 64,
{
    let digest = sha256_digest(service.as_bytes());
    proof {
        hex_is_ascii(digest@);
    }
    hex_encode(&digest)
}

/// The directory that keeps the keys: an explicit setting, else the system's place for the
/// superuser, else one below the user's configuration directory, else one below the directory
/// for temporary files.
pub open spec fn resolved_dir(
    setting: Option<Seq<char>>,
    superuser: bool,
    config_dir: Option<Seq<char>>,
    temp_dir: Seq<char>,
) -> Seq<char> {
    if setting is Some {
        setting->0
    } else if superuser {
        "/var/lib/hkdfguard"@
    } else if config_dir is Some {
        joined(config_dir->0, "hkdfguard"@)
    } else {
        joined(temp_dir, "hkdfguard"@)
    }
}

/// Decides which directory keeps the keys.
pub fn resolve_dir(
    setting: Option<String>,
    superuser: bool,
    config_dir: Option<String>,
    temp_dir: String,
) -> (dir: String)
    ensures
        dir@ == resolved_dir(
            optional_text(setting),
            superuser,
            optional_text(config_dir),
            temp_dir@,
        ),
{
    if let Some(dir) = setting {
        return dir;
    }
    if superuser {
        return String::from_str("/var/lib/hkdfguard");
    }
    match config_dir {
        Some(dir) => join_path(dir.as_str(), "hkdfguard"),
        None => join_path(temp_dir.as_str(), "hkdfguard"),
    }
}

/// What a path leads to.
#[derive(Debug, Clone, Copy, PartialEq, Eq, Structural)]
pub enum PathKind {
    /// Nothing.
    Missing,
    /// A directory. This process can make entries in it where it is `writable`, and can set its
    /// permission bits where it is `adjustable`.
    Directory { writable: bool, adjustable: bool },
    /// Something else, or nothing that this process may look at.
    Other,
}

/// Whether the first of the paths at or after `i` that leads anywhere leads to a directory that can
/// be used: closed to others, where it is the directory itself, or given entries, where it is one
/// of the parents.
pub open spec fn can_be_made_private(kinds: Seq<PathKind>, i: int) -> bool
    decreases kinds.len() - i,
{
    if i >= kinds.len() {
        false
    } else {
        match kinds[i] {
            PathKind::Missing => can_be_made_private(kinds, i + 1),
            PathKind::Directory { writable, adjustable } => if i == 0 {
                adjustable
            } else {
                writable
            },
            PathKind::Other => false,
        }
    }
}

/// The provider that keeps its keys in the files of one directory.
#[derive(Debug)]
pub struct SoftwareProvider {
    dir: String,
}

impl SoftwareProvider {
    /// The directory that keeps the keys.
    pub closed spec fn dir(&self) -> Seq<char> {
        self.dir@
    }

    /// A provider that keeps its keys where [`resolve_dir`] says.
    pub fn new(
        setting: Option<String>,
        superuser: bool,
        config_dir: Option<String>,
        temp_dir: String,
    ) -> (provider: Self)
        ensures
            provider.dir() == resolved_dir(
                optional_text(setting),
                superuser,
                optional_text(config_dir),
                temp_dir@,
            ),
    {
        SoftwareProvider { dir: resolve_dir(setting, superuser, config_dir, temp_dir) }
    }

    /// The type of this provider.
    pub fn provider_type(&self) -> (t: ProviderType)
        ensures
            t == ProviderType::Software,
    {
        ProviderType::Software
    }

    /// The directory that keeps the keys.
    pub fn directory(&self) -> (dir: &str)
        ensures
            dir@ == self.dir(),
    {
        self.dir.as_str()
    }

    /// This provider is reachable where its directory exists and can be closed to others, or can
    /// be made. `kinds` tells what the directory's path and those of its parents lead to,
    /// innermost first. Nothing is made to find out.
    pub fn probe(&self, kinds: &Vec<PathKind>) -> (reachable: bool)
        ensures
            reachable == can_be_made_private(kinds@, 0),
    {
        let mut i: usize = 0;
        while i < kinds.len()
            invariant
                i <= kinds@.len(),
                can_be_made_private(kinds@, 0) == can_be_made_private(kinds@, i as int),
            decreases kinds@.len() - i,
        {
            match kinds[i] {
                PathKind::Missing => {},
                PathKind::Directory { writable, adjustable } => {
                    return if i == 0 {
                        adjustable
                    } else {
                        writable
                    };
                },
                PathKind::Other => return false,
            }
            i += 1;
        }
        false
    }

    /// The file that keeps a service's key.
    pub fn key_path(&self, service: &str) -> (path: String)
        ensures
            path@ == key_path(self.dir(), service@),
    {
        let name = service_fingerprint(service).concat(".key");
        join_path(self.dir.as_str(), name.as_str())
    }

    /// The file that keeps the vault key.
    pub fn vault_key_path(&self) -> (path: String)
        ensures
            path@ == vault_path(self.dir()),
    {
        join_path(self.dir.as_str(), "vault.key")
    }

    /// Starts to load the key of a service, which is made and stored where there is none yet.
    pub fn get_or_create_kek(&self, service: &str) -> (step: LoadStep)
        ensures
            step@ == LoadView::Changing(
                Target { dir: self.dir(), service: service@ },
                ChangeView::CreateDir,
            ),
    {
        LoadStep::Change(
            ChangeQuery {
                dir: self.dir.clone(),
                service: String::from_str(service),
                change: Change::CreateDir,
            },
        )
    }
}

/// The directory and the service that a load is about.
pub struct Target {
    pub dir: Seq<char>,
    pub service: Seq<char>,
}

/// The three phases in which a file appears complete and closed to others, or not at all: it is
/// written under another name, closed, and moved into place.
#[derive(Debug, Clone, Copy, PartialEq, Eq, Structural)]
pub enum WritePhase {
    Write,
    Limit,
    Rename,
}

/// A file to be stored: the vault key, or a private key with the contents that keep it.
enum Item {
    Vault([u8; VAULT_KEY_LEN]),
    Key(SecretKey, Vec<u8>),
}

/// An [`Item`] with its contents as sequences.
pub enum ItemView {
    Vault(Seq<u8>),
    Key(Seq<u8>, Seq<u8>),
}

/// A change that a load waits for.
enum Change {
    CreateDir,
    LimitDir,
    Store(Item, WritePhase),
}

/// A change that a load waits for: the directory to be created or closed to others, or a file to
/// be stored.
pub enum ChangeView {
    CreateDir,
    LimitDir,
    Store(ItemView, WritePhase),
}

/// A file that a load waits for.
enum Wanted {
    Vault,
    Key([u8; VAULT_KEY_LEN]),
}

/// A file that a load waits for: the vault key, or the service's key under a vault key.
pub enum WantedView {
    Vault,
    Key(Seq<u8>),
}

/// What to do next for a load.
pub enum LoadStep {
    /// Change the file system.
    Change(ChangeQuery),
    /// Read a file.
    Read(ReadQuery),
    /// This is the service's key.
    Loaded(LocalHandle),
    /// The load has failed.
    Failed(Error),
}

/// A change to the file system is to be made.
pub struct ChangeQuery {
    dir: String,
    service: String,
    change: Change,
}

/// A file is to be read.
pub struct ReadQuery {
    dir: String,
    service: String,
    wanted: Wanted,
}

/// A [`LoadStep`] by its contents.
pub enum LoadView {
    Changing(Target, ChangeView),
    Reading(Target, WantedView),
    Loaded(Seq<u8>, Seq<u8>),
    Failed(ErrorView),
}

impl View for Item {
    type V = ItemView;

    closed spec fn view(&self) -> ItemView {
        match self {
            Item::Vault(key) => ItemView::Vault(key@),
            Item::Key(secret, contents) => ItemView::Key(secret@, contents@),
        }
    }
}

impl View for Change {
    type V = ChangeView;

    closed spec fn view(&self) -> ChangeView {
        match self {
            Change::CreateDir => ChangeView::CreateDir,
            Change::LimitDir => ChangeView::LimitDir,
            Change::Store(item, phase) => ChangeView::Store(item@, *phase),
        }
    }
}

impl View for Wanted {
    type V = WantedView;

    closed spec fn view(&self) -> WantedView {
        match self {
            Wanted::Vault => WantedView::Vault,
            Wanted::Key(key) => WantedView::Key(key@),
        }
    }
}

impl View for LoadStep {
    type V = LoadView;

    open spec fn view(&self) -> LoadView {
        match self {
            LoadStep::Change(query) => LoadView::Changing(query.target(), query.change()),
            LoadStep::Read(query) => LoadView::Reading(query.target(), query.wanted()),
            LoadStep::Loaded(handle) => LoadView::Loaded(handle.name(), handle.secret()),
            LoadStep::Failed(error) => LoadView::Failed(error@),
        }
    }
}

/// The random values that a load needs where a file is missing.
pub struct Fresh {
    pub vault_key: [u8; VAULT_KEY_LEN],
    pub secret_key: SecretKey,
    pub nonce: [u8; FILE_NONCE_LEN],
}

/// A [`Fresh`] with its values as sequences.
pub struct FreshView {
    pub vault_key: Seq<u8>,
    pub secret_key: Seq<u8>,
    pub nonce: Seq<u8>,
}

impl View for Fresh {
    type V = FreshView;

    open spec fn view(&self) -> FreshView {
        FreshView {
            vault_key: self.vault_key@,
            secret_key: self.secret_key@,
            nonce: self.nonce@,
        }
    }
}

impl FreshView {
    /// The values are of the right kind.
    pub open spec fn valid(self) -> bool {
        &&& self.vault_key.len() == VAULT_KEY_LEN
        &&& is_scalar(self.secret_key)
        &&& self.nonce.len() == FILE_NONCE_LEN
    }
}

impl Fresh {
    /// New random values.
    pub fn random() -> (fresh: Self)
        ensures
            fresh@.valid(),
    {
        let mut vault_key: [u8; VAULT_KEY_LEN] = [0u8; VAULT_KEY_LEN];
        fill_random(&mut vault_key);
        let mut nonce: [u8; FILE_NONCE_LEN] = [0u8; FILE_NONCE_LEN];
        fill_random(&mut nonce);
        Fresh { vault_key, secret_key: SecretKey::random(), nonce }
    }
}

impl Target {
    /// The file that an item is kept in.
    pub open spec fn path(self, item: ItemView) -> Seq<char> {
        match item {
            ItemView::Vault(_) => vault_path(self.dir),
            ItemView::Key(_, _) => key_path(self.dir, self.service),
        }
    }

    /// The file that an item is written to first.
    pub open spec fn scratch_path(self, item: ItemView) -> Seq<char> {
        match item {
            ItemView::Vault(_) => vault_scratch_path(self.dir),
            ItemView::Key(_, _) => key_scratch_path(self.dir, self.service),
        }
    }

    /// The change to the file system that a load waits for.
    pub open spec fn task(self, change: ChangeView) -> FileTaskView {
        match change {
            ChangeView::CreateDir => FileTaskView::CreateDir(self.dir),
            ChangeView::LimitDir => FileTaskView::SetMode(self.dir, DIR_MODE),
            ChangeView::Store(item, WritePhase::Write) => FileTaskView::Write(
                self.scratch_path(item),
                item.contents(),
            ),
            ChangeView::Store(item, WritePhase::Limit) => FileTaskView::SetMode(
                self.scratch_path(item),
                FILE_MODE,
            ),
            ChangeView::Store(item, WritePhase::Rename) => FileTaskView::Rename(
                self.scratch_path(item),
                self.path(item),
            ),
        }
    }

    /// The file that a load wants to read.
    pub open spec fn wanted_path(self, wanted: WantedView) -> Seq<char> {
        match wanted {
            WantedView::Vault => vault_path(self.dir),
            WantedView::Key(_) => key_path(self.dir, self.service),
        }
    }

    /// The end of a load with a private key.
    pub open spec fn loaded(self, secret: Seq<u8>) -> LoadView {
        LoadView::Loaded(encode_utf8(fingerprint(self.service)), secret)
    }

    /// The load after a change was made.
    pub open spec fn after_change(self, change: ChangeView) -> LoadView {
        match change {
            ChangeView::CreateDir => LoadView::Changing(self, ChangeView::LimitDir),
            ChangeView::LimitDir => LoadView::Reading(self, WantedView::Vault),
            ChangeView::Store(item, WritePhase::Write) => LoadView::Changing(
                self,
                ChangeView::Store(item, WritePhase::Limit),
            ),
            ChangeView::Store(item, WritePhase::Limit) => LoadView::Changing(
                self,
                ChangeView::Store(item, WritePhase::Rename),
            ),
            ChangeView::Store(ItemView::Vault(key), WritePhase::Rename) => LoadView::Reading(
                self,
                WantedView::Key(key),
            ),
            ChangeView::Store(ItemView::Key(secret, _), WritePhase::Rename) => self.loaded(secret),
        }
    }

    /// The error after a change failed.
    pub open spec fn change_failure(self, change: ChangeView, reason: Seq<char>) -> Seq<char> {
        match change {
            ChangeView::CreateDir => "failed to create "@ + self.dir + ": "@ + reason,
            ChangeView::LimitDir => "failed to chmod "@ + self.dir + ": "@ + reason,
            ChangeView::Store(item, WritePhase::Write) => "failed to write "@ + self.scratch_path(
                item,
            ) + ": "@ + reason,
            ChangeView::Store(item, WritePhase::Limit) => "failed to chmod "@ + self.scratch_path(
                item,
            ) + ": "@ + reason,
            ChangeView::Store(item, WritePhase::Rename) => "failed to finalize "@ + self.path(item)
                + ": "@ + reason,
        }
    }

    /// The load after the wanted file was read.
    pub open spec fn after_found(self, wanted: WantedView, contents: Seq<u8>) -> LoadView {
        match wanted {
            WantedView::Vault => if contents.len() != VAULT_KEY_LEN {
                LoadView::Failed(
                    failure(
                        "vault key file "@ + vault_path(self.dir) + " has unexpected length"@,
                    ),
                )
            } else {
                LoadView::Reading(self, WantedView::Key(contents))
            },
            WantedView::Key(vault_key) => match loaded_key(vault_key, contents) {
                Ok(secret) => self.loaded(secret),
                Err(error) => LoadView::Failed(error),
            },
        }
    }

    /// The load after the wanted file turned out to be missing.
    pub open spec fn after_missing(self, wanted: WantedView, fresh: FreshView) -> LoadView {
        match wanted {
            WantedView::Vault => LoadView::Changing(
                self,
                ChangeView::Store(ItemView::Vault(fresh.vault_key), WritePhase::Write),
            ),
            WantedView::Key(vault_key) => match stored_key(
                vault_key,
                fresh.nonce,
                fresh.secret_key,
            ) {
                Ok(contents) => LoadView::Changing(
                    self,
                    ChangeView::Store(
                        ItemView::Key(fresh.secret_key, contents),
                        WritePhase::Write,
                    ),
                ),
                Err(error) => LoadView::Failed(error),
            },
        }
    }

    /// The error after the wanted file could not be read.
    pub open spec fn read_failure(self, wanted: WantedView, reason: Seq<char>) -> Seq<char> {
        match wanted {
            WantedView::Vault => "failed to read vault key "@ + vault_path(self.dir) + ": "@
                + reason,
            WantedView::Key(_) => "failed to read KEK file "@ + key_path(self.dir, self.service)
                + ": "@ + reason,
        }
    }
}

impl ItemView {
    /// What the item's file holds.
    pub open spec fn contents(self) -> Seq<u8> {
        match self {
            ItemView::Vault(key) => key,
            ItemView::Key(_, contents) => contents,
        }
    }
}

impl Item {
    /// The file that the item is kept in.
    fn path(&self, dir: &str, service: &str) -> (path: String)
        ensures
            path@ == (Target { dir: dir@, service: service@ }).path(self@),
    {
        match self {
            Item::Vault(_) => join_path(dir, "vault.key"),
            Item::Key(_, _) => {
                let name = service_fingerprint(service).concat(".key");
                join_path(dir, name.as_str())
            },
        }
    }

    /// The file that the item is written to first.
    fn scratch_path(&self, dir: &str, service: &str) -> (path: String)
        ensures
            path@ == (Target { dir: dir@, service: service@ }).scratch_path(self@),
    {
        match self {
            Item::Vault(_) => join_path(dir, "vault.tmp"),
            Item::Key(_, _) => {
                let name = service_fingerprint(service).concat(".tmp");
                join_path(dir, name.as_str())
            },
        }
    }

    /// What the item's file holds.
    fn contents(&self) -> (contents: Vec<u8>)
        ensures
            contents@ == self@.contents(),
    {
        match self {
            Item::Vault(key) => slice_to_vec(key),
            Item::Key(_, contents) => slice_to_vec(contents.as_slice()),
        }
    }
}

impl ChangeQuery {
    #[verifier::type_invariant]
    closed spec fn valid(self) -> bool {
        self.change@ matches ChangeView::Store(ItemView::Key(secret, _), _) ==> is_scalar(secret)
    }

    /// The directory and the service.
    pub closed spec fn target(&self) -> Target {
        Target { dir: self.dir@, service: self.service@ }
    }

    /// The change that is waited for.
    pub closed spec fn change(&self) -> ChangeView {
        self.change@
    }

    /// The change to make.
    pub fn task(&self) -> (task: FileTask)
        ensures
            task@ == self.target().task(self.change()),
    {
        match &self.change {
            Change::CreateDir => FileTask::CreateDir(self.dir.clone()),
            Change::LimitDir => FileTask::SetMode(self.dir.clone(), DIR_MODE),
            Change::Store(item, phase) => {
                let scratch = item.scratch_path(self.dir.as_str(), self.service.as_str());
                match phase {
                    WritePhase::Write => FileTask::Write(scratch, item.contents()),
                    WritePhase::Limit => FileTask::SetMode(scratch, FILE_MODE),
                    WritePhase::Rename => FileTask::Rename(
                        scratch,
                        item.path(self.dir.as_str(), self.service.as_str()),
                    ),
                }
            },
        }
    }

    /// Goes on after the change was made, or after it failed with a reason.
    pub fn answered(self, r: Result<(), String>) -> (step: LoadStep)
        ensures
            step@ matches LoadView::Loaded(name, secret) ==> name.len() == 64 && is_scalar(
                secret,
            ),
            step@ == match change_view(r) {
                Ok(_) => self.target().after_change(self.change()),
                Err(reason) => LoadView::Failed(
                    failure(self.target().change_failure(self.change(), reason)),
                ),
            },
    {
        match r {
            Ok(_) => self.made(),
            Err(reason) => self.failed(reason),
        }
    }

    /// Goes on after the change was made.
    fn made(self) -> (step: LoadStep)
        ensures
            step@ matches LoadView::Loaded(name, secret) ==> name.len() == 64 && is_scalar(
                secret,
            ),
            step@ == self.target().after_change(self.change()),
    {
        proof {
            use_type_invariant(&self);
        }
        let ChangeQuery { dir, service, change } = self;
        match change {
            Change::CreateDir => LoadStep::Change(
                ChangeQuery { dir, service, change: Change::LimitDir },
            ),
            Change::LimitDir => LoadStep::Read(ReadQuery { dir, service, wanted: Wanted::Vault }),
            Change::Store(item, phase) => match phase {
                WritePhase::Write => LoadStep::Change(
                    ChangeQuery { dir, service, change: Change::Store(item, WritePhase::Limit) },
                ),
                WritePhase::Limit => LoadStep::Change(
                    ChangeQuery { dir, service, change: Change::Store(item, WritePhase::Rename) },
                ),
                WritePhase::Rename => match item {
                    Item::Vault(key) => LoadStep::Read(
                        ReadQuery { dir, service, wanted: Wanted::Key(key) },
                    ),
                    Item::Key(secret, _) => LoadStep::Loaded(handle_for(service.as_str(), secret)),
                },
            },
        }
    }

    /// Goes on after the change failed.
    fn failed(self, reason: String) -> (step: LoadStep)
        ensures
            step@ == LoadView::Failed(
                failure(self.target().change_failure(self.change(), reason@)),
            ),
    {
        let ChangeQuery { dir, service, change } = self;
        let (dir, service) = (dir.as_str(), service.as_str());
        let text = match &change {
            Change::CreateDir => concat4("failed to create ", dir, ": ", reason.as_str()),
            Change::LimitDir => concat4("failed to chmod ", dir, ": ", reason.as_str()),
            Change::Store(item, phase) => match phase {
                WritePhase::Write => concat4(
                    "failed to write ",
                    item.scratch_path(dir, service).as_str(),
                    ": ",
                    reason.as_str(),
                ),
                WritePhase::Limit => concat4(
                    "failed to chmod ",
                    item.scratch_path(dir, service).as_str(),
                    ": ",
                    reason.as_str(),
                ),
                WritePhase::Rename => concat4(
                    "failed to finalize ",
                    item.path(dir, service).as_str(),
                    ": ",
                    reason.as_str(),
                ),
            },
        };
        if let Change::Store(item, _) = change {
            match item {
                Item::Vault(key) => {
                    let mut key = key;
                    scrub(&mut key);
                },
                Item::Key(secret, _) => {
                    let mut secret = secret;
                    secret.erase();
                },
            }
        }
        LoadStep::Failed(Error::Provider(text))
    }
}

/// A service's private key under the name that this provider gives it.
fn handle_for(service: &str, secret_key: SecretKey) -> (handle: LocalHandle)
    ensures
        handle.name() == encode_utf8(fingerprint(service@)),
        handle.name().len() == 64,
        handle.secret() == secret_key@,
{
    let id = service_fingerprint(service);
    LocalHandle::new(slice_to_vec(id.as_str().as_bytes()), secret_key)
}

impl ReadQuery {
    /// The directory and the service.
    pub closed spec fn target(&self) -> Target {
        Target { dir: self.dir@, service: self.service@ }
    }

    /// The file that is waited for.
    pub closed spec fn wanted(&self) -> WantedView {
        self.wanted@
    }

    /// The file to read.
    pub fn path(&self) -> (path: String)
        ensures
            path@ == self.target().wanted_path(self.wanted()),
    {
        match &self.wanted {
            Wanted::Vault => join_path(self.dir.as_str(), "vault.key"),
            Wanted::Key(_) => {
                let name = service_fingerprint(self.service.as_str()).concat(".key");
                join_path(self.dir.as_str(), name.as_str())
            },
        }
    }

    /// Goes on with the outcome of the read. Where the file is missing, a random key takes its
    /// place and is stored. The contents that are stored for a private key load to that key.
    pub fn answered(self, read: FileRead) -> (step: LoadStep)
        ensures
            step@ matches LoadView::Changing(
                _,
                ChangeView::Store(ItemView::Key(secret, contents), _),
            ) ==> self.wanted() matches WantedView::Key(vault_key) && loaded_key(
                vault_key,
                contents,
            ) == Ok::<Seq<u8>, ErrorView>(secret),
            step@ matches LoadView::Loaded(name, secret) ==> name.len() == 64 && is_scalar(
                secret,
            ),
            match read@ {
                FileReadView::Contents(contents) => step@ == self.target().after_found(
                    self.wanted(),
                    contents,
                ),
                FileReadView::NotFound => exists|fresh: FreshView|
                    fresh.valid() && step@ == #[trigger] self.target().after_missing(
                        self.wanted(),
                        fresh,
                    ),
                FileReadView::Failed(reason) => step@ == LoadView::Failed(
                    failure(self.target().read_failure(self.wanted(), reason)),
                ),
            },
    {
        match read {
            FileRead::Contents(contents) => self.found(contents),
            FileRead::NotFound => self.missing(Fresh::random()),
            FileRead::Failed(reason) => self.failed(reason),
        }
    }

    /// Goes on with the contents of the file.
    pub fn found(self, contents: Vec<u8>) -> (step: LoadStep)
        ensures
            step@ matches LoadView::Loaded(name, secret) ==> name.len() == 64 && is_scalar(
                secret,
            ),
            step@ == self.target().after_found(self.wanted(), contents@),
    {
        let ReadQuery { dir, service, wanted } = self;
        let mut contents = contents;
        match wanted {
            Wanted::Vault => {
                if contents.len() != VAULT_KEY_LEN {
                    scrub(contents.as_mut_slice());
                    let path = join_path(dir.as_str(), "vault.key");
                    return LoadStep::Failed(
                        Error::Provider(
                            concat3("vault key file ", path.as_str(), " has unexpected length"),
                        ),
                    );
                }
                let key: [u8; VAULT_KEY_LEN] = array_from(contents.as_slice());
                scrub(contents.as_mut_slice());
                LoadStep::Read(ReadQuery { dir, service, wanted: Wanted::Key(key) })
            },
            Wanted::Key(vault_key) => {
                let mut vault_key = vault_key;
                let r = decrypt_private_key(&vault_key, contents.as_slice());
                scrub(&mut vault_key);
                match r {
                    Ok(secret) => LoadStep::Loaded(handle_for(service.as_str(), secret)),
                    Err(error) => LoadStep::Failed(error),
                }
            },
        }
    }

    /// Goes on with random values in place of a missing file. The contents that are stored for a
    /// fresh key load to that key.
    pub fn missing(self, fresh: Fresh) -> (step: LoadStep)
        requires
            fresh@.valid(),
        ensures
            step@ == self.target().after_missing(self.wanted(), fresh@),
            step@ matches LoadView::Changing(
                _,
                ChangeView::Store(ItemView::Key(secret, contents), _),
            ) ==> self.wanted() matches WantedView::Key(vault_key) && loaded_key(
                vault_key,
                contents,
            ) == Ok::<Seq<u8>, ErrorView>(secret),
    {
        let ReadQuery { dir, service, wanted } = self;
        let Fresh { vault_key: fresh_vault_key, secret_key, nonce } = fresh;
        let (mut fresh_vault_key, mut secret_key) = (fresh_vault_key, secret_key);
        match wanted {
            Wanted::Vault => {
                secret_key.erase();
                LoadStep::Change(
                    ChangeQuery {
                        dir,
                        service,
                        change: Change::Store(Item::Vault(fresh_vault_key), WritePhase::Write),
                    },
                )
            },
            Wanted::Key(vault_key) => {
                scrub(&mut fresh_vault_key);
                let mut vault_key = vault_key;
                let r = encrypt_private_key_with(&vault_key, &secret_key, &nonce);
                scrub(&mut vault_key);
                match r {
                    Ok(contents) => LoadStep::Change(
                        ChangeQuery {
                            dir,
                            service,
                            change: Change::Store(
                                Item::Key(secret_key, contents),
                                WritePhase::Write,
                            ),
                        },
                    ),
                    Err(error) => {
                        secret_key.erase();
                        LoadStep::Failed(error)
                    },
                }
            },
        }
    }

    /// Goes on after the file could not be read.
    fn failed(self, reason: String) -> (step: LoadStep)
        ensures
            step@ == LoadView::Failed(failure(self.target().read_failure(self.wanted(), reason@))),
    {
        let path = self.path();
        let text = match &self.wanted {
            Wanted::Vault => concat4(
                "failed to read vault key ",
                path.as_str(),
                ": ",
                reason.as_str(),
            ),
            Wanted::Key(_) => concat4(
                "failed to read KEK file ",
                path.as_str(),
                ": ",
                reason.as_str(),
            ),
        };
        if let Wanted::Key(vault_key) = self.wanted {
            let mut vault_key = vault_key;
            scrub(&mut vault_key);
        }
        LoadStep::Failed(Error::Provider(text))
    }
}

} // verus!
