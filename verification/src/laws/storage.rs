//! The keys in files and the keys that are provided, said of names, bytes and digests.
use crate::error::ErrorView;
use crate::files::{
    change_view, changed, read_of, FileRead, FileReadView, FileTask, FileTaskView, Files,
};
use crate::laws::text::{hex_is_injective, joined_paths_keep_both_parts};
use crate::primitives::aead::{aes256_gcm_open, aes256_gcm_seal};
use crate::primitives::curve::{is_scalar, pkcs8_decode, pkcs8_encode};
use crate::primitives::digest::sha256;
use crate::primitives::memory::zeros;
use crate::provider::ephemeral::{ephemeral_id, with_key, Keys};
use crate::provider::external_secret::{
    default_mounts, external_id, first_dir, loaded_secret, parsed_secret, refused_unwrap, Mount,
};
use crate::provider::persistence::{
    key_files_are_distinct, load_run, load_start, services_do_not_disturb_each_other,
};
use crate::provider::software::{
    can_be_made_private, failure, fingerprint, key_path, key_scratch_path, loaded_key,
    resolved_dir, stored_key, vault_path, vault_scratch_path, ChangeView, FreshView, ItemView,
    LoadView, PathKind, Target, WantedView, WritePhase,
};
use crate::text::{decimal, hex, joined, utf8_is_injective};
use vstd::prelude::*;
use vstd::utf8::encode_utf8;

verus! {

/// The tag of a service is the digest of all bytes of its name, in lowercase hexadecimal digits;
/// the files of the service and the vault key are named after it and after the vault, and lie in
/// the directory.
pub proof fn files_are_named_after_the_whole_service(dir: Seq<char>, service: Seq<char>)
    ensures
        fingerprint(service) == hex(sha256(encode_utf8(service))),
        key_path(dir, service) == joined(dir, hex(sha256(encode_utf8(service))) + ".key"@),
        key_scratch_path(dir, service) == joined(dir, hex(sha256(encode_utf8(service))) + ".tmp"@),
        vault_path(dir) == joined(dir, "vault.key"@),
        vault_scratch_path(dir) == joined(dir, "vault.tmp"@),
{
}

/// A name that ends a joined path can be read off it, where it is not absolute.
proof fn joined_names_differ(dir: Seq<char>, a: Seq<char>, b: Seq<char>)
    requires
        a.len() > 0 && a[0] != '/',
        b.len() > 0 && b[0] != '/',
        a != b,
    ensures
        joined(dir, a) != joined(dir, b),
{
    joined_paths_keep_both_parts(dir, a);
    joined_paths_keep_both_parts(dir, b);
    let front = if dir.len() == 0 || dir[dir.len() - 1] as int == 47 {
        dir
    } else {
        dir.push('/')
    };
    assert(a[0] as int != 47 && b[0] as int != 47);
    assert((front + a).skip(front.len() as int) =~= a);
    assert((front + b).skip(front.len() as int) =~= b);
}

/// The name of a service's file is not absolute, and its digest can be read off it.
proof fn file_names_hold_the_digest(service: Seq<char>)
    ensures
        ({
            let tag = hex(sha256(encode_utf8(service)));
            &&& (tag + ".key"@).len() > 0 && (tag + ".key"@)[0] != '/'
            &&& (tag + ".tmp"@).len() > 0 && (tag + ".tmp"@)[0] != '/'
            &&& (tag + ".key"@).take(tag.len() as int) == tag
            &&& (tag + ".tmp"@).take(tag.len() as int) == tag
            &&& (tag + ".key"@).len() == tag.len() + 4
            &&& (tag + ".tmp"@).len() == tag.len() + 4
            &&& (tag + ".key"@).last() == 'y'
            &&& (tag + ".tmp"@).last() == 'p'
        }),
{
    reveal_strlit(".key");
    reveal_strlit(".tmp");
    let digest = sha256(encode_utf8(service));
    let tag = hex(digest);
    crate::laws::text::hex_digits_spell_the_bytes(digest);
    assert((tag + ".key"@).take(tag.len() as int) =~= tag);
    assert((tag + ".tmp"@).take(tag.len() as int) =~= tag);
    if digest.len() > 0 {
        let c = tag[0];
        let first: int = 0;
        assert(crate::laws::text::nibble(hex(digest)[2 * first]) == digest[0] as int / 16);
        assert(crate::laws::text::nibble(c) >= 0);
        assert((tag + ".key"@)[0] == c && (tag + ".tmp"@)[0] == c);
    }
}

/// Two different services have their digests taken of different bytes; and where the digests
/// differ, so do their tags and all of their files.
pub proof fn services_have_their_own_files(dir: Seq<char>, a: Seq<char>, b: Seq<char>)
    requires
        a != b,
    ensures
        encode_utf8(a) != encode_utf8(b),
        fingerprint(a) == hex(sha256(encode_utf8(a))),
        fingerprint(b) == hex(sha256(encode_utf8(b))),
        sha256(encode_utf8(a)) != sha256(encode_utf8(b)) ==> {
            &&& fingerprint(a) != fingerprint(b)
            &&& key_path(dir, a) != key_path(dir, b)
            &&& key_path(dir, a) != key_scratch_path(dir, b)
            &&& key_scratch_path(dir, a) != key_scratch_path(dir, b)
            &&& key_scratch_path(dir, a) != key_path(dir, b)
        },
{
    if encode_utf8(a) == encode_utf8(b) {
        utf8_is_injective(a, b);
    }
    if sha256(encode_utf8(a)) != sha256(encode_utf8(b)) {
        let (x, y) = (hex(sha256(encode_utf8(a))), hex(sha256(encode_utf8(b))));
        if x == y {
            hex_is_injective(sha256(encode_utf8(a)), sha256(encode_utf8(b)));
        }
        files_are_named_after_the_whole_service(dir, a);
        files_are_named_after_the_whole_service(dir, b);
        file_names_hold_the_digest(a);
        file_names_hold_the_digest(b);
        assert(x + ".key"@ != y + ".key"@);
        assert(x + ".tmp"@ != y + ".tmp"@);
        assert(x + ".key"@ != y + ".tmp"@);
        assert(x + ".tmp"@ != y + ".key"@);
        joined_names_differ(dir, x + ".key"@, y + ".key"@);
        joined_names_differ(dir, x + ".key"@, y + ".tmp"@);
        joined_names_differ(dir, x + ".tmp"@, y + ".tmp"@);
        joined_names_differ(dir, x + ".tmp"@, y + ".key"@);
    }
}

/// A load of one service neither reads nor writes the key file of another, where their digests
/// differ: whatever that file holds, the load ends the same way, and the file is as it was.
pub proof fn loads_leave_other_services_alone(
    dir: Seq<char>,
    a: Seq<char>,
    b: Seq<char>,
    files: Files,
    fresh: FreshView,
    contents: Seq<u8>,
)
    requires
        sha256(encode_utf8(a)) != sha256(encode_utf8(b)),
    ensures
        ({
            let load = load_start((Target { dir, service: a }));
            let path = joined(dir, hex(sha256(encode_utf8(b))) + ".key"@);
            let other = files.insert(path, contents);
            &&& load_run(load, other, fresh).0 == load_run(load, files, fresh).0
            &&& read_of(load_run(load, files, fresh).1, path) == read_of(files, path)
            &&& read_of(load_run(load, other, fresh).1, path) == FileReadView::Contents(contents)
        }),
{
    let target = Target { dir, service: a };
    let path = joined(dir, hex(sha256(encode_utf8(b))) + ".key"@);
    let other = files.insert(path, contents);
    services_have_their_own_files(dir, a, b);
    files_are_named_after_the_whole_service(dir, b);
    key_files_are_distinct(dir, a);
    key_files_are_distinct(dir, b);
    services_do_not_disturb_each_other(target, files, fresh, path);
    services_do_not_disturb_each_other(target, other, fresh, path);
    reveal_with_fuel(load_run, 12);
}

/// A private key is stored as its PKCS#8 document, sealed by AES-256-GCM under the vault key behind
/// its nonce; only documents of 138 bytes are stored.
pub proof fn stored_keys_are_sealed_documents(
    vault_key: Seq<u8>,
    nonce: Seq<u8>,
    secret: Seq<u8>,
)
    ensures
        match pkcs8_encode(secret) {
            Err(text) => stored_key(vault_key, nonce, secret) == Err::<Seq<u8>, ErrorView>(
                ErrorView::Provider("failed to encode KEK as PKCS#8: "@ + text),
            ),
            Ok(der) => {
                let parts = aes256_gcm_seal(
                    vault_key,
                    nonce,
                    encode_utf8("hkdfguard-software-kek-v1"@),
                    der,
                );
                stored_key(vault_key, nonce, secret) == (if der.len() == 138 {
                    Ok::<Seq<u8>, ErrorView>(nonce + parts.0 + parts.1)
                } else {
                    Err(
                        ErrorView::Provider(
                            "unexpected PKCS#8 DER length "@ + decimal(der.len())
                                + " (expected 138)"@,
                        ),
                    )
                })
            },
        },
{
}

/// A stored key is 12 bytes of nonce, 138 of ciphertext and 16 of tag, opened by AES-256-GCM under
/// the vault key; what opens is the PKCS#8 document of the private key.
pub proof fn stored_keys_are_opened_and_decoded(vault_key: Seq<u8>, stored: Seq<u8>)
    ensures
        stored.len() != 166 ==> loaded_key(vault_key, stored) == Err::<Seq<u8>, ErrorView>(
            ErrorView::Provider("stored KEK file has unexpected length"@),
        ),
        stored.len() == 166 ==> loaded_key(vault_key, stored) == (match aes256_gcm_open(
            vault_key,
            stored.subrange(0, 12),
            encode_utf8("hkdfguard-software-kek-v1"@),
            stored.subrange(12, 150),
            stored.subrange(150, 166),
        ) {
            None => Err::<Seq<u8>, ErrorView>(
                ErrorView::Provider("failed to decrypt stored KEK (corrupt or tampered)"@),
            ),
            Some(der) => match pkcs8_decode(der) {
                Ok(secret) => Ok(secret),
                Err(text) => Err(
                    ErrorView::Provider("stored KEK is not valid PKCS#8: "@ + text),
                ),
            },
        }),
{
}

/// Where the keys are kept: an explicit setting goes before the superuser's directory, that before
/// the user's, that before the temporary one.
pub proof fn the_directory_is_chosen_in_order(
    setting: Seq<char>,
    superuser: bool,
    config: Seq<char>,
    config_dir: Option<Seq<char>>,
    temp: Seq<char>,
)
    ensures
        resolved_dir(Some(setting), superuser, config_dir, temp) == setting,
        resolved_dir(None, true, config_dir, temp) == "/var/lib/hkdfguard"@,
        resolved_dir(None, false, Some(config), temp) == joined(config, "hkdfguard"@),
        resolved_dir(None, false, None, temp) == joined(temp, "hkdfguard"@),
{
}

/// A directory can be made private exactly where the innermost path that leads anywhere leads to a
/// directory, and that one can be closed to others, or given entries where it is only a parent.
pub proof fn the_innermost_path_decides(kinds: Seq<PathKind>, k: int)
    ensures
        (forall|j: int| 0 <= j < kinds.len() ==> #[trigger] kinds[j] == PathKind::Missing)
            ==> !can_be_made_private(kinds, 0),
        0 <= k < kinds.len() && kinds[k] != PathKind::Missing && (forall|j: int|
            0 <= j < k ==> #[trigger] kinds[j] == PathKind::Missing) ==> can_be_made_private(
            kinds,
            0,
        ) == (match kinds[k] {
            PathKind::Directory { writable, adjustable } => if k == 0 {
                adjustable
            } else {
                writable
            },
            _ => false,
        }),
{
    missing_paths_are_passed_over(kinds, 0, k);
    missing_paths_are_passed_over(kinds, 0, kinds.len() as int);
}

/// Paths that lead nowhere are passed over.
proof fn missing_paths_are_passed_over(kinds: Seq<PathKind>, i: int, k: int)
    requires
        0 <= i,
    ensures
        i <= k <= kinds.len() && (forall|j: int|
            i <= j < k ==> #[trigger] kinds[j] == PathKind::Missing) ==> can_be_made_private(
            kinds,
            i,
        ) == can_be_made_private(kinds, k),
    decreases k - i,
{
    if i < k <= kinds.len() {
        missing_paths_are_passed_over(kinds, i + 1, k);
        assert(kinds[i] == PathKind::Missing || kinds[i] != PathKind::Missing);
    }
}

/// A load makes the directory and closes it with mode 0700, reads the vault key, and then the
/// service's key under it; whatever it stores is written beside its place, closed with mode 0600,
/// and moved there, in this order.
pub proof fn loads_go_step_by_step(
    target: Target,
    vault_key: Seq<u8>,
    secret: Seq<u8>,
    contents: Seq<u8>,
    item: ItemView,
)
    ensures
        target.task(ChangeView::CreateDir) == FileTaskView::CreateDir(target.dir),
        target.task(ChangeView::LimitDir) == FileTaskView::SetMode(target.dir, 448),
        target.after_change(ChangeView::CreateDir) == LoadView::Changing(
            target,
            ChangeView::LimitDir,
        ),
        target.after_change(ChangeView::LimitDir) == LoadView::Reading(target, WantedView::Vault),
        target.wanted_path(WantedView::Vault) == joined(target.dir, "vault.key"@),
        target.wanted_path(WantedView::Key(vault_key)) == joined(
            target.dir,
            hex(sha256(encode_utf8(target.service))) + ".key"@,
        ),
        target.task(ChangeView::Store(ItemView::Vault(vault_key), WritePhase::Write))
            == FileTaskView::Write(joined(target.dir, "vault.tmp"@), vault_key),
        target.task(ChangeView::Store(ItemView::Vault(vault_key), WritePhase::Limit))
            == FileTaskView::SetMode(joined(target.dir, "vault.tmp"@), 384),
        target.task(ChangeView::Store(ItemView::Vault(vault_key), WritePhase::Rename))
            == FileTaskView::Rename(
            joined(target.dir, "vault.tmp"@),
            joined(target.dir, "vault.key"@),
        ),
        ({
            let tag = hex(sha256(encode_utf8(target.service)));
            let key = ItemView::Key(secret, contents);
            let scratch = joined(target.dir, tag + ".tmp"@);
            &&& target.task(ChangeView::Store(key, WritePhase::Write)) == FileTaskView::Write(
                scratch,
                contents,
            )
            &&& target.task(ChangeView::Store(key, WritePhase::Limit)) == FileTaskView::SetMode(
                scratch,
                384,
            )
            &&& target.task(ChangeView::Store(key, WritePhase::Rename)) == FileTaskView::Rename(
                scratch,
                joined(target.dir, tag + ".key"@),
            )
        }),
        target.after_change(ChangeView::Store(item, WritePhase::Write)) == LoadView::Changing(
            target,
            ChangeView::Store(item, WritePhase::Limit),
        ),
        target.after_change(ChangeView::Store(item, WritePhase::Limit)) == LoadView::Changing(
            target,
            ChangeView::Store(item, WritePhase::Rename),
        ),
        target.after_change(ChangeView::Store(ItemView::Vault(vault_key), WritePhase::Rename))
            == LoadView::Reading(target, WantedView::Key(vault_key)),
        target.after_change(ChangeView::Store(ItemView::Key(secret, contents), WritePhase::Rename))
            == LoadView::Loaded(encode_utf8(hex(sha256(encode_utf8(target.service)))), secret),
{
}

/// A file that was found is used: a vault key of 32 bytes as it is, a service's key as it loads
/// under the vault key. A file that is missing is made of what was drawn for it.
pub proof fn files_are_used_or_made(
    target: Target,
    vault_key: Seq<u8>,
    contents: Seq<u8>,
    fresh: FreshView,
)
    ensures
        contents.len() == 32 ==> target.after_found(WantedView::Vault, contents)
            == LoadView::Reading(target, WantedView::Key(contents)),
        contents.len() != 32 ==> target.after_found(WantedView::Vault, contents)
            == LoadView::Failed(
            ErrorView::Provider(
                "vault key file "@ + joined(target.dir, "vault.key"@) + " has unexpected length"@,
            ),
        ),
        match loaded_key(vault_key, contents) {
            Ok(secret) => target.after_found(WantedView::Key(vault_key), contents)
                == LoadView::Loaded(encode_utf8(hex(sha256(encode_utf8(target.service)))), secret),
            Err(error) => target.after_found(WantedView::Key(vault_key), contents)
                == LoadView::Failed(error),
        },
        target.after_missing(WantedView::Vault, fresh) == LoadView::Changing(
            target,
            ChangeView::Store(ItemView::Vault(fresh.vault_key), WritePhase::Write),
        ),
        match stored_key(vault_key, fresh.nonce, fresh.secret_key) {
            Ok(stored) => target.after_missing(WantedView::Key(vault_key), fresh)
                == LoadView::Changing(
                target,
                ChangeView::Store(ItemView::Key(fresh.secret_key, stored), WritePhase::Write),
            ),
            Err(error) => target.after_missing(WantedView::Key(vault_key), fresh)
                == LoadView::Failed(error),
        },
{
}

/// Each failure of the file system names what failed, the path and the reason.
pub proof fn failures_name_what_failed(
    target: Target,
    vault_key: Seq<u8>,
    secret: Seq<u8>,
    contents: Seq<u8>,
    reason: Seq<char>,
)
    ensures
        ({
            let tag = hex(sha256(encode_utf8(target.service)));
            let vault = ItemView::Vault(vault_key);
            let key = ItemView::Key(secret, contents);
            let scratch = joined(target.dir, tag + ".tmp"@);
            &&& target.change_failure(ChangeView::CreateDir, reason) == "failed to create "@
                + target.dir + ": "@ + reason
            &&& target.change_failure(ChangeView::LimitDir, reason) == "failed to chmod "@
                + target.dir + ": "@ + reason
            &&& target.change_failure(ChangeView::Store(vault, WritePhase::Write), reason)
                == "failed to write "@ + joined(target.dir, "vault.tmp"@) + ": "@ + reason
            &&& target.change_failure(ChangeView::Store(vault, WritePhase::Limit), reason)
                == "failed to chmod "@ + joined(target.dir, "vault.tmp"@) + ": "@ + reason
            &&& target.change_failure(ChangeView::Store(vault, WritePhase::Rename), reason)
                == "failed to finalize "@ + joined(target.dir, "vault.key"@) + ": "@ + reason
            &&& target.change_failure(ChangeView::Store(key, WritePhase::Write), reason)
                == "failed to write "@ + scratch + ": "@ + reason
            &&& target.change_failure(ChangeView::Store(key, WritePhase::Limit), reason)
                == "failed to chmod "@ + scratch + ": "@ + reason
            &&& target.change_failure(ChangeView::Store(key, WritePhase::Rename), reason)
                == "failed to finalize "@ + joined(target.dir, tag + ".key"@) + ": "@ + reason
            &&& target.read_failure(WantedView::Vault, reason) == "failed to read vault key "@
                + joined(target.dir, "vault.key"@) + ": "@ + reason
            &&& target.read_failure(WantedView::Key(vault_key), reason)
                == "failed to read KEK file "@ + joined(target.dir, tag + ".key"@) + ": "@ + reason
            &&& failure(reason) == ErrorView::Provider(reason)
        }),
{
}

/// What is asked of the file system and what it tells is seen whole.
pub proof fn files_are_seen_whole(
    text: String,
    other: String,
    bytes: Vec<u8>,
    mode: u32,
    r: Result<(), String>,
)
    ensures
        FileRead::Contents(bytes)@ == FileReadView::Contents(bytes@),
        FileRead::NotFound@ == FileReadView::NotFound,
        FileRead::Failed(text)@ == FileReadView::Failed(text@),
        FileTask::CreateDir(text)@ == FileTaskView::CreateDir(text@),
        FileTask::SetMode(text, mode)@ == FileTaskView::SetMode(text@, mode),
        FileTask::Write(text, bytes)@ == FileTaskView::Write(text@, bytes@),
        FileTask::Rename(text, other)@ == FileTaskView::Rename(text@, other@),
        match r {
            Ok(_) => change_view(r) == Ok::<(), Seq<char>>(()),
            Err(reason) => change_view(r) == Err::<(), Seq<char>>(reason@),
        },
        FileTask::Write(text, bytes)@.without_contents() == FileTaskView::Write(
            text@,
            zeros(bytes@.len()),
        ),
        FileTask::SetMode(text, mode)@.without_contents() == FileTask::SetMode(text, mode)@,
{
}

/// A file reads as it was last written, wherever it was moved to since.
pub proof fn files_read_as_written(
    files: Files,
    path: Seq<char>,
    to: Seq<char>,
    contents: Seq<u8>,
    mode: u32,
)
    ensures
        read_of(changed(files, FileTaskView::Write(path, contents)), path)
            == FileReadView::Contents(contents),
        path != to && files.contains_pair(path, contents) ==> {
            let after = changed(files, FileTaskView::Rename(path, to));
            &&& read_of(after, to) == FileReadView::Contents(contents)
            &&& read_of(after, path) == FileReadView::NotFound
        },
        path != to ==> read_of(changed(files, FileTaskView::Write(to, contents)), path) == read_of(
            files,
            path,
        ),
        changed(files, FileTaskView::SetMode(path, mode)) == files,
        changed(files, FileTaskView::CreateDir(path)) == files,
{
}

/// Provided keys are looked for in four directories, in this order.
pub proof fn provided_keys_have_four_places()
    ensures
        default_mounts().len() == 4,
        default_mounts()[0] == "/var/run/secrets/hkdfguard"@,
        default_mounts()[1] == "/run/secrets/hkdfguard"@,
        default_mounts()[2] == "/vault/secrets/hkdfguard"@,
        default_mounts()[3] == "/mnt/secrets-store/hkdfguard"@,
{
}

/// The first of the mounts that is a directory is used, and none where there is none.
pub proof fn the_first_directory_is_used(mounts: Seq<Mount>, k: int)
    ensures
        (forall|j: int| 0 <= j < mounts.len() ==> !(#[trigger] mounts[j]).is_dir) ==> first_dir(
            mounts,
            0,
        ) is None,
        0 <= k < mounts.len() && mounts[k].is_dir && (forall|j: int|
            0 <= j < k ==> !(#[trigger] mounts[j]).is_dir) ==> first_dir(mounts, 0) == Some(
            mounts[k].path@,
        ),
{
    other_mounts_are_passed_over(mounts, 0, k);
    other_mounts_are_passed_over(mounts, 0, mounts.len() as int);
}

/// Mounts that are no directories are passed over.
proof fn other_mounts_are_passed_over(mounts: Seq<Mount>, i: int, k: int)
    requires
        0 <= i,
    ensures
        i <= k <= mounts.len() && (forall|j: int| i <= j < k ==> !(#[trigger] mounts[j]).is_dir)
            ==> first_dir(mounts, i) == first_dir(mounts, k),
    decreases k - i,
{
    if i < k <= mounts.len() {
        other_mounts_are_passed_over(mounts, i + 1, k);
        assert(mounts[i].is_dir || !mounts[i].is_dir);
    }
}

/// A provided key is 32 bytes of private key or a PKCS#8 document; each refusal says which it is
/// not.
pub proof fn provided_keys_are_scalars_or_documents(bytes: Seq<u8>)
    ensures
        is_scalar(bytes) ==> parsed_secret(bytes) == Ok::<Seq<u8>, ErrorView>(bytes),
        bytes.len() == 32 && !is_scalar(bytes) ==> parsed_secret(bytes) == Err::<
            Seq<u8>,
            ErrorView,
        >(ErrorView::Provider("invalid raw external KEK scalar: "@ + "crypto error"@)),
        bytes.len() != 32 ==> parsed_secret(bytes) == (match pkcs8_decode(bytes) {
            Ok(secret) => Ok::<Seq<u8>, ErrorView>(secret),
            Err(text) => Err(
                ErrorView::Provider("external secret is not a valid P-256 key: "@ + text),
            ),
        }),
{
}

/// A provided key comes from its file and from nowhere else: without a directory or a file the
/// provider declines, and a file that cannot be read is a failure that names it.
pub proof fn provided_keys_come_from_their_files(
    dir: Seq<char>,
    service: Seq<char>,
    bytes: Seq<u8>,
    reason: Seq<char>,
    read: FileReadView,
)
    ensures
        loaded_secret(None, service, read) == Err::<Seq<u8>, ErrorView>(
            ErrorView::KeyNotProvisioned("no external secret mount found"@),
        ),
        loaded_secret(Some(dir), service, FileReadView::NotFound) == Err::<Seq<u8>, ErrorView>(
            ErrorView::KeyNotProvisioned("no secret file provisioned for this service"@),
        ),
        loaded_secret(Some(dir), service, FileReadView::Contents(bytes)) == parsed_secret(bytes),
        loaded_secret(Some(dir), service, FileReadView::Failed(reason)) == Err::<
            Seq<u8>,
            ErrorView,
        >(
            ErrorView::Provider(
                "failed to read external secret "@ + joined(dir, service) + ": "@ + reason,
            ),
        ),
{
}

/// The names of keys hold the whole name of the service behind the provider's prefix, so different
/// services have different ones.
pub proof fn key_names_hold_the_whole_service(a: Seq<char>, b: Seq<char>)
    ensures
        external_id(a) == encode_utf8("external:"@ + a),
        ephemeral_id(a) == encode_utf8("ephemeral:"@ + a),
        a != b ==> external_id(a) != external_id(b) && ephemeral_id(a) != ephemeral_id(b),
{
    let (x, y) = ("external:"@, "ephemeral:"@);
    assert((x + a).skip(x.len() as int) =~= a && (x + b).skip(x.len() as int) =~= b);
    assert((y + a).skip(y.len() as int) =~= a && (y + b).skip(y.len() as int) =~= b);
    if external_id(a) == external_id(b) {
        utf8_is_injective(x + a, x + b);
    }
    if ephemeral_id(a) == ephemeral_id(b) {
        utf8_is_injective(y + a, y + b);
    }
}

/// Only a missing key for a service that the payload was not wrapped for is turned into a
/// cryptographic error; every other error stays as it is.
pub proof fn only_mismatches_are_turned_into_crypto_errors(
    service: Seq<char>,
    key_id: Seq<u8>,
    error: ErrorView,
)
    ensures
        error !is KeyNotProvisioned ==> refused_unwrap(service, key_id, error) == error,
        refused_unwrap(service, encode_utf8("external:"@ + service), error) == error,
        error is KeyNotProvisioned && key_id != encode_utf8("external:"@ + service)
            ==> refused_unwrap(service, key_id, error) == ErrorView::Crypto(
            "AES-256-GCM authentication failed (tampered, wrong service, or wrong KEK)"@,
        ),
{
}

/// Asking for the key of a service adds a key for that service alone, and only where there was
/// none.
pub proof fn asking_adds_one_key_at_most(
    keys: Keys,
    service: Seq<char>,
    fresh: Seq<u8>,
    other: Seq<char>,
)
    ensures
        keys.contains_key(service) ==> with_key(keys, service, fresh) == keys,
        !keys.contains_key(service) ==> with_key(keys, service, fresh).contains_pair(
            service,
            fresh,
        ),
        other != service ==> {
            &&& with_key(keys, service, fresh).contains_key(other) == keys.contains_key(other)
            &&& keys.contains_key(other) ==> with_key(keys, service, fresh)[other] == keys[other]
        },
{
}

} // verus!
