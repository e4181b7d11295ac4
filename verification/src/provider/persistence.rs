//! What the key files keep from one load to the next.
use crate::error::ErrorView;
use crate::files::{changed, read_of, FileReadView, FileTaskView, Files};
use crate::provider::software::{
    failure, fingerprint, key_path, key_scratch_path, loaded_key, stored_key, vault_path,
    vault_scratch_path, ChangeView, FreshView, ItemView, LoadView, Target, WantedView, WritePhase,
    FILE_MODE, VAULT_KEY_LEN,
};
use crate::text::joined;
use vstd::prelude::*;
use vstd::utf8::encode_utf8;

verus! {

/// The first step of a load.
pub open spec fn load_start(target: Target) -> LoadView {
    LoadView::Changing(target, ChangeView::CreateDir)
}

/// How many more steps a load can take.
pub open spec fn load_steps_left(load: LoadView) -> nat {
    match load {
        LoadView::Changing(_, ChangeView::CreateDir) => 10,
        LoadView::Changing(_, ChangeView::LimitDir) => 9,
        LoadView::Reading(_, WantedView::Vault) => 8,
        LoadView::Changing(_, ChangeView::Store(ItemView::Vault(_), phase)) => match phase {
            WritePhase::Write => 7,
            WritePhase::Limit => 6,
            WritePhase::Rename => 5,
        },
        LoadView::Reading(_, WantedView::Key(_)) => 4,
        LoadView::Changing(_, ChangeView::Store(ItemView::Key(_, _), phase)) => match phase {
            WritePhase::Write => 3,
            WritePhase::Limit => 2,
            WritePhase::Rename => 1,
        },
        _ => 0,
    }
}

/// The end of a load, and the files that it leaves, where every read and every change succeeds
/// and `fresh` takes the place of what is missing.
pub open spec fn load_run(load: LoadView, files: Files, fresh: FreshView) -> (LoadView, Files)
    decreases load_steps_left(load),
{
    match load {
        LoadView::Changing(target, change) => load_run(
            target.after_change(change),
            changed(files, target.task(change)),
            fresh,
        ),
        LoadView::Reading(target, wanted) => match read_of(files, target.wanted_path(wanted)) {
            FileReadView::Contents(contents) => load_run(
                target.after_found(wanted, contents),
                files,
                fresh,
            ),
            _ => load_run(target.after_missing(wanted, fresh), files, fresh),
        },
        _ => (load, files),
    }
}

/// The vault key that a load uses.
pub open spec fn vault_key_in_use(target: Target, files: Files, fresh: FreshView) -> Seq<u8> {
    if files.contains_key(vault_path(target.dir)) {
        files[vault_path(target.dir)]
    } else {
        fresh.vault_key
    }
}

/// Whether the contents that are stored for the fresh private key under a vault key give it back.
/// `ReadQuery::answered` and `ReadQuery::missing` ensure it of every private key that they have
/// stored.
pub open spec fn survives_storage(vault_key: Seq<u8>, fresh: FreshView) -> bool {
    stored_key(vault_key, fresh.nonce, fresh.secret_key) matches Ok(contents) ==> loaded_key(
        vault_key,
        contents,
    ) == Ok::<Seq<u8>, ErrorView>(fresh.secret_key)
}

/// Names that are not absolute give distinct paths in one directory.
proof fn joined_is_injective(dir: Seq<char>, a: Seq<char>, b: Seq<char>)
    requires
        a.len() > 0 && a[0] != '/',
        b.len() > 0 && b[0] != '/',
        joined(dir, a) == joined(dir, b),
    ensures
        a == b,
{
    let prefix = if dir.len() == 0 || dir.last() == '/' {
        dir
    } else {
        dir + "/"@
    };
    let n = prefix.len() as int;
    assert(joined(dir, a) =~= prefix + a);
    assert(joined(dir, b) =~= prefix + b);
    assert((prefix + a).skip(n) =~= a);
    assert((prefix + b).skip(n) =~= b);
}

/// The vault key, a service's key and the files that they are first written to are four
/// different files.
pub proof fn key_files_are_distinct(dir: Seq<char>, service: Seq<char>)
    ensures
        vault_path(dir) != key_path(dir, service),
        vault_path(dir) != key_scratch_path(dir, service),
        vault_path(dir) != vault_scratch_path(dir),
        key_path(dir, service) != key_scratch_path(dir, service),
        key_path(dir, service) != vault_scratch_path(dir),
        key_scratch_path(dir, service) != vault_scratch_path(dir),
{
    reveal_strlit("0123456789abcdef");
    reveal_strlit(".key");
    reveal_strlit(".tmp");
    reveal_strlit("vault.key");
    reveal_strlit("vault.tmp");
    let tag = fingerprint(service);
    let key = tag + ".key"@;
    let scratch = tag + ".tmp"@;
    if tag.len() > 0 {
        assert(tag[0] == key[0] && tag[0] == scratch[0]);
        let nibble = sha256_nibble(service);
        assert(tag[0] == "0123456789abcdef"@[nibble]);
        assert(tag[0] != 'v' && tag[0] != '/');
    } else {
        assert(key[0] == '.' && scratch[0] == '.');
    }
    assert(key.last() == 'y' && scratch.last() == 'p');
    assert("vault.key"@.last() == 'y' && "vault.tmp"@.last() == 'p');
    if vault_path(dir) == key_path(dir, service) {
        joined_is_injective(dir, "vault.key"@, key);
        assert("vault.key"@[0] == key[0]);
    }
    if vault_path(dir) == key_scratch_path(dir, service) {
        joined_is_injective(dir, "vault.key"@, scratch);
    }
    if vault_path(dir) == vault_scratch_path(dir) {
        joined_is_injective(dir, "vault.key"@, "vault.tmp"@);
    }
    if key_path(dir, service) == key_scratch_path(dir, service) {
        joined_is_injective(dir, key, scratch);
    }
    if key_path(dir, service) == vault_scratch_path(dir) {
        joined_is_injective(dir, key, "vault.tmp"@);
    }
    if key_scratch_path(dir, service) == vault_scratch_path(dir) {
        joined_is_injective(dir, scratch, "vault.tmp"@);
        assert("vault.tmp"@[0] == scratch[0]);
    }
}

/// The value of the first digit of a service's fingerprint.
spec fn sha256_nibble(service: Seq<char>) -> int {
    crate::primitives::digest::sha256(encode_utf8(service))[0] as int / 16
}

/// Loading from files that hold a vault key and a key stored under it gives that key, and leaves
/// the files as they are.
pub proof fn stored_keys_are_loaded(
    target: Target,
    files: Files,
    fresh: FreshView,
    vault_key: Seq<u8>,
    secret: Seq<u8>,
)
    requires
        vault_key.len() == VAULT_KEY_LEN,
        files.contains_pair(vault_path(target.dir), vault_key),
        files.contains_key(key_path(target.dir, target.service)),
        loaded_key(vault_key, files[key_path(target.dir, target.service)]) == Ok::<
            Seq<u8>,
            ErrorView,
        >(secret),
    ensures
        load_run(load_start(target), files, fresh) == (target.loaded(secret), files),
{
    reveal_with_fuel(load_run, 6);
}

/// A vault key of the right length is kept and used: the first thing that a load does with it is to
/// read the service's key under it, and the file is as before when the load has ended.
pub proof fn a_vault_key_is_kept_and_used(target: Target, files: Files, fresh: FreshView)
    requires
        files.contains_key(vault_path(target.dir)),
        files[vault_path(target.dir)].len() == VAULT_KEY_LEN,
    ensures
        load_run(load_start(target), files, fresh) == load_run(
            LoadView::Reading(target, WantedView::Key(files[vault_path(target.dir)])),
            files,
            fresh,
        ),
        load_run(load_start(target), files, fresh).1.contains_pair(
            vault_path(target.dir),
            files[vault_path(target.dir)],
        ),
{
    key_files_are_distinct(target.dir, target.service);
    reveal_with_fuel(load_run, 12);
}

/// A vault key of another length is refused and left alone.
pub proof fn a_malformed_vault_key_is_left_alone(target: Target, files: Files, fresh: FreshView)
    requires
        files.contains_key(vault_path(target.dir)),
        files[vault_path(target.dir)].len() != VAULT_KEY_LEN,
    ensures
        load_run(load_start(target), files, fresh) == (
            LoadView::Failed(
                failure(
                    "vault key file "@ + vault_path(target.dir) + " has unexpected length"@,
                ),
            ),
            files,
        ),
{
    reveal_with_fuel(load_run, 6);
}

/// A missing vault key is made once: the load that misses it stores a fresh one, whatever becomes
/// of the service's key, and every later load in the same directory, of whichever service, uses
/// that one.
pub proof fn a_missing_vault_key_is_made_once(
    target: Target,
    files: Files,
    fresh: FreshView,
    service: Seq<char>,
    later: FreshView,
)
    requires
        fresh.valid(),
        !files.contains_key(vault_path(target.dir)),
    ensures
        ({
            let after = load_run(load_start(target), files, fresh).1;
            let next = Target { dir: target.dir, service };
            &&& after.contains_pair(vault_path(target.dir), fresh.vault_key)
            &&& vault_key_in_use(next, after, later) == fresh.vault_key
            &&& load_run(load_start(next), after, later).1.contains_pair(
                vault_path(target.dir),
                fresh.vault_key,
            )
        }),
{
    key_files_are_distinct(target.dir, target.service);
    reveal_with_fuel(load_run, 12);
    let after = load_run(load_start(target), files, fresh).1;
    assert(after.contains_pair(vault_path(target.dir), fresh.vault_key));
    a_vault_key_is_kept_and_used(Target { dir: target.dir, service }, after, later);
}

/// A key file that does not load under the vault key, because it was altered or is of another
/// making, is left as it is: the load fails with a provider error, and no key takes its place.
pub proof fn unreadable_keys_are_left_alone(
    target: Target,
    files: Files,
    fresh: FreshView,
    vault_key: Seq<u8>,
)
    requires
        vault_key.len() == VAULT_KEY_LEN,
        files.contains_pair(vault_path(target.dir), vault_key),
        files.contains_key(key_path(target.dir, target.service)),
        loaded_key(vault_key, files[key_path(target.dir, target.service)]) is Err,
    ensures
        ({
            let error = loaded_key(vault_key, files[key_path(target.dir, target.service)])->Err_0;
            &&& error is Provider
            &&& load_run(load_start(target), files, fresh) == (LoadView::Failed(error), files)
        }),
{
    reveal_with_fuel(load_run, 6);
}

/// A key that was loaded once is loaded again: a second load finds the key that the first one
/// found or made, and leaves the files as the first one left them.
pub proof fn software_keys_persist(
    target: Target,
    files: Files,
    fresh: FreshView,
    later: FreshView,
)
    requires
        fresh.valid(),
        survives_storage(vault_key_in_use(target, files, fresh), fresh),
        load_run(load_start(target), files, fresh).0 is Loaded,
    ensures
        load_run(load_start(target), load_run(load_start(target), files, fresh).1, later)
            == load_run(load_start(target), files, fresh),
{
    key_files_are_distinct(target.dir, target.service);
    reveal_with_fuel(load_run, 12);
    let vault = vault_path(target.dir);
    let key = key_path(target.dir, target.service);
    let (end, after) = load_run(load_start(target), files, fresh);
    let vault_key = vault_key_in_use(target, files, fresh);
    assert(after.contains_pair(vault, vault_key));
    assert(after.contains_key(key));
    let secret = end->Loaded_1;
    assert(end == target.loaded(secret));
    assert(loaded_key(vault_key, after[key]) == Ok::<Seq<u8>, ErrorView>(secret));
    stored_keys_are_loaded(target, after, later, vault_key, secret);
}

/// No file appears under its own name before it is complete and closed to others: moving it into
/// place follows the setting of its permission bits, and that follows the writing.
pub proof fn files_are_closed_before_they_appear(target: Target, change: ChangeView, item: ItemView)
    ensures
        target.after_change(change) == LoadView::Changing(
            target,
            ChangeView::Store(item, WritePhase::Rename),
        ) ==> change == ChangeView::Store(item, WritePhase::Limit) && target.task(change)
            == FileTaskView::SetMode(target.scratch_path(item), FILE_MODE),
        target.after_change(change) == LoadView::Changing(
            target,
            ChangeView::Store(item, WritePhase::Limit),
        ) ==> change == ChangeView::Store(item, WritePhase::Write) && target.task(change)
            == FileTaskView::Write(target.scratch_path(item), item.contents()),
{
}

/// Loading the key of one service leaves the stored key of every other service alone.
pub proof fn services_do_not_disturb_each_other(
    target: Target,
    files: Files,
    fresh: FreshView,
    path: Seq<char>,
)
    requires
        path != vault_path(target.dir),
        path != vault_scratch_path(target.dir),
        path != key_path(target.dir, target.service),
        path != key_scratch_path(target.dir, target.service),
    ensures
        read_of(load_run(load_start(target), files, fresh).1, path) == read_of(files, path),
{
    reveal_with_fuel(load_run, 12);
}

} // verus!
