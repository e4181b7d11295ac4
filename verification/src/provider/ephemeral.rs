//! Keys that live in memory only, as long as the process.
//!
//! This provider is always available and ends every chain of providers. What is wrapped under one
//! of its keys is lost with the process.
use crate::error::Error;
use crate::keys::SecretKey;
use crate::primitives::curve::is_scalar;
use crate::provider::local::LocalHandle;
use crate::provider::ProviderType;
use crate::text::{concat2, same_text};
use vstd::prelude::*;
use vstd::slice::slice_to_vec;
use vstd::utf8::encode_utf8;

verus! {

/// A service and its key.
struct Entry {
    service: String,
    secret_key: SecretKey,
}

/// The keys of all services, each made when it is first asked for.
pub struct EphemeralProvider {
    entries: Vec<Entry>,
}

/// The private keys by service.
pub type Keys = Map<Seq<char>, Seq<u8>>;

/// The name of a service's key.
pub open spec fn ephemeral_id(service: Seq<char>) -> Seq<u8> {
    encode_utf8("ephemeral:"@ + service)
}

/// The keys after the key of a service was asked for: unchanged where there is one, else with a
/// fresh one.
pub open spec fn with_key(keys: Keys, service: Seq<char>, fresh: Seq<u8>) -> Keys {
    if keys.contains_key(service) {
        keys
    } else {
        keys.insert(service, fresh)
    }
}

impl EphemeralProvider {
    #[verifier::type_invariant]
    closed spec fn valid(self) -> bool {
        &&& forall|i: int, j: int|
            0 <= i < j < self.entries@.len() ==> self.entries@[i].service@
                != self.entries@[j].service@
        &&& forall|i: int|
            0 <= i < self.entries@.len() ==> is_scalar((#[trigger] self.entries@[i]).secret_key@)
    }

    /// Whether the entry at `i` is that of a service.
    closed spec fn entry_is(&self, i: int, service: Seq<char>) -> bool {
        0 <= i < self.entries@.len() && self.entries@[i].service@ == service
    }

    /// The private keys by service.
    pub closed spec fn keys(&self) -> Keys {
        Map::new(
            |service: Seq<char>| exists|i: int| self.entry_is(i, service),
            |service: Seq<char>|
                self.entries@[choose|i: int| self.entry_is(i, service)].secret_key@,
        )
    }

    /// No keys yet.
    pub fn new() -> (provider: Self)
        ensures
            provider.keys() == Map::<Seq<char>, Seq<u8>>::empty(),
    {
        let provider = EphemeralProvider { entries: Vec::new() };
        assert(provider.keys() =~= Map::<Seq<char>, Seq<u8>>::empty());
        provider
    }

    /// The type of this provider.
    pub fn provider_type(&self) -> (t: ProviderType)
        ensures
            t == ProviderType::Ephemeral,
    {
        ProviderType::Ephemeral
    }

    /// This provider is always reachable.
    pub fn probe(&self) -> (reachable: bool)
        ensures
            reachable,
    {
        true
    }

    /// The key of a service, made at random where there is none yet.
    pub fn get_or_create_kek(&mut self, service: &str) -> (r: Result<LocalHandle, Error>)
        ensures
            r is Ok,
            r->Ok_0.name() == ephemeral_id(service@),
            is_scalar(r->Ok_0.secret()),
            final(self).keys() == with_key(old(self).keys(), service@, r->Ok_0.secret()),
            final(self).keys().contains_pair(service@, r->Ok_0.secret()),
    {
        if let Some(handle) = self.find(service) {
            return Ok(handle);
        }
        self.get_or_create_with(service, SecretKey::random())
    }

    /// The key of a service; `fresh` where there is none yet.
    pub fn get_or_create_with(&mut self, service: &str, fresh: SecretKey) -> (r: Result<
        LocalHandle,
        Error,
    >)
        requires
            is_scalar(fresh@),
        ensures
            r is Ok,
            r->Ok_0.name() == ephemeral_id(service@),
            is_scalar(r->Ok_0.secret()),
            final(self).keys() == with_key(old(self).keys(), service@, fresh@),
            final(self).keys().contains_pair(service@, r->Ok_0.secret()),
    {
        if let Some(handle) = self.find(service) {
            return Ok(handle);
        }
        let handle = named(service, &fresh);
        let entry = Entry { service: String::from_str(service), secret_key: fresh };
        proof {
            use_type_invariant(&*self);
        }
        let ghost before = *self;
        let mut entries: Vec<Entry> = Vec::new();
        core::mem::swap(&mut self.entries, &mut entries);
        entries.push(entry);
        proof {
            assert forall|i: int| 0 <= i < before.entries@.len() implies before.entries@[i].service@
                != service@ by {
                assert(before.entry_is(i, before.entries@[i].service@));
            }
        }
        self.entries = entries;
        proof {
            let n = before.entries@.len() as int;
            let after = *self;
            assert forall|s: Seq<char>| before.keys().contains_key(s) implies after.keys()
                .contains_pair(s, before.keys()[s]) by {
                let i = choose|i: int| before.entry_is(i, s);
                assert(after.entries@[i] == before.entries@[i]);
                after.entry_gives_key(i);
            }
            after.entry_gives_key(n);
            assert forall|s: Seq<char>| after.keys().contains_key(s) && s
                != service@ implies before.keys().contains_key(s) by {
                let i = choose|i: int| after.entry_is(i, s);
                assert(before.entry_is(i, s));
            }
            assert(after.keys() =~= before.keys().insert(service@, fresh@));
        }
        Ok(handle)
    }

    /// Each entry gives its service's key.
    proof fn entry_gives_key(self, i: int)
        requires
            self.valid(),
            0 <= i < self.entries@.len(),
        ensures
            self.keys().contains_pair(self.entries@[i].service@, self.entries@[i].secret_key@),
    {
        let service = self.entries@[i].service@;
        assert(self.entry_is(i, service));
        let k = choose|k: int| self.entry_is(k, service);
        assert(self.entry_is(k, service));
        assert(k == i);
    }

    /// The key of a service, where there is one.
    fn find(&self, service: &str) -> (r: Option<LocalHandle>)
        ensures
            match r {
                Some(handle) => {
                    &&& handle.name() == ephemeral_id(service@)
                    &&& is_scalar(handle.secret())
                    &&& self.keys().contains_pair(service@, handle.secret())
                },
                None => !self.keys().contains_key(service@),
            },
    {
        proof {
            use_type_invariant(self);
        }
        let mut i: usize = 0;
        while i < self.entries.len()
            invariant
                i <= self.entries@.len(),
                self.valid(),
                forall|j: int| 0 <= j < i ==> self.entries@[j].service@ != service@,
            decreases self.entries@.len() - i,
        {
            if same_text(self.entries[i].service.as_str(), service) {
                proof {
                    self.entry_gives_key(i as int);
                }
                return Some(named(service, &self.entries[i].secret_key));
            }
            i += 1;
        }
        assert(!self.keys().contains_key(service@));
        None
    }
}

/// A private key under the name that this provider gives it.
fn named(service: &str, secret_key: &SecretKey) -> (handle: LocalHandle)
    ensures
        handle.name() == ephemeral_id(service@),
        handle.secret() == secret_key@,
{
    let id = concat2("ephemeral:", service);
    LocalHandle::new(slice_to_vec(id.as_str().as_bytes()), secret_key.clone())
}

impl Default for EphemeralProvider {
    fn default() -> (provider: Self)
        ensures
            provider.keys() == Map::<Seq<char>, Seq<u8>>::empty(),
    {
        EphemeralProvider::new()
    }
}

/// A service keeps its key for the life of the process: whichever services are asked for
/// afterwards, asking again gives the same key and changes nothing.
pub proof fn ephemeral_keys_are_stable(
    keys: Keys,
    service: Seq<char>,
    fresh: Seq<u8>,
    other: Seq<char>,
    other_fresh: Seq<u8>,
    later: Seq<u8>,
)
    ensures
        ({
            let first = with_key(keys, service, fresh);
            let second = with_key(first, other, other_fresh);
            &&& first.contains_key(service)
            &&& second.contains_pair(service, first[service])
            &&& with_key(second, service, later) == second
        }),
{
}

} // verus!
