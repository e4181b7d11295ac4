//! Key encryption keys whose private half is in memory.
use crate::error::{Error, ErrorView};
use crate::keys::{PublicKey, SecretKey, SharedSecret};
use crate::primitives::curve::{is_scalar, p256_ecdh};
use crate::primitives::memory::zeros;
use crate::provider::KekHandle;
use vstd::prelude::*;

verus! {

/// A key pair in memory under its provider's name for it. Whoever holds one erases it after use.
pub struct LocalHandle {
    key_id: Vec<u8>,
    secret_key: SecretKey,
}

impl LocalHandle {
    /// The private key.
    pub closed spec fn secret(&self) -> Seq<u8> {
        self.secret_key@
    }

    /// The provider's name for the key.
    pub closed spec fn name(&self) -> Seq<u8> {
        self.key_id@
    }

    /// Puts a name on a private key.
    pub fn new(key_id: Vec<u8>, secret_key: SecretKey) -> (handle: Self)
        ensures
            handle.name() == key_id@,
            handle.secret() == secret_key@,
    {
        LocalHandle { key_id, secret_key }
    }

    /// Overwrites the private key with zeros. No agreement succeeds afterwards.
    pub fn erase(&mut self)
        ensures
            final(self).name() == old(self).name(),
            final(self).secret() == zeros(32),
            !final(self).infallible(),
    {
        self.secret_key.erase();
    }
}

impl KekHandle for LocalHandle {
    open spec fn id(&self) -> Seq<u8> {
        self.name()
    }

    open spec fn agreed(&self, peer: Seq<u8>) -> Seq<u8> {
        p256_ecdh(self.secret(), peer)
    }

    open spec fn infallible(&self) -> bool {
        is_scalar(self.secret())
    }

    fn key_id(&self) -> &[u8] {
        self.key_id.as_slice()
    }

    fn ecdh(&self, peer: &PublicKey) -> (r: Result<SharedSecret, Error>)
        ensures
            match r {
                Ok(_) => self.infallible(),
                Err(error) => !self.infallible() && error@ == ErrorView::Provider(
                    "the key has been erased"@,
                ),
            },
    {
        if self.secret_key.is_erased() {
            return Err(Error::Provider(String::from_str("the key has been erased")));
        }
        Ok(self.secret_key.diffie_hellman(peer))
    }
}

} // verus!
