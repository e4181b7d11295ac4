//! Providers of key encryption keys.
pub mod ephemeral;
pub mod external_secret;
pub mod local;
pub mod persistence;
pub mod pkcs11;
pub mod selection;
pub mod software;
pub mod tpm2;

use crate::error::Error;
use crate::keys::{PublicKey, SharedSecret};
use vstd::prelude::*;

verus! {

/// Where a key encryption key lives, strongest first.
#[derive(Debug, Clone, Copy, PartialEq, Eq, Hash, Structural)]
pub enum ProviderType {
    Tpm2,
    Pkcs11,
    ExternalSecret,
    Software,
    Ephemeral,
}

impl ProviderType {
    /// The byte that stands for this provider in a wrapped payload. It is also the provider's
    /// place in the order of preference, counted from one.
    pub open spec fn tag(self) -> u8 {
        match self {
            ProviderType::Tpm2 => 1,
            ProviderType::Pkcs11 => 2,
            ProviderType::ExternalSecret => 3,
            ProviderType::Software => 4,
            ProviderType::Ephemeral => 5,
        }
    }

    /// The provider that the byte `v` stands for, if any.
    pub open spec fn of_tag(v: u8) -> Option<ProviderType> {
        if v == 1 {
            Some(ProviderType::Tpm2)
        } else if v == 2 {
            Some(ProviderType::Pkcs11)
        } else if v == 3 {
            Some(ProviderType::ExternalSecret)
        } else if v == 4 {
            Some(ProviderType::Software)
        } else if v == 5 {
            Some(ProviderType::Ephemeral)
        } else {
            None
        }
    }

    /// The provider's name in log messages.
    pub open spec fn name(self) -> Seq<char> {
        match self {
            ProviderType::Tpm2 => "TPM2"@,
            ProviderType::Pkcs11 => "PKCS11"@,
            ProviderType::ExternalSecret => "EXTERNAL_SECRET"@,
            ProviderType::Software => "SOFTWARE"@,
            ProviderType::Ephemeral => "EPHEMERAL"@,
        }
    }

    /// Reads a provider from its byte; any byte outside the five is refused.
    pub fn from_u8(v: u8) -> (r: Option<Self>)
        ensures
            r == Self::of_tag(v),
    {
        match v {
            1 => Some(ProviderType::Tpm2),
            2 => Some(ProviderType::Pkcs11),
            3 => Some(ProviderType::ExternalSecret),
            4 => Some(ProviderType::Software),
            5 => Some(ProviderType::Ephemeral),
            _ => None,
        }
    }

    /// The byte that stands for this provider in a wrapped payload.
    pub fn to_u8(self) -> (v: u8)
        ensures
            v == self.tag(),
    {
        match self {
            ProviderType::Tpm2 => 1,
            ProviderType::Pkcs11 => 2,
            ProviderType::ExternalSecret => 3,
            ProviderType::Software => 4,
            ProviderType::Ephemeral => 5,
        }
    }

    /// The provider's name in log messages.
    pub fn as_str(&self) -> (name: &'static str)
        ensures
            name@ == self.name(),
    {
        match self {
            ProviderType::Tpm2 => "TPM2",
            ProviderType::Pkcs11 => "PKCS11",
            ProviderType::ExternalSecret => "EXTERNAL_SECRET",
            ProviderType::Software => "SOFTWARE",
            ProviderType::Ephemeral => "EPHEMERAL",
        }
    }
}

/// A key encryption key of one service. Its private half stays with the provider; only the
/// shared secrets leave it.
pub trait KekHandle {
    /// The provider's name for the key.
    spec fn id(&self) -> Seq<u8>;

    /// The secret that the key shares with the holder of the private half of `peer`.
    spec fn agreed(&self, peer: Seq<u8>) -> Seq<u8>;

    /// Whether the private half is in memory, so that no agreement can fail.
    spec fn infallible(&self) -> bool;

    /// The provider's name for the key, recorded in every payload; not secret.
    fn key_id(&self) -> (id: &[u8])
        ensures
            id@ == self.id(),
    ;

    /// Agrees on a secret with the holder of the private half of `peer`.
    fn ecdh(&self, peer: &PublicKey) -> (r: Result<SharedSecret, Error>)
        ensures
            r matches Ok(shared) ==> shared@ == self.agreed(peer@),
            self.infallible() ==> r is Ok,
    ;
}

/// Reading back the byte of a provider gives that provider, and every byte that is read as a
/// provider is that provider's byte.
pub proof fn provider_tags_round_trip(t: ProviderType, v: u8)
    ensures
        ProviderType::of_tag(t.tag()) == Some(t),
        ProviderType::of_tag(v) matches Some(read) ==> read.tag() == v,
        ProviderType::of_tag(v) is Some <==> 1 <= v <= 5,
{
}

} // verus!
