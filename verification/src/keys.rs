//! P-256 key pairs.
use crate::primitives::curve::{
    accepts_point, big_endian, is_point, is_scalar, p256_ecdh, p256_public, pkcs8_decode,
    pkcs8_encode, public_point, random_scalar, scalar_from_pkcs8, scalar_from_slice,
    scalar_to_pkcs8, shared_secret,
};
use crate::primitives::memory::{scrub_array, zeros};
use vstd::prelude::*;

verus! {

/// The x-coordinate that two key pairs agree on. Whoever holds one scrubs it after use.
pub type SharedSecret = [u8; 32];

/// A private key: a number above zero and below the order of the group, most significant byte
/// first. Once erased, it is all zeros and no key any more.
pub struct SecretKey {
    bytes: [u8; 32],
}

/// A public key: a point of the curve in its uncompressed encoding.
#[derive(Debug)]
pub struct PublicKey {
    bytes: [u8; 65],
}

impl View for SecretKey {
    type V = Seq<u8>;

    closed spec fn view(&self) -> Seq<u8> {
        self.bytes@
    }
}

impl View for PublicKey {
    type V = Seq<u8>;

    closed spec fn view(&self) -> Seq<u8> {
        self.bytes@
    }
}

impl SecretKey {
    #[verifier::type_invariant]
    closed spec fn valid(self) -> bool {
        is_scalar(self.bytes@) || self.bytes@ == zeros(32)
    }

    /// A fresh random private key.
    pub fn random() -> (key: SecretKey)
        ensures
            is_scalar(key@),
    {
        SecretKey { bytes: random_scalar() }
    }

    /// The private key that 32 bytes spell; the error text where they spell none.
    pub fn from_scalar_bytes(bytes: &[u8; 32]) -> (r: Result<SecretKey, String>)
        ensures
            match r {
                Ok(key) => is_scalar(bytes@) && key@ == bytes@,
                Err(text) => !is_scalar(bytes@) && text@ == "crypto error"@,
            },
    {
        match scalar_from_slice(bytes) {
            Ok(bytes) => Ok(SecretKey { bytes }),
            Err(text) => Err(text),
        }
    }

    /// The private key in a PKCS#8 document; the error text where there is none.
    pub fn from_pkcs8_der(der: &[u8]) -> (r: Result<SecretKey, String>)
        ensures
            match r {
                Ok(key) => {
                    &&& pkcs8_decode(der@) == Ok::<Seq<u8>, Seq<char>>(key@)
                    &&& is_scalar(key@)
                },
                Err(text) => pkcs8_decode(der@) == Err::<Seq<u8>, Seq<char>>(text@),
            },
    {
        match scalar_from_pkcs8(der) {
            Ok(bytes) => Ok(SecretKey { bytes }),
            Err(text) => Err(text),
        }
    }

    /// The PKCS#8 document of the key; the error text where there is none. The document decodes
    /// to the key.
    pub fn to_pkcs8_der(&self) -> (r: Result<Vec<u8>, String>)
        requires
            is_scalar(self@),
        ensures
            match r {
                Ok(der) => {
                    &&& pkcs8_encode(self@) == Ok::<Seq<u8>, Seq<char>>(der@)
                    &&& pkcs8_decode(der@) == Ok::<Seq<u8>, Seq<char>>(self@)
                },
                Err(text) => pkcs8_encode(self@) == Err::<Seq<u8>, Seq<char>>(text@),
            },
    {
        scalar_to_pkcs8(&self.bytes)
    }

    /// The key's 32 bytes.
    pub fn to_bytes(&self) -> (bytes: [u8; 32])
        ensures
            bytes@ == self@,
    {
        self.bytes
    }

    /// The public half of the pair.
    pub fn public_key(&self) -> (key: PublicKey)
        requires
            is_scalar(self@),
        ensures
            key@ == p256_public(self@),
            is_point(key@),
    {
        PublicKey { bytes: public_point(&self.bytes) }
    }

    /// The secret shared with the holder of the private half of `peer`.
    pub fn diffie_hellman(&self, peer: &PublicKey) -> (shared: SharedSecret)
        requires
            is_scalar(self@),
        ensures
            shared@ == p256_ecdh(self@, peer@),
    {
        proof {
            use_type_invariant(peer);
        }
        shared_secret(&self.bytes, &peer.bytes)
    }

    /// Whether the key has been erased.
    pub fn is_erased(&self) -> (erased: bool)
        ensures
            erased == !is_scalar(self@),
    {
        proof {
            use_type_invariant(self);
            zeros_spell_zero(32);
        }
        let mut i: usize = 0;
        while i < 32
            invariant
                i <= 32,
                is_scalar(self@) || self@ == zeros(32),
                forall|j: int| 0 <= j < i ==> self@[j] == 0,
            decreases 32 - i,
        {
            if self.bytes[i] != 0 {
                return false;
            }
            i += 1;
        }
        assert(self@ =~= zeros(32));
        true
    }

    /// Overwrites the key with zeros.
    pub fn erase(&mut self)
        ensures
            final(self)@ == zeros(32),
            !is_scalar(final(self)@),
    {
        proof {
            zeros_spell_zero(32);
        }
        scrub_array(&mut self.bytes);
    }
}

impl Clone for SecretKey {
    fn clone(&self) -> (key: SecretKey)
        ensures
            key@ == self@,
    {
        proof {
            use_type_invariant(self);
        }
        SecretKey { bytes: self.bytes }
    }
}

/// A run of zeros spells the number zero.
proof fn zeros_spell_zero(n: nat)
    ensures
        big_endian(zeros(n)) == 0,
    decreases n,
{
    if n > 0 {
        zeros_spell_zero((n - 1) as nat);
        assert(zeros(n).drop_last() =~= zeros((n - 1) as nat));
    }
}

impl PublicKey {
    #[verifier::type_invariant]
    closed spec fn valid(self) -> bool {
        is_point(self.bytes@)
    }

    /// The public key that 65 bytes encode, if they encode one.
    pub fn from_sec1_bytes(bytes: &[u8; 65]) -> (r: Option<PublicKey>)
        ensures
            match r {
                Some(key) => is_point(bytes@) && key@ == bytes@,
                None => !is_point(bytes@),
            },
    {
        if accepts_point(bytes) {
            Some(PublicKey { bytes: *bytes })
        } else {
            None
        }
    }

    /// The key's 65 bytes.
    pub fn to_bytes(&self) -> (bytes: [u8; 65])
        ensures
            bytes@ == self@,
            is_point(bytes@),
    {
        proof {
            use_type_invariant(self);
        }
        self.bytes
    }
}

} // verus!
