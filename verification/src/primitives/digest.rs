//! SHA-256 and the key derivation built on it.
use hkdf::Hkdf;
use sha2::{Digest, Sha256};
use vstd::prelude::*;

verus! {

/// The most bytes that one HKDF-SHA256 expansion gives.
pub const HKDF_SHA256_LIMIT: usize = 8160;

/// The error of an HKDF expansion. It carries nothing.
#[verifier::external_type_specification]
#[verifier::external_body]
pub struct ExInvalidLength(hkdf::InvalidLength);

/// The SHA-256 digest of a run of bytes.
pub uninterp spec fn sha256(data: Seq<u8>) -> Seq<u8>;

/// The `len` bytes that HKDF-SHA256 derives from key material and context, without a salt.
pub uninterp spec fn hkdf_sha256(ikm: Seq<u8>, info: Seq<u8>, len: nat) -> Seq<u8>;

/// `sha2::Sha256::digest`: the digest is a function of the bytes.
#[verifier::external_body]
pub(crate) fn sha256_digest(data: &[u8]) -> (digest: [u8; 32])
    ensures
        digest@ == sha256(data@),
{
    Sha256::digest(data).into()
}

/// `hkdf::Hkdf::<sha2::Sha256>::new` without a salt, and `expand` on the result.
///
/// It succeeds exactly where at most 255 digests' worth of bytes are asked for. What fills the
/// buffer is a function of the key material, the context and the buffer's length. On failure
/// the buffer is as it was.
#[verifier::external_body]
pub(crate) fn hkdf_sha256_expand(ikm: &[u8], info: &[u8], okm: &mut [u8]) -> (r: Result<
    (),
    hkdf::InvalidLength,
>)
    ensures
        r is Ok <==> old(okm)@.len() <= HKDF_SHA256_LIMIT,
        final(okm)@.len() == old(okm)@.len(),
        final(okm)@ == if r is Ok {
            hkdf_sha256(ikm@, info@, old(okm)@.len())
        } else {
            old(okm)@
        },
{
    Hkdf::<Sha256>::new(None, ikm).expand(info, okm)
}

} // verus!
