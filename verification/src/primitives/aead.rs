//! AES-GCM with 128, 192 and 256-bit keys, sealing and opening in place.
use aes_gcm::aead::{Nonce, Tag};
use aes_gcm::{AeadInPlace, Aes128Gcm, Aes256Gcm, Key, KeyInit};
use vstd::prelude::*;

verus! {

/// The most bytes of plaintext, and of associated data, that one AES-GCM call takes.
pub const AES_GCM_LIMIT: u64 = 0x10_0000_0000;

/// AES-GCM with a 192-bit key.
type Aes192Gcm = aes_gcm::AesGcm<aes_gcm::aes::Aes192, aes_gcm::aead::consts::U12>;

/// Whether plaintext and associated data are short enough for AES-GCM.
pub open spec fn sealable(plaintext: Seq<u8>, aad: Seq<u8>) -> bool {
    plaintext.len() <= AES_GCM_LIMIT && aad.len() <= AES_GCM_LIMIT
}

/// Whether ciphertext and associated data are short enough for AES-GCM.
pub open spec fn openable(ciphertext: Seq<u8>, aad: Seq<u8>) -> bool {
    ciphertext.len() <= AES_GCM_LIMIT + 16 && aad.len() <= AES_GCM_LIMIT
}

/// Ciphertext and tag that AES-128-GCM makes of a plaintext.
pub uninterp spec fn aes128_gcm_seal(
    key: Seq<u8>,
    nonce: Seq<u8>,
    aad: Seq<u8>,
    plaintext: Seq<u8>,
) -> (Seq<u8>, Seq<u8>);

/// The plaintext that AES-128-GCM finds in a ciphertext, where the tag authenticates.
pub uninterp spec fn aes128_gcm_open(
    key: Seq<u8>,
    nonce: Seq<u8>,
    aad: Seq<u8>,
    ciphertext: Seq<u8>,
    tag: Seq<u8>,
) -> Option<Seq<u8>>;

/// Ciphertext and tag that AES-192-GCM makes of a plaintext.
pub uninterp spec fn aes192_gcm_seal(
    key: Seq<u8>,
    nonce: Seq<u8>,
    aad: Seq<u8>,
    plaintext: Seq<u8>,
) -> (Seq<u8>, Seq<u8>);

/// The plaintext that AES-192-GCM finds in a ciphertext, where the tag authenticates.
pub uninterp spec fn aes192_gcm_open(
    key: Seq<u8>,
    nonce: Seq<u8>,
    aad: Seq<u8>,
    ciphertext: Seq<u8>,
    tag: Seq<u8>,
) -> Option<Seq<u8>>;

/// Ciphertext and tag that AES-256-GCM makes of a plaintext.
pub uninterp spec fn aes256_gcm_seal(
    key: Seq<u8>,
    nonce: Seq<u8>,
    aad: Seq<u8>,
    plaintext: Seq<u8>,
) -> (Seq<u8>, Seq<u8>);

/// The plaintext that AES-256-GCM finds in a ciphertext, where the tag authenticates.
pub uninterp spec fn aes256_gcm_open(
    key: Seq<u8>,
    nonce: Seq<u8>,
    aad: Seq<u8>,
    ciphertext: Seq<u8>,
    tag: Seq<u8>,
) -> Option<Seq<u8>>;

/// `aes_gcm::Aes128Gcm::encrypt_in_place_detached`.
///
/// It succeeds exactly where plaintext and associated data are within AES-GCM's limits. The
/// buffer then holds ciphertext of the same length, a 16-byte tag is returned, and both are a
/// function of the arguments; opening them under the same key, nonce and associated data gives
/// the plaintext back. On failure the buffer is as it was.
#[verifier::external_body]
pub(crate) fn seal_aes128(key: &[u8], nonce: &[u8], aad: &[u8], buf: &mut [u8]) -> (r: Result<
    [u8; 16],
    (),
>)
    requires
        key@.len() == 16,
        nonce@.len() == 12,
    ensures
        r is Ok <==> sealable(old(buf)@, aad@),
        match r {
            Ok(tag) => {
                &&& (final(buf)@, tag@) == aes128_gcm_seal(key@, nonce@, aad@, old(buf)@)
                &&& final(buf)@.len() == old(buf)@.len()
                &&& aes128_gcm_open(key@, nonce@, aad@, final(buf)@, tag@) == Some(old(buf)@)
            },
            Err(_) => final(buf)@ == old(buf)@,
        },
{
    Aes128Gcm::new(Key::<Aes128Gcm>::from_slice(key)).encrypt_in_place_detached(
        Nonce::<Aes128Gcm>::from_slice(nonce),
        aad,
        buf,
    ).map(|tag| tag.into()).map_err(|_| ())
}

/// `aes_gcm::Aes128Gcm::decrypt_in_place_detached`.
///
/// Whether it succeeds, and the plaintext that the buffer then holds, are a function of the
/// arguments; the plaintext is as long as the ciphertext. It fails beyond AES-GCM's limits. On
/// failure the buffer is as it was.
#[verifier::external_body]
pub(crate) fn open_aes128(
    key: &[u8],
    nonce: &[u8],
    aad: &[u8],
    buf: &mut [u8],
    tag: &[u8],
) -> (r: Result<(), ()>)
    requires
        key@.len() == 16,
        nonce@.len() == 12,
        tag@.len() == 16,
    ensures
        final(buf)@.len() == old(buf)@.len(),
        r is Ok ==> openable(old(buf)@, aad@),
        match r {
            Ok(_) => aes128_gcm_open(key@, nonce@, aad@, old(buf)@, tag@) == Some(final(buf)@),
            Err(_) => {
                &&& aes128_gcm_open(key@, nonce@, aad@, old(buf)@, tag@) is None
                &&& final(buf)@ == old(buf)@
            },
        },
{
    Aes128Gcm::new(Key::<Aes128Gcm>::from_slice(key)).decrypt_in_place_detached(
        Nonce::<Aes128Gcm>::from_slice(nonce),
        aad,
        buf,
        Tag::<Aes128Gcm>::from_slice(tag),
    ).map_err(|_| ())
}

/// `aes_gcm::AesGcm::encrypt_in_place_detached` with the block cipher `aes_gcm::aes::Aes192`.
///
/// It succeeds exactly where plaintext and associated data are within AES-GCM's limits. The
/// buffer then holds ciphertext of the same length, a 16-byte tag is returned, and both are a
/// function of the arguments; opening them under the same key, nonce and associated data gives
/// the plaintext back. On failure the buffer is as it was.
#[verifier::external_body]
pub(crate) fn seal_aes192(key: &[u8], nonce: &[u8], aad: &[u8], buf: &mut [u8]) -> (r: Result<
    [u8; 16],
    (),
>)
    requires
        key@.len() == 24,
        nonce@.len() == 12,
    ensures
        r is Ok <==> sealable(old(buf)@, aad@),
        match r {
            Ok(tag) => {
                &&& (final(buf)@, tag@) == aes192_gcm_seal(key@, nonce@, aad@, old(buf)@)
                &&& final(buf)@.len() == old(buf)@.len()
                &&& aes192_gcm_open(key@, nonce@, aad@, final(buf)@, tag@) == Some(old(buf)@)
            },
            Err(_) => final(buf)@ == old(buf)@,
        },
{
    Aes192Gcm::new(Key::<Aes192Gcm>::from_slice(key)).encrypt_in_place_detached(
        Nonce::<Aes192Gcm>::from_slice(nonce),
        aad,
        buf,
    ).map(|tag| tag.into()).map_err(|_| ())
}

/// `aes_gcm::AesGcm::decrypt_in_place_detached` with the block cipher `aes_gcm::aes::Aes192`.
///
/// Whether it succeeds, and the plaintext that the buffer then holds, are a function of the
/// arguments; the plaintext is as long as the ciphertext. It fails beyond AES-GCM's limits. On
/// failure the buffer is as it was.
#[verifier::external_body]
pub(crate) fn open_aes192(
    key: &[u8],
    nonce: &[u8],
    aad: &[u8],
    buf: &mut [u8],
    tag: &[u8],
) -> (r: Result<(), ()>)
    requires
        key@.len() == 24,
        nonce@.len() == 12,
        tag@.len() == 16,
    ensures
        final(buf)@.len() == old(buf)@.len(),
        r is Ok ==> openable(old(buf)@, aad@),
        match r {
            Ok(_) => aes192_gcm_open(key@, nonce@, aad@, old(buf)@, tag@) == Some(final(buf)@),
            Err(_) => {
                &&& aes192_gcm_open(key@, nonce@, aad@, old(buf)@, tag@) is None
                &&& final(buf)@ == old(buf)@
            },
        },
{
    Aes192Gcm::new(Key::<Aes192Gcm>::from_slice(key)).decrypt_in_place_detached(
        Nonce::<Aes192Gcm>::from_slice(nonce),
        aad,
        buf,
        Tag::<Aes192Gcm>::from_slice(tag),
    ).map_err(|_| ())
}

/// `aes_gcm::Aes256Gcm::encrypt_in_place_detached`.
///
/// It succeeds exactly where plaintext and associated data are within AES-GCM's limits. The
/// buffer then holds ciphertext of the same length, a 16-byte tag is returned, and both are a
/// function of the arguments; opening them under the same key, nonce and associated data gives
/// the plaintext back. On failure the buffer is as it was.
#[verifier::external_body]
pub(crate) fn seal_aes256(key: &[u8], nonce: &[u8], aad: &[u8], buf: &mut [u8]) -> (r: Result<
    [u8; 16],
    (),
>)
    requires
        key@.len() == 32,
        nonce@.len() == 12,
    ensures
        r is Ok <==> sealable(old(buf)@, aad@),
        match r {
            Ok(tag) => {
                &&& (final(buf)@, tag@) == aes256_gcm_seal(key@, nonce@, aad@, old(buf)@)
                &&& final(buf)@.len() == old(buf)@.len()
                &&& aes256_gcm_open(key@, nonce@, aad@, final(buf)@, tag@) == Some(old(buf)@)
            },
            Err(_) => final(buf)@ == old(buf)@,
        },
{
    Aes256Gcm::new(Key::<Aes256Gcm>::from_slice(key)).encrypt_in_place_detached(
        Nonce::<Aes256Gcm>::from_slice(nonce),
        aad,
        buf,
    ).map(|tag| tag.into()).map_err(|_| ())
}

/// `aes_gcm::Aes256Gcm::decrypt_in_place_detached`.
///
/// Whether it succeeds, and the plaintext that the buffer then holds, are a function of the
/// arguments; the plaintext is as long as the ciphertext. It fails beyond AES-GCM's limits. On
/// failure the buffer is as it was.
#[verifier::external_body]
pub(crate) fn open_aes256(
    key: &[u8],
    nonce: &[u8],
    aad: &[u8],
    buf: &mut [u8],
    tag: &[u8],
) -> (r: Result<(), ()>)
    requires
        key@.len() == 32,
        nonce@.len() == 12,
        tag@.len() == 16,
    ensures
        final(buf)@.len() == old(buf)@.len(),
        r is Ok ==> openable(old(buf)@, aad@),
        match r {
            Ok(_) => aes256_gcm_open(key@, nonce@, aad@, old(buf)@, tag@) == Some(final(buf)@),
            Err(_) => {
                &&& aes256_gcm_open(key@, nonce@, aad@, old(buf)@, tag@) is None
                &&& final(buf)@ == old(buf)@
            },
        },
{
    Aes256Gcm::new(Key::<Aes256Gcm>::from_slice(key)).decrypt_in_place_detached(
        Nonce::<Aes256Gcm>::from_slice(nonce),
        aad,
        buf,
        Tag::<Aes256Gcm>::from_slice(tag),
    ).map_err(|_| ())
}

} // verus!
